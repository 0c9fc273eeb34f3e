//! The Datadog header format: which headers carry a span context, how a span
//! context is read from their values, and which values are written for one.

use vstd::prelude::*;

use opentelemetry::trace::TraceState;

use crate::decimal::decimal_chars;
use crate::decimal::i32_to_decimal;
use crate::decimal::law_i32_decimal_round_trip;
use crate::decimal::law_u64_decimal_round_trip;
use crate::decimal::parse_i32;
use crate::decimal::parse_i32_spec;
use crate::decimal::parse_u64;
use crate::decimal::parse_u64_spec;
use crate::decimal::signed_decimal_chars;
use crate::decimal::u64_to_decimal;
use crate::trace_state::built_entries;
use crate::trace_state::entry_lookup;
use crate::trace_state::flag_chars;
use crate::trace_state::flag_enabled;
use crate::trace_state::law_build_reads_back;
use crate::trace_state::measure_key;
use crate::trace_state::priority_sampling_key;
use crate::trace_state::trace_state_default;
use crate::trace_state::trace_state_entries;
use crate::trace_state::trace_state_is_none;
use crate::trace_state::DatadogTraceState;
use crate::trace_state::DatadogTraceStateBuilder;

verus! {

/// The header that carries the trace id, in decimal.
pub const DATADOG_TRACE_ID_HEADER: &'static str = "x-datadog-trace-id";

/// The header that carries the parent span id, in decimal.
pub const DATADOG_PARENT_ID_HEADER: &'static str = "x-datadog-parent-id";

/// The header that carries the sampling priority, in decimal.
pub const DATADOG_SAMPLING_PRIORITY_HEADER: &'static str = "x-datadog-sampling-priority";

/// Trace flags with no bit set.
pub const TRACE_FLAG_NOT_SAMPLED: u8 = 0x00;

/// The trace-flags bit that marks a sampled trace.
pub const TRACE_FLAG_SAMPLED: u8 = 0x01;

/// The trace-flags bit that marks a sampling decision left to later.
pub const TRACE_FLAG_DEFERRED: u8 = 0x02;

/// Whether the deferred bit is set.
pub open spec fn is_deferred(trace_flags: u8) -> bool {
    trace_flags & TRACE_FLAG_DEFERRED == TRACE_FLAG_DEFERRED
}

/// Whether the sampled bit is set.
pub open spec fn is_sampled(trace_flags: u8) -> bool {
    trace_flags & TRACE_FLAG_SAMPLED == TRACE_FLAG_SAMPLED
}

/// The sampling priorities of the Datadog format.
#[derive(Debug, Clone, Copy, PartialEq, Eq)]
pub enum SamplingPriority {
    /// The user asked to drop the trace (-1).
    UserReject,
    /// The sampler dropped the trace (0).
    AutoReject,
    /// The sampler kept the trace (1).
    AutoKeep,
    /// The user asked to keep the trace (2).
    UserKeep,
}

/// The number that stands for a sampling priority.
pub open spec fn priority_value(priority: SamplingPriority) -> int {
    match priority {
        SamplingPriority::UserReject => -1,
        SamplingPriority::AutoReject => 0,
        SamplingPriority::AutoKeep => 1,
        SamplingPriority::UserKeep => 2,
    }
}

/// The sampling priority that a number stands for, if any.
pub open spec fn priority_of_value(value: int) -> Option<SamplingPriority> {
    if value == -1 {
        Some(SamplingPriority::UserReject)
    } else if value == 0 {
        Some(SamplingPriority::AutoReject)
    } else if value == 1 {
        Some(SamplingPriority::AutoKeep)
    } else if value == 2 {
        Some(SamplingPriority::UserKeep)
    } else {
        None
    }
}

impl SamplingPriority {
    /// The number that stands for this priority.
    pub fn to_i32(&self) -> (r: i32)
        ensures
            r == priority_value(*self),
    {
        match self {
            SamplingPriority::UserReject => -1,
            SamplingPriority::AutoReject => 0,
            SamplingPriority::AutoKeep => 1,
            SamplingPriority::UserKeep => 2,
        }
    }
}

/// Which header value could not be read.
#[derive(Debug, Clone, Copy, PartialEq, Eq)]
pub enum ExtractError {
    TraceId,
    SpanId,
    SamplingPriority,
}

/// A span context as the header format sees it.
#[derive(Debug, Clone, PartialEq)]
pub struct SpanContextData {
    pub trace_id: u128,
    pub span_id: u64,
    pub trace_flags: u8,
    pub is_remote: bool,
    pub trace_state: TraceState,
}

/// Whether a span context has a trace id and a span id (both nonzero).
pub open spec fn is_valid_span_context(sc: SpanContextData) -> bool {
    sc.trace_id != 0 && sc.span_id != 0
}

/// The characters of a header value, an absent header read as empty.
pub open spec fn header_chars(header: Option<&str>) -> Seq<char> {
    match header {
        Some(value) => value@,
        None => Seq::<char>::empty(),
    }
}

/// The sampling priority that a header value writes, if any.
pub open spec fn sampling_priority_from_chars(value: Seq<char>) -> Option<SamplingPriority> {
    match parse_i32_spec(value) {
        Some(v) => priority_of_value(v as int),
        None => None,
    }
}

/// The trace flags that a sampling priority stands for: rejected ones are not
/// sampled, kept ones are sampled, and a missing or unreadable one defers.
pub open spec fn flags_of_priority(priority: Option<SamplingPriority>) -> u8 {
    match priority {
        Some(SamplingPriority::UserReject) => TRACE_FLAG_NOT_SAMPLED,
        Some(SamplingPriority::AutoReject) => TRACE_FLAG_NOT_SAMPLED,
        Some(SamplingPriority::AutoKeep) => TRACE_FLAG_SAMPLED,
        Some(SamplingPriority::UserKeep) => TRACE_FLAG_SAMPLED,
        None => TRACE_FLAG_DEFERRED,
    }
}

/// Whether a context read with the given flags keeps its sampling decision in its
/// trace state: with agent sampling, unless the decision is deferred.
pub open spec fn decision_in_trace_state(trace_flags: u8, agent_sampling: bool) -> bool {
    agent_sampling && !is_deferred(trace_flags)
}

/// The trace flags that a context read with the given flags ends with: when the
/// decision moves into the trace state the context is marked sampled; else the
/// flags stay as they are.
pub open spec fn flags_after_read(trace_flags: u8, agent_sampling: bool) -> u8 {
    if decision_in_trace_state(trace_flags, agent_sampling) {
        TRACE_FLAG_SAMPLED
    } else {
        trace_flags
    }
}

/// The trace-state list that a context read with the given flags ends with: the
/// Datadog flags, priority sampling set to the sampled bit, when the decision
/// moves into the trace state; else no list at all.
pub open spec fn entries_after_read(trace_flags: u8, agent_sampling: bool) -> Seq<(Seq<char>, Seq<char>)> {
    if decision_in_trace_state(trace_flags, agent_sampling) {
        built_entries(false, is_sampled(trace_flags), true)
    } else {
        Seq::empty()
    }
}

/// The sampling priority written for a span context: kept when, with agent
/// sampling, its trace state says priority sampling, or, without, its sampled
/// bit is set; else rejected.
pub open spec fn priority_for(sc: SpanContextData, agent_sampling: bool) -> SamplingPriority {
    let keep = if agent_sampling {
        flag_enabled(entry_lookup(trace_state_entries(sc.trace_state), priority_sampling_key()))
    } else {
        is_sampled(sc.trace_flags)
    };
    if keep {
        SamplingPriority::AutoKeep
    } else {
        SamplingPriority::AutoReject
    }
}

/// The headers, in order, that are written for a span context: none for an
/// invalid one; else the trace id's low 64 bits and the span id in decimal, and,
/// unless the sampling decision is deferred, the sampling priority.
pub open spec fn injected_headers(sc: SpanContextData, agent_sampling: bool) -> Seq<(Seq<char>, Seq<char>)> {
    if !is_valid_span_context(sc) {
        Seq::empty()
    } else {
        let ids = seq![
            (DATADOG_TRACE_ID_HEADER@, decimal_chars((sc.trace_id % 0x1_0000_0000_0000_0000) as nat)),
            (DATADOG_PARENT_ID_HEADER@, decimal_chars(sc.span_id as nat)),
        ];
        if is_deferred(sc.trace_flags) {
            ids
        } else {
            ids.push(
                (
                    DATADOG_SAMPLING_PRIORITY_HEADER@,
                    signed_decimal_chars(priority_value(priority_for(sc, agent_sampling))),
                ),
            )
        }
    }
}

/// A list of owned string pairs, taken by their characters.
pub open spec fn string_pairs_view(pairs: Seq<(String, String)>) -> Seq<(Seq<char>, Seq<char>)> {
    pairs.map_values(|p: (String, String)| (p.0@, p.1@))
}

/// The names of the headers that carry a span context.
pub fn trace_context_header_fields() -> (r: Vec<String>)
    ensures
        r@.map_values(|s: String| s@) == seq![
            DATADOG_TRACE_ID_HEADER@,
            DATADOG_PARENT_ID_HEADER@,
            DATADOG_SAMPLING_PRIORITY_HEADER@,
        ],
{
    let r = vec![
        DATADOG_TRACE_ID_HEADER.to_owned(),
        DATADOG_PARENT_ID_HEADER.to_owned(),
        DATADOG_SAMPLING_PRIORITY_HEADER.to_owned(),
    ];
    assert(r@.map_values(|s: String| s@) =~= seq![
        DATADOG_TRACE_ID_HEADER@,
        DATADOG_PARENT_ID_HEADER@,
        DATADOG_SAMPLING_PRIORITY_HEADER@,
    ]);
    r
}

/// The trace state and trace flags of a context read with the given flags. With
/// agent sampling and a decision that is not deferred, the context is marked
/// sampled and its sampled bit is kept as the priority-sampling flag; otherwise
/// the flags stay and the trace state has no list.
pub fn create_trace_state_and_flags(trace_flags: u8, agent_sampling: bool) -> (r: (TraceState, u8))
    ensures
        trace_state_entries(r.0) == entries_after_read(trace_flags, agent_sampling),
        trace_state_is_none(r.0) == !decision_in_trace_state(trace_flags, agent_sampling),
        r.1 == flags_after_read(trace_flags, agent_sampling),
{
    if !agent_sampling || trace_flags & TRACE_FLAG_DEFERRED == TRACE_FLAG_DEFERRED {
        (trace_state_default(), trace_flags)
    } else {
        let sampled = trace_flags & TRACE_FLAG_SAMPLED == TRACE_FLAG_SAMPLED;
        let builder = DatadogTraceStateBuilder::default().with_agent_sampling(true).with_priority_sampling(sampled);
        (builder.build(), TRACE_FLAG_SAMPLED)
    }
}

/// The sampling priority written for a span context: kept when, with agent
/// sampling, its trace state says priority sampling, or, without, it is sampled;
/// else rejected.
pub fn get_sampling_priority(span_context: &SpanContextData, agent_sampling: bool) -> (r: SamplingPriority)
    ensures
        r == priority_for(*span_context, agent_sampling),
        r == SamplingPriority::AutoKeep || r == SamplingPriority::AutoReject,
        (r == SamplingPriority::AutoKeep) == (if agent_sampling {
            entry_lookup(trace_state_entries(span_context.trace_state), seq!['p', 's', 'r']) == Some(seq!['1'])
        } else {
            span_context.trace_flags & 1u8 == 1u8
        }),
{
    proof {
        law_sampling_priority_keep_or_reject(*span_context, agent_sampling);
    }
    let keep = if agent_sampling {
        span_context.trace_state.priority_sampling_enabled()
    } else {
        span_context.trace_flags & TRACE_FLAG_SAMPLED == TRACE_FLAG_SAMPLED
    };
    if keep {
        SamplingPriority::AutoKeep
    } else {
        SamplingPriority::AutoReject
    }
}

/// A header value, an absent header read as empty.
fn header_or_empty<'a>(header: Option<&'a str>) -> (r: &'a str)
    ensures
        r@ == header_chars(header),
{
    match header {
        Some(value) => value,
        None => {
            proof {
                reveal_strlit("");
            }
            ""
        },
    }
}

/// Reads and writes span contexts in the Datadog header format. With agent
/// sampling, a read sampling decision is kept in the trace state as the
/// priority-sampling flag and the context is marked sampled, and the priority
/// written follows that flag; without, the decision stays in the trace flags.
#[derive(Debug, Clone, Copy)]
pub struct DatadogPropagator {
    agent_sampling: bool,
}

impl Default for DatadogPropagator {
    /// Without agent sampling.
    fn default() -> (r: Self)
        ensures
            !r.agent_sampling_enabled(),
    {
        DatadogPropagator { agent_sampling: false }
    }
}

impl DatadogPropagator {
    /// Whether the propagator keeps sampling decisions in the trace state.
    pub closed spec fn agent_sampling_enabled(&self) -> bool {
        self.agent_sampling
    }

    /// Creates a new `DatadogPropagator`, without agent sampling.
    pub fn new() -> (r: Self)
        ensures
            !r.agent_sampling_enabled(),
    {
        DatadogPropagator::default()
    }

    /// The same propagator, with agent sampling on or off.
    pub fn with_agent_sampling(self, enabled: bool) -> (r: Self)
        ensures
            r.agent_sampling_enabled() == enabled,
    {
        DatadogPropagator { agent_sampling: enabled }
    }

    /// Reads a trace id: a `u64` in decimal.
    pub fn extract_trace_id(&self, trace_id: &str) -> (r: Result<u128, ExtractError>)
        ensures
            match r {
                Ok(id) => parse_u64_spec(trace_id@) matches Some(v) && id == v as u128,
                Err(e) => parse_u64_spec(trace_id@) is None && e == ExtractError::TraceId,
            },
    {
        match parse_u64(trace_id) {
            Some(id) => Ok(id as u128),
            None => Err(ExtractError::TraceId),
        }
    }

    /// Reads a span id: a `u64` in decimal.
    pub fn extract_span_id(&self, span_id: &str) -> (r: Result<u64, ExtractError>)
        ensures
            match r {
                Ok(id) => parse_u64_spec(span_id@) == Some(id),
                Err(e) => parse_u64_spec(span_id@) is None && e == ExtractError::SpanId,
            },
    {
        match parse_u64(span_id) {
            Some(id) => Ok(id),
            None => Err(ExtractError::SpanId),
        }
    }

    /// Reads a sampling priority: -1, 0, 1 or 2 as an `i32` in decimal.
    pub fn extract_sampling_priority(&self, sampling_priority: &str) -> (r: Result<SamplingPriority, ExtractError>)
        ensures
            match r {
                Ok(p) => sampling_priority_from_chars(sampling_priority@) == Some(p),
                Err(e) => sampling_priority_from_chars(sampling_priority@) is None
                    && e == ExtractError::SamplingPriority,
            },
    {
        let i = match parse_i32(sampling_priority) {
            Some(i) => i,
            None => {
                return Err(ExtractError::SamplingPriority);
            },
        };
        if i == -1 {
            Ok(SamplingPriority::UserReject)
        } else if i == 0 {
            Ok(SamplingPriority::AutoReject)
        } else if i == 1 {
            Ok(SamplingPriority::AutoKeep)
        } else if i == 2 {
            Ok(SamplingPriority::UserKeep)
        } else {
            Err(ExtractError::SamplingPriority)
        }
    }

    /// The remote span context of a read trace id and the values of the parent-id
    /// and sampling-priority headers (an absent header reads as empty): an
    /// unreadable parent id gives span id 0, and an unreadable sampling priority
    /// defers the sampling decision.
    pub fn span_context_for_trace_id(
        &self,
        trace_id: u128,
        parent_id: Option<&str>,
        sampling_priority: Option<&str>,
    ) -> (sc: SpanContextData)
        ensures
            ({
                let flags = flags_of_priority(sampling_priority_from_chars(header_chars(sampling_priority)));
                &&& sc.trace_id == trace_id
                &&& sc.span_id == match parse_u64_spec(header_chars(parent_id)) {
                    Some(id) => id,
                    None => 0u64,
                }
                &&& sc.trace_flags == flags_after_read(flags, self.agent_sampling_enabled())
                &&& sc.is_remote
                &&& trace_state_entries(sc.trace_state) == entries_after_read(flags, self.agent_sampling_enabled())
                &&& trace_state_is_none(sc.trace_state) == !decision_in_trace_state(
                    flags,
                    self.agent_sampling_enabled(),
                )
            }),
    {
        // An unreadable parent id gives an invalid span id rather than losing the
        // whole trace.
        let span_id = match self.extract_span_id(header_or_empty(parent_id)) {
            Ok(id) => id,
            Err(_) => 0,
        };
        let sampling_priority = self.extract_sampling_priority(header_or_empty(sampling_priority));
        let sampled = match sampling_priority {
            Ok(SamplingPriority::UserReject) | Ok(SamplingPriority::AutoReject) => TRACE_FLAG_NOT_SAMPLED,
            Ok(SamplingPriority::UserKeep) | Ok(SamplingPriority::AutoKeep) => TRACE_FLAG_SAMPLED,
            // An unreadable sampling priority defers the decision.
            Err(_) => TRACE_FLAG_DEFERRED,
        };
        let (trace_state, trace_flags) = create_trace_state_and_flags(sampled, self.agent_sampling);
        SpanContextData { trace_id, span_id, trace_flags, is_remote: true, trace_state }
    }

    /// Reads a remote span context from the values of the three Datadog headers
    /// (an absent header reads as empty). It fails exactly when the trace id
    /// cannot be read; an unreadable parent id gives span id 0, and an unreadable
    /// sampling priority defers the sampling decision.
    pub fn extract_span_context(
        &self,
        trace_id: Option<&str>,
        parent_id: Option<&str>,
        sampling_priority: Option<&str>,
    ) -> (r: Result<SpanContextData, ExtractError>)
        ensures
            match r {
                Err(e) => parse_u64_spec(header_chars(trace_id)) is None && e == ExtractError::TraceId,
                Ok(sc) => {
                    let flags = flags_of_priority(sampling_priority_from_chars(header_chars(sampling_priority)));
                    &&& parse_u64_spec(header_chars(trace_id)) matches Some(id) && sc.trace_id == id as u128
                    &&& sc.span_id == match parse_u64_spec(header_chars(parent_id)) {
                        Some(id) => id,
                        None => 0u64,
                    }
                    &&& sc.trace_flags == flags_after_read(flags, self.agent_sampling_enabled())
                    &&& sc.is_remote
                    &&& trace_state_entries(sc.trace_state) == entries_after_read(
                        flags,
                        self.agent_sampling_enabled(),
                    )
                    &&& trace_state_is_none(sc.trace_state) == !decision_in_trace_state(
                        flags,
                        self.agent_sampling_enabled(),
                    )
                    &&& ({
                        let v = parse_i32_spec(header_chars(sampling_priority));
                        let m0 = (seq!['m'], seq!['0']);
                        &&& (v == Some(-1i32) || v == Some(0i32)) ==> {
                            &&& sc.trace_flags == (if self.agent_sampling_enabled() { 1u8 } else { 0u8 })
                            &&& trace_state_entries(sc.trace_state) == (if self.agent_sampling_enabled() { seq![m0, (seq!['p', 's', 'r'], seq!['0'])] } else { Seq::empty() })
                        }
                        &&& (v == Some(1i32) || v == Some(2i32)) ==> {
                            &&& sc.trace_flags == 1u8
                            &&& trace_state_entries(sc.trace_state) == (if self.agent_sampling_enabled() { seq![m0, (seq!['p', 's', 'r'], seq!['1'])] } else { Seq::empty() })
                        }
                        &&& !(v == Some(-1i32) || v == Some(0i32) || v == Some(1i32) || v == Some(2i32)) ==> {
                            &&& sc.trace_flags == 2u8
                            &&& trace_state_entries(sc.trace_state) == Seq::<(Seq<char>, Seq<char>)>::empty()
                        }
                    })
                },
            },
    {
        proof {
            law_read_sampling_decision(header_chars(sampling_priority), self.agent_sampling);
        }
        match self.extract_trace_id(header_or_empty(trace_id)) {
            Ok(id) => Ok(self.span_context_for_trace_id(id, parent_id, sampling_priority)),
            Err(e) => Err(e),
        }
    }

    /// The headers, in order, to write for a span context.
    pub fn inject_context(&self, span_context: &SpanContextData) -> (headers: Vec<(String, String)>)
        ensures
            string_pairs_view(headers@) == injected_headers(*span_context, self.agent_sampling_enabled()),
            ({
                let written = string_pairs_view(headers@);
                let sc = *span_context;
                let keep = if self.agent_sampling_enabled() {
                    entry_lookup(trace_state_entries(sc.trace_state), seq!['p', 's', 'r']) == Some(seq!['1'])
                } else {
                    sc.trace_flags & 1u8 == 1u8
                };
                &&& !(sc.trace_id != 0 && sc.span_id != 0) ==> written.len() == 0
                &&& sc.trace_id != 0 && sc.span_id != 0 ==> {
                    &&& written.len() == (if sc.trace_flags & 2u8 == 2u8 { 2int } else { 3int })
                    &&& written[0] == (DATADOG_TRACE_ID_HEADER@, decimal_chars((sc.trace_id % 0x1_0000_0000_0000_0000) as nat))
                    &&& written[1] == (DATADOG_PARENT_ID_HEADER@, decimal_chars(sc.span_id as nat))
                    &&& sc.trace_flags & 2u8 != 2u8 ==> written[2] == (
                        DATADOG_SAMPLING_PRIORITY_HEADER@,
                        if keep { seq!['1'] } else { seq!['0'] },
                    )
                }
                &&& forall|i: int, j: int| 0 <= i < j < written.len() ==> written[i].0 != written[j].0
            }),
    {
        proof {
            law_injected_headers(*span_context, self.agent_sampling);
        }
        let mut headers: Vec<(String, String)> = Vec::new();
        if span_context.trace_id != 0 && span_context.span_id != 0 {
            let low_trace_id = (span_context.trace_id % 0x1_0000_0000_0000_0000) as u64;
            headers.push((DATADOG_TRACE_ID_HEADER.to_owned(), u64_to_decimal(low_trace_id)));
            headers.push((DATADOG_PARENT_ID_HEADER.to_owned(), u64_to_decimal(span_context.span_id)));
            if span_context.trace_flags & TRACE_FLAG_DEFERRED != TRACE_FLAG_DEFERRED {
                let sampling_priority = get_sampling_priority(span_context, self.agent_sampling);
                headers.push(
                    (DATADOG_SAMPLING_PRIORITY_HEADER.to_owned(), i32_to_decimal(sampling_priority.to_i32())),
                );
            }
        }
        assert(string_pairs_view(headers@) =~= injected_headers(*span_context, self.agent_sampling));
        headers
    }
}

/// The value of the first header with the given name, empty when there is none.
pub open spec fn header_value(headers: Seq<(Seq<char>, Seq<char>)>, name: Seq<char>) -> Seq<char> {
    match entry_lookup(headers, name) {
        Some(value) => value,
        None => Seq::empty(),
    }
}

proof fn lemma_header_names_distinct()
    ensures
        DATADOG_TRACE_ID_HEADER@ != DATADOG_PARENT_ID_HEADER@,
        DATADOG_TRACE_ID_HEADER@ != DATADOG_SAMPLING_PRIORITY_HEADER@,
        DATADOG_PARENT_ID_HEADER@ != DATADOG_SAMPLING_PRIORITY_HEADER@,
{
    reveal_strlit("x-datadog-trace-id");
    reveal_strlit("x-datadog-parent-id");
    reveal_strlit("x-datadog-sampling-priority");
    assert(DATADOG_TRACE_ID_HEADER@.len() == 18);
    assert(DATADOG_PARENT_ID_HEADER@.len() == 19);
    assert(DATADOG_SAMPLING_PRIORITY_HEADER@.len() == 27);
}

/// The deferred and sampled bits of the three flag values a read gives.
proof fn lemma_flag_bits()
    ensures
        !is_deferred(TRACE_FLAG_NOT_SAMPLED),
        !is_deferred(TRACE_FLAG_SAMPLED),
        is_deferred(TRACE_FLAG_DEFERRED),
        is_sampled(TRACE_FLAG_SAMPLED),
        !is_sampled(TRACE_FLAG_NOT_SAMPLED),
{
    assert(TRACE_FLAG_NOT_SAMPLED & TRACE_FLAG_DEFERRED != TRACE_FLAG_DEFERRED) by (bit_vector);
    assert(TRACE_FLAG_SAMPLED & TRACE_FLAG_DEFERRED != TRACE_FLAG_DEFERRED) by (bit_vector);
    assert(TRACE_FLAG_DEFERRED & TRACE_FLAG_DEFERRED == TRACE_FLAG_DEFERRED) by (bit_vector);
    assert(TRACE_FLAG_SAMPLED & TRACE_FLAG_SAMPLED == TRACE_FLAG_SAMPLED) by (bit_vector);
    assert(TRACE_FLAG_NOT_SAMPLED & TRACE_FLAG_SAMPLED != TRACE_FLAG_SAMPLED) by (bit_vector);
}

/// Reading back the headers written for a valid span context gives its span id,
/// the low 64 bits of its trace id, and whether its sampling decision was
/// deferred; when it was not, its decision (with agent sampling, its
/// priority-sampling flag; without, its sampled bit) is read back too.
pub proof fn law_extract_after_inject(
    sc: SpanContextData,
    agent_sampling: bool,
    trace_id: Option<&str>,
    parent_id: Option<&str>,
    sampling_priority: Option<&str>,
)
    requires
        is_valid_span_context(sc),
        header_chars(trace_id) == header_value(injected_headers(sc, agent_sampling), DATADOG_TRACE_ID_HEADER@),
        header_chars(parent_id) == header_value(injected_headers(sc, agent_sampling), DATADOG_PARENT_ID_HEADER@),
        header_chars(sampling_priority) == header_value(
            injected_headers(sc, agent_sampling),
            DATADOG_SAMPLING_PRIORITY_HEADER@,
        ),
    ensures
        parse_u64_spec(header_chars(trace_id)) == Some((sc.trace_id % 0x1_0000_0000_0000_0000) as u64),
        parse_u64_spec(header_chars(parent_id)) == Some(sc.span_id),
        ({
            let flags = flags_of_priority(sampling_priority_from_chars(header_chars(sampling_priority)));
            &&& is_deferred(flags_after_read(flags, agent_sampling)) == is_deferred(sc.trace_flags)
            &&& !is_deferred(sc.trace_flags) && agent_sampling ==> flag_enabled(
                entry_lookup(entries_after_read(flags, agent_sampling), priority_sampling_key()),
            ) == flag_enabled(entry_lookup(trace_state_entries(sc.trace_state), priority_sampling_key()))
            &&& !is_deferred(sc.trace_flags) && !agent_sampling ==> is_sampled(flags_after_read(flags, agent_sampling))
                == is_sampled(sc.trace_flags)
        }),
{
    lemma_header_names_distinct();
    lemma_flag_bits();
    let headers = injected_headers(sc, agent_sampling);
    let low = (sc.trace_id % 0x1_0000_0000_0000_0000) as u64;
    law_u64_decimal_round_trip(low);
    law_u64_decimal_round_trip(sc.span_id);
    assert(headers.drop_first()[0] == headers[1]);
    assert(entry_lookup(headers.drop_first(), DATADOG_PARENT_ID_HEADER@) == Some(decimal_chars(sc.span_id as nat)));
    if is_deferred(sc.trace_flags) {
        let rest = headers.drop_first().drop_first();
        assert(rest.len() == 0);
        assert(entry_lookup(rest, DATADOG_SAMPLING_PRIORITY_HEADER@) is None);
        assert(entry_lookup(headers.drop_first(), DATADOG_SAMPLING_PRIORITY_HEADER@) is None);
        assert(entry_lookup(headers, DATADOG_SAMPLING_PRIORITY_HEADER@) is None);
        assert(parse_i32_spec(Seq::<char>::empty()) is None);
    } else {
        let priority = priority_for(sc, agent_sampling);
        let value = priority_value(priority) as i32;
        law_i32_decimal_round_trip(value);
        assert(headers.drop_first().drop_first()[0] == headers[2]);
        assert(entry_lookup(headers.drop_first().drop_first(), DATADOG_SAMPLING_PRIORITY_HEADER@)
            == Some(signed_decimal_chars(value as int)));
        assert(entry_lookup(headers.drop_first(), DATADOG_SAMPLING_PRIORITY_HEADER@)
            == Some(signed_decimal_chars(value as int)));
        let flags = flags_of_priority(sampling_priority_from_chars(header_chars(sampling_priority)));
        law_build_reads_back(false, is_sampled(flags), true);
    }
}

/// A span context read from headers writes headers that read back as the same
/// span context: the same ids, trace flags and trace state.
pub proof fn law_extract_inject_extract(
    sc: SpanContextData,
    agent_sampling: bool,
    trace_id: Option<&str>,
    parent_id: Option<&str>,
    sampling_priority: Option<&str>,
    trace_id_again: Option<&str>,
    parent_id_again: Option<&str>,
    sampling_priority_again: Option<&str>,
)
    requires
        // `sc` is what reading the first three header values gives,
        parse_u64_spec(header_chars(trace_id)) matches Some(id) && sc.trace_id == id as u128,
        sc.span_id == match parse_u64_spec(header_chars(parent_id)) {
            Some(id) => id,
            None => 0u64,
        },
        sc.trace_flags == flags_after_read(
            flags_of_priority(sampling_priority_from_chars(header_chars(sampling_priority))),
            agent_sampling,
        ),
        trace_state_entries(sc.trace_state) == entries_after_read(
            flags_of_priority(sampling_priority_from_chars(header_chars(sampling_priority))),
            agent_sampling,
        ),
        // it is valid,
        is_valid_span_context(sc),
        // and the other three are the values written for it.
        header_chars(trace_id_again) == header_value(injected_headers(sc, agent_sampling), DATADOG_TRACE_ID_HEADER@),
        header_chars(parent_id_again) == header_value(
            injected_headers(sc, agent_sampling),
            DATADOG_PARENT_ID_HEADER@,
        ),
        header_chars(sampling_priority_again) == header_value(
            injected_headers(sc, agent_sampling),
            DATADOG_SAMPLING_PRIORITY_HEADER@,
        ),
    ensures
        parse_u64_spec(header_chars(trace_id_again)) matches Some(id) && sc.trace_id == id as u128,
        sc.span_id == match parse_u64_spec(header_chars(parent_id_again)) {
            Some(id) => id,
            None => 0u64,
        },
        sc.trace_flags == flags_after_read(
            flags_of_priority(sampling_priority_from_chars(header_chars(sampling_priority_again))),
            agent_sampling,
        ),
        trace_state_entries(sc.trace_state) == entries_after_read(
            flags_of_priority(sampling_priority_from_chars(header_chars(sampling_priority_again))),
            agent_sampling,
        ),
        decision_in_trace_state(
            flags_of_priority(sampling_priority_from_chars(header_chars(sampling_priority_again))),
            agent_sampling,
        ) == decision_in_trace_state(
            flags_of_priority(sampling_priority_from_chars(header_chars(sampling_priority))),
            agent_sampling,
        ),
{
    law_extract_after_inject(sc, agent_sampling, trace_id_again, parent_id_again, sampling_priority_again);
    lemma_flag_bits();
    let first = flags_of_priority(sampling_priority_from_chars(header_chars(sampling_priority)));
    let again = flags_of_priority(sampling_priority_from_chars(header_chars(sampling_priority_again)));
    if agent_sampling && !is_deferred(first) {
        law_build_reads_back(false, is_sampled(first), true);
        law_build_reads_back(false, is_sampled(again), true);
    }
}

/// The sampling priority chosen for a span context is never a user priority: it
/// is `AutoKeep` when the context is kept (with agent sampling, its trace state's
/// priority-sampling flag reads "1"; without, its sampled bit is set) and
/// `AutoReject` otherwise, and it is written as "1" or "0".
pub proof fn law_sampling_priority_keep_or_reject(sc: SpanContextData, agent_sampling: bool)
    ensures
        ({
            let keep = if agent_sampling {
                entry_lookup(trace_state_entries(sc.trace_state), seq!['p', 's', 'r']) == Some(seq!['1'])
            } else {
                sc.trace_flags & 1u8 == 1u8
            };
            &&& priority_for(sc, agent_sampling) == if keep {
                SamplingPriority::AutoKeep
            } else {
                SamplingPriority::AutoReject
            }
            &&& signed_decimal_chars(priority_value(priority_for(sc, agent_sampling))) == if keep {
                seq!['1']
            } else {
                seq!['0']
            }
        }),
{
    assert(priority_sampling_key() =~= seq!['p', 's', 'r']);
    assert(flag_chars(true) =~= seq!['1']);
    assert(decimal_chars(1) =~= seq!['1']);
    assert(decimal_chars(0) =~= seq!['0']);
}

/// The headers written for a span context: none for an invalid one; else exactly
/// the trace id (its low 64 bits) and the parent id in decimal, followed, unless
/// the decision is deferred, by the sampling priority "1" for a kept context and
/// "0" for another. No header name occurs twice.
pub proof fn law_injected_headers(sc: SpanContextData, agent_sampling: bool)
    ensures
        ({
            let written = injected_headers(sc, agent_sampling);
            let keep = if agent_sampling {
                entry_lookup(trace_state_entries(sc.trace_state), seq!['p', 's', 'r']) == Some(seq!['1'])
            } else {
                sc.trace_flags & 1u8 == 1u8
            };
            &&& !(sc.trace_id != 0 && sc.span_id != 0) ==> written.len() == 0
            &&& sc.trace_id != 0 && sc.span_id != 0 ==> {
                &&& written.len() == (if sc.trace_flags & 2u8 == 2u8 { 2int } else { 3int })
                &&& written[0] == (DATADOG_TRACE_ID_HEADER@, decimal_chars((sc.trace_id % 0x1_0000_0000_0000_0000) as nat))
                &&& written[1] == (DATADOG_PARENT_ID_HEADER@, decimal_chars(sc.span_id as nat))
                &&& sc.trace_flags & 2u8 != 2u8 ==> written[2] == (
                    DATADOG_SAMPLING_PRIORITY_HEADER@,
                    if keep { seq!['1'] } else { seq!['0'] },
                )
            }
            &&& forall|i: int, j: int| 0 <= i < j < written.len() ==> written[i].0 != written[j].0
        }),
{
    lemma_header_names_distinct();
    law_sampling_priority_keep_or_reject(sc, agent_sampling);
    let written = injected_headers(sc, agent_sampling);
    assert forall|i: int, j: int| 0 <= i < j < written.len() implies written[i].0 != written[j].0 by {
        if i == 0 && j == 1 {
        } else if i == 0 && j == 2 {
        } else {
            assert(i == 1 && j == 2);
        }
    }
}

/// How a sampling-priority header value is read: -1 and 0 reject the trace, 1
/// and 2 keep it, and anything else defers the decision. Without agent sampling
/// the decision is the trace flags (0, 1, or the deferred bit 2) and the trace
/// state is empty; with it, a decision that is not deferred marks the context
/// sampled (1) and goes into the trace state as `m=0,psr=0` or `m=0,psr=1`.
pub proof fn law_read_sampling_decision(value: Seq<char>, agent_sampling: bool)
    ensures
        ({
                let v = parse_i32_spec(value);
                let m0 = (seq!['m'], seq!['0']);
                &&& (v == Some(-1i32) || v == Some(0i32)) ==> {
                    &&& flags_after_read(flags_of_priority(sampling_priority_from_chars(value)), agent_sampling) == (if agent_sampling { 1u8 } else { 0u8 })
                    &&& entries_after_read(flags_of_priority(sampling_priority_from_chars(value)), agent_sampling) == (if agent_sampling { seq![m0, (seq!['p', 's', 'r'], seq!['0'])] } else { Seq::empty() })
                }
                &&& (v == Some(1i32) || v == Some(2i32)) ==> {
                    &&& flags_after_read(flags_of_priority(sampling_priority_from_chars(value)), agent_sampling) == 1u8
                    &&& entries_after_read(flags_of_priority(sampling_priority_from_chars(value)), agent_sampling) == (if agent_sampling { seq![m0, (seq!['p', 's', 'r'], seq!['1'])] } else { Seq::empty() })
                }
                &&& !(v == Some(-1i32) || v == Some(0i32) || v == Some(1i32) || v == Some(2i32)) ==> {
                    &&& flags_after_read(flags_of_priority(sampling_priority_from_chars(value)), agent_sampling) == 2u8
                    &&& entries_after_read(flags_of_priority(sampling_priority_from_chars(value)), agent_sampling) == Seq::<(Seq<char>, Seq<char>)>::empty()
                }
            }),
{
    lemma_flag_bits();
    let flags = flags_of_priority(sampling_priority_from_chars(value));
    assert(measure_key() =~= seq!['m']);
    assert(priority_sampling_key() =~= seq!['p', 's', 'r']);
    assert(flag_chars(true) =~= seq!['1']);
    assert(flag_chars(false) =~= seq!['0']);
}

} // verus!
