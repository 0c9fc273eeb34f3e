use vstd::prelude::*;

use opentelemetry::trace::TraceState;

verus! {

#[verifier::external_type_specification]
#[verifier::external_body]
pub struct ExTraceState(TraceState);

/// The trace-state key under which the "measured" flag is kept.
pub const TRACE_STATE_MEASURE: &'static str = "m";

/// The trace-state key under which the agent's priority-sampling decision is kept.
pub const TRACE_STATE_PRIORITY_SAMPLING: &'static str = "psr";

/// The trace-state value that encodes `true`.
pub const TRACE_STATE_TRUE_VALUE: &'static str = "1";

/// The trace-state value that encodes `false`.
pub const TRACE_STATE_FALSE_VALUE: &'static str = "0";

/// Most list members a trace state keeps.
pub const MAX_LIST_MEMBERS: usize = 32;

// ---------------------------------------------------------------------------
// The model of a trace state: its list members, in order.
// ---------------------------------------------------------------------------

/// The list members of a trace state, in order, as (key, value) pairs.
pub uninterp spec fn trace_state_entries(ts: TraceState) -> Seq<(Seq<char>, Seq<char>)>;

/// Whether a trace state holds no list at all (`TraceState(None)`), as against
/// a list, which may be empty.
pub uninterp spec fn trace_state_is_none(ts: TraceState) -> bool;

/// A lowercase ASCII letter or a decimal digit.
pub open spec fn is_lower_or_digit(c: char) -> bool {
    ('a' <= c && c <= 'z') || ('0' <= c && c <= '9')
}

/// A character that may stand in a list-member key.
pub open spec fn is_key_char(c: char) -> bool {
    is_lower_or_digit(c) || c == '_' || c == '-' || c == '*' || c == '/' || c == '@'
}

/// Whether `key` is a list-member key that a trace state accepts: at most 256
/// characters, each a lowercase letter, a digit or one of `_ - * / @`; the first a
/// lowercase letter or a digit; and at most one '@', with at most 13 characters
/// after it, the first of them a lowercase letter or a digit. (The empty key is
/// accepted.)
pub open spec fn trace_state_key_valid(key: Seq<char>) -> bool {
    &&& key.len() <= 256
    &&& forall|i: int| 0 <= i < key.len() ==> is_key_char(#[trigger] key[i])
    &&& key.len() > 0 ==> is_lower_or_digit(key[0])
    &&& forall|i: int| 0 <= i < key.len() && #[trigger] key[i] == '@' ==> {
        &&& forall|j: int| 0 <= j < i ==> key[j] != '@'
        &&& i + 14 >= key.len()
        &&& i + 1 < key.len() ==> is_lower_or_digit(key[i + 1])
    }
}

/// A key made of 1 to 256 lowercase ASCII letters and digits.
pub open spec fn is_plain_key(key: Seq<char>) -> bool {
    &&& 0 < key.len() <= 256
    &&& forall|i: int| 0 <= i < key.len() ==> ('a' <= #[trigger] key[i] <= 'z' || '0' <= key[i] <= '9')
}

/// A list-member value that a trace state accepts: at most 256 bytes in UTF-8,
/// with neither ',' nor '='.
pub open spec fn trace_state_value_valid(value: Seq<char>) -> bool {
    &&& vstd::utf8::encode_utf8(value).len() <= 256
    &&& !value.contains(',')
    &&& !value.contains('=')
}

/// The value of the first list member whose key is `key`.
pub open spec fn entry_lookup(entries: Seq<(Seq<char>, Seq<char>)>, key: Seq<char>) -> Option<Seq<char>>
    decreases entries.len(),
{
    if entries.len() == 0 {
        None
    } else if entries[0].0 == key {
        Some(entries[0].1)
    } else {
        entry_lookup(entries.drop_first(), key)
    }
}

/// The list members with the first one whose key is `key` taken out.
pub open spec fn entries_without(entries: Seq<(Seq<char>, Seq<char>)>, key: Seq<char>) -> Seq<(Seq<char>, Seq<char>)>
    decreases entries.len(),
{
    if entries.len() == 0 {
        entries
    } else if entries[0].0 == key {
        entries.drop_first()
    } else {
        seq![entries[0]] + entries_without(entries.drop_first(), key)
    }
}

/// The list members after inserting `(key, value)`: the new pair goes first, the
/// former first member with that key leaves, and when the rest is full its last
/// member is dropped.
pub open spec fn entries_inserted(
    entries: Seq<(Seq<char>, Seq<char>)>,
    key: Seq<char>,
    value: Seq<char>,
) -> Seq<(Seq<char>, Seq<char>)> {
    let rest = entries_without(entries, key);
    seq![(key, value)] + (if rest.len() >= MAX_LIST_MEMBERS { rest.take(MAX_LIST_MEMBERS - 1) } else { rest })
}

/// The first 32 pairs of a list.
pub open spec fn first_members(pairs: Seq<(Seq<char>, Seq<char>)>) -> Seq<(Seq<char>, Seq<char>)> {
    if pairs.len() <= MAX_LIST_MEMBERS {
        pairs
    } else {
        pairs.take(MAX_LIST_MEMBERS as int)
    }
}

/// A list of string pairs, taken by their characters.
pub open spec fn str_pairs_view(pairs: Seq<(&str, &str)>) -> Seq<(Seq<char>, Seq<char>)> {
    pairs.map_values(|p: (&str, &str)| (p.0@, p.1@))
}

/// The characters of the key of the "measured" flag.
pub open spec fn measure_key() -> Seq<char> {
    seq!['m']
}

/// The characters of the key of the priority-sampling flag.
pub open spec fn priority_sampling_key() -> Seq<char> {
    seq!['p', 's', 'r']
}

/// How a flag is written as a trace-state value.
pub open spec fn flag_chars(value: bool) -> Seq<char> {
    if value {
        seq!['1']
    } else {
        seq!['0']
    }
}

/// How a flag is read back from a looked-up trace-state value: only "1" is true.
pub open spec fn flag_enabled(found: Option<Seq<char>>) -> bool {
    found == Some(flag_chars(true))
}

// ---------------------------------------------------------------------------
// Calls into `opentelemetry::trace::TraceState`.
// ---------------------------------------------------------------------------

/// Calls `TraceState::default`, the trace state with no list
/// (`TraceState(None)`).
#[verifier::external_body]
pub(crate) fn trace_state_default() -> (ts: TraceState)
    ensures
        trace_state_entries(ts) == Seq::<(Seq<char>, Seq<char>)>::empty(),
        trace_state_is_none(ts),
{
    TraceState::default()
}

/// The derived `Clone` of `TraceState` copies the list, or its absence.
pub assume_specification[ <TraceState as Clone>::clone ](ts: &TraceState) -> (r: TraceState)
    ensures
        trace_state_entries(r) == trace_state_entries(*ts),
        trace_state_is_none(r) == trace_state_is_none(*ts),
;

/// Calls `TraceState::get`: the value of the first list member with the key.
#[verifier::external_body]
pub(crate) fn trace_state_get<'a>(ts: &'a TraceState, key: &str) -> (r: Option<&'a str>)
    ensures
        match r {
            Some(v) => entry_lookup(trace_state_entries(*ts), key@) == Some(v@),
            None => entry_lookup(trace_state_entries(*ts), key@) is None,
        },
{
    ts.get(key)
}

/// Calls `TraceState::insert`, with its error taken as `None`. It fails exactly
/// when the key or the value is invalid; else the new pair comes first, the
/// former first pair with the key leaves, and a full state drops its last pair.
/// The new state always holds a list.
#[verifier::external_body]
pub(crate) fn trace_state_insert(ts: &TraceState, key: &str, value: &str) -> (r: Option<TraceState>)
    ensures
        match r {
            Some(t) => {
                &&& trace_state_key_valid(key@)
                &&& trace_state_value_valid(value@)
                &&& trace_state_entries(t) == entries_inserted(trace_state_entries(*ts), key@, value@)
                &&& !trace_state_is_none(t)
            },
            None => !(trace_state_key_valid(key@) && trace_state_value_valid(value@)),
        },
{
    ts.insert(key, value).ok()
}

/// Calls `TraceState::from_key_value`, with its error taken as `None`. Only the
/// first 32 pairs are kept; it fails exactly when one of them has an invalid key
/// or value, and else keeps them in order, with no list when there is none.
#[verifier::external_body]
pub(crate) fn trace_state_from_key_value(pairs: Vec<(&str, &str)>) -> (r: Option<TraceState>)
    ensures
        ({
            let taken = first_members(str_pairs_view(pairs@));
            match r {
                Some(t) => {
                    &&& forall|i: int| 0 <= i < taken.len()
                        ==> trace_state_key_valid(#[trigger] taken[i].0) && trace_state_value_valid(taken[i].1)
                    &&& trace_state_entries(t) == taken
                    &&& trace_state_is_none(t) == (taken.len() == 0)
                },
                None => !(forall|i: int| 0 <= i < taken.len()
                    ==> trace_state_key_valid(#[trigger] taken[i].0) && trace_state_value_valid(taken[i].1)),
            }
        }),
{
    TraceState::from_key_value(pairs).ok()
}

// ---------------------------------------------------------------------------
// Flags as trace-state values.
// ---------------------------------------------------------------------------

/// Writes a flag as a trace-state value: "1" or "0".
pub fn boolean_to_trace_state_flag(value: bool) -> (r: &'static str)
    ensures
        r@ == flag_chars(value),
{
    proof {
        reveal_strlit("1");
        reveal_strlit("0");
    }
    if value {
        TRACE_STATE_TRUE_VALUE
    } else {
        TRACE_STATE_FALSE_VALUE
    }
}

/// Reads a flag from a trace-state value: only "1" is true.
pub fn trace_flag_to_boolean(value: &str) -> (r: bool)
    ensures
        r == (value@ == flag_chars(true)),
{
    let len = value.unicode_len();
    if len == 1 {
        let c = value.get_char(0);
        if c == '1' {
            assert(value@ =~= flag_chars(true));
            true
        } else {
            false
        }
    } else {
        false
    }
}

proof fn lemma_key_literals()
    ensures
        TRACE_STATE_MEASURE@ == measure_key(),
        TRACE_STATE_PRIORITY_SAMPLING@ == priority_sampling_key(),
{
    reveal_strlit("m");
    reveal_strlit("psr");
    assert(TRACE_STATE_MEASURE@ =~= measure_key());
    assert(TRACE_STATE_PRIORITY_SAMPLING@ =~= priority_sampling_key());
}

proof fn lemma_plain_key_valid(key: Seq<char>)
    requires
        is_plain_key(key),
    ensures
        trace_state_key_valid(key),
{
    assert forall|i: int| 0 <= i < key.len() implies is_key_char(#[trigger] key[i]) by {
        assert('a' <= key[i] <= 'z' || '0' <= key[i] <= '9');
    }
    assert forall|i: int| 0 <= i < key.len() implies #[trigger] key[i] != '@' by {
        assert('a' <= key[i] <= 'z' || '0' <= key[i] <= '9');
    }
    assert(is_lower_or_digit(key[0])) by {
        assert('a' <= key[0] <= 'z' || '0' <= key[0] <= '9');
    }
}

proof fn lemma_flag_value_valid(value: bool)
    ensures
        trace_state_value_valid(flag_chars(value)),
{
    let s = flag_chars(value);
    vstd::utf8::is_ascii_chars_encode_utf8(s);
    assert(!s.contains(','));
    assert(!s.contains('='));
}

// ---------------------------------------------------------------------------
// Building a trace state that carries the Datadog flags.
// ---------------------------------------------------------------------------

/// The list members that `DatadogTraceStateBuilder::build` makes: the measured
/// flag, then, with agent sampling, the priority-sampling flag.
pub open spec fn built_entries(
    measuring: bool,
    priority_sampling: bool,
    agent_sampling: bool,
) -> Seq<(Seq<char>, Seq<char>)> {
    if agent_sampling {
        seq![(measure_key(), flag_chars(measuring)), (priority_sampling_key(), flag_chars(priority_sampling))]
    } else {
        seq![(measure_key(), flag_chars(measuring))]
    }
}

/// Collects the Datadog flags of a trace state before building it. With agent
/// sampling the state also carries the agent's priority-sampling decision.
pub struct DatadogTraceStateBuilder {
    priority_sampling: bool,
    measuring: bool,
    agent_sampling: bool,
}

impl Default for DatadogTraceStateBuilder {
    /// Both flags off, and no agent sampling.
    fn default() -> (r: Self)
        ensures
            !r.priority_sampling_flag(),
            !r.measuring_flag(),
            !r.agent_sampling_flag(),
    {
        DatadogTraceStateBuilder { priority_sampling: false, measuring: false, agent_sampling: false }
    }
}

impl DatadogTraceStateBuilder {
    /// The priority-sampling flag that the builder holds.
    pub closed spec fn priority_sampling_flag(&self) -> bool {
        self.priority_sampling
    }

    /// The measured flag that the builder holds.
    pub closed spec fn measuring_flag(&self) -> bool {
        self.measuring
    }

    /// Whether the built state carries the priority-sampling flag.
    pub closed spec fn agent_sampling_flag(&self) -> bool {
        self.agent_sampling
    }

    /// Sets the priority-sampling flag and keeps the others.
    pub fn with_priority_sampling(self, enabled: bool) -> (r: Self)
        ensures
            r.priority_sampling_flag() == enabled,
            r.measuring_flag() == self.measuring_flag(),
            r.agent_sampling_flag() == self.agent_sampling_flag(),
    {
        DatadogTraceStateBuilder { priority_sampling: enabled, measuring: self.measuring, agent_sampling: self.agent_sampling }
    }

    /// Sets the measured flag and keeps the others.
    pub fn with_measuring(self, enabled: bool) -> (r: Self)
        ensures
            r.measuring_flag() == enabled,
            r.priority_sampling_flag() == self.priority_sampling_flag(),
            r.agent_sampling_flag() == self.agent_sampling_flag(),
    {
        DatadogTraceStateBuilder { priority_sampling: self.priority_sampling, measuring: enabled, agent_sampling: self.agent_sampling }
    }

    /// Sets whether the built state carries the priority-sampling flag, and keeps
    /// the flags.
    pub fn with_agent_sampling(self, enabled: bool) -> (r: Self)
        ensures
            r.agent_sampling_flag() == enabled,
            r.measuring_flag() == self.measuring_flag(),
            r.priority_sampling_flag() == self.priority_sampling_flag(),
    {
        DatadogTraceStateBuilder { priority_sampling: self.priority_sampling, measuring: self.measuring, agent_sampling: enabled }
    }

    /// A trace state whose list is `m` with the measured flag, followed, with
    /// agent sampling, by `psr` with the priority-sampling flag.
    pub fn build(self) -> (ts: TraceState)
        ensures
            trace_state_entries(ts) == built_entries(
                self.measuring_flag(),
                self.priority_sampling_flag(),
                self.agent_sampling_flag(),
            ),
            !trace_state_is_none(ts),
            trace_state_entries(ts).len() == (if self.agent_sampling_flag() { 2int } else { 1int }),
            trace_state_entries(ts)[0] == (seq!['m'], flag_chars(self.measuring_flag())),
            entry_lookup(trace_state_entries(ts), seq!['m']) == Some(flag_chars(self.measuring_flag())),
            entry_lookup(trace_state_entries(ts), seq!['p', 's', 'r']) == (if self.agent_sampling_flag() {
                Some(flag_chars(self.priority_sampling_flag()))
            } else {
                None
            }),
    {
        proof {
            law_build_members(self.measuring, self.priority_sampling, self.agent_sampling);
        }
        let measuring = boolean_to_trace_state_flag(self.measuring);
        let values = if self.agent_sampling {
            vec![
                (TRACE_STATE_MEASURE, measuring),
                (TRACE_STATE_PRIORITY_SAMPLING, boolean_to_trace_state_flag(self.priority_sampling)),
            ]
        } else {
            vec![(TRACE_STATE_MEASURE, measuring)]
        };
        proof {
            lemma_key_literals();
            lemma_flag_value_valid(self.measuring);
            lemma_flag_value_valid(self.priority_sampling);
            lemma_plain_key_valid(measure_key());
            lemma_plain_key_valid(priority_sampling_key());
            let taken = first_members(str_pairs_view(values@));
            assert(taken =~= built_entries(self.measuring, self.priority_sampling, self.agent_sampling));
            assert(forall|i: int| 0 <= i < taken.len()
                ==> trace_state_key_valid(#[trigger] taken[i].0) && trace_state_value_valid(taken[i].1));
        }
        match trace_state_from_key_value(values) {
            Some(ts) => ts,
            None => trace_state_default(),
        }
    }
}

/// Reads and writes the Datadog flags of a trace state.
pub trait DatadogTraceState {
    /// A copy with the measured flag set to `enabled`.
    fn with_measuring(&self, enabled: bool) -> TraceState;

    /// Whether the measured flag is set.
    fn measuring_enabled(&self) -> bool;

    /// A copy with the priority-sampling flag set to `enabled`.
    fn with_priority_sampling(&self, enabled: bool) -> TraceState;

    /// Whether the priority-sampling flag is set.
    fn priority_sampling_enabled(&self) -> bool;
}

impl DatadogTraceState for TraceState {
    fn with_measuring(&self, enabled: bool) -> (r: TraceState)
        ensures
            trace_state_entries(r) == entries_inserted(
                trace_state_entries(*self),
                measure_key(),
                flag_chars(enabled),
            ),
            !trace_state_is_none(r),
    {
        proof {
            lemma_key_literals();
            lemma_flag_value_valid(enabled);
            lemma_plain_key_valid(measure_key());
        }
        match trace_state_insert(self, TRACE_STATE_MEASURE, boolean_to_trace_state_flag(enabled)) {
            Some(ts) => ts,
            None => self.clone(),
        }
    }

    fn measuring_enabled(&self) -> (r: bool)
        ensures
            r == flag_enabled(entry_lookup(trace_state_entries(*self), measure_key())),
    {
        proof {
            lemma_key_literals();
        }
        match trace_state_get(self, TRACE_STATE_MEASURE) {
            Some(value) => trace_flag_to_boolean(value),
            None => false,
        }
    }

    fn with_priority_sampling(&self, enabled: bool) -> (r: TraceState)
        ensures
            trace_state_entries(r) == entries_inserted(
                trace_state_entries(*self),
                priority_sampling_key(),
                flag_chars(enabled),
            ),
            !trace_state_is_none(r),
    {
        proof {
            lemma_key_literals();
            lemma_flag_value_valid(enabled);
            lemma_plain_key_valid(priority_sampling_key());
        }
        match trace_state_insert(self, TRACE_STATE_PRIORITY_SAMPLING, boolean_to_trace_state_flag(enabled)) {
            Some(ts) => ts,
            None => self.clone(),
        }
    }

    fn priority_sampling_enabled(&self) -> (r: bool)
        ensures
            r == flag_enabled(entry_lookup(trace_state_entries(*self), priority_sampling_key())),
    {
        proof {
            lemma_key_literals();
        }
        match trace_state_get(self, TRACE_STATE_PRIORITY_SAMPLING) {
            Some(value) => trace_flag_to_boolean(value),
            None => false,
        }
    }
}

// ---------------------------------------------------------------------------
// Laws.
// ---------------------------------------------------------------------------

proof fn lemma_flag_round_trip(value: bool)
    ensures
        flag_enabled(Some(flag_chars(value))) == value,
{
    if !value {
        assert(flag_chars(false)[0] != flag_chars(true)[0]);
    }
}

proof fn lemma_lookup_without_other(entries: Seq<(Seq<char>, Seq<char>)>, key: Seq<char>, other: Seq<char>)
    requires
        other != key,
    ensures
        entry_lookup(entries_without(entries, key), other) == entry_lookup(entries, other),
    decreases entries.len(),
{
    if entries.len() > 0 && entries[0].0 != key {
        lemma_lookup_without_other(entries.drop_first(), key, other);
        let rest = entries_without(entries.drop_first(), key);
        assert((seq![entries[0]] + rest).drop_first() =~= rest);
    }
}

/// A value written under a key is what a lookup of that key then finds.
pub proof fn law_lookup_after_insert(entries: Seq<(Seq<char>, Seq<char>)>, key: Seq<char>, value: Seq<char>)
    ensures
        entry_lookup(entries_inserted(entries, key, value), key) == Some(value),
{
    let inserted = entries_inserted(entries, key, value);
    assert(inserted[0] == (key, value));
}

/// Writing a key leaves what a lookup of any other key finds, as long as the
/// trace state is not full (else its last list member is dropped).
pub proof fn law_insert_keeps_other_keys(
    entries: Seq<(Seq<char>, Seq<char>)>,
    key: Seq<char>,
    value: Seq<char>,
    other: Seq<char>,
)
    requires
        other != key,
        entries_without(entries, key).len() < MAX_LIST_MEMBERS,
    ensures
        entry_lookup(entries_inserted(entries, key, value), other) == entry_lookup(entries, other),
{
    let rest = entries_without(entries, key);
    let inserted = entries_inserted(entries, key, value);
    assert(inserted.drop_first() =~= rest);
    lemma_lookup_without_other(entries, key, other);
}

/// Setting the measured flag of a trace state and reading it back gives the flag
/// that was set, whatever the state held before.
pub proof fn law_measuring_read_after_write(ts: TraceState, enabled: bool)
    ensures
        flag_enabled(
            entry_lookup(
                entries_inserted(trace_state_entries(ts), measure_key(), flag_chars(enabled)),
                measure_key(),
            ),
        ) == enabled,
{
    law_lookup_after_insert(trace_state_entries(ts), measure_key(), flag_chars(enabled));
    lemma_flag_round_trip(enabled);
}

/// Setting the priority-sampling flag of a trace state and reading it back gives
/// the flag that was set, whatever the state held before.
pub proof fn law_priority_sampling_read_after_write(ts: TraceState, enabled: bool)
    ensures
        flag_enabled(
            entry_lookup(
                entries_inserted(trace_state_entries(ts), priority_sampling_key(), flag_chars(enabled)),
                priority_sampling_key(),
            ),
        ) == enabled,
{
    law_lookup_after_insert(trace_state_entries(ts), priority_sampling_key(), flag_chars(enabled));
    lemma_flag_round_trip(enabled);
}

/// Setting one Datadog flag leaves the other as it was, as long as the trace
/// state is not full.
pub proof fn law_flags_independent(ts: TraceState, enabled: bool)
    requires
        entries_without(trace_state_entries(ts), measure_key()).len() < MAX_LIST_MEMBERS,
        entries_without(trace_state_entries(ts), priority_sampling_key()).len() < MAX_LIST_MEMBERS,
    ensures
        entry_lookup(
            entries_inserted(trace_state_entries(ts), measure_key(), flag_chars(enabled)),
            priority_sampling_key(),
        ) == entry_lookup(trace_state_entries(ts), priority_sampling_key()),
        entry_lookup(
            entries_inserted(trace_state_entries(ts), priority_sampling_key(), flag_chars(enabled)),
            measure_key(),
        ) == entry_lookup(trace_state_entries(ts), measure_key()),
{
    assert(measure_key().len() != priority_sampling_key().len());
    law_insert_keeps_other_keys(trace_state_entries(ts), measure_key(), flag_chars(enabled), priority_sampling_key());
    law_insert_keeps_other_keys(trace_state_entries(ts), priority_sampling_key(), flag_chars(enabled), measure_key());
}

/// A built trace state reads back the flags that the builder held; without
/// agent sampling it carries no priority-sampling flag, which reads as off.
pub proof fn law_build_reads_back(measuring: bool, priority_sampling: bool, agent_sampling: bool)
    ensures
        flag_enabled(entry_lookup(built_entries(measuring, priority_sampling, agent_sampling), measure_key()))
            == measuring,
        flag_enabled(entry_lookup(built_entries(measuring, priority_sampling, agent_sampling), priority_sampling_key()))
            == (agent_sampling && priority_sampling),
{
    let es = built_entries(measuring, priority_sampling, agent_sampling);
    assert(measure_key().len() != priority_sampling_key().len());
    if agent_sampling {
        assert(es.drop_first().drop_first().len() == 0);
        assert(entry_lookup(es.drop_first(), priority_sampling_key()) == Some(flag_chars(priority_sampling)));
    } else {
        assert(es.drop_first().len() == 0);
        assert(entry_lookup(es.drop_first(), priority_sampling_key()) is None);
    }
    lemma_flag_round_trip(measuring);
    lemma_flag_round_trip(priority_sampling);
}

/// A built trace state holds the measured flag first; with agent sampling it
/// holds exactly one more member, the priority-sampling flag, and without it
/// holds that member alone, so no priority-sampling flag at all.
pub proof fn law_build_members(measuring: bool, priority_sampling: bool, agent_sampling: bool)
    ensures
        built_entries(measuring, priority_sampling, agent_sampling).len() == (if agent_sampling {
            2int
        } else {
            1int
        }),
        built_entries(measuring, priority_sampling, agent_sampling)[0] == (seq!['m'], flag_chars(measuring)),
        entry_lookup(built_entries(measuring, priority_sampling, agent_sampling), seq!['m']) == Some(
            flag_chars(measuring),
        ),
        entry_lookup(built_entries(measuring, priority_sampling, agent_sampling), seq!['p', 's', 'r']) == (if agent_sampling {
            Some(flag_chars(priority_sampling))
        } else {
            None
        }),
{
    let es = built_entries(measuring, priority_sampling, agent_sampling);
    assert(measure_key() =~= seq!['m']);
    assert(priority_sampling_key() =~= seq!['p', 's', 'r']);
    assert(seq!['m'] != seq!['p', 's', 'r']) by {
        assert(seq!['m'].len() != seq!['p', 's', 'r'].len());
    }
    if agent_sampling {
        assert(es.drop_first().drop_first().len() == 0);
        assert(es.drop_first()[0] == (priority_sampling_key(), flag_chars(priority_sampling)));
        assert(entry_lookup(es.drop_first(), seq!['p', 's', 'r']) == Some(flag_chars(priority_sampling)));
    } else {
        assert(es.drop_first().len() == 0);
        assert(entry_lookup(es.drop_first(), seq!['p', 's', 'r']) is None);
    }
}

} // verus!
