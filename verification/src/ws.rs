//! Telemetry state: cumulative judgement counters, the diff engine that
//! classifies a new snapshot of counters into a single change event, and the
//! parser that reads a snapshot out of one frame of the telemetry stream.

use vstd::prelude::*;

verus! {

/// One frame of the telemetry stream, as the transport hands it over: a text
/// payload, or one of the frame kinds the parser only classifies.
#[derive(Debug)]
pub enum WsMessage {
    Text(String),
    Binary,
    Close,
    Other,
}

/// Why one frame produced no snapshot.
#[derive(Debug, Clone, Copy, PartialEq, Eq, Structural)]
pub enum ParseError {
    /// A binary frame, which the stream never carries legitimately.
    BinaryMessage,
    /// A close frame: the stream has ended.
    ConnectionClosed,
    /// The text payload is not a JSON document.
    InvalidJson,
    /// The document has no `gameplay` object.
    MissingGameplay,
    /// The gameplay object has no `hits` object.
    MissingHits,
    /// The hits object has no `300` counter.
    MissingGreat,
    /// The hits object has no `100` counter.
    MissingGood,
    /// The hits object has no `50` counter.
    MissingMeh,
    /// The hits object has no `0` counter.
    MissingMiss,
    /// The gameplay object has no `combo.current` counter.
    MissingCombo,
}

/// The single discrete event produced by one snapshot update.
#[derive(Debug, Clone, Copy, PartialEq, Eq, Structural)]
pub enum JudgementChange {
    Great,
    Good,
    Meh,
    Miss,
    NoChange,
    Reset,
}

/// Cumulative judgement and combo counters at one point in time.
#[derive(Debug, Clone, Copy, PartialEq, Eq, Structural)]
pub struct JudgementState {
    pub great: u64,
    pub good: u64,
    pub meh: u64,
    pub miss: u64,
    pub combo: u64,
}

/// The event that replacing snapshot `prev` by snapshot `next` produces.
///
/// A decrease in any of the four hit counters signals a session reset.
/// Otherwise increases are ranked worst-first (miss over meh over good over
/// great); a combo change with no hit increase counts as a great, and no
/// change at all produces no event.
pub open spec fn spec_classify(prev: JudgementState, next: JudgementState) -> JudgementChange {
    if next.great < prev.great || next.good < prev.good || next.meh < prev.meh
        || next.miss < prev.miss {
        JudgementChange::Reset
    } else if next.miss > prev.miss {
        JudgementChange::Miss
    } else if next.meh > prev.meh {
        JudgementChange::Meh
    } else if next.good > prev.good {
        JudgementChange::Good
    } else if next.great > prev.great {
        JudgementChange::Great
    } else if next.combo != prev.combo {
        JudgementChange::Great
    } else {
        JudgementChange::NoChange
    }
}

impl JudgementState {
    /// Builds a snapshot from the five raw counters.
    pub fn new(great: u64, good: u64, meh: u64, miss: u64, combo: u64) -> (s: Self)
        ensures
            s == (JudgementState { great, good, meh, miss, combo }),
    {
        JudgementState { great, good, meh, miss, combo }
    }

    /// Replaces this snapshot with `other` and classifies what changed.
    pub fn replace_with(&mut self, other: JudgementState) -> (change: JudgementChange)
        ensures
            change == spec_classify(*old(self), other),
            *final(self) == other,
    {
        let change: JudgementChange;
        if other.great < self.great || other.good < self.good || other.meh < self.meh
            || other.miss < self.miss {
            change = JudgementChange::Reset;
        } else if other.miss > self.miss {
            change = JudgementChange::Miss;
        } else if other.meh > self.meh {
            change = JudgementChange::Meh;
        } else if other.good > self.good {
            change = JudgementChange::Good;
        } else if other.great > self.great {
            change = JudgementChange::Great;
        } else if other.combo != self.combo {
            change = JudgementChange::Great;
        } else {
            change = JudgementChange::NoChange;
        }
        *self = other;
        change
    }
}

impl Default for JudgementState {
    /// The all-zero snapshot that a session starts from.
    fn default() -> (s: Self)
        ensures
            s == (JudgementState { great: 0, good: 0, meh: 0, miss: 0, combo: 0 }),
    {
        JudgementState { great: 0, good: 0, meh: 0, miss: 0, combo: 0 }
    }
}

/// When every counter of `next` is at least its counterpart in `prev` and
/// exactly one counter is strictly greater, the classification names the
/// changed counter (a combo-only change counts as a great).
pub proof fn lemma_classify_single_increase(prev: JudgementState, next: JudgementState)
    requires
        next.great >= prev.great,
        next.good >= prev.good,
        next.meh >= prev.meh,
        next.miss >= prev.miss,
        next.combo >= prev.combo,
    ensures
        next.miss > prev.miss && next.meh == prev.meh && next.good == prev.good
            && next.great == prev.great ==> spec_classify(prev, next) == JudgementChange::Miss,
        next.meh > prev.meh && next.miss == prev.miss && next.good == prev.good
            && next.great == prev.great ==> spec_classify(prev, next) == JudgementChange::Meh,
        next.good > prev.good && next.miss == prev.miss && next.meh == prev.meh
            && next.great == prev.great ==> spec_classify(prev, next) == JudgementChange::Good,
        next.great > prev.great && next.miss == prev.miss && next.meh == prev.meh
            && next.good == prev.good ==> spec_classify(prev, next) == JudgementChange::Great,
        next.combo > prev.combo && next.miss == prev.miss && next.meh == prev.meh
            && next.good == prev.good && next.great == prev.great
            ==> spec_classify(prev, next) == JudgementChange::Great,
{
}

/// A strict decrease in any of the four hit counters classifies as a reset,
/// whatever the other counters did.
pub proof fn lemma_classify_decrease_is_reset(prev: JudgementState, next: JudgementState)
    requires
        next.great < prev.great || next.good < prev.good || next.meh < prev.meh
            || next.miss < prev.miss,
    ensures
        spec_classify(prev, next) == JudgementChange::Reset,
{
}

/// An unchanged snapshot, combo included, classifies as no event.
pub proof fn lemma_classify_unchanged_is_none(s: JudgementState)
    ensures
        spec_classify(s, s) == JudgementChange::NoChange,
{
}

/// A parsed JSON value, reduced to what the telemetry reader looks at:
/// objects with their keys, unsigned integers in range, and every other
/// value undistinguished.
#[derive(Debug)]
pub enum JsonVal {
    Object(Vec<(String, JsonVal)>),
    UInt(u64),
    Other,
}

/// The value at the first entry of `entries` whose key reads `key`.
pub open spec fn spec_lookup(entries: Seq<(String, JsonVal)>, key: Seq<char>) -> Option<JsonVal>
    decreases entries.len(),
{
    if entries.len() == 0 {
        Option::None
    } else if entries[0].0@ == key {
        Option::Some(entries[0].1)
    } else {
        spec_lookup(entries.skip(1), key)
    }
}

impl JsonVal {
    /// The value at `key`, when this is an object holding it.
    pub open spec fn spec_get(self, key: Seq<char>) -> Option<JsonVal> {
        match self {
            JsonVal::Object(entries) => spec_lookup(entries@, key),
            _ => Option::None,
        }
    }

    /// The number held, when this is an unsigned integer.
    pub open spec fn spec_as_u64(self) -> Option<u64> {
        match self {
            JsonVal::UInt(number) => Option::Some(number),
            _ => Option::None,
        }
    }

    /// Looks `key` up in this value, as `spec_get` states it.
    pub fn get(&self, key: &str) -> (r: Option<&JsonVal>)
        ensures
            match r {
                Option::Some(found) => self.spec_get(key@) == Option::Some(*found),
                Option::None => self.spec_get(key@) is None,
            },
    {
        let entries = match self {
            JsonVal::Object(entries) => entries,
            _ => {
                return Option::None;
            },
        };
        let wanted: String = key.to_owned();
        let mut i: usize = 0;
        proof {
            assert(entries@.skip(0) =~= entries@);
        }
        while i < entries.len()
            invariant
                i <= entries.len(),
                wanted@ == key@,
                self matches JsonVal::Object(seen) && seen@ == entries@,
                spec_lookup(entries@, key@) == spec_lookup(entries@.skip(i as int), key@),
            decreases entries.len() - i,
        {
            let entry = &entries[i];
            proof {
                assert(entries@.skip(i as int)[0] == entries@[i as int]);
            }
            if entry.0 == wanted {
                return Option::Some(&entry.1);
            }
            proof {
                assert(entries@.skip(i as int).skip(1) =~= entries@.skip(i + 1));
            }
            i = i + 1;
        }
        proof {
            assert(entries@.skip(i as int) =~= Seq::<(String, JsonVal)>::empty());
        }
        Option::None
    }

    /// The number held, as `spec_as_u64` states it.
    pub fn as_u64(&self) -> (r: Option<u64>)
        ensures
            r == self.spec_as_u64(),
    {
        match self {
            JsonVal::UInt(number) => Option::Some(*number),
            _ => Option::None,
        }
    }
}

/// The counter at `key` of `value`: the value there, when it is an unsigned
/// integer.
pub open spec fn spec_counter(value: JsonVal, key: Seq<char>) -> Option<u64> {
    match value.spec_get(key) {
        Option::Some(field) => field.spec_as_u64(),
        Option::None => Option::None,
    }
}

/// What the reader makes of one parse outcome: no document at all is a JSON
/// error; otherwise the snapshot at `gameplay.hits.{300, 100, 50, 0}` and
/// `gameplay.combo.current`, or the first piece missing on that path, in the
/// order the reader asks for them.
pub open spec fn spec_read_snapshot(doc: Option<JsonVal>) -> Result<
    Option<JudgementState>,
    ParseError,
> {
    match doc {
        Option::None => Err(ParseError::InvalidJson),
        Option::Some(root) => match root.spec_get("gameplay"@) {
            Option::None => Err(ParseError::MissingGameplay),
            Option::Some(gameplay) => match gameplay.spec_get("hits"@) {
                Option::None => Err(ParseError::MissingHits),
                Option::Some(hits) => match spec_counter(hits, "300"@) {
                    Option::None => Err(ParseError::MissingGreat),
                    Option::Some(great) => match spec_counter(hits, "100"@) {
                        Option::None => Err(ParseError::MissingGood),
                        Option::Some(good) => match spec_counter(hits, "50"@) {
                            Option::None => Err(ParseError::MissingMeh),
                            Option::Some(meh) => match spec_counter(hits, "0"@) {
                                Option::None => Err(ParseError::MissingMiss),
                                Option::Some(miss) => match gameplay.spec_get("combo"@) {
                                    Option::None => Err(ParseError::MissingCombo),
                                    Option::Some(combo_obj) => match spec_counter(
                                        combo_obj,
                                        "current"@,
                                    ) {
                                        Option::None => Err(ParseError::MissingCombo),
                                        Option::Some(combo) => Ok(
                                            Option::Some(
                                                JudgementState { great, good, meh, miss, combo },
                                            ),
                                        ),
                                    },
                                },
                            },
                        },
                    },
                },
            },
        },
    }
}

/// What parsing a text yields: one JSON document projected onto `JsonVal`,
/// or nothing. The outcome of serde_json's parser depends on the text alone,
/// so it bears a name.
pub uninterp spec fn json_of(text: Seq<char>) -> Option<JsonVal>;

#[verifier::external_type_specification]
#[verifier::external_body]
pub struct ExJsonValue(serde_json::Value);

/// Relies on serde_json::Value's public variants and on
/// serde_json::Number::as_u64: keeps each object with its keys in the
/// document's order (serde_json holds them with duplicates already merged)
/// and each number that is an unsigned integer in range, and folds every
/// other value into one undistinguished kind.
#[verifier::external_body]
fn json_convert(value: &serde_json::Value) -> (r: JsonVal) {
    match value {
        serde_json::Value::Number(number) => match number.as_u64() {
            Some(u) => JsonVal::UInt(u),
            None => JsonVal::Other,
        },
        serde_json::Value::Object(entries) => JsonVal::Object(
            entries.iter().map(|(key, val)| (key.clone(), json_convert(val))).collect(),
        ),
        _ => JsonVal::Other,
    }
}

/// Relies on serde_json::from_str: a text either parses as one JSON document
/// or reports an error, on the text alone; the projected outcome is what
/// `json_of` names.
#[verifier::external_body]
fn json_parse(text: &str) -> (r: Option<JsonVal>)
    ensures
        r == json_of(text@),
{
    match serde_json::from_str::<serde_json::Value>(text) {
        Ok(value) => Some(json_convert(&value)),
        Err(_) => None,
    }
}

/// Looks `key` up in `value` and reads it as an unsigned counter, as
/// `spec_counter` states it.
fn get_counter(value: &JsonVal, key: &str) -> (r: Option<u64>)
    ensures
        r == spec_counter(*value, key@),
{
    match value.get(key) {
        Option::Some(field) => field.as_u64(),
        Option::None => Option::None,
    }
}

/// Reads one telemetry frame. A text frame yields exactly what
/// `spec_read_snapshot` makes of its parse outcome: the snapshot its five
/// counters describe, or the first thing missing; a binary or close frame is
/// an error of its own; any other frame carries nothing.
pub fn parse_state(msg: WsMessage) -> (r: Result<Option<JudgementState>, ParseError>)
    ensures
        msg matches WsMessage::Text(text) ==> r == spec_read_snapshot(json_of(text@)),
        msg is Binary <==> r == Result::<Option<JudgementState>, ParseError>::Err(
            ParseError::BinaryMessage,
        ),
        msg is Close <==> r == Result::<Option<JudgementState>, ParseError>::Err(
            ParseError::ConnectionClosed,
        ),
        msg is Other <==> r == Result::<Option<JudgementState>, ParseError>::Ok(
            Option::None,
        ),
{
    let text = match msg {
        WsMessage::Text(text) => text,
        WsMessage::Binary => {
            return Err(ParseError::BinaryMessage);
        },
        WsMessage::Close => {
            return Err(ParseError::ConnectionClosed);
        },
        WsMessage::Other => {
            return Ok(Option::None);
        },
    };

    let value = match json_parse(text.as_str()) {
        Some(value) => value,
        Option::None => {
            return Err(ParseError::InvalidJson);
        },
    };
    let gameplay = match value.get("gameplay") {
        Some(gameplay) => gameplay,
        Option::None => {
            return Err(ParseError::MissingGameplay);
        },
    };
    let hits = match gameplay.get("hits") {
        Some(hits) => hits,
        Option::None => {
            return Err(ParseError::MissingHits);
        },
    };
    let great = match get_counter(hits, "300") {
        Some(great) => great,
        Option::None => {
            return Err(ParseError::MissingGreat);
        },
    };
    let good = match get_counter(hits, "100") {
        Some(good) => good,
        Option::None => {
            return Err(ParseError::MissingGood);
        },
    };
    let meh = match get_counter(hits, "50") {
        Some(meh) => meh,
        Option::None => {
            return Err(ParseError::MissingMeh);
        },
    };
    let miss = match get_counter(hits, "0") {
        Some(miss) => miss,
        Option::None => {
            return Err(ParseError::MissingMiss);
        },
    };
    let combo = match gameplay.get("combo") {
        Some(combo_obj) => match get_counter(combo_obj, "current") {
            Some(current) => current,
            Option::None => {
                return Err(ParseError::MissingCombo);
            },
        },
        Option::None => {
            return Err(ParseError::MissingCombo);
        },
    };

    Ok(Some(JudgementState::new(great, good, meh, miss, combo)))
}

} // verus!
