use vstd::prelude::*;

verus! {

/// Whether `text` is one well-formed JSON document.
pub uninterp spec fn is_json(text: Seq<char>) -> bool;

/// The string member `key` of the JSON object `text`, where there is one.
pub uninterp spec fn str_member_of(text: Seq<char>, key: Seq<char>) -> Option<Seq<char>>;

/// The boolean member `key` of the JSON object `text`, where there is one.
pub uninterp spec fn bool_member_of(text: Seq<char>, key: Seq<char>) -> Option<bool>;

/// The `i64` member `key` of the first element of the array member
/// `array_key` of the JSON object `text`, where there is one.
pub uninterp spec fn first_int_member_of(text: Seq<char>, array_key: Seq<char>, key: Seq<char>) -> Option<i64>;

/// The characters of an optional string.
pub open spec fn chars_of(o: Option<String>) -> Option<Seq<char>> {
    match o {
        Some(s) => Some(s@),
        None => None,
    }
}

/// Relies on serde_json::from_str: whether the message parses as JSON.
#[verifier::external_body]
fn parse_json(text: &str) -> (r: bool)
    ensures
        r == is_json(text@),
{
    serde_json::from_str::<serde_json::Value>(text).is_ok()
}

/// Relies on serde_json::from_str, Value::get and Value::as_str: the string
/// member `key` of the message; `None` where the message is not JSON.
#[verifier::external_body]
fn str_member(text: &str, key: &str) -> (r: Option<String>)
    ensures
        chars_of(r) == str_member_of(text@, key@),
        !is_json(text@) ==> r is None,
{
    let v = serde_json::from_str::<serde_json::Value>(text).ok()?;
    v.get(key)?.as_str().map(|s| s.to_string())
}

/// Relies on serde_json::from_str, Value::get and Value::as_bool: the boolean
/// member `key` of the message; `None` where the message is not JSON.
#[verifier::external_body]
fn bool_member(text: &str, key: &str) -> (r: Option<bool>)
    ensures
        r == bool_member_of(text@, key@),
        !is_json(text@) ==> r is None,
{
    let v = serde_json::from_str::<serde_json::Value>(text).ok()?;
    v.get(key)?.as_bool()
}

/// Relies on serde_json::from_str, Value::get, Value::as_array and
/// Value::as_i64: the integer member `key` of the first element of the array
/// member `array_key`; `None` where the message is not JSON.
#[verifier::external_body]
fn first_int_member(text: &str, array_key: &str, key: &str) -> (r: Option<i64>)
    ensures
        r == first_int_member_of(text@, array_key@, key@),
        !is_json(text@) ==> r is None,
{
    let v = serde_json::from_str::<serde_json::Value>(text).ok()?;
    v.get(array_key)?.as_array()?.first()?.get(key)?.as_i64()
}

/// The members of an inbound message that its handling reads.
#[derive(Clone, Debug, PartialEq, Eq)]
pub struct InboundFields {
    /// `type`, where it is a string.
    pub kind: Option<String>,
    /// `is_final`, where it is a boolean.
    pub is_final: Option<bool>,
    /// `text`, where it is a string.
    pub text: Option<String>,
    /// `speaker` of the first entry of `words`, where it is an integer.
    pub speaker: Option<i64>,
    /// `provider`, where it is a string.
    pub provider: Option<String>,
}

/// Whether `f` holds exactly the members of the JSON message `text` that its handling reads.
pub open spec fn members_of(text: Seq<char>, f: InboundFields) -> bool {
    &&& chars_of(f.kind) == str_member_of(text, "type"@)
    &&& f.is_final == bool_member_of(text, "is_final"@)
    &&& chars_of(f.text) == str_member_of(text, "text"@)
    &&& f.speaker == first_int_member_of(text, "words"@, "speaker"@)
    &&& chars_of(f.provider) == str_member_of(text, "provider"@)
}

/// Decodes an inbound text message into the members that its handling reads;
/// `None` exactly where the message is not JSON.
pub fn decode_inbound(text: &str) -> (r: Option<InboundFields>)
    ensures
        r is Some <==> is_json(text@),
        r matches Some(f) ==> members_of(text@, f),
{
    if !parse_json(text) {
        return None;
    }
    let kind = str_member(text, "type");
    let is_final = bool_member(text, "is_final");
    let body = str_member(text, "text");
    let speaker = first_int_member(text, "words", "speaker");
    let provider = str_member(text, "provider");
    Some(InboundFields { kind, is_final, text: body, speaker, provider })
}

/// The character of a decimal digit.
pub open spec fn digit_char(d: nat) -> char {
    if d == 0 {
        '0'
    } else if d == 1 {
        '1'
    } else if d == 2 {
        '2'
    } else if d == 3 {
        '3'
    } else if d == 4 {
        '4'
    } else if d == 5 {
        '5'
    } else if d == 6 {
        '6'
    } else if d == 7 {
        '7'
    } else if d == 8 {
        '8'
    } else {
        '9'
    }
}

/// Decimal digits of `m`, most significant first, without leading zeros.
pub open spec fn digits_of(m: nat) -> Seq<char>
    decreases m,
{
    if m < 10 {
        seq![digit_char(m)]
    } else {
        digits_of(m / 10).push(digit_char(m % 10))
    }
}

/// Decimal text of an integer, with a leading `-` where it is negative.
pub open spec fn decimal(n: int) -> Seq<char> {
    if n < 0 {
        seq!['-'] + digits_of((-n) as nat)
    } else {
        digits_of(n as nat)
    }
}

/// Label of the speaker with index `n`.
pub open spec fn speaker_text(n: int) -> Seq<char> {
    "speaker_"@ + decimal(n)
}

fn digit_str(d: u64) -> (r: &'static str)
    requires
        d < 10,
    ensures
        r@ == seq![digit_char(d as nat)],
{
    if d == 0 {
        proof { reveal_strlit("0"); }
        "0"
    } else if d == 1 {
        proof { reveal_strlit("1"); }
        "1"
    } else if d == 2 {
        proof { reveal_strlit("2"); }
        "2"
    } else if d == 3 {
        proof { reveal_strlit("3"); }
        "3"
    } else if d == 4 {
        proof { reveal_strlit("4"); }
        "4"
    } else if d == 5 {
        proof { reveal_strlit("5"); }
        "5"
    } else if d == 6 {
        proof { reveal_strlit("6"); }
        "6"
    } else if d == 7 {
        proof { reveal_strlit("7"); }
        "7"
    } else if d == 8 {
        proof { reveal_strlit("8"); }
        "8"
    } else {
        proof { reveal_strlit("9"); }
        "9"
    }
}

fn append_digits(s: &mut String, m: u64)
    ensures
        final(s)@ == old(s)@ + digits_of(m as nat),
    decreases m,
{
    if m >= 10 {
        append_digits(s, m / 10);
    }
    s.append(digit_str(m % 10));
    assert(s@ =~= old(s)@ + digits_of(m as nat));
}

/// The label `speaker_<n>` of the speaker with index `n`.
pub fn speaker_label(n: i64) -> (r: String)
    ensures
        r@ == speaker_text(n as int),
{
    let mut s = String::from_str("speaker_");
    if n < 0 {
        s.append("-");
        proof { reveal_strlit("-"); }
        let m: u64 = (-(n as i128)) as u64;
        append_digits(&mut s, m);
        assert(s@ =~= speaker_text(n as int));
    } else {
        append_digits(&mut s, n as u64);
    }
    s
}


/// A final transcript segment, as emitted to the caller and forwarded to the analysis endpoint.
#[derive(Clone, Debug, PartialEq, Eq)]
pub struct TranscriptChunk {
    /// `speaker_<index>`, the index taken from the first recognised word (0 where absent).
    pub speaker: String,
    /// The recognised text; never empty.
    pub text: String,
    /// The provider that recognised it, where the message names one.
    pub provider: Option<String>,
}

/// What the reader loop does with one inbound message.
#[derive(Clone, Debug, PartialEq, Eq)]
pub enum ReaderAction {
    /// Emit a `transcript` event with the chunk and forward it to the analysis endpoint.
    Transcript(TranscriptChunk),
    /// Emit a `provider-switch` event carrying the raw message.
    ProviderSwitch,
    /// Emit a `capture-error` event carrying the raw message.
    RemoteError,
    /// The service confirmed the connection: nothing to emit.
    Connected,
    /// Interim, empty, unknown or malformed: nothing to do.
    Ignore,
}

/// Whether `f` is a final transcript with non-empty text.
pub open spec fn is_final_transcript(f: InboundFields) -> bool {
    &&& f.kind matches Some(k) && k@ == "transcript"@
    &&& f.is_final == Some(true)
    &&& f.text matches Some(t) && t@.len() > 0
}

/// The action owed for an inbound message with members `f`.
pub open spec fn dispatched(f: InboundFields, a: ReaderAction) -> bool {
    if is_final_transcript(f) {
        a matches ReaderAction::Transcript(c) && c.speaker@ == speaker_text(
            match f.speaker {
                Some(n) => n as int,
                None => 0,
            },
        ) && Some(c.text) == f.text && c.provider == f.provider
    } else if f.kind matches Some(k) && k@ == "provider_switch"@ {
        a == ReaderAction::ProviderSwitch
    } else if f.kind matches Some(k) && k@ == "error"@ {
        a == ReaderAction::RemoteError
    } else if f.kind matches Some(k) && k@ == "connected"@ {
        a == ReaderAction::Connected
    } else {
        a == ReaderAction::Ignore
    }
}

fn same_text(a: &String, lit: &str) -> (r: bool)
    ensures
        r == (a@ == lit@),
{
    let b = String::from_str(lit);
    *a == b
}

/// Decides what the reader loop does with an inbound message's members.
pub fn dispatch(f: &InboundFields) -> (a: ReaderAction)
    ensures
        dispatched(*f, a),
{
    let kind = match &f.kind {
        Some(k) => k,
        None => return ReaderAction::Ignore,
    };
    if same_text(kind, "transcript") {
        let final_result = match f.is_final {
            Some(b) => b,
            None => false,
        };
        if final_result {
            if let Some(t) = &f.text {
                if t.unicode_len() > 0 {
                    let index: i64 = match f.speaker {
                        Some(n) => n,
                        None => 0,
                    };
                    let chunk = TranscriptChunk {
                        speaker: speaker_label(index),
                        text: t.clone(),
                        provider: match &f.provider {
                            Some(p) => Some(p.clone()),
                            None => None,
                        },
                    };
                    assert(is_final_transcript(*f));
                    assert(chunk.speaker@ == speaker_text(index as int));
                    assert(Some(chunk.text) == f.text);
                    assert(chunk.provider == f.provider);
                    return ReaderAction::Transcript(chunk);
                }
            }
        }
        proof {
            reveal_strlit("transcript");
            reveal_strlit("provider_switch");
            reveal_strlit("error");
            reveal_strlit("connected");
        }
        assert(!is_final_transcript(*f));
        assert(!("transcript"@ =~= "provider_switch"@));
        ReaderAction::Ignore
    } else if same_text(kind, "provider_switch") {
        ReaderAction::ProviderSwitch
    } else if same_text(kind, "error") {
        ReaderAction::RemoteError
    } else if same_text(kind, "connected") {
        ReaderAction::Connected
    } else {
        ReaderAction::Ignore
    }
}

/// Decodes and dispatches one inbound text message: a message that is not
/// JSON is ignored; any other gets the action owed for its members.
pub fn handle_inbound(text: &str) -> (a: ReaderAction)
    ensures
        !is_json(text@) ==> a == ReaderAction::Ignore,
        is_json(text@) ==> exists|f: InboundFields| members_of(text@, f) && dispatched(f, a),
{
    match decode_inbound(text) {
        Some(f) => {
            let a = dispatch(&f);
            assert(members_of(text@, f) && dispatched(f, a));
            a
        },
        None => ReaderAction::Ignore,
    }
}

} // verus!
