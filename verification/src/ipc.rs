//! The envelopes of the wire protocol and their text form.
//!
//! Every line on the wire is one JSON object. A command envelope arrives on
//! the input stream; a response envelope leaves on the output stream. Both
//! are held in one type, `IPCMessage`.

use vstd::prelude::*;
use vstd::string::*;
use serde_json::Value;
use crate::decimal::{
    append_decimal, append_signed_decimal, decimal, decimal_value, lemma_decimal_value,
    signed_decimal,
};
use crate::json::{
    as_bool, as_str, as_u64, duplicate, is_null, is_object, json_bool, json_is_null,
    json_is_object, json_member, json_parse, json_quoted, json_str, json_text, json_u64, member,
    parse, string_value, text_of,
};

verus! {

/// The failure that a response envelope reports.
#[derive(Debug, Clone, PartialEq)]
pub struct IPCError {
    /// A fixed sentinel; it tells nothing of the failure's kind.
    pub code: i32,
    /// The failure's kind, a colon and a space, then its cause.
    pub message: String,
}

/// A command or response envelope.
#[derive(Debug, Clone, PartialEq)]
pub struct IPCMessage {
    /// The correlation token that the controller assigned.
    pub id: Option<u64>,
    /// The envelope's tag, the member `type` on the wire.
    pub kind: String,
    /// The operation that a command asks for.
    pub method: Option<String>,
    /// The operation's arguments; only commands carry them.
    pub params: Option<Value>,
    /// What a successful operation returned.
    pub result: Option<Value>,
    /// Why an operation failed.
    pub error: Option<IPCError>,
}

/// Why a line is no command envelope.
#[derive(Debug, Clone, Copy, PartialEq, Eq, Structural)]
pub enum DecodeError {
    /// The line is not JSON.
    Syntax,
    /// The line is JSON of another shape than a command envelope.
    Schema,
}

/// An `IPCError` as the contracts see it.
pub struct ErrorView {
    pub code: i32,
    pub message: Seq<char>,
}

/// An `IPCMessage` as the contracts see it.
pub struct EnvelopeView {
    pub id: Option<u64>,
    pub kind: Seq<char>,
    pub method: Option<Seq<char>>,
    pub params: Option<Value>,
    pub result: Option<Value>,
    pub error: Option<ErrorView>,
}

impl View for IPCError {
    type V = ErrorView;

    open spec fn view(&self) -> ErrorView {
        ErrorView { code: self.code, message: self.message@ }
    }
}

/// An optional string as the contracts see it.
pub open spec fn text_view(text: Option<String>) -> Option<Seq<char>> {
    match text {
        Some(t) => Some(t@),
        None => None,
    }
}

impl View for IPCMessage {
    type V = EnvelopeView;

    open spec fn view(&self) -> EnvelopeView {
        EnvelopeView {
            id: self.id,
            kind: self.kind@,
            method: text_view(self.method),
            params: self.params,
            result: self.result,
            error: match self.error {
                Some(e) => Some(e@),
                None => None,
            },
        }
    }
}

/// Whether an envelope reports success: it has a result, and the result's
/// member `success` is `true`.
pub open spec fn reports_success(m: EnvelopeView) -> bool {
    match m.result {
        Some(v) => match json_member(v, "success"@) {
            Some(flag) => json_bool(flag) == Some(true),
            None => false,
        },
        None => false,
    }
}

impl IPCMessage {
    /// Whether the envelope reports success.
    pub fn succeeded(&self) -> (r: bool)
        ensures
            r == reports_success(self@),
    {
        match &self.result {
            Some(v) => match member(v, "success") {
                Some(flag) => match as_bool(flag) {
                    Some(b) => b,
                    None => false,
                },
                None => false,
            },
            None => false,
        }
    }
}

/// The member of `v` under `key` that counts as given: one that is there and
/// is not `null`.
pub open spec fn given(v: Value, key: Seq<char>) -> Option<Value> {
    match json_member(v, key) {
        Some(m) => if json_is_null(m) { None } else { Some(m) },
        None => None,
    }
}

/// Whether the JSON value `v` has the shape of a command envelope: an object
/// whose `id`, where given, is an unsigned integer and whose `type` and
/// `method`, where given, are strings.
pub open spec fn fits_schema(v: Value) -> bool {
    &&& json_is_object(v)
    &&& given(v, "id"@) matches Some(m) ==> json_u64(m) is Some
    &&& given(v, "type"@) matches Some(m) ==> json_str(m) is Some
    &&& given(v, "method"@) matches Some(m) ==> json_str(m) is Some
}

/// The command envelope that a JSON value of that shape holds. A `type` that
/// is not given reads as the empty tag; members that the schema does not name
/// are passed over.
pub open spec fn envelope_of(v: Value) -> EnvelopeView {
    EnvelopeView {
        id: match given(v, "id"@) {
            Some(m) => json_u64(m),
            None => None,
        },
        kind: match given(v, "type"@) {
            Some(m) => json_str(m).unwrap(),
            None => Seq::empty(),
        },
        method: match given(v, "method"@) {
            Some(m) => json_str(m),
            None => None,
        },
        params: given(v, "params"@),
        result: None,
        error: None,
    }
}

/// What decoding makes of a line.
pub open spec fn decode_spec(line: Seq<char>) -> Result<EnvelopeView, DecodeError> {
    match json_parse(line) {
        None => Err(DecodeError::Syntax),
        Some(v) => if fits_schema(v) {
            Ok(envelope_of(v))
        } else {
            Err(DecodeError::Schema)
        },
    }
}

/// Looks up a member and passes over `null`.
fn lookup<'a>(v: &'a Value, key: &str) -> (r: Option<&'a Value>)
    ensures
        match r {
            Some(m) => given(*v, key@) == Some(*m),
            None => given(*v, key@) is None,
        },
{
    match member(v, key) {
        Some(m) => if is_null(m) {
            None
        } else {
            Some(m)
        },
        None => None,
    }
}

/// Reads a command envelope out of a parsed JSON value.
///
/// Fails with `DecodeError::Schema` exactly when `v` does not have the shape
/// of a command envelope.
pub fn envelope_from_value(v: &Value) -> (r: Result<IPCMessage, DecodeError>)
    ensures
        match r {
            Ok(m) => fits_schema(*v) && m@ == envelope_of(*v),
            Err(e) => !fits_schema(*v) && e == DecodeError::Schema,
        },
{
    if !is_object(v) {
        return Err(DecodeError::Schema);
    }
    let id: Option<u64> = match lookup(v, "id") {
        Some(m) => match as_u64(m) {
            Some(n) => Some(n),
            None => {
                return Err(DecodeError::Schema);
            },
        },
        None => None,
    };
    let kind: String = match lookup(v, "type") {
        Some(m) => match as_str(m) {
            Some(s) => s.to_owned(),
            None => {
                return Err(DecodeError::Schema);
            },
        },
        None => String::new(),
    };
    let method: Option<String> = match lookup(v, "method") {
        Some(m) => match as_str(m) {
            Some(s) => Some(s.to_owned()),
            None => {
                return Err(DecodeError::Schema);
            },
        },
        None => None,
    };
    let params: Option<Value> = match lookup(v, "params") {
        Some(m) => Some(duplicate(m)),
        None => None,
    };
    Ok(IPCMessage { id, kind, method, params, result: None, error: None })
}

/// Decodes one input line as a command envelope.
///
/// Fails with `DecodeError::Syntax` when the line is not JSON and with
/// `DecodeError::Schema` when it is JSON of another shape.
pub fn decode(line: &str) -> (r: Result<IPCMessage, DecodeError>)
    ensures
        match r {
            Ok(m) => decode_spec(line@) == Ok::<EnvelopeView, DecodeError>(m@),
            Err(e) => decode_spec(line@) == Err::<EnvelopeView, DecodeError>(e),
        },
{
    match parse(line) {
        Ok(v) => envelope_from_value(&v),
        Err(_) => Err(DecodeError::Syntax),
    }
}

/// The text of an envelope's `id` member, with the comma that follows it.
pub open spec fn id_part(id: Option<u64>) -> Seq<char> {
    match id {
        Some(n) => "\"id\":"@ + decimal(n as nat) + ","@,
        None => Seq::empty(),
    }
}

/// The correlation token goes out as it came in: the digits written for the
/// `id` member spell the token, so envelopes whose `id` members read alike
/// carry the same token.
pub proof fn lemma_id_written_verbatim(a: u64, b: u64)
    ensures
        decimal_value(decimal(a as nat)) == a,
        id_part(Some(a)) == id_part(Some(b)) ==> a == b,
{
    lemma_decimal_value(a as nat);
    lemma_decimal_value(b as nat);
    if id_part(Some(a)) == id_part(Some(b)) {
        let head = "\"id\":"@;
        let tail = ","@;
        let da = decimal(a as nat);
        let db = decimal(b as nat);
        let whole = id_part(Some(a));
        assert(whole.len() == head.len() + da.len() + tail.len());
        assert(whole.len() == head.len() + db.len() + tail.len());
        assert(da =~= whole.subrange(head.len() as int, (head.len() + da.len()) as int));
        assert(db =~= whole.subrange(head.len() as int, (head.len() + db.len()) as int));
    }
}

/// The text of an envelope's `method` member, with the comma before it.
pub open spec fn method_part(method: Option<Seq<char>>) -> Seq<char> {
    match method {
        Some(s) => ",\"method\":"@ + json_quoted(s),
        None => Seq::empty(),
    }
}

/// The text of an envelope's `result` member, with the comma before it.
pub open spec fn result_part(result: Option<Value>) -> Seq<char> {
    match result {
        Some(v) => ",\"result\":"@ + json_text(v),
        None => Seq::empty(),
    }
}

/// The text of an envelope's `error` member, with the comma before it.
pub open spec fn error_part(error: Option<ErrorView>) -> Seq<char> {
    match error {
        Some(e) => ",\"error\":{\"code\":"@ + signed_decimal(e.code as int)
            + ",\"message\":"@ + json_quoted(e.message) + "}"@,
        None => Seq::empty(),
    }
}

/// The line that carries a response envelope: one JSON object with the
/// members `id`, `type`, `method`, `result` and `error`, in this order, of
/// which `type` is always written and each of the others only where the
/// envelope has it.
pub open spec fn encode_spec(m: EnvelopeView) -> Seq<char> {
    "{"@ + id_part(m.id) + "\"type\":"@ + json_quoted(m.kind) + method_part(m.method)
        + result_part(m.result) + error_part(m.error) + "}"@
}

/// Encodes a response envelope as one line, without the line's end.
pub fn encode(msg: &IPCMessage) -> (line: String)
    ensures
        line@ == encode_spec(msg@),
{
    let mut line = String::from_str("{");
    match msg.id {
        Some(n) => {
            line.append("\"id\":");
            append_decimal(&mut line, n);
            line.append(",");
        },
        None => {},
    }
    assert(line@ =~= "{"@ + id_part(msg@.id));
    line.append("\"type\":");
    line.append(text_of(&string_value(msg.kind.as_str())).as_str());
    let ghost upto_kind = line@;
    assert(upto_kind =~= "{"@ + id_part(msg@.id) + "\"type\":"@ + json_quoted(msg@.kind));
    match &msg.method {
        Some(s) => {
            line.append(",\"method\":");
            line.append(text_of(&string_value(s.as_str())).as_str());
        },
        None => {},
    }
    let ghost upto_method = line@;
    assert(upto_method =~= upto_kind + method_part(msg@.method));
    match &msg.result {
        Some(v) => {
            line.append(",\"result\":");
            line.append(text_of(v).as_str());
        },
        None => {},
    }
    let ghost upto_result = line@;
    assert(upto_result =~= upto_method + result_part(msg@.result));
    match &msg.error {
        Some(e) => {
            line.append(",\"error\":{\"code\":");
            append_signed_decimal(&mut line, e.code);
            line.append(",\"message\":");
            line.append(text_of(&string_value(e.message.as_str())).as_str());
            line.append("}");
        },
        None => {},
    }
    assert(line@ =~= upto_result + error_part(msg@.error));
    line.append("}");
    line
}

} // verus!
