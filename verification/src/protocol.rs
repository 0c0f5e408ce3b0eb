use vstd::prelude::*;

use crate::json::{json_document, parse_json, JsonValue};
use crate::text::{is_blank, is_blank_text, is_white_space};
use vstd::string::StringExecFns;

verus! {

/// Strict protocol output:
/// - `{"message":{"content":"..."}}`
/// - `{"tool_call":{"tool":"...","args":{...}}}`
#[derive(Debug, Clone)]
pub enum Output {
    Message { content: String },
    ToolCall { tool: String, args: JsonValue },
}

/// Why a brain output was rejected.
#[derive(Debug, PartialEq)]
pub enum ProtocolError {
    /// The text is not JSON; holds what the JSON reader reported.
    InvalidJson(String),
    /// The document holds both `message` and `tool_call`, or neither.
    NotExactlyOne,
    /// `message.content` is absent or not a string.
    MessageContentMissing,
    /// `tool_call.tool` is absent or not a string.
    ToolNameMissing,
    /// `tool_call.tool` is blank or longer than 64 bytes.
    InvalidToolName,
    /// `tool_call.args` is present and not an object.
    ArgsNotObject,
}

impl ProtocolError {
    /// The text that reports this error.
    pub open spec fn text(self) -> Seq<char> {
        match self {
            ProtocolError::InvalidJson(detail) => "invalid json: "@ + detail@,
            ProtocolError::NotExactlyOne => "must contain exactly one of message or tool_call"@,
            ProtocolError::MessageContentMissing => "message.content missing"@,
            ProtocolError::ToolNameMissing => "tool_call.tool missing"@,
            ProtocolError::InvalidToolName => "invalid tool name"@,
            ProtocolError::ArgsNotObject => "tool_call.args must be an object"@,
        }
    }

    /// The text that reports this error.
    pub fn message(&self) -> (r: String)
        ensures
            r@ == self.text(),
    {
        match self {
            ProtocolError::InvalidJson(detail) => {
                let mut s = "invalid json: ".to_owned();
                s.append(detail.as_str());
                s
            },
            ProtocolError::NotExactlyOne => "must contain exactly one of message or tool_call".to_owned(),
            ProtocolError::MessageContentMissing => "message.content missing".to_owned(),
            ProtocolError::ToolNameMissing => "tool_call.tool missing".to_owned(),
            ProtocolError::InvalidToolName => "invalid tool name".to_owned(),
            ProtocolError::ArgsNotObject => "tool_call.args must be an object".to_owned(),
        }
    }
}

/// The longest tool name accepted, in UTF-8 bytes.
pub const MAX_TOOL_NAME_BYTES: usize = 64;

/// What the protocol makes of a document.
pub enum Reading {
    /// A message with this content.
    Message(Seq<char>),
    /// A call of this tool; the `args` member, where there is one.
    ToolCall(Seq<char>, Option<JsonValue>),
    /// A rejection.
    Rejected(ProtocolError),
}

/// The characters of the string member `key` of `v`.
pub open spec fn string_member(v: JsonValue, key: Seq<char>) -> Option<Seq<char>> {
    match v.field(key) {
        Some(x) => x.text(),
        None => None,
    }
}

/// A tool name is valid when it is not blank and has at most 64 bytes in UTF-8.
pub open spec fn valid_tool_name(name: Seq<char>) -> bool {
    !is_blank_text(name) && vstd::utf8::encode_utf8(name).len() <= MAX_TOOL_NAME_BYTES
}

/// The strict reading of a JSON document: exactly one of `message` and
/// `tool_call`; a message needs a string `content`; a tool call needs a
/// valid string `tool`, and takes `args`, which must be an object, as it
/// stands (an empty object where it is absent).
pub open spec fn strict_reading(doc: JsonValue) -> Reading {
    let message = doc.field("message"@);
    let call = doc.field("tool_call"@);
    if message.is_some() == call.is_some() {
        Reading::Rejected(ProtocolError::NotExactlyOne)
    } else if message.is_some() {
        match string_member(message.unwrap(), "content"@) {
            Some(content) => Reading::Message(content),
            None => Reading::Rejected(ProtocolError::MessageContentMissing),
        }
    } else {
        match string_member(call.unwrap(), "tool"@) {
            None => Reading::Rejected(ProtocolError::ToolNameMissing),
            Some(name) => if !valid_tool_name(name) {
                Reading::Rejected(ProtocolError::InvalidToolName)
            } else {
                match call.unwrap().field("args"@) {
                    Some(args) => if is_object(args) {
                        Reading::ToolCall(name, Some(args))
                    } else {
                        Reading::Rejected(ProtocolError::ArgsNotObject)
                    },
                    None => Reading::ToolCall(name, None),
                }
            },
        }
    }
}

/// Whether `v` is an object.
pub open spec fn is_object(v: JsonValue) -> bool {
    v is Object
}

/// Whether `args` is an object without members.
pub open spec fn is_empty_object(args: JsonValue) -> bool {
    args matches JsonValue::Object(members) && members@.len() == 0
}

/// Whether `out` is the output that `reading` describes.
pub open spec fn output_matches(out: Output, reading: Reading) -> bool {
    match out {
        Output::Message { content } => reading == Reading::Message(content@),
        Output::ToolCall { tool, args } => match reading {
            Reading::ToolCall(name, given) => {
                &&& tool@ == name
                &&& match given {
                    Some(a) => args == a,
                    None => is_empty_object(args),
                }
            },
            _ => false,
        },
    }
}

/// Whether `r` is what the protocol makes of the document `doc`.
pub open spec fn read_as(doc: JsonValue, r: Result<Output, ProtocolError>) -> bool {
    match r {
        Ok(out) => output_matches(out, strict_reading(doc)),
        Err(e) => strict_reading(doc) == Reading::Rejected(e),
    }
}

/// Reads a JSON document strictly as a brain output.
pub fn parse_strict_value(doc: JsonValue) -> (r: Result<Output, ProtocolError>)
    ensures
        read_as(doc, r),
{
    let has_msg = doc.get("message").is_some();
    let has_tool = doc.get("tool_call").is_some();
    if has_msg == has_tool {
        return Err(ProtocolError::NotExactlyOne);
    }
    if has_msg {
        let content = match doc.get("message") {
            Some(m) => match m.get("content") {
                Some(c) => c.as_str(),
                None => None,
            },
            None => None,
        };
        return match content {
            Some(text) => Ok(Output::Message { content: text.to_owned() }),
            None => Err(ProtocolError::MessageContentMissing),
        };
    }
    let call = match doc.take("tool_call") {
        Some(c) => c,
        None => {
            // `tool_call` was found above, so this arm is never taken.
            proof {
                assert(false);
            }
            return Err(ProtocolError::NotExactlyOne);
        },
    };
    let tool: String = match call.get("tool") {
        Some(t) => match t.as_str() {
            Some(text) => text.to_owned(),
            None => return Err(ProtocolError::ToolNameMissing),
        },
        None => return Err(ProtocolError::ToolNameMissing),
    };
    let args = match call.take("args") {
        Some(a) => a,
        None => JsonValue::Object(Vec::new()),
    };
    if is_blank(tool.as_str()) || tool.as_str().as_bytes().len() > MAX_TOOL_NAME_BYTES {
        return Err(ProtocolError::InvalidToolName);
    }
    if !matches!(args, JsonValue::Object(_)) {
        return Err(ProtocolError::ArgsNotObject);
    }
    Ok(Output::ToolCall { tool, args })
}

/// Parses a brain output: the text must be one JSON document, read as
/// `strict_reading` says.
pub fn parse_strict(s: &str) -> (r: Result<Output, ProtocolError>)
    ensures
        match json_document(s@) {
            Ok(doc) => read_as(doc, r),
            Err(detail) => r matches Err(ProtocolError::InvalidJson(d)) && d@ == detail,
        },
{
    match parse_json(s) {
        Ok(doc) => parse_strict_value(doc),
        Err(detail) => Err(ProtocolError::InvalidJson(detail)),
    }
}

/// A document that holds both `message` and `tool_call` is rejected as
/// ambiguous, whatever else it holds.
pub proof fn ambiguous_document_is_rejected(doc: JsonValue, r: Result<Output, ProtocolError>)
    requires
        doc.field("message"@) is Some,
        doc.field("tool_call"@) is Some,
        read_as(doc, r),
    ensures
        r == Err::<Output, ProtocolError>(ProtocolError::NotExactlyOne),
{
}

/// A tool call whose `args` is present and is not an object is rejected.
pub proof fn non_object_args_are_rejected(doc: JsonValue, r: Result<Output, ProtocolError>)
    requires
        doc.field("message"@) is None,
        doc.field("tool_call"@) matches Some(call) && {
            &&& string_member(call, "tool"@) matches Some(name) && valid_tool_name(name)
            &&& call.field("args"@) matches Some(args) && !is_object(args)
        },
        read_as(doc, r),
    ensures
        r == Err::<Output, ProtocolError>(ProtocolError::ArgsNotObject),
{
}

/// A document that holds neither `message` nor `tool_call` is rejected.
pub proof fn empty_document_is_rejected(doc: JsonValue, r: Result<Output, ProtocolError>)
    requires
        doc.field("message"@) is None,
        doc.field("tool_call"@) is None,
        read_as(doc, r),
    ensures
        r == Err::<Output, ProtocolError>(ProtocolError::NotExactlyOne),
{
}

/// An accepted message comes from a document with `message` and without
/// `tool_call`, and carries exactly the text of `message.content`.
pub proof fn accepted_message_is_faithful(doc: JsonValue, r: Result<Output, ProtocolError>)
    requires
        read_as(doc, r),
        r matches Ok(Output::Message { .. }),
    ensures
        doc.field("message"@) is Some,
        doc.field("tool_call"@) is None,
        r matches Ok(Output::Message { content })
            && string_member(doc.field("message"@).unwrap(), "content"@) == Some(content@),
{
}

/// An accepted tool call comes from a document with `tool_call` and without
/// `message`; its tool is the text of `tool_call.tool`, which is not blank
/// and has at most 64 bytes; its arguments are `tool_call.args`, an object, or an empty
/// object where there is none.
pub proof fn accepted_tool_call_is_valid(doc: JsonValue, r: Result<Output, ProtocolError>)
    requires
        read_as(doc, r),
        r matches Ok(Output::ToolCall { .. }),
    ensures
        doc.field("message"@) is None,
        doc.field("tool_call"@) is Some,
        r matches Ok(Output::ToolCall { tool, args }) && {
            let call = doc.field("tool_call"@).unwrap();
            &&& string_member(call, "tool"@) == Some(tool@)
            &&& !is_blank_text(tool@)
            &&& vstd::utf8::encode_utf8(tool@).len() <= 64
            &&& is_object(args)
            &&& match call.field("args"@) {
                Some(a) => args == a,
                None => is_empty_object(args),
            }
        },
{
}


/// Every message is accepted: a document with `message` and without
/// `tool_call`, whose `message.content` is a string, is read as a message
/// with exactly that content, whatever its length or characters.
pub proof fn every_message_is_accepted(doc: JsonValue, r: Result<Output, ProtocolError>)
    requires
        read_as(doc, r),
        doc.field("tool_call"@) is None,
        doc.field("message"@) matches Some(m) && m.field("content"@) matches Some(JsonValue::Str(_)),
    ensures
        r matches Ok(Output::Message { content }) && doc.field("message"@) matches Some(m)
            && m.field("content"@) matches Some(JsonValue::Str(s)) && content@ == s@,
{
}

/// Every well-formed tool call is accepted: a document with `tool_call` and
/// without `message`, whose `tool_call.tool` is a string that holds a
/// character other than white space and has at most 64 bytes in UTF-8, and
/// whose `tool_call.args` is absent or an object (empty or not), is read as
/// a call of exactly that tool with exactly those arguments (an empty
/// object where they are absent).
pub proof fn every_tool_call_is_accepted(doc: JsonValue, r: Result<Output, ProtocolError>)
    requires
        read_as(doc, r),
        doc.field("message"@) is None,
        doc.field("tool_call"@) matches Some(call) && {
            &&& call.field("tool"@) matches Some(JsonValue::Str(t)) && {
                &&& exists|i: int| 0 <= i < t@.len() && !is_white_space(#[trigger] t@[i])
                &&& vstd::utf8::encode_utf8(t@).len() <= 64
            }
            &&& (call.field("args"@) is None || call.field("args"@) matches Some(JsonValue::Object(_)))
        },
    ensures
        r matches Ok(Output::ToolCall { tool, args }) && doc.field("tool_call"@) matches Some(call)
            && call.field("tool"@) matches Some(JsonValue::Str(t)) && {
            &&& tool@ == t@
            &&& call.field("args"@) matches Some(a) ==> args == a
            &&& call.field("args"@) is None ==> (args matches JsonValue::Object(members)
                && members@.len() == 0)
        },
{
}

} // verus!
