//! Channel boundary decisions: the session channel's loosely typed
//! command frames are decoded once, here, into a closed tagged-variant
//! type, and the read endpoint's method and path are dispatched to a
//! closed set of routes. The orchestrator's public contract stays
//! strongly typed.
use vstd::prelude::*;
use crate::codec::text_eq;
use crate::message::opt_view;

verus! {

/// An inbound session-channel command: send a message, read the
/// history, or something this service does not know and ignores.
#[derive(Debug, Clone)]
pub enum Command {
    SendMessage { content: String },
    GetMessages,
    Unknown,
}

/// What a command frame means once its discriminator and content
/// fields are in hand: `send_message` needs its content; any other or
/// missing discriminator is unknown and is ignored without an error
/// frame.
pub fn interpret_command(ty: Option<String>, content: Option<String>) -> (cmd: Command)
    ensures
        match ty {
            None => cmd == Command::Unknown,
            Some(t) => if t@ == "send_message"@ {
                match content {
                    Some(c) => cmd matches Command::SendMessage { content: cc } && cc == c,
                    None => cmd == Command::Unknown,
                }
            } else if t@ == "get_messages"@ {
                cmd == Command::GetMessages
            } else {
                cmd == Command::Unknown
            },
        },
{
    proof {
        reveal_strlit("send_message");
        reveal_strlit("get_messages");
    }
    match ty {
        None => Command::Unknown,
        Some(t) => {
            if text_eq(t.as_str(), "send_message") {
                match content {
                    Some(c) => Command::SendMessage { content: c },
                    None => Command::Unknown,
                }
            } else if text_eq(t.as_str(), "get_messages") {
                Command::GetMessages
            } else {
                Command::Unknown
            }
        },
    }
}

/// The `type` discriminator of an inbound frame: serde_json parsing is
/// a deterministic function of the bytes, so the field is too.
pub uninterp spec fn frame_type_field(bytes: Seq<u8>) -> Option<Seq<char>>;

/// The `content` field of an inbound frame.
pub uninterp spec fn frame_content_field(bytes: Seq<u8>) -> Option<Seq<char>>;

/// Relies on serde_json::from_slice, Value::get and Value::as_str: the
/// type and content fields of a frame, both functions of the bytes
/// alone.
#[verifier::external_body]
fn read_frame_fields(bytes: &Vec<u8>) -> (r: (Option<String>, Option<String>))
    ensures
        opt_view(r.0) == frame_type_field(bytes@),
        opt_view(r.1) == frame_content_field(bytes@),
{
    let v: Option<serde_json::Value> = serde_json::from_slice(bytes.as_slice()).ok();
    let ty = v.as_ref().and_then(|v| v.get("type")).and_then(|t| t.as_str()).map(
        |t| t.to_owned(),
    );
    let content = v.as_ref().and_then(|v| v.get("content")).and_then(|c| c.as_str()).map(
        |c| c.to_owned(),
    );
    (ty, content)
}

/// Decodes one inbound text frame: reads the `type` discriminator and
/// the `content` field and interprets them, exactly as
/// `interpret_command` fixes.
pub fn decode_command(frame: &Vec<u8>) -> (cmd: Command)
    ensures
        match frame_type_field(frame@) {
            None => cmd == Command::Unknown,
            Some(t) => if t == "send_message"@ {
                match frame_content_field(frame@) {
                    Some(c) => cmd matches Command::SendMessage { content: cc } && cc@ == c,
                    None => cmd == Command::Unknown,
                }
            } else if t == "get_messages"@ {
                cmd == Command::GetMessages
            } else {
                cmd == Command::Unknown
            },
        },
{
    let (ty, content) = read_frame_fields(frame);
    interpret_command(ty, content)
}

/// Where the read endpoint dispatches a request: one of the fixed
/// documents, the history query, or nothing this service serves.
#[derive(Clone, Copy, PartialEq, Eq, Structural, Debug)]
pub enum Route {
    Index,
    Styles,
    Script,
    ApiMessages,
    NotFound,
}

/// The dispatch table of the read endpoint.
pub open spec fn spec_route(method: Seq<char>, uri: Seq<char>) -> Route {
    if method == "GET"@ && (uri == "/"@ || uri == "/index.html"@) {
        Route::Index
    } else if method == "GET"@ && uri == "/styles.css"@ {
        Route::Styles
    } else if method == "GET"@ && uri == "/chat.js"@ {
        Route::Script
    } else if method == "GET"@ && uri == "/api/messages"@ {
        Route::ApiMessages
    } else {
        Route::NotFound
    }
}

/// Dispatches a request by method and path.
pub fn route_request(method: &str, uri: &str) -> (r: Route)
    ensures
        r == spec_route(method@, uri@),
{
    if !text_eq(method, "GET") {
        return Route::NotFound;
    }
    if text_eq(uri, "/") || text_eq(uri, "/index.html") {
        Route::Index
    } else if text_eq(uri, "/styles.css") {
        Route::Styles
    } else if text_eq(uri, "/chat.js") {
        Route::Script
    } else if text_eq(uri, "/api/messages") {
        Route::ApiMessages
    } else {
        Route::NotFound
    }
}

} // verus!
