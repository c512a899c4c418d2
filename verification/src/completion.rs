//! The completion client: adapts a reconstructed history into the
//! external completion API's minimal turn shape (role and content
//! only), frames the request body, and extracts the reply text from
//! the API's response body. An empty history is a valid request and is
//! forwarded as-is.
use vstd::prelude::*;
use crate::message::{Message, Role, opt_view};
use crate::store::{append_escaped, json_escaped};

verus! {

/// How a completion call fails: the call could not complete, or the
/// reply lacked the expected text field.
#[derive(Clone, Copy, PartialEq, Eq, Structural, Debug)]
pub enum CompletionError {
    TransportFailure,
    MalformedResponse,
}

/// One turn in the completion API's wire shape: role and content only;
/// identifiers and parent links are not part of the payload.
#[derive(Debug, Clone)]
pub struct AnthropicMessage {
    pub role: String,
    pub content: String,
}

/// The role names the completion API expects.
pub open spec fn spec_role_name(role: Role) -> Seq<char> {
    match role {
        Role::User => "user"@,
        Role::Assistant => "assistant"@,
    }
}

pub fn role_name(role: Role) -> (s: &'static str)
    ensures
        s@ == spec_role_name(role),
{
    match role {
        Role::User => "user",
        Role::Assistant => "assistant",
    }
}

/// Maps each history entry to the API's turn shape, in order, keeping
/// role and content and dropping identifier and parent.
pub fn build_completion_turns(history: &Vec<Message>) -> (r: Vec<AnthropicMessage>)
    ensures
        r@.len() == history@.len(),
        forall|i: int|
            0 <= i < history@.len() ==> r@[i].role@ == spec_role_name(history@[i].role)
                && r@[i].content@ == history@[i].content@,
{
    let mut r: Vec<AnthropicMessage> = Vec::new();
    let n = history.len();
    let mut i: usize = 0;
    while i < n
        invariant
            n == history@.len(),
            i <= n,
            r@.len() == i,
            forall|j: int|
                0 <= j < i ==> r@[j].role@ == spec_role_name(history@[j].role)
                    && r@[j].content@ == history@[j].content@,
        decreases n - i,
    {
        let m = &history[i];
        r.push(
            AnthropicMessage {
                role: String::from_str(role_name(m.role)),
                content: m.content.clone(),
            },
        );
        i = i + 1;
    }
    r
}

/// One turn as it appears in the request body.
pub open spec fn turn_item(t: AnthropicMessage) -> Seq<char> {
    "{\"role\":\""@ + json_escaped(t.role@) + "\",\"content\":\""@ + json_escaped(t.content@)
        + "\"}"@
}

/// The turns of the request body, comma-separated, in order.
pub open spec fn turn_list(ts: Seq<AnthropicMessage>) -> Seq<char>
    decreases ts.len(),
{
    if ts.len() == 0 {
        Seq::empty()
    } else if ts.len() == 1 {
        turn_item(ts[0])
    } else {
        turn_list(ts.drop_last()) + seq![','] + turn_item(ts.last())
    }
}

/// The completion request body: the fixed model identifier the service
/// is configured with, the token limit, and the ordered turns.
pub open spec fn spec_completion_request(model: Seq<char>, ts: Seq<AnthropicMessage>) -> Seq<
    char,
> {
    "{\"model\":\""@ + json_escaped(model) + "\",\"max_tokens\":1024,\"messages\":["@
        + turn_list(ts) + "]}"@
}

fn append_turn(s: &mut String, t: &AnthropicMessage)
    ensures
        final(s)@ == old(s)@ + turn_item(*t),
{
    proof {
        reveal_strlit("{\"role\":\"");
        reveal_strlit("\",\"content\":\"");
        reveal_strlit("\"}");
    }
    s.append("{\"role\":\"");
    append_escaped(s, t.role.as_str());
    s.append("\",\"content\":\"");
    append_escaped(s, t.content.as_str());
    s.append("\"}");
    proof {
        assert(s@ =~= old(s)@ + turn_item(*t));
    }
}

/// Frames the request body for one completion call over the given
/// turns, with the configured model identifier.
pub fn emit_completion_request(model: &str, turns: &Vec<AnthropicMessage>) -> (s: String)
    ensures
        s@ == spec_completion_request(model@, turns@),
{
    proof {
        reveal_strlit("{\"model\":\"");
        reveal_strlit("\",\"max_tokens\":1024,\"messages\":[");
        reveal_strlit(",");
        reveal_strlit("]}");
    }
    let mut s = String::from_str("{\"model\":\"");
    append_escaped(&mut s, model);
    s.append("\",\"max_tokens\":1024,\"messages\":[");
    let ghost prefix = s@;
    proof {
        assert(prefix + turn_list(turns@.subrange(0, 0)) =~= prefix);
    }
    let n = turns.len();
    let mut i: usize = 0;
    while i < n
        invariant
            n == turns@.len(),
            i <= n,
            s@ == prefix + turn_list(turns@.subrange(0, i as int)),
        decreases n - i,
    {
        if i > 0 {
            proof {
                reveal_strlit(",");
            }
            s.append(",");
        }
        append_turn(&mut s, &turns[i]);
        i = i + 1;
        proof {
            assert(turns@.subrange(0, i as int).drop_last() =~= turns@.subrange(
                0,
                i as int - 1,
            ));
            assert(turns@.subrange(0, i as int).last() == turns@[i - 1]);
            assert(s@ =~= prefix + turn_list(turns@.subrange(0, i as int)));
        }
    }
    proof {
        assert(turns@.subrange(0, n as int) =~= turns@);
    }
    s.append("]}");
    proof {
        assert(s@ =~= spec_completion_request(model@, turns@));
    }
    s
}

/// The first text segment of a completion reply body: the `text` field
/// of the first element of the body's content list. serde_json parsing
/// is a deterministic function of the bytes, so the field is too.
pub uninterp spec fn reply_text_field(bytes: Seq<u8>) -> Option<Seq<char>>;

/// Relies on serde_json::from_slice, Value::get and Value::as_str: the
/// text field of the first content element, a function of the bytes
/// alone.
#[verifier::external_body]
fn read_reply_body(bytes: &Vec<u8>) -> (r: Option<String>)
    ensures
        opt_view(r) == reply_text_field(bytes@),
{
    let v: Option<serde_json::Value> = serde_json::from_slice(bytes.as_slice()).ok();
    v.as_ref().and_then(|v| v.get("content")).and_then(|c| c.get(0)).and_then(
        |first| first.get("text"),
    ).and_then(|t| t.as_str()).map(|t| t.to_owned())
}

/// What an extracted reply field means: present text is the reply; an
/// absent text field is a malformed response.
pub fn reply_outcome(text: Option<String>) -> (r: Result<String, CompletionError>)
    ensures
        r == (match text {
            Some(t) => Ok::<String, CompletionError>(t),
            None => Err::<String, CompletionError>(CompletionError::MalformedResponse),
        }),
{
    match text {
        Some(t) => Ok(t),
        None => Err(CompletionError::MalformedResponse),
    }
}

/// Extracts the first text segment of a completion reply body. The
/// reply is exactly that text when the body carries it; any shape that
/// lacks it is a malformed response. The transport itself reports
/// `TransportFailure` before any body exists.
pub fn extract_reply_text(body: &Vec<u8>) -> (r: Result<String, CompletionError>)
    ensures
        reply_text_field(body@) matches Some(t) ==> r matches Ok(s) && s@ == t,
        reply_text_field(body@) is None ==> r == Err::<String, CompletionError>(
            CompletionError::MalformedResponse,
        ),
{
    reply_outcome(read_reply_body(body))
}

} // verus!
