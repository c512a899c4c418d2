//! The store client: it frames get/put operations in the key-value
//! collaborator's JSON request envelope and interprets the response
//! envelope, failing predictably when the backend reports non-success
//! or answers with an envelope that lacks the promised fields. The
//! envelope text it emits is fully specified; responses are parsed with
//! serde_json behind trusted wrappers, and every decision taken on the
//! parsed fields is verified.
use vstd::prelude::*;
use crate::codec::{
    dec_digits, decode_record, rec_fits, spec_encode_record, text_eq, u64_to_dec,
};
use crate::message::{Chat, Message, Role, opt_view};

verus! {

/// How a store operation fails: the transport was unavailable, the
/// backend reported non-success on a put, the key was absent on a get,
/// the response envelope or payload could not be decoded, or a
/// defensive traversal cap was exceeded while walking parent links.
#[derive(Clone, Copy, PartialEq, Eq, Structural, Debug)]
pub enum StoreError {
    Unavailable,
    Rejected,
    NotFound,
    MalformedResponse,
    CycleSuspected,
}

/// A hexadecimal digit character, lower case.
pub open spec fn hex_digit_char(d: nat) -> char
    recommends
        d < 16,
{
    if d == 0 {
        '0'
    } else if d == 1 {
        '1'
    } else if d == 2 {
        '2'
    } else if d == 3 {
        '3'
    } else if d == 4 {
        '4'
    } else if d == 5 {
        '5'
    } else if d == 6 {
        '6'
    } else if d == 7 {
        '7'
    } else if d == 8 {
        '8'
    } else if d == 9 {
        '9'
    } else if d == 10 {
        'a'
    } else if d == 11 {
        'b'
    } else if d == 12 {
        'c'
    } else if d == 13 {
        'd'
    } else if d == 14 {
        'e'
    } else {
        'f'
    }
}

/// How one character appears inside a JSON string literal.
pub open spec fn esc_char(c: char) -> Seq<char> {
    if c == '"' {
        seq!['\\', '"']
    } else if c == '\\' {
        seq!['\\', '\\']
    } else if (c as u32) < 32 {
        seq!['\\', 'u', '0', '0', hex_digit_char(((c as u32) / 16) as nat), hex_digit_char(
            ((c as u32) % 16) as nat,
        )]
    } else {
        seq![c]
    }
}

/// A character sequence escaped for inclusion in a JSON string literal.
pub open spec fn json_escaped(s: Seq<char>) -> Seq<char>
    decreases s.len(),
{
    if s.len() == 0 {
        Seq::empty()
    } else {
        json_escaped(s.drop_last()) + esc_char(s.last())
    }
}

/// The request envelope that asks the backend to store a payload: the
/// payload bytes are carried as a JSON array of byte values.
pub open spec fn spec_put_request(payload: Seq<u8>) -> Seq<char> {
    "{\"_type\":\"request\",\"data\":{\"Put\":["@ + byte_list(payload) + "]}}"@
}

/// The request envelope that asks the backend for the record under a key.
pub open spec fn spec_get_request(id: Seq<char>) -> Seq<char> {
    "{\"_type\":\"request\",\"data\":{\"Get\":\""@ + json_escaped(id) + "\"}}"@
}

/// Byte values as comma-separated decimal numbers.
pub open spec fn byte_list(bytes: Seq<u8>) -> Seq<char>
    decreases bytes.len(),
{
    if bytes.len() == 0 {
        Seq::empty()
    } else if bytes.len() == 1 {
        dec_digits(bytes[0] as nat)
    } else {
        byte_list(bytes.drop_last()) + seq![','] + dec_digits(bytes.last() as nat)
    }
}

/// Relies on String::push: appends the given character to the string.
#[verifier::external_body]
fn push_char(out: &mut String, c: char)
    ensures
        final(out)@ == old(out)@.push(c),
{
    out.push(c);
}

fn hex_digit(d: u32) -> (c: char)
    requires
        d < 16,
    ensures
        c == hex_digit_char(d as nat),
{
    match d {
        0 => '0',
        1 => '1',
        2 => '2',
        3 => '3',
        4 => '4',
        5 => '5',
        6 => '6',
        7 => '7',
        8 => '8',
        9 => '9',
        10 => 'a',
        11 => 'b',
        12 => 'c',
        13 => 'd',
        14 => 'e',
        _ => 'f',
    }
}

pub(crate) fn append_escaped(out: &mut String, s: &str)
    ensures
        final(out)@ == old(out)@ + json_escaped(s@),
{
    let n = s.unicode_len();
    let mut i: usize = 0;
    while i < n
        invariant
            n == s@.len(),
            i <= n,
            out@ == old(out)@ + json_escaped(s@.subrange(0, i as int)),
        decreases n - i,
    {
        let c = s.get_char(i);
        if c == '"' {
            proof {
                reveal_strlit("\\\"");
            }
            out.append("\\\"");
        } else if c == '\\' {
            proof {
                reveal_strlit("\\\\");
            }
            out.append("\\\\");
        } else if (c as u32) < 32 {
            proof {
                reveal_strlit("\\u00");
            }
            out.append("\\u00");
            push_char(out, hex_digit((c as u32) / 16));
            push_char(out, hex_digit((c as u32) % 16));
        } else {
            push_char(out, c);
        }
        i = i + 1;
        proof {
            assert(s@.subrange(0, i as int).drop_last() =~= s@.subrange(0, i as int - 1));
            assert(s@.subrange(0, i as int).last() == c);
            assert(out@ =~= old(out)@ + json_escaped(s@.subrange(0, i as int)));
        }
    }
    proof {
        assert(s@.subrange(0, n as int) =~= s@);
    }
}

/// Frames a payload in the collaborator's store-request envelope.
pub fn emit_put_request(payload: &Vec<u8>) -> (s: String)
    ensures
        s@ == spec_put_request(payload@),
{
    let mut s = String::from_str("{\"_type\":\"request\",\"data\":{\"Put\":[");
    let n = payload.len();
    let mut i: usize = 0;
    while i < n
        invariant
            n == payload@.len(),
            i <= n,
            s@ == "{\"_type\":\"request\",\"data\":{\"Put\":["@ + byte_list(
                payload@.subrange(0, i as int),
            ),
        decreases n - i,
    {
        if i > 0 {
            proof {
                reveal_strlit(",");
            }
            s.append(",");
        }
        let d = u64_to_dec(payload[i] as u64);
        s.append(d.as_str());
        i = i + 1;
        proof {
            assert(payload@.subrange(0, i as int).drop_last() =~= payload@.subrange(
                0,
                i as int - 1,
            ));
            assert(payload@.subrange(0, i as int).last() == payload@[i - 1]);
            assert(s@ =~= "{\"_type\":\"request\",\"data\":{\"Put\":["@ + byte_list(
                payload@.subrange(0, i as int),
            ));
        }
    }
    proof {
        assert(payload@.subrange(0, n as int) =~= payload@);
    }
    s.append("]}}");
    proof {
        assert(s@ =~= spec_put_request(payload@));
    }
    s
}

/// Frames a key in the collaborator's fetch-request envelope.
pub fn emit_get_request(id: &str) -> (s: String)
    ensures
        s@ == spec_get_request(id@),
{
    let mut s = String::from_str("{\"_type\":\"request\",\"data\":{\"Get\":\"");
    append_escaped(&mut s, id);
    s.append("\"}}");
    proof {
        assert(s@ =~= spec_get_request(id@));
    }
    s
}

/// The durable conversation-metadata document: the head pointer, or
/// null while the conversation is empty.
pub open spec fn spec_chat_doc(head: Option<Seq<char>>) -> Seq<char> {
    match head {
        None => "{\"head\":null}"@,
        Some(h) => "{\"head\":\""@ + json_escaped(h) + "\"}"@,
    }
}

/// Serializes the conversation metadata for its durable location,
/// written whenever the head changes.
pub fn emit_chat_doc(chat: &Chat) -> (s: String)
    ensures
        s@ == spec_chat_doc(opt_view(chat.head)),
{
    match &chat.head {
        None => String::from_str("{\"head\":null}"),
        Some(h) => {
            let mut s = String::from_str("{\"head\":\"");
            append_escaped(&mut s, h.as_str());
            s.append("\"}");
            proof {
                assert(s@ =~= spec_chat_doc(opt_view(chat.head)));
            }
            s
        },
    }
}

/// Reads the conversation metadata back: the head is whatever text
/// the document's head field holds; a missing or non-text field is an
/// empty conversation, matching a store that was never written.
pub fn decode_chat_doc(bytes: &Vec<u8>) -> (c: Chat)
    ensures
        opt_view(c.head) == chat_doc_head(bytes@),
{
    Chat { head: read_chat_doc(bytes) }
}

/// The status field of a response envelope: serde_json parsing is a
/// deterministic function of the bytes, so the field is too.
pub uninterp spec fn envelope_status(bytes: Seq<u8>) -> Option<Seq<char>>;

/// The key field of a put-response envelope.
pub uninterp spec fn envelope_key(bytes: Seq<u8>) -> Option<Seq<char>>;

/// The value field of a get-response envelope: the numbers of its JSON
/// array, present only when the field is an array of numbers.
pub uninterp spec fn envelope_value(bytes: Seq<u8>) -> Option<Seq<u64>>;

/// The head field of the conversation-metadata document.
pub uninterp spec fn chat_doc_head(bytes: Seq<u8>) -> Option<Seq<char>>;

/// The view of an optional number list.
pub open spec fn opt_nums_view(x: Option<Vec<u64>>) -> Option<Seq<u64>> {
    match x {
        Some(v) => Some(v@),
        None => None,
    }
}

/// Relies on serde_json::from_slice, Value::get and Value::as_str: the
/// status and key fields of a put-response envelope, both functions of
/// the bytes alone.
#[verifier::external_body]
fn read_put_envelope(bytes: &Vec<u8>) -> (r: (Option<String>, Option<String>))
    ensures
        opt_view(r.0) == envelope_status(bytes@),
        opt_view(r.1) == envelope_key(bytes@),
{
    let v: Option<serde_json::Value> = serde_json::from_slice(bytes.as_slice()).ok();
    let status = v.as_ref().and_then(|v| v.get("status")).and_then(|s| s.as_str()).map(
        |s| s.to_owned(),
    );
    let key = v.as_ref().and_then(|v| v.get("key")).and_then(|k| k.as_str()).map(
        |k| k.to_owned(),
    );
    (status, key)
}

/// Relies on serde_json::from_slice, Value::get, Value::as_str,
/// Value::as_array and Value::as_u64: the status field and the numbers
/// of the value array of a get-response envelope, both functions of
/// the bytes alone.
#[verifier::external_body]
fn read_get_envelope(bytes: &Vec<u8>) -> (r: (Option<String>, Option<Vec<u64>>))
    ensures
        opt_view(r.0) == envelope_status(bytes@),
        opt_nums_view(r.1) == envelope_value(bytes@),
{
    let v: Option<serde_json::Value> = serde_json::from_slice(bytes.as_slice()).ok();
    let status = v.as_ref().and_then(|v| v.get("status")).and_then(|s| s.as_str()).map(
        |s| s.to_owned(),
    );
    let value = v.as_ref().and_then(|v| v.get("value")).and_then(|a| a.as_array()).and_then(
        |a| a.iter().map(|e| e.as_u64()).collect::<Option<Vec<u64>>>(),
    );
    (status, value)
}

/// Relies on serde_json::from_slice, Value::get and Value::as_str: the
/// head field of the metadata document, a function of the bytes alone.
#[verifier::external_body]
fn read_chat_doc(bytes: &Vec<u8>) -> (r: Option<String>)
    ensures
        opt_view(r) == chat_doc_head(bytes@),
{
    let v: Option<serde_json::Value> = serde_json::from_slice(bytes.as_slice()).ok();
    v.as_ref().and_then(|v| v.get("head")).and_then(|h| h.as_str()).map(|h| h.to_owned())
}

/// The stored bytes carried by a value array: defined exactly when
/// every number is a byte value.
pub open spec fn bytes_of_nums(nums: Seq<u64>) -> Option<Seq<u8>> {
    if forall|i: int| 0 <= i < nums.len() ==> nums[i] <= 255 {
        Some(Seq::new(nums.len(), |i: int| nums[i] as u8))
    } else {
        None
    }
}

fn nums_to_bytes(nums: &Vec<u64>) -> (r: Option<Vec<u8>>)
    ensures
        r matches Some(b) ==> bytes_of_nums(nums@) == Some(b@),
        r is None ==> bytes_of_nums(nums@) is None,
{
    let mut out: Vec<u8> = Vec::new();
    let mut i: usize = 0;
    while i < nums.len()
        invariant
            i <= nums@.len(),
            out@.len() == i,
            forall|j: int| 0 <= j < i ==> (#[trigger] nums@[j]) <= 255,
            forall|j: int| 0 <= j < i ==> (#[trigger] out@[j]) == nums@[j] as u8,
        decreases nums@.len() - i,
    {
        let u = nums[i];
        if u > 255 {
            proof {
                assert(nums@[i as int] > 255);
            }
            return None;
        }
        out.push(u as u8);
        proof {
            assert(out@[i as int] == nums@[i as int] as u8);
        }
        i = i + 1;
    }
    proof {
        assert(forall|j: int| 0 <= j < nums@.len() ==> (#[trigger] nums@[j]) <= 255);
        let b = Seq::new(nums@.len(), |j: int| nums@[j] as u8);
        assert(b =~= out@);
    }
    Some(out)
}

/// What a put response means once its fields are in hand: a reported
/// non-success is `Rejected`; a success envelope must carry the
/// assigned key, and lacking it is `MalformedResponse`.
pub fn put_outcome(ok: bool, key: Option<String>) -> (r: Result<String, StoreError>)
    ensures
        r == (if !ok {
            Err::<String, StoreError>(StoreError::Rejected)
        } else {
            match key {
                Some(k) => Ok::<String, StoreError>(k),
                None => Err::<String, StoreError>(StoreError::MalformedResponse),
            }
        }),
{
    if !ok {
        Err(StoreError::Rejected)
    } else {
        match key {
            Some(k) => Ok(k),
            None => Err(StoreError::MalformedResponse),
        }
    }
}

/// What a get response means once its fields are in hand: a reported
/// non-success is `NotFound`; a success envelope must carry the stored
/// bytes, and lacking them is `MalformedResponse`.
pub fn get_outcome(ok: bool, value: Option<Vec<u8>>) -> (r: Result<Vec<u8>, StoreError>)
    ensures
        r == (if !ok {
            Err::<Vec<u8>, StoreError>(StoreError::NotFound)
        } else {
            match value {
                Some(b) => Ok::<Vec<u8>, StoreError>(b),
                None => Err::<Vec<u8>, StoreError>(StoreError::MalformedResponse),
            }
        }),
{
    if !ok {
        Err(StoreError::NotFound)
    } else {
        match value {
            Some(b) => Ok(b),
            None => Err(StoreError::MalformedResponse),
        }
    }
}

/// Decodes a fetched payload into the message stored under the given
/// key, filling in the identifier the backend stores the bytes under.
/// Succeeds exactly on canonical record bytes.
pub fn message_from_payload(payload: &Vec<u8>, id: String) -> (r: Result<Message, StoreError>)
    ensures
        r matches Ok(m) ==> m.id == Some(id) && payload@ == spec_encode_record(
            m.role,
            m.content@,
            opt_view(m.parent),
        ),
        r is Err ==> r == Err::<Message, StoreError>(StoreError::MalformedResponse) && !(
        exists|role: Role, c: Seq<char>, p: Option<Seq<char>>|
            rec_fits(c, p) && payload@ == spec_encode_record(role, c, p)),
{
    match decode_record(payload) {
        Some((role, content, parent)) => Ok(Message::new(role, content, parent).with_id(id)),
        None => Err(StoreError::MalformedResponse),
    }
}

/// Interprets the backend's answer to a put. An envelope without a
/// readable status is malformed; a reported non-success status is
/// `Rejected`; a success envelope must carry the assigned key, which
/// is returned, and lacking it is `MalformedResponse`. The transport
/// itself reports `Unavailable` before any envelope exists.
pub fn decode_put_response(bytes: &Vec<u8>) -> (r: Result<String, StoreError>)
    ensures
        envelope_status(bytes@) is None ==> r == Err::<String, StoreError>(
            StoreError::MalformedResponse,
        ),
        envelope_status(bytes@) matches Some(st) && st != "ok"@ ==> r == Err::<
            String,
            StoreError,
        >(StoreError::Rejected),
        envelope_status(bytes@) == Some("ok"@) && envelope_key(bytes@) is None ==> r == Err::<
            String,
            StoreError,
        >(StoreError::MalformedResponse),
        envelope_status(bytes@) == Some("ok"@) ==> (envelope_key(bytes@) matches Some(k)
            ==> r matches Ok(key) && key@ == k),
{
    let (status, key) = read_put_envelope(bytes);
    match status {
        None => Err(StoreError::MalformedResponse),
        Some(s) => put_outcome(text_eq(s.as_str(), "ok"), key),
    }
}

/// Interprets the backend's answer to a get for the given key. An
/// envelope without a readable status is malformed; a reported
/// non-success status is `NotFound`; a success envelope must carry
/// the stored bytes as an array of byte values, which are decoded into
/// the message, returned bearing the requested identifier; a missing
/// or undecodable payload is `MalformedResponse`.
pub fn decode_get_response(bytes: &Vec<u8>, id: String) -> (r: Result<Message, StoreError>)
    ensures
        r matches Ok(m) ==> m.id == Some(id),
        envelope_status(bytes@) is None ==> r == Err::<Message, StoreError>(
            StoreError::MalformedResponse,
        ),
        envelope_status(bytes@) matches Some(st) && st != "ok"@ ==> r == Err::<
            Message,
            StoreError,
        >(StoreError::NotFound),
        envelope_status(bytes@) == Some("ok"@) && envelope_value(bytes@) is None ==> r
            == Err::<Message, StoreError>(StoreError::MalformedResponse),
        envelope_status(bytes@) == Some("ok"@) ==> (envelope_value(bytes@) matches Some(nums)
            ==> {
            &&& (bytes_of_nums(nums) is None ==> r == Err::<Message, StoreError>(
                StoreError::MalformedResponse,
            ))
            &&& (bytes_of_nums(nums) matches Some(payload) ==> {
                &&& (r matches Ok(m) ==> m.id == Some(id) && payload == spec_encode_record(
                    m.role,
                    m.content@,
                    opt_view(m.parent),
                ))
                &&& (r is Err ==> r == Err::<Message, StoreError>(
                    StoreError::MalformedResponse,
                ) && !(exists|role: Role, c: Seq<char>, p: Option<Seq<char>>|
                    rec_fits(c, p) && payload == spec_encode_record(role, c, p)))
            })
        }),
{
    let (status, nums) = read_get_envelope(bytes);
    match status {
        None => Err(StoreError::MalformedResponse),
        Some(s) => {
            let ok = text_eq(s.as_str(), "ok");
            let value: Option<Vec<u8>> = match nums {
                Some(ns) => nums_to_bytes(&ns),
                None => None,
            };
            match get_outcome(ok, value) {
                Err(e) => Err(e),
                Ok(payload) => message_from_payload(&payload, id),
            }
        },
    }
}

} // verus!
