//! Canonical serialization of a message record and the content-derived
//! identity that the store's keys are modelled by. The byte layout is
//! fully specified: one role tag byte, a parent block (absent marker, or
//! a length-prefixed identifier), and the UTF-8 bytes of the content to
//! the end of the record. The layout is injective, so a record decodes
//! back to exactly the triple that produced it.
use vstd::prelude::*;
use crate::message::{Role, opt_view};
use vstd::slice::slice_subrange;
use vstd::utf8::{
    encode_utf8, decode_utf8, valid_utf8, encode_utf8_valid_utf8, encode_utf8_decode_utf8,
    decode_utf8_encode_utf8,
};

verus! {

/// Tag byte that opens a record and fixes its role.
pub open spec fn role_tag(role: Role) -> u8 {
    match role {
        Role::User => 117u8,
        Role::Assistant => 97u8,
    }
}

/// The eight little-endian bytes of a 64-bit length.
pub open spec fn le8(n: u64) -> Seq<u8> {
    seq![
        (n & 0xff) as u8,
        ((n >> 8) & 0xff) as u8,
        ((n >> 16) & 0xff) as u8,
        ((n >> 24) & 0xff) as u8,
        ((n >> 32) & 0xff) as u8,
        ((n >> 40) & 0xff) as u8,
        ((n >> 48) & 0xff) as u8,
        ((n >> 56) & 0xff) as u8,
    ]
}

/// The value read back from eight little-endian bytes.
pub open spec fn le8_val(s: Seq<u8>) -> u64
    recommends
        s.len() == 8,
{
    (s[0] as u64) | ((s[1] as u64) << 8) | ((s[2] as u64) << 16) | ((s[3] as u64) << 24)
        | ((s[4] as u64) << 32) | ((s[5] as u64) << 40) | ((s[6] as u64) << 48) | ((s[7]
        as u64) << 56)
}

pub proof fn lemma_le8_round_trip(n: u64)
    ensures
        le8(n).len() == 8,
        le8_val(le8(n)) == n,
{
    assert((((n & 0xff) as u8) as u64) | (((((n >> 8) & 0xff) as u8) as u64) << 8) | (((((n
        >> 16) & 0xff) as u8) as u64) << 16) | (((((n >> 24) & 0xff) as u8) as u64) << 24)
        | (((((n >> 32) & 0xff) as u8) as u64) << 32) | (((((n >> 40) & 0xff) as u8) as u64)
        << 40) | (((((n >> 48) & 0xff) as u8) as u64) << 48) | (((((n >> 56) & 0xff) as u8)
        as u64) << 56) == n) by (bit_vector);
}

pub proof fn lemma_le8_val_round_trip(s: Seq<u8>)
    requires
        s.len() == 8,
    ensures
        le8(le8_val(s)) == s,
{
    let b0 = s[0];
    let b1 = s[1];
    let b2 = s[2];
    let b3 = s[3];
    let b4 = s[4];
    let b5 = s[5];
    let b6 = s[6];
    let b7 = s[7];
    let n = (b0 as u64) | ((b1 as u64) << 8) | ((b2 as u64) << 16) | ((b3 as u64) << 24) | ((
    b4 as u64) << 32) | ((b5 as u64) << 40) | ((b6 as u64) << 48) | ((b7 as u64) << 56);
    assert({
        let m = (b0 as u64) | ((b1 as u64) << 8) | ((b2 as u64) << 16) | ((b3 as u64) << 24)
            | ((b4 as u64) << 32) | ((b5 as u64) << 40) | ((b6 as u64) << 48) | ((b7
            as u64) << 56);
        &&& (m & 0xff) as u8 == b0
        &&& ((m >> 8) & 0xff) as u8 == b1
        &&& ((m >> 16) & 0xff) as u8 == b2
        &&& ((m >> 24) & 0xff) as u8 == b3
        &&& ((m >> 32) & 0xff) as u8 == b4
        &&& ((m >> 40) & 0xff) as u8 == b5
        &&& ((m >> 48) & 0xff) as u8 == b6
        &&& ((m >> 56) & 0xff) as u8 == b7
    }) by (bit_vector);
    assert(le8(n) =~= s);
}

/// The bytes that stand for the parent link: a marker byte, and for a
/// present parent its identifier's UTF-8 bytes behind their length.
pub open spec fn parent_block(parent: Option<Seq<char>>) -> Seq<u8> {
    match parent {
        None => seq![0u8],
        Some(p) => seq![1u8] + le8(encode_utf8(p).len() as u64) + encode_utf8(p),
    }
}

/// The canonical serialization of a record triple.
pub open spec fn spec_encode_record(role: Role, content: Seq<char>, parent: Option<
    Seq<char>,
>) -> Seq<u8> {
    seq![role_tag(role)] + parent_block(parent) + encode_utf8(content)
}

/// The field lengths a record can carry: the length prefix is 64 bits
/// wide, so an encodable parent identifier stays below 2^64 bytes.
pub open spec fn rec_fits(content: Seq<char>, parent: Option<Seq<char>>) -> bool {
    parent matches Some(p) ==> encode_utf8(p).len() < 0x1_0000_0000_0000_0000
}

pub proof fn lemma_encode_shape(role: Role, content: Seq<char>, parent: Option<Seq<char>>)
    requires
        rec_fits(content, parent),
    ensures
        ({
            let b = spec_encode_record(role, content, parent);
            &&& b.len() >= 2
            &&& b[0] == role_tag(role)
            &&& (parent is None ==> b[1] == 0 && b.subrange(2, b.len() as int)
                == encode_utf8(content))
            &&& (parent matches Some(p) ==> {
                let pb = encode_utf8(p);
                &&& b[1] == 1
                &&& b.len() == 10 + pb.len() + encode_utf8(content).len()
                &&& b.subrange(2, 10) == le8(pb.len() as u64)
                &&& b.subrange(10, 10 + pb.len() as int) == pb
                &&& b.subrange(10 + pb.len() as int, b.len() as int) == encode_utf8(content)
            })
        }),
{
    let b = spec_encode_record(role, content, parent);
    match parent {
        None => {
            assert(b.subrange(2, b.len() as int) =~= encode_utf8(content));
        },
        Some(p) => {
            let pb = encode_utf8(p);
            lemma_le8_round_trip(pb.len() as u64);
            assert(b.subrange(2, 10) =~= le8(pb.len() as u64));
            assert(b.subrange(10, 10 + pb.len() as int) =~= pb);
            assert(b.subrange(10 + pb.len() as int, b.len() as int) =~= encode_utf8(content));
        },
    }
}

/// Two different record triples never serialize to the same bytes.
pub proof fn lemma_encode_injective(
    r1: Role,
    c1: Seq<char>,
    p1: Option<Seq<char>>,
    r2: Role,
    c2: Seq<char>,
    p2: Option<Seq<char>>,
)
    requires
        rec_fits(c1, p1),
        rec_fits(c2, p2),
        spec_encode_record(r1, c1, p1) == spec_encode_record(r2, c2, p2),
    ensures
        r1 == r2,
        c1 == c2,
        p1 == p2,
{
    broadcast use encode_utf8_decode_utf8;

    lemma_encode_shape(r1, c1, p1);
    lemma_encode_shape(r2, c2, p2);
    let b = spec_encode_record(r1, c1, p1);
    assert(role_tag(r1) == role_tag(r2));
    assert(r1 == r2);
    match p1 {
        None => {
            assert(p2 is None);
            assert(encode_utf8(c1) == encode_utf8(c2));
            assert(decode_utf8(encode_utf8(c1)) == decode_utf8(encode_utf8(c2)));
        },
        Some(q1) => {
            let q2 = p2->0;
            assert(p2 is Some);
            let pb1 = encode_utf8(q1);
            let pb2 = encode_utf8(q2);
            lemma_le8_round_trip(pb1.len() as u64);
            lemma_le8_round_trip(pb2.len() as u64);
            assert(le8_val(b.subrange(2, 10)) == pb1.len() as u64);
            assert(le8_val(b.subrange(2, 10)) == pb2.len() as u64);
            assert(pb1.len() == pb2.len());
            assert(pb1 == pb2);
            assert(decode_utf8(pb1) == decode_utf8(pb2));
            assert(encode_utf8(c1) == encode_utf8(c2));
            assert(decode_utf8(encode_utf8(c1)) == decode_utf8(encode_utf8(c2)));
        },
    }
}

fn push_le8(out: &mut Vec<u8>, n: u64)
    ensures
        final(out)@ == old(out)@ + le8(n),
{
    proof {
        assert((n & 0xff) < 256 && ((n >> 8) & 0xff) < 256 && ((n >> 16) & 0xff) < 256 && ((n
            >> 24) & 0xff) < 256 && ((n >> 32) & 0xff) < 256 && ((n >> 40) & 0xff) < 256 && ((n
            >> 48) & 0xff) < 256 && ((n >> 56) & 0xff) < 256) by (bit_vector);
    }
    out.push((n & 0xff) as u8);
    out.push(((n >> 8) & 0xff) as u8);
    out.push(((n >> 16) & 0xff) as u8);
    out.push(((n >> 24) & 0xff) as u8);
    out.push(((n >> 32) & 0xff) as u8);
    out.push(((n >> 40) & 0xff) as u8);
    out.push(((n >> 48) & 0xff) as u8);
    out.push(((n >> 56) & 0xff) as u8);
    proof {
        assert(out@ =~= old(out)@ + le8(n));
    }
}

fn read_le8(bytes: &Vec<u8>, off: usize) -> (n: u64)
    requires
        off + 8 <= bytes@.len(),
    ensures
        n == le8_val(bytes@.subrange(off as int, off as int + 8)),
{
    let len = bytes.len();
    proof {
        assert(off + 8 <= len);
    }
    let n: u64 = (bytes[off] as u64) | ((bytes[off + 1] as u64) << 8) | ((bytes[off + 2]
        as u64) << 16) | ((bytes[off + 3] as u64) << 24) | ((bytes[off + 4] as u64) << 32)
        | ((bytes[off + 5] as u64) << 40) | ((bytes[off + 6] as u64) << 48) | ((bytes[off + 7]
        as u64) << 56);
    proof {
        let s = bytes@.subrange(off as int, off as int + 8);
        assert(s[0] == bytes@[off as int] && s[1] == bytes@[off as int + 1] && s[2]
            == bytes@[off as int + 2] && s[3] == bytes@[off as int + 3] && s[4] == bytes@[off
            as int + 4] && s[5] == bytes@[off as int + 5] && s[6] == bytes@[off as int + 6]
            && s[7] == bytes@[off as int + 7]);
    }
    n
}

/// Serializes a record triple to its canonical bytes.
pub fn encode_record(role: Role, content: &String, parent: &Option<String>) -> (out: Vec<u8>)
    ensures
        out@ == spec_encode_record(role, content@, opt_view(*parent)),
{
    let mut out: Vec<u8> = Vec::new();
    match role {
        Role::User => out.push(117u8),
        Role::Assistant => out.push(97u8),
    }
    match parent {
        None => out.push(0u8),
        Some(p) => {
            out.push(1u8);
            let mut pb = p.as_str().as_bytes_vec();
            push_le8(&mut out, pb.len() as u64);
            out.append(&mut pb);
        },
    }
    let mut cb = content.as_str().as_bytes_vec();
    out.append(&mut cb);
    proof {
        assert(out@ =~= spec_encode_record(role, content@, opt_view(*parent)));
    }
    out
}

/// Relies on core::str::from_utf8: it succeeds exactly on valid UTF-8
/// input and returns the text whose encoding is the given bytes.
#[verifier::external_body]
fn utf8_to_string(bytes: &[u8]) -> (r: Option<String>)
    ensures
        r matches Some(s) ==> valid_utf8(bytes@) && s@ == decode_utf8(bytes@),
        valid_utf8(bytes@) ==> r is Some,
{
    core::str::from_utf8(bytes).ok().map(|s| s.to_owned())
}

/// Deserializes canonical record bytes back to the triple. Exactly the
/// images of `spec_encode_record` decode; everything else is refused.
#[verifier::rlimit(60)]
pub fn decode_record(bytes: &Vec<u8>) -> (r: Option<(Role, String, Option<String>)>)
    ensures
        r matches Some(t) ==> bytes@ == spec_encode_record(t.0, t.1@, opt_view(t.2)),
        forall|role: Role, c: Seq<char>, p: Option<Seq<char>>|
            rec_fits(c, p) && bytes@ == spec_encode_record(role, c, p) ==> (r matches Some(t)
                && t.0 == role && t.1@ == c && opt_view(t.2) == p),
{
    broadcast use encode_utf8_valid_utf8;

    if bytes.len() < 2 {
        proof {
            assert forall|role: Role, c: Seq<char>, p: Option<Seq<char>>|
                !(rec_fits(c, p) && bytes@ == spec_encode_record(role, c, p)) by {
                if rec_fits(c, p) && bytes@ == spec_encode_record(role, c, p) {
                    lemma_encode_shape(role, c, p);
                }
            }
        }
        return None;
    }
    let role: Role = if bytes[0] == 117u8 {
        Role::User
    } else if bytes[0] == 97u8 {
        Role::Assistant
    } else {
        proof {
            assert forall|role: Role, c: Seq<char>, p: Option<Seq<char>>|
                !(rec_fits(c, p) && bytes@ == spec_encode_record(role, c, p)) by {
                if rec_fits(c, p) && bytes@ == spec_encode_record(role, c, p) {
                    lemma_encode_shape(role, c, p);
                }
            }
        }
        return None;
    };
    if bytes[1] == 0u8 {
        let cslice = slice_subrange(bytes.as_slice(), 2, bytes.len());
        match utf8_to_string(cslice) {
            Some(content) => {
                proof {
                    let cb = bytes@.subrange(2, bytes@.len() as int);
                    decode_utf8_encode_utf8(cb);
                    assert(bytes@ =~= spec_encode_record(role, content@, opt_view(
                        None::<String>,
                    )));
                    assert forall|role2: Role, c: Seq<char>, p: Option<Seq<char>>|
                        rec_fits(c, p) && bytes@ == spec_encode_record(role2, c, p)
                            ==> role2 == role && c == content@ && p == opt_view(
                            None::<String>,
                        ) by {
                        if rec_fits(c, p) && bytes@ == spec_encode_record(role2, c, p) {
                            lemma_encode_injective(
                                role,
                                content@,
                                None,
                                role2,
                                c,
                                p,
                            );
                        }
                    }
                }
                Some((role, content, None))
            },
            None => {
                proof {
                    assert forall|role2: Role, c: Seq<char>, p: Option<Seq<char>>|
                        !(rec_fits(c, p) && bytes@ == spec_encode_record(role2, c, p)) by {
                        if rec_fits(c, p) && bytes@ == spec_encode_record(role2, c, p) {
                            lemma_encode_shape(role2, c, p);
                            assert(p is None);
                            assert(valid_utf8(bytes@.subrange(2, bytes@.len() as int)));
                        }
                    }
                }
                None
            },
        }
    } else if bytes[1] == 1u8 {
        if bytes.len() < 10 {
            proof {
                assert forall|role2: Role, c: Seq<char>, p: Option<Seq<char>>|
                    !(rec_fits(c, p) && bytes@ == spec_encode_record(role2, c, p)) by {
                    if rec_fits(c, p) && bytes@ == spec_encode_record(role2, c, p) {
                        lemma_encode_shape(role2, c, p);
                    }
                }
            }
            return None;
        }
        let plen = read_le8(bytes, 2);
        if plen > (bytes.len() - 10) as u64 {
            proof {
                assert forall|role2: Role, c: Seq<char>, p: Option<Seq<char>>|
                    !(rec_fits(c, p) && bytes@ == spec_encode_record(role2, c, p)) by {
                    if rec_fits(c, p) && bytes@ == spec_encode_record(role2, c, p) {
                        lemma_encode_shape(role2, c, p);
                        let pb = encode_utf8(p->0);
                        lemma_le8_round_trip(pb.len() as u64);
                    }
                }
            }
            return None;
        }
        let plen_us = plen as usize;
        let pslice = slice_subrange(bytes.as_slice(), 10, 10 + plen_us);
        let parent: String = match utf8_to_string(pslice) {
            Some(p) => p,
            None => {
                proof {
                    assert forall|role2: Role, c: Seq<char>, p: Option<Seq<char>>|
                        !(rec_fits(c, p) && bytes@ == spec_encode_record(role2, c, p)) by {
                        if rec_fits(c, p) && bytes@ == spec_encode_record(role2, c, p) {
                            lemma_encode_shape(role2, c, p);
                            let pb = encode_utf8(p->0);
                            lemma_le8_round_trip(pb.len() as u64);
                            assert(bytes@.subrange(10, 10 + plen as int) == pb);
                        }
                    }
                }
                return None;
            },
        };
        let cslice = slice_subrange(bytes.as_slice(), 10 + plen_us, bytes.len());
        match utf8_to_string(cslice) {
            Some(content) => {
                proof {
                    let pb = bytes@.subrange(10, 10 + plen as int);
                    let cb = bytes@.subrange(10 + plen as int, bytes@.len() as int);
                    decode_utf8_encode_utf8(pb);
                    decode_utf8_encode_utf8(cb);
                    lemma_le8_val_round_trip(bytes@.subrange(2, 10));
                    assert(bytes@.subrange(2, 10) =~= le8(plen));
                    assert(bytes@ =~= spec_encode_record(role, content@, Some(parent@)));
                    assert forall|role2: Role, c: Seq<char>, p: Option<Seq<char>>|
                        rec_fits(c, p) && bytes@ == spec_encode_record(role2, c, p)
                            ==> role2 == role && c == content@ && p == Some(parent@) by {
                        if rec_fits(c, p) && bytes@ == spec_encode_record(role2, c, p) {
                            lemma_encode_injective(
                                role,
                                content@,
                                Some(parent@),
                                role2,
                                c,
                                p,
                            );
                        }
                    }
                }
                Some((role, content, Some(parent)))
            },
            None => {
                proof {
                    assert forall|role2: Role, c: Seq<char>, p: Option<Seq<char>>|
                        !(rec_fits(c, p) && bytes@ == spec_encode_record(role2, c, p)) by {
                        if rec_fits(c, p) && bytes@ == spec_encode_record(role2, c, p) {
                            lemma_encode_shape(role2, c, p);
                            let pb = encode_utf8(p->0);
                            lemma_le8_round_trip(pb.len() as u64);
                            assert(bytes@.subrange(10 + plen as int, bytes@.len() as int)
                                == encode_utf8(c));
                        }
                    }
                }
                None
            },
        }
    } else {
        proof {
            assert forall|role2: Role, c: Seq<char>, p: Option<Seq<char>>|
                !(rec_fits(c, p) && bytes@ == spec_encode_record(role2, c, p)) by {
                if rec_fits(c, p) && bytes@ == spec_encode_record(role2, c, p) {
                    lemma_encode_shape(role2, c, p);
                }
            }
        }
        None
    }
}

/// One step of the 64-bit FNV-1a fold over the record bytes.
pub open spec fn fingerprint_step(h: u64, b: u8) -> u64 {
    (h ^ (b as u64)).wrapping_mul(0x100_0000_01b3)
}

/// The 64-bit FNV-1a fingerprint of a byte sequence.
pub open spec fn spec_fingerprint(bytes: Seq<u8>) -> u64
    decreases bytes.len(),
{
    if bytes.len() == 0 {
        0xcbf2_9ce4_8422_2325
    } else {
        fingerprint_step(spec_fingerprint(bytes.drop_last()), bytes.last())
    }
}

/// The decimal digit characters of a number, most significant first.
pub open spec fn dec_digit_char(d: nat) -> char
    recommends
        d < 10,
{
    if d == 0 {
        '0'
    } else if d == 1 {
        '1'
    } else if d == 2 {
        '2'
    } else if d == 3 {
        '3'
    } else if d == 4 {
        '4'
    } else if d == 5 {
        '5'
    } else if d == 6 {
        '6'
    } else if d == 7 {
        '7'
    } else if d == 8 {
        '8'
    } else {
        '9'
    }
}

pub open spec fn dec_digits(n: nat) -> Seq<char>
    decreases n,
{
    if n < 10 {
        seq![dec_digit_char(n)]
    } else {
        dec_digits(n / 10) + seq![dec_digit_char(n % 10)]
    }
}

/// The identifier that the content-addressed store assigns to a record:
/// the decimal rendering of the fingerprint of its canonical bytes.
pub open spec fn spec_identity(role: Role, content: Seq<char>, parent: Option<
    Seq<char>,
>) -> Seq<char> {
    dec_digits(spec_fingerprint(spec_encode_record(role, content, parent)) as nat)
}

fn fingerprint(bytes: &Vec<u8>) -> (h: u64)
    ensures
        h == spec_fingerprint(bytes@),
{
    let mut h: u64 = 0xcbf2_9ce4_8422_2325;
    let mut i: usize = 0;
    while i < bytes.len()
        invariant
            i <= bytes@.len(),
            h == spec_fingerprint(bytes@.subrange(0, i as int)),
        decreases bytes@.len() - i,
    {
        h = (h ^ (bytes[i] as u64)).wrapping_mul(0x100_0000_01b3);
        i = i + 1;
        proof {
            assert(bytes@.subrange(0, i as int).drop_last() =~= bytes@.subrange(
                0,
                i as int - 1,
            ));
        }
    }
    proof {
        assert(bytes@.subrange(0, bytes@.len() as int) =~= bytes@);
    }
    h
}

fn digit_str(d: u64) -> (s: &'static str)
    requires
        d < 10,
    ensures
        s@ == seq![dec_digit_char(d as nat)],
{
    proof {
        reveal_strlit("0");
        reveal_strlit("1");
        reveal_strlit("2");
        reveal_strlit("3");
        reveal_strlit("4");
        reveal_strlit("5");
        reveal_strlit("6");
        reveal_strlit("7");
        reveal_strlit("8");
        reveal_strlit("9");
    }
    let s: &'static str = match d {
        0 => "0",
        1 => "1",
        2 => "2",
        3 => "3",
        4 => "4",
        5 => "5",
        6 => "6",
        7 => "7",
        8 => "8",
        _ => "9",
    };
    proof {
        assert(s@ =~= seq![dec_digit_char(d as nat)]);
    }
    s
}

/// Renders a number as its decimal digits.
pub fn u64_to_dec(n: u64) -> (s: String)
    ensures
        s@ == dec_digits(n as nat),
    decreases n,
{
    if n < 10 {
        String::from_str(digit_str(n))
    } else {
        let mut s = u64_to_dec(n / 10);
        s.append(digit_str(n % 10));
        proof {
            assert(s@ =~= dec_digits(n as nat));
        }
        s
    }
}

/// Character-for-character equality of two text slices.
pub fn text_eq(a: &str, b: &str) -> (r: bool)
    ensures
        r == (a@ == b@),
{
    let alen = a.unicode_len();
    let blen = b.unicode_len();
    if alen != blen {
        return false;
    }
    let mut i: usize = 0;
    while i < alen
        invariant
            alen == a@.len(),
            blen == b@.len(),
            alen == blen,
            i <= alen,
            forall|j: int| 0 <= j < i ==> a@[j] == b@[j],
        decreases alen - i,
    {
        if a.get_char(i) != b.get_char(i) {
            return false;
        }
        i = i + 1;
    }
    proof {
        assert(a@ =~= b@);
    }
    true
}

/// Computes the stable fingerprint identifier of a record triple. Pure
/// and deterministic: the result is a function of role, content and
/// parent alone, so storing an identical triple twice collides to the
/// same identifier.
pub fn derive_identity(role: Role, content: &String, parent: &Option<String>) -> (id: String)
    ensures
        id@ == spec_identity(role, content@, opt_view(*parent)),
{
    let payload = encode_record(role, content, parent);
    let h = fingerprint(&payload);
    u64_to_dec(h)
}

/// The identity derivation is repeatable: records that agree in role,
/// content and parent are assigned the same identifier, however often
/// and in whatever order they are stored.
pub proof fn lemma_identity_deterministic(
    r1: Role,
    c1: Seq<char>,
    p1: Option<Seq<char>>,
    r2: Role,
    c2: Seq<char>,
    p2: Option<Seq<char>>,
)
    requires
        r1 == r2,
        c1 == c2,
        p1 == p2,
    ensures
        spec_identity(r1, c1, p1) == spec_identity(r2, c2, p2),
{
}

/// A record carried through serialization and back is unchanged: its
/// canonical bytes decode to exactly the role, content and parent that
/// produced them.
pub proof fn lemma_record_round_trip(role: Role, content: Seq<char>, parent: Option<
    Seq<char>,
>)
    requires
        rec_fits(content, parent),
    ensures
        forall|r2: Role, c2: Seq<char>, p2: Option<Seq<char>>|
            rec_fits(c2, p2) && spec_encode_record(role, content, parent)
                == spec_encode_record(r2, c2, p2) ==> r2 == role && c2 == content && p2
                == parent,
{
    assert forall|r2: Role, c2: Seq<char>, p2: Option<Seq<char>>|
        rec_fits(c2, p2) && spec_encode_record(role, content, parent) == spec_encode_record(
            r2,
            c2,
            p2,
        ) implies r2 == role && c2 == content && p2 == parent by {
        lemma_encode_injective(role, content, parent, r2, c2, p2);
    }
}

} // verus!
