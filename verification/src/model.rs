//! The mathematical model of the conversation: the store as a map from
//! identifiers to record triples, and the chain reachable from a head
//! by following parent links. The laws proved here state what the turn
//! machine's contracts add up to over whole conversations: a chain of
//! completed turns stays linked and alternating as turns are appended,
//! a turn that fails after the user persist leaves a valid chain one
//! record longer, and a later turn chains off that record.
use vstd::prelude::*;
use crate::message::{Message, Role, opt_view};

verus! {

/// A stored record as the model sees it: role, content, parent link.
pub struct Rec {
    pub role: Role,
    pub content: Seq<char>,
    pub parent: Option<Seq<char>>,
}

/// The record a message stands for.
pub open spec fn rec_of(m: Message) -> Rec {
    Rec { role: m.role, content: m.content@, parent: opt_view(m.parent) }
}

/// The chain from `head` has exactly `k` records in `store`, each
/// linked to the next by its parent pointer, ending at a record with
/// no parent.
pub open spec fn chain_ok(store: Map<Seq<char>, Rec>, head: Option<Seq<char>>, k: nat) -> bool
    decreases k,
{
    match head {
        None => k == 0,
        Some(h) => k > 0 && store.contains_key(h) && chain_ok(store, store[h].parent, (k
            - 1) as nat),
    }
}

/// The chain from `head` additionally alternates roles: the oldest
/// record is the user's, and the head record is the user's when the
/// length is odd and the assistant's when it is even.
pub open spec fn conv_wf(store: Map<Seq<char>, Rec>, head: Option<Seq<char>>, k: nat) -> bool
    decreases k,
{
    match head {
        None => k == 0,
        Some(h) => {
            &&& k > 0
            &&& store.contains_key(h)
            &&& store[h].role == (if k % 2 == 0 {
                Role::Assistant
            } else {
                Role::User
            })
            &&& conv_wf(store, store[h].parent, (k - 1) as nat)
        },
    }
}

/// An alternating chain is in particular a linked chain.
pub proof fn lemma_conv_wf_chain_ok(store: Map<Seq<char>, Rec>, head: Option<Seq<char>>, k: nat)
    requires
        conv_wf(store, head, k),
    ensures
        chain_ok(store, head, k),
    decreases k,
{
    match head {
        Some(h) => {
            lemma_conv_wf_chain_ok(store, store[h].parent, (k - 1) as nat);
        },
        None => {},
    }
}

/// Storing a record under a key that is fresh, or already holds that
/// very record, disturbs no existing chain: the store is
/// content-addressed, so an identical resubmission is an idempotent
/// overwrite, never a corruption.
pub proof fn lemma_chain_ok_insert(
    store: Map<Seq<char>, Rec>,
    head: Option<Seq<char>>,
    k: nat,
    key: Seq<char>,
    rec: Rec,
)
    requires
        chain_ok(store, head, k),
        store.contains_key(key) ==> store[key] == rec,
    ensures
        chain_ok(store.insert(key, rec), head, k),
    decreases k,
{
    match head {
        Some(h) => {
            lemma_chain_ok_insert(store, store[h].parent, (k - 1) as nat, key, rec);
        },
        None => {},
    }
}

/// As `lemma_chain_ok_insert`, for the alternating chain.
pub proof fn lemma_conv_wf_insert(
    store: Map<Seq<char>, Rec>,
    head: Option<Seq<char>>,
    k: nat,
    key: Seq<char>,
    rec: Rec,
)
    requires
        conv_wf(store, head, k),
        store.contains_key(key) ==> store[key] == rec,
    ensures
        conv_wf(store.insert(key, rec), head, k),
    decreases k,
{
    match head {
        Some(h) => {
            lemma_conv_wf_insert(store, store[h].parent, (k - 1) as nat, key, rec);
        },
        None => {},
    }
}

/// Chain integrity: one successful turn appended to a conversation of
/// completed turns — the user record pointing at the old head, the
/// assistant record pointing at the user record, the head advanced to
/// the assistant record — yields an alternating linked chain exactly
/// two records longer. By induction from the empty conversation, a
/// history produced by N sequential successful turns is an alternating
/// chain of exactly 2N records.
pub proof fn lemma_turn_extends_chain(
    store: Map<Seq<char>, Rec>,
    head: Option<Seq<char>>,
    k: nat,
    ku: Seq<char>,
    user: Rec,
    ka: Seq<char>,
    asst: Rec,
)
    requires
        conv_wf(store, head, k),
        k % 2 == 0,
        user.role == Role::User,
        user.parent == head,
        asst.role == Role::Assistant,
        asst.parent == Some(ku),
        store.contains_key(ku) ==> store[ku] == user,
        store.insert(ku, user).contains_key(ka) ==> store.insert(ku, user)[ka] == asst,
    ensures
        conv_wf(store.insert(ku, user).insert(ka, asst), Some(ka), k + 2),
{
    let s1 = store.insert(ku, user);
    let s2 = s1.insert(ka, asst);
    lemma_conv_wf_insert(store, head, k, ku, user);
    assert(conv_wf(s1, Some(ku), k + 1));
    assert(ka != ku);
    lemma_conv_wf_insert(s1, Some(ku), (k + 1) as nat, ka, asst);
    assert(conv_wf(s2, Some(ka), k + 2));
}

/// Partial failure: when the turn fails after the user message is
/// persisted and the head has advanced to it, the conversation is a
/// valid linked chain of odd length ending in that user record — what
/// a subsequent history read returns.
pub proof fn lemma_partial_turn_chain(
    store: Map<Seq<char>, Rec>,
    head: Option<Seq<char>>,
    k: nat,
    ku: Seq<char>,
    user: Rec,
)
    requires
        conv_wf(store, head, k),
        k % 2 == 0,
        user.role == Role::User,
        user.parent == head,
        store.contains_key(ku) ==> store[ku] == user,
    ensures
        conv_wf(store.insert(ku, user), Some(ku), k + 1),
        chain_ok(store.insert(ku, user), Some(ku), k + 1),
        store.insert(ku, user)[ku].role == Role::User,
{
    let s1 = store.insert(ku, user);
    lemma_conv_wf_insert(store, head, k, ku, user);
    assert(conv_wf(s1, Some(ku), k + 1));
    lemma_conv_wf_chain_ok(s1, Some(ku), k + 1);
}

/// Recovery after a partial failure: a following successful turn
/// chains off the stranded user record — whatever the parity of the
/// chain it starts from, the linked chain grows by the new user and
/// assistant records and the head moves to the assistant record.
pub proof fn lemma_turn_after_partial(
    store: Map<Seq<char>, Rec>,
    head: Option<Seq<char>>,
    k: nat,
    ku: Seq<char>,
    user: Rec,
    ka: Seq<char>,
    asst: Rec,
)
    requires
        chain_ok(store, head, k),
        user.role == Role::User,
        user.parent == head,
        asst.role == Role::Assistant,
        asst.parent == Some(ku),
        store.contains_key(ku) ==> store[ku] == user,
        store.insert(ku, user).contains_key(ka) ==> store.insert(ku, user)[ka] == asst,
    ensures
        chain_ok(store.insert(ku, user).insert(ka, asst), Some(ka), k + 2),
{
    let s1 = store.insert(ku, user);
    let s2 = s1.insert(ka, asst);
    lemma_chain_ok_insert(store, head, k, ku, user);
    assert(chain_ok(s1, Some(ku), k + 1));
    assert(ka != ku);
    lemma_chain_ok_insert(s1, Some(ku), (k + 1) as nat, ka, asst);
    assert(chain_ok(s2, Some(ka), k + 2));
}

/// The conversation read back from a chain, oldest first: what
/// reconstruction returns once every identifier from the head down has
/// been resolved.
pub open spec fn chain_seq(store: Map<Seq<char>, Rec>, head: Option<Seq<char>>, k: nat) -> Seq<
    Rec,
>
    decreases k,
{
    match head {
        None => Seq::empty(),
        Some(h) => if k == 0 {
            Seq::empty()
        } else {
            chain_seq(store, store[h].parent, (k - 1) as nat).push(store[h])
        },
    }
}

/// Reconstruction of an alternating chain yields exactly its k records
/// oldest first, the user's and the assistant's strictly taking turns,
/// the user's first. For a conversation of N completed turns, k is 2N.
pub proof fn lemma_chain_seq_alternates(
    store: Map<Seq<char>, Rec>,
    head: Option<Seq<char>>,
    k: nat,
)
    requires
        conv_wf(store, head, k),
    ensures
        chain_seq(store, head, k).len() == k,
        forall|i: int|
            0 <= i < k ==> chain_seq(store, head, k)[i].role == (if i % 2 == 0 {
                Role::User
            } else {
                Role::Assistant
            }),
    decreases k,
{
    match head {
        None => {},
        Some(h) => {
            lemma_chain_seq_alternates(store, store[h].parent, (k - 1) as nat);
            let rest = chain_seq(store, store[h].parent, (k - 1) as nat);
            let whole = chain_seq(store, head, k);
            assert(whole == rest.push(store[h]));
            assert forall|i: int| 0 <= i < k implies whole[i].role == (if i % 2 == 0 {
                Role::User
            } else {
                Role::Assistant
            }) by {
                if i < k - 1 {
                    assert(whole[i] == rest[i]);
                } else {
                    assert(whole[i] == store[h]);
                }
            }
        },
    }
}

/// The shape `HistoryWalk::finish` guarantees of a reconstructed
/// history read from `head`: every message bears an identifier, the
/// oldest has no parent, each later message's parent is the identifier
/// of the one before it, the newest is the head, and an empty history
/// means an absent head.
pub open spec fn linked_oldest_first(msgs: Seq<Message>, head: Option<Seq<char>>) -> bool {
    &&& forall|j: int| 0 <= j < msgs.len() ==> (#[trigger] msgs[j]).id is Some
    &&& (msgs.len() > 0 ==> opt_view(msgs[0].parent) is None)
    &&& (msgs.len() > 0 ==> opt_view(msgs[msgs.len() - 1].id) == head)
    &&& (msgs.len() == 0 ==> head is None)
    &&& forall|j: int|
        0 < j < msgs.len() ==> opt_view((#[trigger] msgs[j]).parent) == opt_view(
            msgs[j - 1].id,
        )
}

/// The empty conversation is a valid chain of no records.
pub proof fn lemma_empty_conversation(store: Map<Seq<char>, Rec>)
    ensures
        conv_wf(store, None, 0),
        chain_ok(store, None, 0),
{
}

} // verus!
