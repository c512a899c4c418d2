//! The conversation orchestrator: session state and the turn state
//! machine that sequences "persist user turn, reconstruct context,
//! request completion, persist assistant turn, advance head". The
//! machine decides; the caller performs each requested store or
//! completion call and feeds the outcome back. Failures are terminal
//! for the turn and are never retried here: whether the head has
//! already advanced when a step fails is part of each step's contract.
use vstd::prelude::*;
use crate::codec::{encode_record, spec_encode_record};
use crate::completion::{AnthropicMessage, CompletionError, build_completion_turns, spec_role_name};
use crate::history::HistoryWalk;
use crate::message::{Chat, Message, Role, opt_view};
use crate::store::StoreError;

verus! {

/// Session-local state: the durable conversation head, the completion
/// service credential, and the address of the key-value collaborator.
pub struct State {
    pub chat: Chat,
    pub api_key: String,
    pub key_value_actor: String,
}

impl State {
    pub fn new(head: Option<String>, api_key: String, key_value_actor: String) -> (s: State)
        ensures
            s.chat.head == head,
            s.api_key == api_key,
            s.key_value_actor == key_value_actor,
    {
        State { chat: Chat { head }, api_key, key_value_actor }
    }

    /// Advances the durable head pointer to the given identifier,
    /// leaving the rest of the state as it was.
    pub fn update_head(&mut self, message_id: String)
        ensures
            final(self).chat.head == Some(message_id),
            final(self).api_key == old(self).api_key,
            final(self).key_value_actor == old(self).key_value_actor,
    {
        self.chat.head = Some(message_id);
    }

    /// Begins reconstructing the conversation from the current head.
    /// An unset head yields a walk that is already complete: the empty
    /// conversation is read without a single store call.
    pub fn get_message_history(&self) -> (w: HistoryWalk)
        ensures
            w.wf(),
            w.head@ == opt_view(self.chat.head),
            w.pending == self.chat.head,
            w.collected@.len() == 0,
    {
        let head: Option<String> = match &self.chat.head {
            None => None,
            Some(s) => Some(s.clone()),
        };
        HistoryWalk::start(head)
    }
}

/// Which step of a turn failed, wrapping the underlying cause.
#[derive(Clone, Copy, PartialEq, Eq, Structural, Debug)]
pub enum TurnError {
    PersistUser(StoreError),
    ReconstructHistory(StoreError),
    Completion(CompletionError),
    PersistAssistant(StoreError),
}

/// Where a turn stands between the calls it asks for.
#[derive(Clone, Copy, PartialEq, Eq, Structural, Debug)]
pub enum TurnPhase {
    AwaitingUserPersist,
    AwaitingContext,
    AwaitingCompletion,
    AwaitingReplyPersist,
    Idle,
}

/// What the turn machine asks its caller to do next: persist a record
/// payload, fetch a record, request a completion over the prepared
/// turns, or nothing more — the turn is over with the given result.
pub enum TurnAction {
    Put(Vec<u8>),
    Get(String),
    Complete(Vec<AnthropicMessage>),
    Finished(Result<(Message, Message), TurnError>),
}

/// One in-flight turn.
pub struct Turn {
    pub phase: TurnPhase,
    pub user: Option<Message>,
    pub walk: HistoryWalk,
    pub history: Vec<Message>,
    pub assistant: Option<Message>,
}

impl Turn {
    pub open spec fn wf(self) -> bool {
        match self.phase {
            TurnPhase::AwaitingUserPersist => self.user matches Some(u) && u.role == Role::User
                && u.id is None,
            TurnPhase::AwaitingContext => {
                &&& self.user matches Some(u) && u.role == Role::User && u.id is Some
                &&& self.walk.wf()
                &&& self.walk.head@ == opt_view(self.user.unwrap().id)
            },
            TurnPhase::AwaitingCompletion => self.user matches Some(u) && u.role == Role::User
                && u.id is Some,
            TurnPhase::AwaitingReplyPersist => {
                &&& self.user matches Some(u) && u.role == Role::User && u.id is Some
                &&& self.assistant matches Some(a) && a.role == Role::Assistant && a.id
                    is None && opt_view(a.parent) == opt_view(self.user.unwrap().id)
            },
            TurnPhase::Idle => true,
        }
    }

    /// Opens a turn for an incoming user message: constructs the
    /// unstored user record with the current head as its parent and
    /// asks for it to be persisted. The state is untouched until the
    /// store confirms.
    pub fn start(state: &State, content: String) -> (r: (Turn, TurnAction))
        ensures
            r.0.wf(),
            r.0.phase == TurnPhase::AwaitingUserPersist,
            r.0.user matches Some(u) && u.role == Role::User && u.content == content
                && u.parent == state.chat.head && u.id is None,
            r.1 matches TurnAction::Put(payload) && payload@ == spec_encode_record(
                Role::User,
                content@,
                opt_view(state.chat.head),
            ),
    {
        let parent: Option<String> = match &state.chat.head {
            None => None,
            Some(s) => Some(s.clone()),
        };
        let user = Message::new(Role::User, content, parent);
        let payload = encode_record(Role::User, &user.content, &user.parent);
        let turn = Turn {
            phase: TurnPhase::AwaitingUserPersist,
            user: Some(user),
            walk: HistoryWalk::start(None),
            history: Vec::new(),
            assistant: None,
        };
        (turn, TurnAction::Put(payload))
    }

    /// The store's answer to the user persist. On failure the turn is
    /// over with `PersistUser` and the state is left unchanged: the
    /// head has not advanced and the attempted message is discarded,
    /// not retried. On success the head advances to the assigned
    /// identifier and the turn asks for the first record of the
    /// context, which is the user message itself.
    #[verifier::rlimit(100)]
    pub fn on_user_persisted(
        &mut self,
        state: &mut State,
        outcome: Result<String, StoreError>,
    ) -> (act: TurnAction)
        requires
            old(self).wf(),
            old(self).phase == TurnPhase::AwaitingUserPersist,
        ensures
            final(self).wf(),
            match outcome {
                Err(e) => {
                    &&& *final(state) == *old(state)
                    &&& final(self).phase == TurnPhase::Idle
                    &&& act matches TurnAction::Finished(res) && res == Err::<
                        (Message, Message),
                        TurnError,
                    >(TurnError::PersistUser(e))
                },
                Ok(key) => {
                    &&& final(state).chat.head == Some(key)
                    &&& final(state).api_key == old(state).api_key
                    &&& final(state).key_value_actor == old(state).key_value_actor
                    &&& final(self).phase == TurnPhase::AwaitingContext
                    &&& final(self).user matches Some(u) && u.role == Role::User && u.content
                        == old(self).user.unwrap().content && u.parent == old(
                        self,
                    ).user.unwrap().parent && u.id == Some(key)
                    &&& final(self).walk.pending == Some(key)
                    &&& final(self).walk.collected@.len() == 0
                    &&& act matches TurnAction::Get(g) && g == key
                },
            },
    {
        match outcome {
            Err(e) => {
                self.phase = TurnPhase::Idle;
                TurnAction::Finished(Err(TurnError::PersistUser(e)))
            },
            Ok(key) => {
                let key_for_head = key.clone();
                let key_for_walk = key.clone();
                let key_for_user = key.clone();
                state.update_head(key_for_head);
                let user = self.user.take().unwrap().with_id(key_for_user);
                self.user = Some(user);
                self.walk = HistoryWalk::start(Some(key_for_walk));
                self.phase = TurnPhase::AwaitingContext;
                TurnAction::Get(key)
            },
        }
    }

    /// The store's answer to the last context fetch. A failure ends
    /// the turn with `ReconstructHistory`; the head stays where it is
    /// — the user's message is durably recorded even though the turn
    /// as a whole fails. Otherwise the walk advances: either another
    /// record is needed, or the chain is complete and the turn asks
    /// for a completion over it, oldest first.
    #[verifier::rlimit(100)]
    pub fn on_context_fetched(&mut self, outcome: Result<Message, StoreError>) -> (act:
        TurnAction)
        requires
            old(self).wf(),
            old(self).phase == TurnPhase::AwaitingContext,
            outcome matches Ok(m) ==> old(self).walk.pending matches Some(p) && opt_view(m.id)
                == Some(p@),
        ensures
            final(self).wf(),
            match outcome {
                Err(e) => {
                    &&& final(self).phase == TurnPhase::Idle
                    &&& act matches TurnAction::Finished(res) && res == Err::<
                        (Message, Message),
                        TurnError,
                    >(TurnError::ReconstructHistory(e))
                },
                Ok(m) => {
                    &&& final(self).user == old(self).user
                    &&& (act matches TurnAction::Get(g) ==> final(self).phase
                        == TurnPhase::AwaitingContext && final(self).walk.pending == Some(g)
                        && opt_view(Some(g)) == opt_view(m.parent))
                    &&& (act matches TurnAction::Complete(turns) ==> {
                        &&& final(self).phase == TurnPhase::AwaitingCompletion
                        &&& m.parent is None
                        &&& turns@.len() == final(self).history@.len()
                        &&& forall|i: int|
                            0 <= i < turns@.len() ==> turns@[i].role@ == spec_role_name(
                                final(self).history@[i].role,
                            ) && turns@[i].content@ == final(self).history@[i].content@
                        &&& final(self).history@.len() > 0
                        &&& opt_view(final(self).history@[0].parent) is None
                        &&& opt_view(
                            final(self).history@[final(self).history@.len() - 1].id,
                        ) == old(self).walk.head@
                        &&& forall|j: int|
                            0 < j < final(self).history@.len() ==> opt_view(
                                (#[trigger] final(self).history@[j]).parent,
                            ) == opt_view(final(self).history@[j - 1].id)
                    })
                    &&& (act matches TurnAction::Get(g) || act
                        matches TurnAction::Complete(t))
                },
            },
    {
        match outcome {
            Err(e) => {
                self.phase = TurnPhase::Idle;
                TurnAction::Finished(Err(TurnError::ReconstructHistory(e)))
            },
            Ok(m) => {
                self.walk.supply(m);
                match self.walk.next_needed() {
                    Some(s) => TurnAction::Get(s.clone()),
                    None => {
                        let h = self.walk.finish();
                        let turns = build_completion_turns(&h);
                        self.history = h;
                        self.phase = TurnPhase::AwaitingCompletion;
                        TurnAction::Complete(turns)
                    },
                }
            },
        }
    }

    /// The completion service's answer. A failure ends the turn with
    /// `Completion`; the head remains at the user message, leaving the
    /// conversation valid but assistant-less. On success the assistant
    /// record is built with the user message as its parent and the
    /// reply text as its content, and the turn asks for it to be
    /// persisted.
    #[verifier::rlimit(100)]
    pub fn on_completion(&mut self, outcome: Result<String, CompletionError>) -> (act:
        TurnAction)
        requires
            old(self).wf(),
            old(self).phase == TurnPhase::AwaitingCompletion,
        ensures
            final(self).wf(),
            match outcome {
                Err(e) => {
                    &&& final(self).phase == TurnPhase::Idle
                    &&& act matches TurnAction::Finished(res) && res == Err::<
                        (Message, Message),
                        TurnError,
                    >(TurnError::Completion(e))
                },
                Ok(text) => {
                    &&& final(self).phase == TurnPhase::AwaitingReplyPersist
                    &&& final(self).user == old(self).user
                    &&& final(self).assistant matches Some(a) && a.role == Role::Assistant
                        && a.content == text && opt_view(a.parent) == opt_view(
                        old(self).user.unwrap().id,
                    ) && a.id is None
                    &&& act matches TurnAction::Put(payload) && payload@
                        == spec_encode_record(
                        Role::Assistant,
                        text@,
                        opt_view(old(self).user.unwrap().id),
                    )
                },
            },
    {
        match outcome {
            Err(e) => {
                self.phase = TurnPhase::Idle;
                TurnAction::Finished(Err(TurnError::Completion(e)))
            },
            Ok(text) => {
                let parent: Option<String> = match &self.user {
                    Some(u) => match &u.id {
                        Some(i) => Some(i.clone()),
                        None => None,
                    },
                    None => None,
                };
                let assistant = Message::new(Role::Assistant, text, parent);
                let payload = encode_record(
                    Role::Assistant,
                    &assistant.content,
                    &assistant.parent,
                );
                self.assistant = Some(assistant);
                self.phase = TurnPhase::AwaitingReplyPersist;
                TurnAction::Put(payload)
            },
        }
    }

    /// The store's answer to the assistant persist. On failure the
    /// turn is over with `PersistAssistant` and the state is left
    /// unchanged: the head stays at the user message. On success the
    /// head advances to the assistant's identifier and both finalized,
    /// identifier-bearing messages are returned.
    #[verifier::rlimit(100)]
    pub fn on_reply_persisted(
        &mut self,
        state: &mut State,
        outcome: Result<String, StoreError>,
    ) -> (act: TurnAction)
        requires
            old(self).wf(),
            old(self).phase == TurnPhase::AwaitingReplyPersist,
        ensures
            final(self).wf(),
            final(self).phase == TurnPhase::Idle,
            match outcome {
                Err(e) => {
                    &&& *final(state) == *old(state)
                    &&& act matches TurnAction::Finished(res) && res == Err::<
                        (Message, Message),
                        TurnError,
                    >(TurnError::PersistAssistant(e))
                },
                Ok(key) => {
                    &&& final(state).chat.head == Some(key)
                    &&& final(state).api_key == old(state).api_key
                    &&& final(state).key_value_actor == old(state).key_value_actor
                    &&& act matches TurnAction::Finished(res) && res matches Ok(pair) && pair.0
                        == old(self).user.unwrap() && pair.1.role == Role::Assistant
                        && pair.1.content == old(self).assistant.unwrap().content
                        && pair.1.parent == old(self).assistant.unwrap().parent && pair.1.id
                        == Some(key)
                },
            },
    {
        match outcome {
            Err(e) => {
                self.phase = TurnPhase::Idle;
                TurnAction::Finished(Err(TurnError::PersistAssistant(e)))
            },
            Ok(key) => {
                let key_for_head = key.clone();
                state.update_head(key_for_head);
                let assistant = self.assistant.take().unwrap().with_id(key);
                let user = self.user.take().unwrap();
                self.phase = TurnPhase::Idle;
                TurnAction::Finished(Ok((user, assistant)))
            },
        }
    }
}

} // verus!
