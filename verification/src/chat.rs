//! The conversation session: roles, messages, and the `Chat` state machine
//! with its bounded history buffer and pending-message queue.

use vstd::prelude::*;

use std::collections::VecDeque;

use crate::{ChatModel, JsonParseError, SendRequestError};

verus! {

/// Author of a message in a conversation.
#[derive(Debug, Clone, Copy, PartialEq, Eq, Structural)]
pub enum Role {
    User,
    Assistant,
    System,
}

impl Role {
    /// The wire name of each role.
    pub open spec fn name_spec(self) -> Seq<char> {
        match self {
            Role::User => "user"@,
            Role::Assistant => "assistant"@,
            Role::System => "system"@,
        }
    }

    /// Renders the role under its wire name.
    pub fn to_string(&self) -> (r: String)
        ensures
            r@ == self.name_spec(),
    {
        match self {
            Role::User => "user".to_owned(),
            Role::Assistant => "assistant".to_owned(),
            Role::System => "system".to_owned(),
        }
    }

    /// Parses a wire name back into a role; any other text is rejected and
    /// handed back as the diagnostic payload.
    pub fn try_from(value: &str) -> (r: Result<Role, JsonParseError>)
        ensures
            value@ == "user"@ ==> r == Ok::<Role, JsonParseError>(Role::User),
            value@ == "assistant"@ ==> r == Ok::<Role, JsonParseError>(Role::Assistant),
            value@ == "system"@ ==> r == Ok::<Role, JsonParseError>(Role::System),
            r matches Ok(role) ==> role.name_spec() == value@,
            r matches Err(e) ==> e@ == value@ && (forall|role: Role|
                #[trigger] role.name_spec() != value@),
    {
        proof {
            reveal_strlit("user");
            reveal_strlit("assistant");
            reveal_strlit("system");
            assert("user"@.len() == 4);
            assert("assistant"@.len() == 9);
            assert("system"@.len() == 6);
        }
        let v = value.to_owned();
        if v == "user".to_owned() {
            Ok(Role::User)
        } else if v == "assistant".to_owned() {
            Ok(Role::Assistant)
        } else if v == "system".to_owned() {
            Ok(Role::System)
        } else {
            Err(JsonParseError::new(v))
        }
    }
}

/// The mathematical value of a [`ChatMessage`]: its role and the character
/// sequence of its content.
#[verifier::ext_equal]
pub struct MessageView {
    pub role: Role,
    pub content: Seq<char>,
}

/// One message sent to or received from the service.
#[derive(Debug)]
pub struct ChatMessage {
    pub role: Role,
    pub content: String,
}

impl View for ChatMessage {
    type V = MessageView;

    open spec fn view(&self) -> MessageView {
        MessageView { role: self.role, content: self.content@ }
    }
}

impl DeepView for ChatMessage {
    type V = MessageView;

    open spec fn deep_view(&self) -> MessageView {
        self.view()
    }
}

impl Clone for ChatMessage {
    fn clone(&self) -> (r: Self)
        ensures
            r == *self,
    {
        ChatMessage { role: self.role, content: self.content.clone() }
    }
}

impl Default for ChatMessage {
    /// An empty user message.
    fn default() -> (d: Self)
        ensures
            d.role == Role::User,
            d.content@ == Seq::<char>::empty(),
    {
        ChatMessage { role: Role::User, content: String::new() }
    }
}

/// Token accounting reported by the chat endpoint.
#[derive(Debug)]
pub struct Usage {
    pub prompt_tokens: u32,
    pub completion_tokens: u32,
    pub total_tokens: u32,
}

/// One of the reply choices returned by the chat endpoint.
#[derive(Debug)]
pub struct ChatChoice {
    pub index: u32,
    pub message: ChatMessage,
    pub finish_reason: String,
}

/// A parsed reply from the chat endpoint.
#[derive(Debug)]
pub struct ChatResponse {
    pub id: String,
    pub object: String,
    pub created: u64,
    pub choices: Vec<ChatChoice>,
    pub usage: Usage,
}

impl ChatResponse {
    /// The message of the first reply choice. A reply without any choice
    /// cannot be read as a message and is rejected as malformed.
    pub fn first_choice(&self) -> (r: Result<ChatMessage, SendRequestError>)
        ensures
            self.choices@.len() > 0 ==> (r matches Ok(m) && m == self.choices@[0].message),
            self.choices@.len() == 0 ==> (r matches Err(e) && e matches
                SendRequestError::MalformedResponse(_)),
    {
        if self.choices.len() > 0 {
            Ok(self.choices[0].message.clone())
        } else {
            Err(SendRequestError::MalformedResponse(JsonParseError::new(
                "reply contained no choices".to_owned(),
            )))
        }
    }
}

/// The mathematical state of a session: its immutable configuration, the
/// history buffer, and the pending queue, all as plain values.
#[verifier::ext_equal]
pub struct ChatView {
    /// The configured system preamble.
    pub system: MessageView,
    /// The history buffer: past exchanged messages, oldest first, without
    /// the system preamble.
    pub history: Seq<MessageView>,
    /// The pending queue: submitted but not yet sent user messages, in
    /// submission order.
    pub pending: Seq<MessageView>,
    /// The configured soft bound on the history buffer.
    pub max_len: int,
    /// The target model.
    pub model: ChatModel,
    /// The configured credential.
    pub api_key: Seq<char>,
    /// The configured user tag, if any.
    pub user_tag: Option<Seq<char>>,
}

/// Structural soundness of a session state: the preamble really is a system
/// message and every queued entry is user-authored.
pub open spec fn chat_wf(s: ChatView) -> bool {
    &&& s.system.role == Role::System
    &&& forall|i: int| 0 <= i < s.pending.len() ==> (#[trigger] s.pending[i]).role == Role::User
}

/// The user-authored message built from one submitted text.
pub open spec fn user_message(text: Seq<char>) -> MessageView {
    MessageView { role: Role::User, content: text }
}

/// How `ask` changes a session: the submitted text is enqueued, as a user
/// message, at the back of the pending queue; nothing else moves.
pub open spec fn submit_step(s: ChatView, text: Seq<char>) -> ChatView {
    ChatView { pending: s.pending.push(user_message(text)), ..s }
}

/// The eviction trigger: each user/assistant pair counts as one turn
/// against `max_len`, and the two messages about to be added are counted in
/// advance. A soft, approximate cap: it evicts at most one entry per
/// exchange.
pub open spec fn should_evict(history_len: int, max_len: int) -> bool {
    (history_len + 2) * 2 >= max_len
}

/// The history buffer after the eviction rule ran: when the trigger fires
/// and the buffer is not empty, exactly the oldest entry is dropped.
pub open spec fn after_eviction(history: Seq<MessageView>, max_len: int) -> Seq<MessageView> {
    if should_evict(history.len() as int, max_len) && history.len() > 0 {
        history.drop_first()
    } else {
        history
    }
}

/// How the first half of an exchange changes a session: the oldest pending
/// message is dequeued and appended to the history buffer, after the
/// eviction rule ran on the buffer.
pub open spec fn exchange_begin_step(s: ChatView) -> ChatView
    recommends
        s.pending.len() > 0,
{
    ChatView {
        history: after_eviction(s.history, s.max_len).push(s.pending[0]),
        pending: s.pending.drop_first(),
        ..s
    }
}

/// How a successful exchange ends: the service's reply is appended to the
/// history buffer, right behind the user message it answers.
pub open spec fn exchange_reply_step(s: ChatView, reply: MessageView) -> ChatView {
    ChatView { history: s.history.push(reply), ..s }
}

/// What a snapshot of the conversation shows: the system preamble followed
/// by the history buffer; never the pending queue.
pub open spec fn snapshot_spec(s: ChatView) -> Seq<MessageView> {
    seq![s.system] + s.history
}

/// The user tag that one exchange sends: the per-call override when given,
/// otherwise the configured one.
pub open spec fn effective_user_tag(
    requested: Option<Seq<char>>,
    configured: Option<Seq<char>>,
) -> Option<Seq<char>> {
    if requested is Some {
        requested
    } else {
        configured
    }
}

/// The injected collaborator behind an exchange: it assembles the wire
/// request out of the model, the opaque generation parameters, the ordered
/// message list, the user tag and the credential, performs the round trip,
/// and hands back the parsed reply. Nothing is assumed of it: every
/// contract of this module holds whatever a `send` implementation returns.
pub trait Transport<P> {
    /// Assembles and sends one request built from the given pieces.
    fn send(
        &self,
        model: &ChatModel,
        parameters: &P,
        messages: &Vec<ChatMessage>,
        user: &Option<String>,
        api_key: &str,
    ) -> Result<ChatResponse, SendRequestError>;
}

/// Accumulates a session configuration and finally builds the session.
///
/// Its view is the state of the session that `build` would return now:
/// empty buffers under the configuration gathered so far. The generation
/// parameters are opaque to the session and are tracked by [`Self::params`]
/// beside the view.
pub struct ChatBuilder<P> {
    system: ChatMessage,
    chat_parameters: P,
    api_key: String,
    model: ChatModel,
    len: usize,
    user: Option<String>,
}

impl<P> ChatBuilder<P> {
    /// The preamble gathered by a builder is always a system message.
    #[verifier::type_invariant]
    spec fn builder_inv(&self) -> bool {
        self.system@.role == Role::System
    }

    /// The session state that `build` would return.
    pub closed spec fn view(&self) -> ChatView {
        ChatView {
            system: self.system@,
            history: Seq::empty(),
            pending: Seq::empty(),
            max_len: self.len as int,
            model: self.model,
            api_key: self.api_key@,
            user_tag: self.user.deep_view(),
        }
    }

    /// The opaque generation parameters gathered so far.
    pub closed spec fn params(&self) -> P {
        self.chat_parameters
    }

    /// Starts from the defaults: an empty system preamble, no user tag, and
    /// a history bound of 5.
    pub fn new(model: ChatModel, api_key: String, chat_parameters: P) -> (b: Self)
        ensures
            b@ == (ChatView {
                system: MessageView { role: Role::System, content: Seq::empty() },
                history: Seq::empty(),
                pending: Seq::empty(),
                max_len: 5,
                model: model,
                api_key: api_key@,
                user_tag: None::<Seq<char>>,
            }),
            b.params() == chat_parameters,
    {
        let mut default_msg = ChatMessage::default();
        default_msg.role = Role::System;

        ChatBuilder {
            model,
            api_key,
            system: default_msg,
            chat_parameters,
            len: 5,
            user: None,
        }
    }

    /// Sets the soft bound on the history buffer.
    pub fn len(self, len: usize) -> (b: Self)
        ensures
            b@ == (ChatView { max_len: len as int, ..self@ }),
            b.params() == self.params(),
    {
        proof {
            use_type_invariant(&self);
        }
        ChatBuilder { len, ..self }
    }

    /// Replaces the system preamble.
    pub fn system(self, system: ChatMessage) -> (b: Self)
        requires
            system@.role == Role::System,
        ensures
            b@ == (ChatView { system: system@, ..self@ }),
            b.params() == self.params(),
    {
        ChatBuilder { system, ..self }
    }

    /// Sets the user tag sent along with every exchange.
    pub fn user(self, user: String) -> (b: Self)
        ensures
            b@ == (ChatView { user_tag: Some(user@), ..self@ }),
            b.params() == self.params(),
    {
        proof {
            use_type_invariant(&self);
        }
        ChatBuilder { user: Some(user), ..self }
    }

    /// Builds the session: the gathered configuration with an empty history
    /// buffer and an empty pending queue.
    pub fn build(self) -> (c: Chat<P>)
        ensures
            c@ == self@,
            c.params() == self.params(),
            chat_wf(c@),
    {
        proof {
            use_type_invariant(&self);
        }
        Chat::new(self.system, self.model, self.len, self.api_key, self.chat_parameters, self.user)
    }
}

/// One conversation session: the immutable configuration, the bounded
/// history buffer, and the queue of pending user messages.
///
/// The session is the unit of mutual exclusion: every mutating operation
/// takes `&mut self`, so one exchange runs at a time and its two appends
/// to the history buffer form one contiguous block. A caller that shares
/// a session across tasks puts it behind one exclusive lock and thereby
/// keeps exchanges single-flight.
pub struct Chat<P> {
    system: ChatMessage,
    chat_parameters: P,
    api_key: String,
    model: ChatModel,
    len: usize,
    user: Option<String>,
    messages: VecDeque<ChatMessage>,
    message_queue: VecDeque<ChatMessage>,
}

impl<P> Chat<P> {
    /// The mathematical state of the session.
    pub closed spec fn view(&self) -> ChatView {
        ChatView {
            system: self.system@,
            history: self.messages.deep_view(),
            pending: self.message_queue.deep_view(),
            max_len: self.len as int,
            model: self.model,
            api_key: self.api_key@,
            user_tag: self.user.deep_view(),
        }
    }

    /// The opaque generation parameters of the session.
    pub closed spec fn params(&self) -> P {
        self.chat_parameters
    }

    /// Assembles a fresh session around the given configuration.
    fn new(
        system: ChatMessage,
        model: ChatModel,
        len: usize,
        api_key: String,
        chat_parameters: P,
        user: Option<String>,
    ) -> (c: Self)
        requires
            system@.role == Role::System,
        ensures
            c@ == (ChatView {
                system: system@,
                history: Seq::empty(),
                pending: Seq::empty(),
                max_len: len as int,
                model: model,
                api_key: api_key@,
                user_tag: user.deep_view(),
            }),
            c.params() == chat_parameters,
            chat_wf(c@),
    {
        Self {
            system,
            chat_parameters,
            api_key,
            model,
            len,
            user,
            messages: VecDeque::new(),
            message_queue: VecDeque::new(),
        }
    }

    /// Submits one user text: it joins the back of the pending queue and
    /// will be sent by a later exchange. Never touches the history buffer
    /// and always succeeds.
    pub fn ask(&mut self, message: &str) -> (r: Result<(), SendRequestError>)
        ensures
            r is Ok,
            final(self)@ == submit_step(old(self)@, message@),
            final(self).params() == old(self).params(),
    {
        let msg = ChatMessage { role: Role::User, content: message.to_owned() };

        self.message_queue.push_back(msg);
        proof {
            assert(self@ =~= submit_step(old(self)@, message@));
        }
        Ok(())
    }

    /// A snapshot of the conversation: the system preamble followed by a
    /// copy of the history buffer, in order. Read-only, and independent of
    /// the pending queue.
    pub fn get_messages(&self) -> (r: Vec<ChatMessage>)
        ensures
            r.deep_view() == snapshot_spec(self@),
    {
        let ghost goal = snapshot_spec(self@);

        let mut result: Vec<ChatMessage> = Vec::new();
        result.push(self.system.clone());

        let mut i: usize = 0;
        while i < self.messages.len()
            invariant
                i <= self.messages.len(),
                result.deep_view() =~= goal.subrange(0, 1 + i as int),
                goal == snapshot_spec(self@),
            decreases self.messages.len() - i,
        {
            result.push(self.messages[i].clone());
            proof {
                assert(goal.subrange(0, 2 + i as int) =~= goal.subrange(0, 1 + i as int).push(
                    goal[1 + i as int],
                ));
                assert(result.deep_view() =~= goal.subrange(0, 2 + i as int));
            }
            i = i + 1;
        }
        proof {
            assert(result.deep_view() =~= goal);
        }
        result
    }

    /// The target model of the session.
    pub fn model(&self) -> (r: ChatModel)
        ensures
            r == self@.model,
    {
        self.model
    }

    /// The configured credential.
    pub fn api_key(&self) -> (r: &String)
        ensures
            r@ == self@.api_key,
    {
        &self.api_key
    }

    /// The opaque generation parameters, as configured.
    pub fn chat_parameters(&self) -> (r: &P)
        ensures
            *r == self.params(),
    {
        &self.chat_parameters
    }

    /// The user tag one exchange should carry: the per-call override when
    /// given, otherwise the configured one.
    pub fn request_user_tag(&self, requested: Option<String>) -> (r: Option<String>)
        ensures
            r.deep_view() == effective_user_tag(requested.deep_view(), self@.user_tag),
    {
        match requested {
            Some(u) => Some(u),
            None => match &self.user {
                Some(u) => Some(u.clone()),
                None => None,
            },
        }
    }

    /// Whether the eviction rule fires for the current history buffer.
    fn should_evict_now(&self) -> (b: bool)
        ensures
            b == should_evict(self@.history.len() as int, self@.max_len),
    {
        let h = self.messages.len();
        let half_len: usize = self.len / 2 + self.len % 2;
        let b = if half_len <= 2 {
            true
        } else {
            h >= half_len - 2
        };
        proof {
            let hi = h as int;
            let li = self.len as int;
            assert(self@.history.len() == hi);
            assert(b == ((hi + 2) * 2 >= li)) by {
                assert(li == 2 * (li / 2) + li % 2);
            };
        }
        b
    }

    /// The first half of an exchange: dequeues the oldest pending message,
    /// runs the eviction rule, appends the message to the history buffer,
    /// and assembles the outgoing list (the snapshot of the new state).
    /// Fails, changing nothing, exactly when nothing is pending.
    pub fn begin_exchange(&mut self) -> (r: Result<Vec<ChatMessage>, SendRequestError>)
        ensures
            old(self)@.pending.len() == 0 ==> {
                &&& r matches Err(SendRequestError::NoPendingMessage)
                &&& final(self)@ == old(self)@
            },
            old(self)@.pending.len() > 0 ==> {
                &&& final(self)@ == exchange_begin_step(old(self)@)
                &&& r matches Ok(msgs) && msgs.deep_view() == snapshot_spec(
                    exchange_begin_step(old(self)@),
                )
            },
            final(self).params() == old(self).params(),
            chat_wf(old(self)@) ==> chat_wf(final(self)@),
    {
        let msg = match self.message_queue.pop_front() {
            Some(m) => m,
            None => {
                return Err(SendRequestError::NoPendingMessage);
            },
        };
        if self.should_evict_now() {
            let _dropped = self.messages.pop_front();
        }
        self.messages.push_back(msg);
        proof {
            assert(self.messages.deep_view() =~= after_eviction(
                old(self)@.history,
                old(self)@.max_len,
            ).push(old(self)@.pending[0]));
            assert(self.message_queue.deep_view() =~= old(self)@.pending.drop_first());
            assert(self@ =~= exchange_begin_step(old(self)@));
        }
        Ok(self.get_messages())
    }

    /// The second half of a successful exchange: records the service's
    /// reply at the end of the history buffer and hands it back.
    pub fn complete_exchange(&mut self, reply: ChatMessage) -> (r: ChatMessage)
        ensures
            final(self)@ == exchange_reply_step(old(self)@, reply@),
            r == reply,
            final(self).params() == old(self).params(),
            chat_wf(old(self)@) ==> chat_wf(final(self)@),
    {
        self.messages.push_back(reply.clone());
        proof {
            assert(self@ =~= exchange_reply_step(old(self)@, reply@));
        }
        reply
    }

    /// One full exchange: dequeues the oldest pending message, sends the
    /// whole context through the given transport, records the reply, and
    /// returns it.
    ///
    /// With an empty pending queue it fails with `NoPendingMessage` and
    /// changes nothing. Otherwise the dequeued user message is in the
    /// history buffer whatever happens next: on success the reply stands
    /// right behind it, and on any failure the error is handed through
    /// with nothing further recorded.
    pub fn get_response<T: Transport<P>>(&mut self, transport: &T, user: Option<String>) -> (r:
        Result<ChatMessage, SendRequestError>)
        ensures
            old(self)@.pending.len() == 0 ==> {
                &&& r matches Err(SendRequestError::NoPendingMessage)
                &&& final(self)@ == old(self)@
            },
            old(self)@.pending.len() > 0 ==> {
                &&& (r matches Ok(m) ==> final(self)@ == exchange_reply_step(
                    exchange_begin_step(old(self)@),
                    m@,
                ))
                &&& (r matches Err(_) ==> final(self)@ == exchange_begin_step(old(self)@))
            },
            final(self).params() == old(self).params(),
            chat_wf(old(self)@) ==> chat_wf(final(self)@),
    {
        let to_send = match self.begin_exchange() {
            Ok(msgs) => msgs,
            Err(e) => {
                return Err(e);
            },
        };
        let user = self.request_user_tag(user);

        let resp = match transport.send(
            &self.model,
            &self.chat_parameters,
            &to_send,
            &user,
            self.api_key.as_str(),
        ) {
            Ok(resp) => resp,
            Err(e) => {
                return Err(e);
            },
        };

        let message = match resp.first_choice() {
            Ok(m) => m,
            Err(e) => {
                return Err(e);
            },
        };

        Ok(self.complete_exchange(message))
    }
}

/// The pending queue after a whole batch of submissions, oldest first.
pub open spec fn submit_all(s: ChatView, texts: Seq<Seq<char>>) -> ChatView
    decreases texts.len(),
{
    if texts.len() == 0 {
        s
    } else {
        submit_all(submit_step(s, texts[0]), texts.drop_first())
    }
}

/// Submissions accumulate and never reorder: after any batch of `ask`
/// calls the pending queue has grown by exactly one user message per
/// submitted text, in submission order, and the history buffer has not
/// moved. In particular, starting from an empty queue, the queue length
/// equals the number of submissions and exchanges will dequeue the texts
/// in submission order.
pub proof fn lemma_submits_accumulate_in_order(s: ChatView, texts: Seq<Seq<char>>)
    ensures
        submit_all(s, texts).pending == s.pending + texts.map_values(|t: Seq<char>|
            user_message(t)),
        submit_all(s, texts).pending.len() == s.pending.len() + texts.len(),
        submit_all(s, texts) == (ChatView { pending: submit_all(s, texts).pending, ..s }),
    decreases texts.len(),
{
    let f = |t: Seq<char>| user_message(t);
    if texts.len() == 0 {
        assert(submit_all(s, texts).pending =~= s.pending + texts.map_values(f));
        assert(submit_all(s, texts) =~= (ChatView { pending: submit_all(s, texts).pending, ..s }));
    } else {
        let s1 = submit_step(s, texts[0]);
        lemma_submits_accumulate_in_order(s1, texts.drop_first());
        assert(s1.pending + texts.drop_first().map_values(f) =~= s.pending + texts.map_values(f));
        assert(submit_all(s, texts) =~= (ChatView { pending: submit_all(s, texts).pending, ..s }));
    }
}

/// An exchange consumes exactly the front of the pending queue: the
/// dequeued message is the oldest submission and every younger submission
/// moves up one place, still in order.
pub proof fn lemma_exchange_dequeues_in_submission_order(s: ChatView)
    requires
        s.pending.len() > 0,
    ensures
        exchange_begin_step(s).history.last() == s.pending[0],
        exchange_begin_step(s).pending.len() == s.pending.len() - 1,
        forall|i: int| 0 <= i < s.pending.len() - 1 ==> exchange_begin_step(s).pending[i]
            == s.pending[i + 1],
{
}

/// A successful exchange appends exactly the pair `[user message, reply]`
/// as one contiguous block at the end of the history buffer: everything in
/// front of the pair is the previous buffer, aged only by the eviction
/// rule, and under a well-formed state the first entry of the pair is
/// user-authored.
pub proof fn lemma_exchange_appends_pair(s: ChatView, reply: MessageView)
    requires
        s.pending.len() > 0,
    ensures
        ({
            let done = exchange_reply_step(exchange_begin_step(s), reply);
            &&& done.history.len() >= 2
            &&& done.history[done.history.len() - 2] == s.pending[0]
            &&& done.history.last() == reply
            &&& done.history == after_eviction(s.history, s.max_len) + seq![s.pending[0], reply]
            &&& chat_wf(s) ==> done.history[done.history.len() - 2].role == Role::User
        }),
{
    let done = exchange_reply_step(exchange_begin_step(s), reply);
    assert(done.history =~= after_eviction(s.history, s.max_len) + seq![s.pending[0], reply]);
}

/// The eviction rule only ever drops the oldest entry: when it fires on a
/// non-empty buffer, entry 0 is gone, every other entry survives in order,
/// and the newest entry survives in particular; when it does not fire, the
/// buffer is untouched.
pub proof fn lemma_eviction_drops_oldest_never_newest(history: Seq<MessageView>, max_len: int)
    ensures
        should_evict(history.len() as int, max_len) && history.len() > 0 ==> {
            &&& after_eviction(history, max_len).len() == history.len() - 1
            &&& forall|i: int| 1 <= i < history.len() ==> after_eviction(history, max_len)[i - 1]
                == history[i]
            &&& history.len() > 1 ==> after_eviction(history, max_len).last() == history.last()
        },
        !should_evict(history.len() as int, max_len) ==> after_eviction(history, max_len)
            == history,
{
}

/// A snapshot always begins with the configured system message, shows the
/// history buffer right behind it, and is blind to the pending queue: two
/// states that differ only in their pending queue snapshot identically.
pub proof fn lemma_snapshot_shape(s: ChatView, t: ChatView)
    requires
        t == (ChatView { pending: t.pending, ..s }),
    ensures
        snapshot_spec(s)[0] == s.system,
        snapshot_spec(s).len() == s.history.len() + 1,
        snapshot_spec(s).drop_first() == s.history,
        snapshot_spec(s) == snapshot_spec(t),
{
    assert(snapshot_spec(s).drop_first() =~= s.history);
    assert(snapshot_spec(s) =~= snapshot_spec(t));
}

} // verus!
