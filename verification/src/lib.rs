//! Client-side session manager for a remote chat-completion service.
//!
//! The heart of the crate is [`chat::Chat`]: it keeps the bounded dialogue
//! history and the queue of not-yet-sent user messages, and runs the
//! submit / exchange / snapshot protocol against an injected transport.
//! Everything here is specified and verified; the HTTP and JSON plumbing
//! lives outside the library behind the [`SendRequest`] and
//! [`chat::Transport`] capabilities.

use vstd::prelude::*;
use vstd::string::StringExecFns;

pub mod chat;
pub mod completion;

verus! {

/// Diagnostic payload kept when a reply could not be parsed into the
/// expected shape: the raw text, so a caller can inspect what arrived.
#[derive(Debug)]
pub struct JsonParseError {
    json_string: String,
}

impl View for JsonParseError {
    type V = Seq<char>;

    closed spec fn view(&self) -> Seq<char> {
        self.json_string@
    }
}

impl JsonParseError {
    /// Wraps the raw text of an unparseable payload.
    pub fn new(json_string: String) -> (e: Self)
        ensures
            e@ == json_string@,
    {
        JsonParseError { json_string }
    }

    /// The raw payload that failed to parse.
    pub fn json_string(&self) -> (r: &String)
        ensures
            r@ == self@,
    {
        &self.json_string
    }

    /// What a rendering of this error says.
    pub open spec fn describe_spec(&self) -> Seq<char> {
        "Could not parse json: "@ + self@
    }

    /// A human-readable rendering of the error.
    pub fn describe(&self) -> (r: String)
        ensures
            r@ == self.describe_spec(),
    {
        "Could not parse json: ".to_owned().concat(self.json_string.as_str())
    }
}

/// Everything that can go wrong while running an exchange.
#[derive(Debug)]
pub enum SendRequestError {
    /// The caller asked for an exchange while nothing was waiting to be
    /// sent: a usage error, never produced by the transport itself.
    NoPendingMessage,
    /// The round trip to the service failed at the I/O level; the payload
    /// carries the transport's own description.
    TransportFailure(String),
    /// The service answered, but with a structured error instead of a
    /// completion; the payload carries the service's diagnostic text.
    RemoteServiceError(String),
    /// The reply arrived but could not be read as a message.
    MalformedResponse(JsonParseError),
}

impl SendRequestError {
    /// What a rendering of this error says.
    pub open spec fn describe_spec(&self) -> Seq<char> {
        match self {
            SendRequestError::NoPendingMessage => "No message to send"@,
            SendRequestError::TransportFailure(e) => "Transport failure: "@ + e@,
            SendRequestError::RemoteServiceError(e) => "Remote service error: "@ + e@,
            SendRequestError::MalformedResponse(e) => e.describe_spec(),
        }
    }

    /// A human-readable rendering of the failure.
    pub fn describe(&self) -> (r: String)
        ensures
            r@ == self.describe_spec(),
    {
        match self {
            SendRequestError::NoPendingMessage => "No message to send".to_owned(),
            SendRequestError::TransportFailure(e) => "Transport failure: ".to_owned().concat(
                e.as_str(),
            ),
            SendRequestError::RemoteServiceError(e) => "Remote service error: ".to_owned().concat(
                e.as_str(),
            ),
            SendRequestError::MalformedResponse(e) => e.describe(),
        }
    }
}

/// Capability to send an assembled request and hand back its parsed reply.
pub trait SendRequest {
    /// The type of the parsed reply.
    type Response;

    /// The type of the error.
    type Error;

    /// Performs the round trip.
    fn send(self) -> Result<Self::Response, Self::Error>;
}

/// Marker for the request shapes that the completion-style endpoints accept.
pub trait CompletionLike {

}

/// Marker type for plain-completion requests.
pub struct CompletionState;

/// Marker type for chat requests.
pub struct ChatState;

impl CompletionLike for CompletionState {

}

impl CompletionLike for ChatState {

}

/// The models served by the plain-completion endpoint.
#[derive(Debug, Clone, Copy, PartialEq, Eq)]
pub enum CompletionModel {
    TextDavinci003,
    TextDavinci002,
    CodeDavinci002,
}

impl CompletionModel {
    /// The wire identifier of each completion model.
    pub open spec fn name_spec(self) -> Seq<char> {
        match self {
            CompletionModel::TextDavinci003 => "text-davinci-003"@,
            CompletionModel::TextDavinci002 => "text-davinci-002"@,
            CompletionModel::CodeDavinci002 => "code-davinci-002"@,
        }
    }

    /// Renders the model under its wire identifier.
    pub fn to_string(&self) -> (r: String)
        ensures
            r@ == self.name_spec(),
    {
        match self {
            CompletionModel::TextDavinci003 => "text-davinci-003".to_owned(),
            CompletionModel::TextDavinci002 => "text-davinci-002".to_owned(),
            CompletionModel::CodeDavinci002 => "code-davinci-002".to_owned(),
        }
    }
}

/// The models served by the chat endpoint.
#[derive(Debug, Clone, Copy, PartialEq, Eq)]
pub enum ChatModel {
    Gpt35Turbo,
    GPT35Turbo0301,
}

impl ChatModel {
    /// The wire identifier of each chat model.
    pub open spec fn name_spec(self) -> Seq<char> {
        match self {
            ChatModel::Gpt35Turbo => "gpt-3.5-turbo"@,
            ChatModel::GPT35Turbo0301 => "gpt-3.5-turbo-0301"@,
        }
    }

    /// Renders the model under its wire identifier.
    pub fn to_string(&self) -> (r: String)
        ensures
            r@ == self.name_spec(),
    {
        match self {
            ChatModel::Gpt35Turbo => "gpt-3.5-turbo".to_owned(),
            ChatModel::GPT35Turbo0301 => "gpt-3.5-turbo-0301".to_owned(),
        }
    }
}

/// A fully assembled wire request: the serialized payload together with the
/// credential header value, ready to be carried to the service.
#[derive(Debug)]
pub struct Request<T> {
    to_send: String,
    api_key: String,
    state: core::marker::PhantomData<T>,
}

impl<T> Request<T> {
    /// The serialized payload.
    pub closed spec fn to_send_spec(&self) -> Seq<char> {
        self.to_send@
    }

    /// The credential header value.
    pub closed spec fn api_key_spec(&self) -> Seq<char> {
        self.api_key@
    }

    /// Packs a serialized payload and a credential into a request.
    pub fn new(to_send: String, api_key: String) -> (r: Self)
        ensures
            r.to_send_spec() == to_send@,
            r.api_key_spec() == api_key@,
    {
        Request { to_send, api_key, state: core::marker::PhantomData }
    }

    /// The serialized payload.
    pub fn to_send(&self) -> (r: &String)
        ensures
            r@ == self.to_send_spec(),
    {
        &self.to_send
    }

    /// The credential header value.
    pub fn api_key(&self) -> (r: &String)
        ensures
            r@ == self.api_key_spec(),
    {
        &self.api_key
    }
}

} // verus!
