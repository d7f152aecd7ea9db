//! The typed shapes of a chat completion: the full and the streamed (delta)
//! response records, the messages a request carries, and a builder for the
//! request payload.

use vstd::prelude::*;

verus! {

/// Token accounting reported by the service alongside a completion.
#[derive(Clone, Copy, Debug, PartialEq, Eq)]
pub struct Usage {
    pub prompt_tokens: u32,
    pub completion_tokens: u32,
    pub total_tokens: u32,
}

/// The author of a chat message.
#[derive(Clone, Copy, Debug, PartialEq, Eq)]
pub enum ChatCompletionMessageRole {
    System,
    User,
    Assistant,
}

/// One message of the conversation, as sent in a request or returned whole
/// in a non-streamed response.
#[derive(Clone, Debug, PartialEq, Eq)]
pub struct ChatCompletionMessage {
    /// The role of the author of this message.
    pub role: ChatCompletionMessageRole,
    /// The contents of the message.
    pub content: String,
    /// The name of the user in a multi-user chat.
    pub name: Option<String>,
}

/// One incremental fragment of a message, as carried by a single streamed
/// event; every field may be absent because each event carries only what
/// changed.
#[derive(Clone, Debug, PartialEq, Eq)]
pub struct ChatCompletionMessageDelta {
    /// The role of the author of this message, if this fragment names it.
    pub role: Option<ChatCompletionMessageRole>,
    /// The piece of content this fragment adds, if any.
    pub content: Option<String>,
    /// The name of the user in a multi-user chat, if this fragment names it.
    pub name: Option<String>,
}

/// One alternative answer of a non-streamed completion.
#[derive(Clone, Debug, PartialEq, Eq)]
pub struct ChatCompletionChoice {
    pub index: u64,
    pub finish_reason: String,
    pub message: ChatCompletionMessage,
}

/// One alternative answer of a streamed completion fragment.
#[derive(Clone, Debug, PartialEq, Eq)]
pub struct ChatCompletionChoiceDelta {
    pub index: u64,
    pub finish_reason: Option<String>,
    pub delta: ChatCompletionMessageDelta,
}

/// A completion record as decoded from the service, generic over the shape
/// of its choices: whole messages for the single-shot mode, message deltas
/// for the streamed mode.
#[derive(Clone, Debug, PartialEq, Eq)]
pub struct ChatCompletionGeneric<C> {
    pub id: String,
    pub object: String,
    pub created: u64,
    pub model: String,
    pub choices: Vec<C>,
    pub usage: Option<Usage>,
}

/// A full chat completion.
pub type ChatCompletion = ChatCompletionGeneric<ChatCompletionChoice>;


/// A delta chat completion, one fragment of a streamed response.
pub type ChatCompletionDelta = ChatCompletionGeneric<ChatCompletionChoiceDelta>;

/// The payload of a completion request: the model to query, the conversation
/// so far, and the optional plain-valued controls. The floating-point
/// sampling knobs, which nothing here ever reads, belong to the unverified
/// transport layer around this library.
#[derive(Clone, Debug, PartialEq, Eq)]
pub struct ChatCompletionRequest {
    /// ID of the model to use.
    pub model: String,
    /// The messages to generate chat completions for, in the chat format.
    pub messages: Vec<ChatCompletionMessage>,
    /// How many chat completion choices to generate for each input message.
    pub n: Option<u8>,
    /// Whether the response is to be streamed as deltas.
    pub stream: Option<bool>,
    /// Up to 4 sequences where the API will stop generating further tokens.
    pub stop: Vec<String>,
    /// The maximum number of tokens allowed for the generated answer.
    pub max_tokens: Option<u64>,
    /// A unique identifier representing the end-user; empty when unset.
    pub user: String,
}

/// Step-by-step construction of a request. It starts from the two required
/// fields, with every optional control absent, and each method below fills
/// one control in.
pub struct ChatCompletionBuilder {
    request: ChatCompletionRequest,
}

impl ChatCompletionBuilder {
    /// The request as built so far.
    pub closed spec fn request(self) -> ChatCompletionRequest {
        self.request
    }

    /// Replace the model to query.
    pub fn model(self, model: &str) -> (b: ChatCompletionBuilder)
        ensures
            b.request() == (ChatCompletionRequest { model: b.request().model, ..self.request() }),
            b.request().model@ == model@,
    {
        ChatCompletionBuilder {
            request: ChatCompletionRequest { model: model.to_owned(), ..self.request },
        }
    }

    /// Replace the conversation the completion is asked for.
    pub fn messages(self, messages: Vec<ChatCompletionMessage>) -> (b: ChatCompletionBuilder)
        ensures
            b.request() == (ChatCompletionRequest { messages, ..self.request() }),
    {
        ChatCompletionBuilder { request: ChatCompletionRequest { messages, ..self.request } }
    }

    /// Ask for this many choices per input message.
    pub fn n(self, n: u8) -> (b: ChatCompletionBuilder)
        ensures
            b.request() == (ChatCompletionRequest { n: Some(n), ..self.request() }),
    {
        ChatCompletionBuilder { request: ChatCompletionRequest { n: Some(n), ..self.request } }
    }

    /// Choose between the single-shot and the streamed delivery.
    pub fn stream(self, stream: bool) -> (b: ChatCompletionBuilder)
        ensures
            b.request() == (ChatCompletionRequest { stream: Some(stream), ..self.request() }),
    {
        ChatCompletionBuilder {
            request: ChatCompletionRequest { stream: Some(stream), ..self.request },
        }
    }

    /// Set the sequences where generation stops.
    pub fn stop(self, stop: Vec<String>) -> (b: ChatCompletionBuilder)
        ensures
            b.request() == (ChatCompletionRequest { stop, ..self.request() }),
    {
        ChatCompletionBuilder { request: ChatCompletionRequest { stop, ..self.request } }
    }

    /// Cap the number of tokens of the generated answer.
    pub fn max_tokens(self, max_tokens: u64) -> (b: ChatCompletionBuilder)
        ensures
            b.request() == (ChatCompletionRequest {
                max_tokens: Some(max_tokens),
                ..self.request()
            }),
    {
        ChatCompletionBuilder {
            request: ChatCompletionRequest { max_tokens: Some(max_tokens), ..self.request },
        }
    }

    /// Name the end-user the request is made for.
    pub fn user(self, user: &str) -> (b: ChatCompletionBuilder)
        ensures
            b.request() == (ChatCompletionRequest { user: b.request().user, ..self.request() }),
            b.request().user@ == user@,
    {
        ChatCompletionBuilder {
            request: ChatCompletionRequest { user: user.to_owned(), ..self.request },
        }
    }

    /// Finish: the request exactly as the builder holds it.
    pub fn build(self) -> (r: ChatCompletionRequest)
        ensures
            r == self.request(),
    {
        self.request
    }
}

impl<C> ChatCompletionGeneric<C> {
    /// Start building a request for the given model and conversation, every
    /// optional control absent.
    pub fn builder(model: &str, messages: Vec<ChatCompletionMessage>) -> (b: ChatCompletionBuilder)
        ensures
            b.request().model@ == model@,
            b.request().messages == messages,
            b.request().n is None,
            b.request().stream is None,
            b.request().stop@ == Seq::<String>::empty(),
            b.request().max_tokens is None,
            b.request().user@ == Seq::<char>::empty(),
    {
        ChatCompletionBuilder {
            request: ChatCompletionRequest {
                model: model.to_owned(),
                messages,
                n: None,
                stream: None,
                stop: Vec::new(),
                max_tokens: None,
                user: String::new(),
            },
        }
    }
}

} // verus!
