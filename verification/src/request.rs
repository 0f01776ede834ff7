use vstd::prelude::*;
use crate::store::texts_of;

verus! {

/// Model identifier sent with every completion request; a fixed
/// configuration value, never derived from the conversation.
pub const MODEL_NAME: &'static str = "gpt-4o";

/// Cap on the length of the generated reply, for cost and latency control.
pub const MAX_REPLY_TOKENS: u16 = 512;

/// The author of one request message.
#[derive(Clone, Copy, PartialEq, Eq, Structural, Debug)]
pub enum Role {
    /// The fixed persona/style instruction.
    System,
    /// One buffered chat message.
    User,
}

/// One message of a completion request.
pub struct ChatMessage {
    pub role: Role,
    pub content: String,
}

/// The payload handed to the completion service: a fixed model identifier,
/// a cap on the reply length, and the messages, system instruction first,
/// then the buffered history oldest first.
pub struct ChatRequest {
    pub model: String,
    pub max_tokens: u16,
    pub messages: Vec<ChatMessage>,
}

impl ChatMessage {
    /// The message as a plain pair of role and text.
    pub open spec fn model(self) -> (Role, Seq<char>) {
        (self.role, self.content@)
    }
}

/// The messages of a request as plain pairs of role and text.
pub open spec fn message_models(msgs: Seq<ChatMessage>) -> Seq<(Role, Seq<char>)> {
    msgs.map_values(|m: ChatMessage| m.model())
}

/// The request messages owed for a history and a persona: the persona as the
/// single system message, then each history entry as a user message, oldest
/// first.
pub open spec fn spec_request_messages(history: Seq<Seq<char>>, persona: Seq<char>) -> Seq<
    (Role, Seq<char>),
> {
    seq![(Role::System, persona)] + history.map_values(|t: Seq<char>| (Role::User, t))
}

/// Builds the completion request for the given history snapshot (oldest
/// first) and persona instruction. The output is a function of these two
/// inputs alone: no timestamp, nonce or other hidden input enters it.
pub fn build_request(history: &Vec<String>, persona: &str) -> (req: ChatRequest)
    ensures
        req.model@ == MODEL_NAME@,
        req.max_tokens == MAX_REPLY_TOKENS,
        message_models(req.messages@) == spec_request_messages(texts_of(history@), persona@),
{
    let mut messages: Vec<ChatMessage> = Vec::new();
    messages.push(ChatMessage { role: Role::System, content: persona.to_owned() });
    let mut i: usize = 0;
    while i < history.len()
        invariant
            i <= history@.len(),
            messages@.len() == i + 1,
            messages@[0].role == Role::System,
            messages@[0].content@ == persona@,
            forall|j: int|
                1 <= j <= i ==> (#[trigger] messages@[j]).role == Role::User && messages@[j].content@
                    == history@[j - 1]@,
        decreases history@.len() - i,
    {
        messages.push(ChatMessage { role: Role::User, content: history[i].clone() });
        i = i + 1;
    }
    let req = ChatRequest { model: MODEL_NAME.to_owned(), max_tokens: MAX_REPLY_TOKENS, messages };
    proof {
        assert(message_models(req.messages@) =~= spec_request_messages(
            texts_of(history@),
            persona@,
        ));
    }
    req
}

/// Two requests built for the same history and persona are identical in
/// everything the contract of `build_request` speaks of: request
/// construction is idempotent with respect to its input.
pub proof fn lemma_build_request_deterministic(
    r1: ChatRequest,
    r2: ChatRequest,
    history: Seq<Seq<char>>,
    persona: Seq<char>,
)
    requires
        r1.model@ == MODEL_NAME@,
        r2.model@ == MODEL_NAME@,
        r1.max_tokens == MAX_REPLY_TOKENS,
        r2.max_tokens == MAX_REPLY_TOKENS,
        message_models(r1.messages@) == spec_request_messages(history, persona),
        message_models(r2.messages@) == spec_request_messages(history, persona),
    ensures
        r1.model@ == r2.model@,
        r1.max_tokens == r2.max_tokens,
        message_models(r1.messages@) == message_models(r2.messages@),
{
}

/// Failure of the completion collaborator. Whatever the variant, the turn
/// produces no reply: the failure is swallowed, never surfaced to the chat.
#[derive(Clone, Copy, PartialEq, Eq, Structural, Debug)]
pub enum CompletionError {
    /// The request could not be constructed.
    RequestBuild,
    /// The transport failed before a response arrived.
    Network,
    /// The service answered with a non-success response.
    BadResponse,
}

/// The texts carried by a response's choices, each the content of one
/// choice (absent when the choice carries no content).
pub open spec fn contents_of(choices: Seq<Option<String>>) -> Seq<Option<Seq<char>>> {
    choices.map_values(
        |c: Option<String>|
            match c {
                Option::Some(s) => Option::Some(s@),
                Option::None => Option::<Seq<char>>::None,
            },
    )
}

/// The reply text owed for a response: the content of the first choice,
/// or empty when there is no choice or the first choice has no content.
pub open spec fn spec_first_choice(choices: Seq<Option<Seq<char>>>) -> Seq<char> {
    if choices.len() == 0 {
        Seq::empty()
    } else {
        match choices[0] {
            Option::Some(t) => t,
            Option::None => Seq::empty(),
        }
    }
}

/// Reads the reply out of a response's choice contents: the first choice's
/// content, defaulting to the empty string.
pub fn first_choice_content(choices: &Vec<Option<String>>) -> (reply: String)
    ensures
        reply@ == spec_first_choice(contents_of(choices@)),
{
    if choices.len() == 0 {
        String::new()
    } else {
        match &choices[0] {
            Option::Some(s) => s.clone(),
            Option::None => String::new(),
        }
    }
}

/// Turns the completion outcome into the turn's outbound decision: the
/// reply is relayed only on success; every failure means no outbound
/// message, and the turn still completes normally.
pub fn reply_for_outcome(outcome: Result<String, CompletionError>) -> (reply: Option<String>)
    ensures
        reply == (match outcome {
            Result::Ok(s) => Option::Some(s),
            Result::Err(_) => Option::<String>::None,
        }),
{
    match outcome {
        Result::Ok(s) => Option::Some(s),
        Result::Err(_) => Option::None,
    }
}

} // verus!
