use vstd::prelude::*;

verus! {

/// serde_json's `Value`: the optional details of an error object, carried
/// through unread.
#[verifier::external_type_specification]
#[verifier::external_body]
pub struct ExJsonValue(serde_json::Value);

/// A turn as the contracts see it: its role and its text.
pub struct Turn {
    pub role: Seq<char>,
    pub content: Seq<char>,
}

/// One turn of a conversation.
#[derive(Debug)]
pub struct Message {
    pub role: String,
    pub content: String,
}

impl View for Message {
    type V = Turn;

    open spec fn view(&self) -> Turn {
        Turn { role: self.role@, content: self.content@ }
    }
}

impl Message {
    /// A turn with the given role and text.
    pub fn new(role: &str, content: String) -> (r: Message)
        ensures
            r@ == (Turn { role: role@, content: content@ }),
    {
        Message { role: String::from_str(role), content }
    }
}

impl Clone for Message {
    fn clone(&self) -> (r: Message)
        ensures
            r@ == self@,
    {
        Message { role: self.role.clone(), content: self.content.clone() }
    }
}

impl Default for Message {
    fn default() -> (r: Message)
        ensures
            r@ == (Turn { role: Seq::empty(), content: Seq::empty() }),
    {
        Message { role: String::new(), content: String::new() }
    }
}

/// One increment of an assistant turn that is still arriving.
#[derive(Debug)]
pub struct DeltaMessage {
    pub role: Option<String>,
    pub content: Option<String>,
}

/// The body of a successful answer to a request that did not stream.
#[derive(Debug)]
pub struct ResponseMessage {
    pub choices: Vec<ResponseChoice>,
    pub created: u64,
    pub id: String,
    pub model: String,
    pub object: String,
    pub usage: ResponseUsage,
}

/// One complete answer among those of a response.
#[derive(Debug)]
pub struct ResponseChoice {
    pub message: Message,
    pub index: usize,
    pub finish_reason: Option<String>,
}

/// The token counts that a response reports.
#[derive(Debug)]
pub struct ResponseUsage {
    pub completion_tokens: isize,
    pub prompt_tokens: isize,
    pub total_tokens: isize,
}

/// One event of a streamed answer.
#[derive(Debug)]
pub struct ResponseStreamMessage {
    pub id: String,
    pub object: String,
    pub created: u64,
    pub model: String,
    pub choices: Vec<ResponseDeltaChoice>,
}

/// One increment among those of a stream event.
#[derive(Debug)]
pub struct ResponseDeltaChoice {
    pub delta: DeltaMessage,
    pub index: usize,
    pub finish_reason: Option<String>,
}

/// The error object that the service returns on failure.
#[derive(Debug)]
pub struct ApiError {
    pub message: String,
    pub kind: String,
    pub param: Option<serde_json::Value>,
    pub code: Option<serde_json::Value>,
}

/// The error object as the service nests it, under the key "error".
#[derive(Debug)]
pub struct WrappedApiError {
    pub error: ApiError,
}

} // verus!
