use vstd::prelude::*;

verus! {

/// What can go wrong during one turn or one command.
#[derive(Debug)]
pub enum ChatError {
    /// A single question was asked for, but no text was given.
    MissingPrompt,
    /// A retraction was asked for, but no user turn is left to take back.
    NoMessageToRetract,
    /// The event stream broke off; the cause as the transport described it.
    StreamTransportError(String),
    /// The service answered with an error object.
    RemoteApiError { kind: String, message: String },
    /// A body or an event did not have the expected shape.
    MalformedResponse(String),
}

/// A `ChatError` as the contracts see it.
pub enum ErrorView {
    MissingPrompt,
    NoMessageToRetract,
    StreamTransportError(Seq<char>),
    RemoteApiError { kind: Seq<char>, message: Seq<char> },
    MalformedResponse(Seq<char>),
}

impl View for ChatError {
    type V = ErrorView;

    open spec fn view(&self) -> ErrorView {
        match self {
            ChatError::MissingPrompt => ErrorView::MissingPrompt,
            ChatError::NoMessageToRetract => ErrorView::NoMessageToRetract,
            ChatError::StreamTransportError(c) => ErrorView::StreamTransportError(c@),
            ChatError::RemoteApiError { kind, message } => ErrorView::RemoteApiError {
                kind: kind@,
                message: message@,
            },
            ChatError::MalformedResponse(w) => ErrorView::MalformedResponse(w@),
        }
    }
}

/// The line shown to the user for an error.
pub open spec fn error_text(e: ErrorView) -> Seq<char> {
    match e {
        ErrorView::MissingPrompt => "Prompt is required"@,
        ErrorView::NoMessageToRetract => "No message to retract"@,
        ErrorView::StreamTransportError(c) => "stream error: "@ + c,
        ErrorView::RemoteApiError { kind, message } => kind + ": "@ + message,
        ErrorView::MalformedResponse(w) => "malformed response: "@ + w,
    }
}

impl ChatError {
    /// The line shown to the user for this error.
    pub fn describe(&self) -> (r: String)
        ensures
            r@ == error_text(self@),
    {
        match self {
            ChatError::MissingPrompt => String::from_str("Prompt is required"),
            ChatError::NoMessageToRetract => String::from_str("No message to retract"),
            ChatError::StreamTransportError(c) => {
                let mut r = String::from_str("stream error: ");
                r.append(c.as_str());
                r
            },
            ChatError::RemoteApiError { kind, message } => {
                let mut r = kind.clone();
                r.append(": ");
                r.append(message.as_str());
                r
            },
            ChatError::MalformedResponse(w) => {
                let mut r = String::from_str("malformed response: ");
                r.append(w.as_str());
                r
            },
        }
    }
}

} // verus!
