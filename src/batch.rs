use vstd::prelude::*;

use crate::error::{ChatError, ErrorView};
use crate::model::{Message, ResponseMessage, Turn, WrappedApiError};
use crate::stream::outcome_view;
use crate::text::{strip_leading_newline, without_leading_newline};

verus! {

/// The body of an answer to a request that did not stream, decoded by the
/// shape that its status called for.
#[derive(Debug)]
pub enum BatchReply {
    /// A success status, and the response it carried.
    Success(ResponseMessage),
    /// A failure status, and the error object it carried.
    Failure(WrappedApiError),
    /// The body did not have the shape that its status called for; why.
    Malformed(String),
}

/// Whether an HTTP status reports success.
pub fn is_success_status(status: u16) -> (r: bool)
    ensures
        r == (200 <= status < 300),
{
    200 <= status && status < 300
}

/// The turn that a batch answer yields, or the error it reports.
pub open spec fn batch_outcome(reply: BatchReply) -> Result<Turn, ErrorView> {
    match reply {
        BatchReply::Success(resp) => if resp.choices@.len() == 0 {
            Err(ErrorView::MalformedResponse("response without a choice"@))
        } else {
            let m = resp.choices@[0].message;
            Ok(Turn { role: m.role@, content: without_leading_newline(m.content@) })
        },
        BatchReply::Failure(w) => Err(
            ErrorView::RemoteApiError { kind: w.error.kind@, message: w.error.message@ },
        ),
        BatchReply::Malformed(why) => Err(ErrorView::MalformedResponse(why@)),
    }
}

/// Takes the first choice of a batch answer, or the error that it reports.
pub fn decode_batch(reply: BatchReply) -> (r: Result<Message, ChatError>)
    ensures
        outcome_view(r) == batch_outcome(reply),
{
    match reply {
        BatchReply::Success(resp) => {
            let mut choices = resp.choices;
            if choices.len() == 0 {
                return Err(
                    ChatError::MalformedResponse(String::from_str("response without a choice")),
                );
            }
            let first = choices.swap_remove(0);
            let m = first.message;
            let content = strip_leading_newline(m.content.as_str());
            Ok(Message { role: m.role, content })
        },
        BatchReply::Failure(w) => Err(
            ChatError::RemoteApiError { kind: w.error.kind, message: w.error.message },
        ),
        BatchReply::Malformed(why) => Err(ChatError::MalformedResponse(why)),
    }
}

} // verus!
