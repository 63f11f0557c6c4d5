//! A client library for a chat-completion service: the conversation kept
//! between turns, the folding of a streamed answer into one turn, the
//! decoding of a complete answer, and the decisions of an interactive session.

pub mod batch;
pub mod conversation;
pub mod error;
pub mod model;
pub mod repl;
pub mod session;
pub mod stream;
pub mod text;

pub use batch::{decode_batch, is_success_status, BatchReply};
pub use conversation::{Conversation, HistoryEntry};
pub use error::ChatError;
pub use model::{
    ApiError, DeltaMessage, Message, ResponseChoice, ResponseDeltaChoice, ResponseMessage,
    ResponseStreamMessage, ResponseUsage, WrappedApiError,
};
pub use repl::{parse_command, parse_line, prompt_label, Command, InputLine, ReplHelper};
pub use session::{CommandReply, LineOutcome, Session, SessionOptions};
pub use stream::{is_done_marker, reduce_stream, Echo, StreamEvent, StreamReducer};
