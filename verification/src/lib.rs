//! Asynchronous multipart messaging endpoints over a readiness-based,
//! non-blocking transport socket.
//!
//! The transport delivers one logical message as a sequence of binary frames,
//! all at once or not at all, and reports "would block" when an operation
//! cannot complete right now. This crate turns those non-blocking per-frame
//! primitives into poll-style operations on whole [`Multipart`] messages:
//! atomic receive, batched receive through a bounded buffer, and a send that
//! distinguishes "nothing written yet, suspend and retry" from the
//! interrupted-send condition in which a message was abandoned mid-stream.

mod comm;
mod error;
mod message;
mod poll;
mod publish;
pub mod rep;
pub mod req;
mod request_reply;
mod sim;
mod socket;
pub mod wire;
mod wrapper;

pub use comm::{BufferedReceiver, Receiver, Sender, SenderReceiver};
pub use error::TmqError;
pub use message::Multipart;
pub use poll::{
    batch_take, buffered_recv_step, flush_post, multipart_flush, multipart_recv,
    multipart_recv_buffered, multipart_send, recv_buffered_post, recv_post, recv_step,
    send_post, send_would_block, FrameEvent, PollRecv, PollSend, ReceiverBuffer, RecvStep,
    SendFrameEvent,
};
pub use publish::Pub;
pub use request_reply::{RecvReply, RequestReceiver, RequestSender, SendRequest};
pub use sim::SimSocket;
pub use socket::SocketExt;
pub use wrapper::{
    BufferedReceiveWrapper, BufferedReceiveWrapperShared, ReceiveWrapper, ReceiveWrapperShared,
    SendReceiveWrapper, SendWrapper, SendWrapperShared,
};
