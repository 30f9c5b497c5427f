//! The vocabulary of calls the dispatchers ask the messaging gateway to
//! perform. The dispatchers only ever emit these values; carrying them out
//! — and failing, which the dispatchers must tolerate — is the transport's
//! business.

use vstd::prelude::*;

verus! {

/// One requested gateway call, with its text as the platform will see it.
#[derive(Debug, PartialEq, Eq)]
pub enum GatewayCall {
    SendMessage { channel_id: u64, content: String },
    CreateThread { channel_id: u64, message_id: u64, name: String },
    RenameThread { thread_id: u64, name: String },
    EditMessage { channel_id: u64, message_id: u64, content: String },
    DeleteMessage { channel_id: u64, message_id: u64 },
    JoinThread { thread_id: u64 },
}

/// The mathematical shadow of a `GatewayCall`: the same shape over
/// character sequences, so contracts can state call lists exactly.
pub enum CallView {
    SendMessage { channel_id: u64, content: Seq<char> },
    CreateThread { channel_id: u64, message_id: u64, name: Seq<char> },
    RenameThread { thread_id: u64, name: Seq<char> },
    EditMessage { channel_id: u64, message_id: u64, content: Seq<char> },
    DeleteMessage { channel_id: u64, message_id: u64 },
    JoinThread { thread_id: u64 },
}

impl View for GatewayCall {
    type V = CallView;

    open spec fn view(&self) -> CallView {
        match self {
            GatewayCall::SendMessage { channel_id, content } => CallView::SendMessage {
                channel_id: *channel_id,
                content: content@,
            },
            GatewayCall::CreateThread { channel_id, message_id, name } => CallView::CreateThread {
                channel_id: *channel_id,
                message_id: *message_id,
                name: name@,
            },
            GatewayCall::RenameThread { thread_id, name } => CallView::RenameThread {
                thread_id: *thread_id,
                name: name@,
            },
            GatewayCall::EditMessage { channel_id, message_id, content } => CallView::EditMessage {
                channel_id: *channel_id,
                message_id: *message_id,
                content: content@,
            },
            GatewayCall::DeleteMessage { channel_id, message_id } => CallView::DeleteMessage {
                channel_id: *channel_id,
                message_id: *message_id,
            },
            GatewayCall::JoinThread { thread_id } => CallView::JoinThread { thread_id: *thread_id },
        }
    }
}

/// The views of a list of calls, in order.
pub open spec fn calls_view(calls: Seq<GatewayCall>) -> Seq<CallView> {
    calls.map_values(|c: GatewayCall| c@)
}

/// Whether a call list asks for any thread creation.
pub open spec fn creates_thread(calls: Seq<CallView>) -> bool {
    exists|i: int| 0 <= i < calls.len() && calls[i] is CreateThread
}

} // verus!
