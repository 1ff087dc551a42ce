//! Why a request on a port or a channel is refused.

use vstd::prelude::*;
use vstd::string::StringExecFns;

use crate::decimal::to_decimal;

verus! {

/// Why a request is refused.
#[derive(Clone, Copy, Debug, PartialEq, Eq, Structural)]
pub enum IpcError {
    /// A reference was asked for on a handle that is not there.
    IsNone,
    /// The path does not fit in the path buffer.
    BufferOverflow,
    /// The path of a new port has no room for its terminator.
    AlreadyExists,
    /// The kernel refused to create the port, with this code.
    PortCreateFailed(i32),
    /// The kernel refused to publish the port.
    PublishFailed,
    /// The flags or the path of a connect request are not acceptable.
    InvalidArguments,
    /// The channel that was waited for signals both a hangup and a message.
    ChannelClosed,
    /// The channel that was waited for signals the ready bit, and no hangup with a message.
    NotReady,
}

impl IpcError {
    /// The text that tells a user of the error.
    pub open spec fn text(self) -> Seq<char> {
        match self {
            IpcError::IsNone => "is none"@,
            IpcError::BufferOverflow => "Buffer overflow"@,
            IpcError::AlreadyExists => "already exists"@,
            IpcError::PortCreateFailed(code) => "ipc_port_create failed with error: "@
                + crate::decimal::decimal(code as int),
            IpcError::PublishFailed => "Failed to publish IPC port"@,
            IpcError::InvalidArguments => "invalid arguments"@,
            IpcError::ChannelClosed => "channel closed"@,
            IpcError::NotReady => "not ready"@,
        }
    }

    /// Renders the error for a user.
    pub fn message(&self) -> (message: String)
        ensures
            message@ == self.text(),
            *self is IsNone ==> message@ == "is none"@,
            *self is BufferOverflow ==> message@ == "Buffer overflow"@,
            *self is AlreadyExists ==> message@ == "already exists"@,
            *self is PortCreateFailed ==> message@ == "ipc_port_create failed with error: "@
                + crate::decimal::decimal(self->PortCreateFailed_0 as int),
            *self is PublishFailed ==> message@ == "Failed to publish IPC port"@,
            *self is InvalidArguments ==> message@ == "invalid arguments"@,
            *self is ChannelClosed ==> message@ == "channel closed"@,
            *self is NotReady ==> message@ == "not ready"@,
    {
        match *self {
            IpcError::IsNone => "is none".to_string(),
            IpcError::BufferOverflow => "Buffer overflow".to_string(),
            IpcError::AlreadyExists => "already exists".to_string(),
            IpcError::PortCreateFailed(code) => "ipc_port_create failed with error: ".to_string()
                .concat(to_decimal(code).as_str()),
            IpcError::PublishFailed => "Failed to publish IPC port".to_string(),
            IpcError::InvalidArguments => "invalid arguments".to_string(),
            IpcError::ChannelClosed => "channel closed".to_string(),
            IpcError::NotReady => "not ready".to_string(),
        }
    }
}

} // verus!
