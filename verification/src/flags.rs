//! Flag words: the options of a connect request and the events of a channel.

use vstd::prelude::*;

verus! {

/// Options of a connect request.
#[derive(Clone, Copy, Debug, PartialEq, Eq, Structural)]
pub enum IpcConnectState {
    IpcConnectWaitForPort,
    IpcConnectAsync,
    /// All of the options.
    IpcConnectMask,
}

impl IpcConnectState {
    pub open spec fn spec_bits(self) -> u32 {
        match self {
            IpcConnectState::IpcConnectWaitForPort => 0x1,
            IpcConnectState::IpcConnectAsync => 0x2,
            IpcConnectState::IpcConnectMask => 0x3,
        }
    }

    /// The bits of a flag word that stand for the option.
    #[verifier::when_used_as_spec(spec_bits)]
    pub fn bits(self) -> (bits: u32)
        ensures
            bits == self.spec_bits(),
    {
        match self {
            IpcConnectState::IpcConnectWaitForPort => 0x1,
            IpcConnectState::IpcConnectAsync => 0x2,
            IpcConnectState::IpcConnectMask => 0x3,
        }
    }
}

/// Events of a channel.
#[derive(Clone, Copy, Debug, PartialEq, Eq, Structural)]
pub enum IpcHandleState {
    IpcHandlePollNone,
    IpcHandlePollReady,
    IpcHandlePollError,
    IpcHandlePollHup,
    IpcHandlePollMsg,
    IpcHandlePollSendUnblocked,
}

impl IpcHandleState {
    pub open spec fn spec_bits(self) -> u32 {
        match self {
            IpcHandleState::IpcHandlePollNone => 0x0,
            IpcHandleState::IpcHandlePollReady => 0x1,
            IpcHandleState::IpcHandlePollError => 0x2,
            IpcHandleState::IpcHandlePollHup => 0x4,
            IpcHandleState::IpcHandlePollMsg => 0x8,
            IpcHandleState::IpcHandlePollSendUnblocked => 0x10,
        }
    }

    /// The bit of a flag word that stands for the event.
    #[verifier::when_used_as_spec(spec_bits)]
    pub fn bits(self) -> (bits: u32)
        ensures
            bits == self.spec_bits(),
    {
        match self {
            IpcHandleState::IpcHandlePollNone => 0x0,
            IpcHandleState::IpcHandlePollReady => 0x1,
            IpcHandleState::IpcHandlePollError => 0x2,
            IpcHandleState::IpcHandlePollHup => 0x4,
            IpcHandleState::IpcHandlePollMsg => 0x8,
            IpcHandleState::IpcHandlePollSendUnblocked => 0x10,
        }
    }
}

/// The mask of the connect options is made of the bits of the single options, so a flag word
/// that has nothing of the mask asks for none of them.
pub proof fn law_connect_mask(flags: u32)
    ensures
        IpcConnectState::IpcConnectMask.bits() == IpcConnectState::IpcConnectWaitForPort.bits()
            | IpcConnectState::IpcConnectAsync.bits(),
        flags & IpcConnectState::IpcConnectMask.bits() == 0 <==> (flags
            & IpcConnectState::IpcConnectWaitForPort.bits() == 0 && flags
            & IpcConnectState::IpcConnectAsync.bits() == 0),
{
    assert(0x3u32 == 0x1u32 | 0x2u32) by (bit_vector);
    assert(flags & 0x3u32 == 0 <==> (flags & 0x1u32 == 0 && flags & 0x2u32 == 0)) by (bit_vector);
}

/// The options of a connect request are the two lowest bits of the flag word: the lowest asks to
/// wait for the port, the next one for an asynchronous connection.
pub proof fn law_connect_bits(flags: u32)
    ensures
        flags & IpcConnectState::IpcConnectWaitForPort.bits() != 0 <==> flags % 2 == 1,
        flags & IpcConnectState::IpcConnectAsync.bits() != 0 <==> flags / 2 % 2 == 1,
        flags & IpcConnectState::IpcConnectMask.bits() != 0 <==> flags % 4 != 0,
{
    assert(flags & 0x1u32 != 0 <==> flags % 2 == 1) by (bit_vector);
    assert(flags & 0x2u32 != 0 <==> flags / 2 % 2 == 1) by (bit_vector);
    assert(flags & 0x3u32 != 0 <==> flags % 4 != 0) by (bit_vector);
}

/// The events of a channel are the five lowest bits of the event word, each a bit of its own, from
/// the ready bit upwards. No bit stands for no event.
pub proof fn law_event_bits(event: u32)
    ensures
        event & IpcHandleState::IpcHandlePollNone.bits() == 0,
        event & IpcHandleState::IpcHandlePollReady.bits() != 0 <==> event % 2 == 1,
        event & IpcHandleState::IpcHandlePollError.bits() != 0 <==> event / 2 % 2 == 1,
        event & IpcHandleState::IpcHandlePollHup.bits() != 0 <==> event / 4 % 2 == 1,
        event & IpcHandleState::IpcHandlePollMsg.bits() != 0 <==> event / 8 % 2 == 1,
        event & IpcHandleState::IpcHandlePollSendUnblocked.bits() != 0 <==> event / 16 % 2 == 1,
{
    assert(event & 0x0u32 == 0) by (bit_vector);
    assert(event & 0x1u32 != 0 <==> event % 2 == 1) by (bit_vector);
    assert(event & 0x2u32 != 0 <==> event / 2 % 2 == 1) by (bit_vector);
    assert(event & 0x4u32 != 0 <==> event / 4 % 2 == 1) by (bit_vector);
    assert(event & 0x8u32 != 0 <==> event / 8 % 2 == 1) by (bit_vector);
    assert(event & 0x10u32 != 0 <==> event / 16 % 2 == 1) by (bit_vector);
}

} // verus!
