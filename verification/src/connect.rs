//! Connecting to a port.

use vstd::prelude::*;

use crate::context::{current_uctx, UctxAddr};
use crate::error::IpcError;
use crate::flags::{self, IpcConnectState, IpcHandleState};
use crate::handle::{self, HandleIdT, HandleT};
use crate::identity::{self, Uuid};
use crate::kernel::{
    handle_wait, ipc_port_connect_async, uctx_handle_install, Kernel, KernelCall,
    DEFAULT_IPC_CONNECT_WARN_TIMEOUT, ERR_TIMED_OUT, INFINITE_TIME, NO_ERROR,
};
use crate::path::{self, IPC_PORT_PATH_MAX};

verus! {

/// What the client of a port knows the channel by.
pub const CLIENT_HANDLE_ID: usize = 23;

/// What the kernel is asked for when a port is connected to.
#[derive(Debug, PartialEq, Eq)]
pub struct ConnectRequest {
    pub uuid: Uuid,
    pub path: [i8; IPC_PORT_PATH_MAX],
    pub flags: u32,
}

/// The parts of a request to connect.
pub struct ConnectRequestModel {
    pub uuid: Seq<u8>,
    pub path: Seq<i8>,
    pub flags: u32,
}

impl View for ConnectRequest {
    type V = ConnectRequestModel;

    open spec fn view(&self) -> ConnectRequestModel {
        ConnectRequestModel { uuid: self.uuid.bytes@, path: self.path@, flags: self.flags }
    }
}

/// The request to connect to the port at the path `text`: it is made under the client's identity.
pub open spec fn wanted_channel(text: Seq<i8>, flags: u32) -> ConnectRequestModel {
    ConnectRequestModel {
        uuid: identity::name_based(identity::oid_namespace(), identity::connect_name()),
        path: path::padded(text),
        flags,
    }
}

/// Where the connecting to a port stands: the kernel service that is asked next, or the result.
#[derive(Clone, Copy, Debug, PartialEq, Eq)]
pub enum ConnectStep {
    /// Start to connect.
    Connect,
    /// Wait for an event of the channel.
    Wait,
    /// Wait again, after a wait that timed out.
    WaitAgain,
    /// Install the channel in the user context.
    Install,
    /// Nothing is left to ask.
    Done(Result<u64, IpcError>),
}

/// The code of a service as an unsigned word: a negative code wraps around.
pub open spec fn code_word(ret: i32) -> u64 {
    if ret < 0 {
        (0x1_0000_0000_0000_0000 + ret) as u64
    } else {
        ret as u64
    }
}

/// The event word has the bit of an event.
pub open spec fn signals(event: u32, state: IpcHandleState) -> bool {
    event & state.bits() != 0
}

/// The request asks to wait for the connection.
pub open spec fn asks_to_wait(flags: u32) -> bool {
    flags & IpcConnectState::IpcConnectAsync.bits() != 0
}

/// The request has flags that are not accepted.
pub open spec fn refuses_flags(flags: u32) -> bool {
    flags & IpcConnectState::IpcConnectMask.bits() != 0
}

/// Why a channel that was waited for is given up, if it is: `ChannelClosed` when the hangup bit
/// and the message bit are both set, else `NotReady` when the ready bit is set.
pub open spec fn event_error(event: u32) -> Option<IpcError> {
    if signals(event, IpcHandleState::IpcHandlePollHup) && signals(
        event,
        IpcHandleState::IpcHandlePollMsg,
    ) {
        Some(IpcError::ChannelClosed)
    } else if signals(event, IpcHandleState::IpcHandlePollReady) {
        Some(IpcError::NotReady)
    } else {
        None
    }
}

/// The hangup bit and the message bit together say that the channel was closed, whatever else is
/// set. Else the ready bit says that it is not ready. No other bit makes a difference.
pub proof fn law_event_error_reads_three_bits(event: u32)
    ensures
        event_error(event) == Some(IpcError::ChannelClosed) <==> event / 4 % 2 == 1 && event / 8 % 2
            == 1,
        event_error(event) == Some(IpcError::NotReady) <==> event % 2 == 1 && (event / 4 % 2 == 0
            || event / 8 % 2 == 0),
        event_error(event) is None <==> event % 2 == 0 && (event / 4 % 2 == 0 || event / 8 % 2
            == 0),
{
    flags::law_event_bits(event);
}

/// A request is refused exactly where one of the two lowest bits of its flags is set, and asks to
/// wait exactly where the second lowest is.
pub proof fn law_flags_refused(flags: u32)
    ensures
        refuses_flags(flags) <==> flags % 4 != 0,
        asks_to_wait(flags) <==> flags / 2 % 2 == 1,
{
    flags::law_connect_bits(flags);
}

/// A code that is handed to the caller keeps its value where it is not negative, and is congruent
/// to it in any case.
pub proof fn law_code_word_wraps(ret: i32)
    ensures
        ret >= 0 ==> code_word(ret) == ret,
        (code_word(ret) - ret) % 0x1_0000_0000_0000_0000 == 0,
{
}

/// Tells from the event word whether a channel that was waited for is given up, and why.
fn check_event(event: u32) -> (error: Option<IpcError>)
    ensures
        error == event_error(event),
        error == Some(IpcError::ChannelClosed) <==> event / 4 % 2 == 1 && event / 8 % 2 == 1,
        error == Some(IpcError::NotReady) <==> event % 2 == 1 && (event / 4 % 2 == 0 || event / 8
            % 2 == 0),
        error is None <==> event % 2 == 0 && (event / 4 % 2 == 0 || event / 8 % 2 == 0),
{
    proof {
        law_event_error_reads_three_bits(event);
    }
    if (event & IpcHandleState::IpcHandlePollHup.bits()) != 0 && (event
        & IpcHandleState::IpcHandlePollMsg.bits()) != 0 {
        return Some(IpcError::ChannelClosed);
    }
    if (event & IpcHandleState::IpcHandlePollReady.bits()) != 0 {
        return Some(IpcError::NotReady);
    }
    None
}

impl ConnectStep {
    /// The channel is given up after the service of this step, or was not installed, so that a
    /// reference to its object is tried.
    pub open spec fn touches(self, ret: i32, event: u32) -> bool {
        match self {
            ConnectStep::Connect => false,
            ConnectStep::Wait => ret != ERR_TIMED_OUT && (ret < 0 || event_error(event) is Some),
            ConnectStep::WaitAgain => true,
            ConnectStep::Install => ret != NO_ERROR,
            ConnectStep::Done(_) => false,
        }
    }

    /// The step has a successor: where the channel has an object, the code of a failed wait or
    /// of a refused installation is handed to the caller, which a negative code cannot be.
    pub open spec fn goes_on(self, ret: i32, has_object: bool) -> bool {
        has_object ==> match self {
            ConnectStep::Wait => ret >= 0 || ret == ERR_TIMED_OUT,
            ConnectStep::WaitAgain => false,
            ConnectStep::Install => ret >= 0,
            _ => true,
        }
    }

    /// The step that follows when the service of this step returned `ret`, for a request with
    /// `flags` and a channel that signals `event` and has an object or not.
    pub open spec fn after(self, ret: i32, flags: u32, event: u32, has_object: bool) -> ConnectStep {
        match self {
            ConnectStep::Connect => if ret != NO_ERROR {
                ConnectStep::Done(Ok(code_word(ret)))
            } else if asks_to_wait(flags) {
                ConnectStep::Wait
            } else {
                ConnectStep::Install
            },
            ConnectStep::Wait => if ret == ERR_TIMED_OUT {
                ConnectStep::WaitAgain
            } else if ret < 0 {
                ConnectStep::Done(Err(IpcError::IsNone))
            } else {
                match event_error(event) {
                    Some(error) => ConnectStep::Done(
                        Err(if has_object { error } else { IpcError::IsNone }),
                    ),
                    None => ConnectStep::Install,
                }
            },
            ConnectStep::WaitAgain => ConnectStep::Done(Err(IpcError::IsNone)),
            ConnectStep::Install => if ret == NO_ERROR {
                ConnectStep::Done(Ok(CLIENT_HANDLE_ID as u64))
            } else if has_object {
                ConnectStep::Done(Ok(code_word(ret)))
            } else {
                ConnectStep::Done(Err(IpcError::IsNone))
            },
            ConnectStep::Done(result) => ConnectStep::Done(result),
        }
    }

    /// An upper bound on the services that are still asked.
    pub open spec fn rank(self) -> nat {
        match self {
            ConnectStep::Connect => 3,
            ConnectStep::Wait => 2,
            ConnectStep::WaitAgain => 1,
            ConnectStep::Install => 1,
            ConnectStep::Done(_) => 0,
        }
    }

    /// What the kernel is asked at this step, for a request in the context `ctx` and a channel that
    /// signals `event` and has the object `channel`.
    pub open spec fn calls(
        self,
        ctx: UctxAddr,
        request: ConnectRequestModel,
        event: usize,
        channel: Option<HandleT>,
    ) -> Seq<KernelCall> {
        match self {
            ConnectStep::Connect => seq![
                KernelCall::Connect {
                    uuid: request.uuid,
                    path: Some(request.path),
                    max_path: IPC_PORT_PATH_MAX as u32,
                    flags: request.flags,
                    channel,
                },
            ],
            ConnectStep::Wait => seq![
                KernelCall::Wait {
                    handle: channel,
                    event,
                    timeout: DEFAULT_IPC_CONNECT_WARN_TIMEOUT,
                },
            ],
            ConnectStep::WaitAgain => seq![
                KernelCall::Wait { handle: channel, event, timeout: INFINITE_TIME },
            ],
            ConnectStep::Install => seq![
                KernelCall::InstallHandle {
                    ctx,
                    handle: channel,
                    channel_id: Some(HandleIdT { value: CLIENT_HANDLE_ID }),
                },
            ],
            ConnectStep::Done(_) => seq![],
        }
    }

    /// Asks the kernel for the service of this step, if there is one.
    pub fn ask(
        self,
        kernel: &mut Kernel,
        ctx: UctxAddr,
        request: &ConnectRequest,
        event: usize,
        chandle: &Option<HandleT>,
    ) -> (ret: i32)
        ensures
            ret == NO_ERROR,
            final(kernel)@ == old(kernel)@ + self.calls(ctx, request@, event, *chandle),
            ret == 0,
            self is Connect ==> final(kernel)@ == old(kernel)@.push(
                KernelCall::Connect {
                    uuid: request.uuid.bytes@,
                    path: Some(request.path@),
                    max_path: 256,
                    flags: request.flags,
                    channel: *chandle,
                },
            ),
            self is Wait || self is WaitAgain ==> final(kernel)@ == old(kernel)@.push(
                KernelCall::Wait { handle: *chandle, event, timeout: 1000 },
            ),
            self is Install ==> final(kernel)@ == old(kernel)@.push(
                KernelCall::InstallHandle {
                    ctx,
                    handle: *chandle,
                    channel_id: Some(HandleIdT { value: 23 }),
                },
            ),
            self is Done ==> final(kernel)@ == old(kernel)@,
    {
        let handle_id = HandleIdT { value: CLIENT_HANDLE_ID };
        match self {
            ConnectStep::Connect => ipc_port_connect_async(
                kernel,
                &request.uuid,
                Some(&request.path),
                IPC_PORT_PATH_MAX as u32,
                request.flags,
                chandle.as_ref(),
            ),
            ConnectStep::Wait => handle_wait(
                kernel,
                chandle.as_ref(),
                event,
                DEFAULT_IPC_CONNECT_WARN_TIMEOUT,
            ),
            ConnectStep::WaitAgain => handle_wait(kernel, chandle.as_ref(), event, INFINITE_TIME),
            ConnectStep::Install => uctx_handle_install(
                kernel,
                ctx,
                chandle.as_ref(),
                Some(&handle_id),
            ),
            ConnectStep::Done(_) => NO_ERROR,
        }
    }

    /// Goes on from what the service of this step returned. What a second wait returns makes no
    /// difference: the first has timed out.
    pub fn next(self, ret: i32, flags: u32, event: u32, chandle: &mut Option<HandleT>) -> (step:
        ConnectStep)
        requires
            self.touches(ret, event) ==> handle::can_touch(*old(chandle)),
            self.goes_on(ret, *old(chandle) is Some),
        ensures
            step == self.after(ret, flags, event, *old(chandle) is Some),
            *final(chandle) == (if self.touches(ret, event) {
                handle::touched(*old(chandle))
            } else {
                *old(chandle)
            }),
            handle::in_use(*old(chandle)) ==> *final(chandle) == *old(chandle),
            self is Connect && ret != 0 ==> step is Done && step->Done_0 is Ok && (
            step->Done_0->Ok_0 - ret) % 0x1_0000_0000_0000_0000 == 0,
            self is Connect && ret == 0 && flags / 2 % 2 == 1 ==> step is Wait,
            self is Connect && ret == 0 && flags / 2 % 2 == 0 ==> step is Install,
            self is Wait && ret == -3 ==> step is WaitAgain,
            self is Wait && ret < 0 && ret != -3 ==> step == ConnectStep::Done(
                Err(IpcError::IsNone),
            ),
            self is Wait && ret >= 0 && event / 4 % 2 == 1 && event / 8 % 2 == 1 ==> step
                == ConnectStep::Done(
                Err(
                    if *old(chandle) is Some {
                        IpcError::ChannelClosed
                    } else {
                        IpcError::IsNone
                    },
                ),
            ),
            self is Wait && ret >= 0 && (event / 4 % 2 == 0 || event / 8 % 2 == 0) && event % 2 == 1
                ==> step == ConnectStep::Done(
                Err(
                    if *old(chandle) is Some {
                        IpcError::NotReady
                    } else {
                        IpcError::IsNone
                    },
                ),
            ),
            self is Wait && ret >= 0 && (event / 4 % 2 == 0 || event / 8 % 2 == 0) && event % 2 == 0
                ==> step is Install,
            self is WaitAgain ==> step == ConnectStep::Done(Err(IpcError::IsNone)),
            self is Install && ret == 0 ==> step == ConnectStep::Done(Ok(23)),
            self is Install && ret != 0 && *old(chandle) is Some ==> step is Done && step->Done_0 is Ok
                && step->Done_0->Ok_0 == ret,
            self is Install && ret != 0 && *old(chandle) is None ==> step == ConnectStep::Done(
                Err(IpcError::IsNone),
            ),
            self is Done ==> step == self,
            *final(chandle) is Some <==> *old(chandle) is Some,
            self is Connect || self is Done || self is Install && ret == 0 || step is Install
                ==> *final(chandle) == *old(chandle),
            *old(chandle) is Some && old(chandle)->0.refcnt >= 1 ==> *final(chandle) == *old(
                chandle,
            ),
            (self is Install && ret != 0 || self is Wait && step is Done) && *old(chandle) is Some && old(chandle)->0.refcnt == 0
                ==> *final(chandle) == Some(HandleT { refcnt: 1, ..old(chandle)->0 }),
    {
        proof {
            law_flags_refused(flags);
            law_event_error_reads_three_bits(event);
        }
        match self {
            ConnectStep::Connect => {
                if ret != NO_ERROR {
                    assert(ret < 0 ==> ret as u64 == 0x1_0000_0000_0000_0000 + ret)
                        by (bit_vector);
                    return ConnectStep::Done(Ok(ret as u64));
                }
                if (flags & IpcConnectState::IpcConnectAsync.bits()) != 0 {
                    return ConnectStep::Wait;
                }
                ConnectStep::Install
            },
            ConnectStep::Wait => {
                if ret == ERR_TIMED_OUT {
                    return ConnectStep::WaitAgain;
                }
                if ret < 0 {
                    return match handle::touch(chandle) {
                        Err(error) => ConnectStep::Done(Err(error)),
                        Ok(()) => vstd::pervasive::unreached(),
                    };
                }
                match check_event(event) {
                    Some(error) => match handle::touch(chandle) {
                        Err(error) => ConnectStep::Done(Err(error)),
                        Ok(()) => ConnectStep::Done(Err(error)),
                    },
                    None => ConnectStep::Install,
                }
            },
            ConnectStep::WaitAgain => {
                match handle::touch(chandle) {
                    Err(error) => ConnectStep::Done(Err(error)),
                    Ok(()) => vstd::pervasive::unreached(),
                }
            },
            ConnectStep::Install => {
                if ret != NO_ERROR {
                    return match handle::touch(chandle) {
                        Err(error) => ConnectStep::Done(Err(error)),
                        Ok(()) => ConnectStep::Done(Ok(ret as u64)),
                    };
                }
                ConnectStep::Done(Ok(CLIENT_HANDLE_ID as u64))
            },
            ConnectStep::Done(result) => ConnectStep::Done(result),
        }
    }
}

/// Puts a request to connect together. The path is read only where the flags are accepted.
pub fn connect_request(path: Option<&[i8]>, flags: u32) -> (result: Result<
    ConnectRequest,
    IpcError,
>)
    requires
        !refuses_flags(flags) ==> path::readable(path),
    ensures
        refuses_flags(flags) ==> result == Err::<ConnectRequest, IpcError>(
            IpcError::InvalidArguments,
        ),
        !refuses_flags(flags) && path::text(path).len() >= IPC_PORT_PATH_MAX ==> result == Err::<
            ConnectRequest,
            IpcError,
        >(IpcError::BufferOverflow),
        !refuses_flags(flags) && path::text(path).len() < IPC_PORT_PATH_MAX ==> result is Ok
            && result->Ok_0@ == wanted_channel(path::text(path), flags),
        flags % 4 != 0 <==> result is Err && result->Err_0 is InvalidArguments,
        result is Ok <==> flags % 4 == 0 && (path is None || exists|i: int|
            0 <= i < 256 && i < path->0@.len() && path->0@[i] == 0),
        flags % 4 == 0 && result is Err ==> result->Err_0 is BufferOverflow,
        result is Ok ==> result->Ok_0.flags == flags,
        result is Ok ==> result->Ok_0.uuid.bytes@ == identity::name_based(
            identity::oid_namespace(),
            seq![0x72u8, 0x2d, 0x70, 0x69, 0x64],
        ),
        result is Ok ==> path::string_in(result->Ok_0.path@) == path::text(path),
        result is Ok ==> forall|i: int|
            0 <= i < 256 ==> #[trigger] result->Ok_0.path@[i] == (if i < path::text(path).len() {
                path->0@[i]
            } else {
                0i8
            }),
{
    proof {
        law_flags_refused(flags);
    }
    let uuid = identity::connect_uuid();
    if (flags & IpcConnectState::IpcConnectMask.bits()) != 0 {
        return Err(IpcError::InvalidArguments);
    }
    match path::copy_path(path, IpcError::InvalidArguments) {
        Err(error) => Err(error),
        Ok(path) => Ok(ConnectRequest { uuid, path, flags }),
    }
}

/// What the kernel is asked when every service succeeds, and the channel gets no object and
/// signals nothing: to connect, then to wait where the request asks for it, then to install the
/// channel.
pub open spec fn connected_calls(ctx: UctxAddr, request: ConnectRequestModel) -> Seq<KernelCall> {
    let connected = ConnectStep::Connect.calls(ctx, request, 0, None);
    let waited = if asks_to_wait(request.flags) {
        connected + ConnectStep::Wait.calls(ctx, request, 0, None)
    } else {
        connected
    };
    waited + ConnectStep::Install.calls(ctx, request, 0, None)
}

/// Has the kernel connect, wait where the request asks for it, and install the channel.
pub fn submit_connect_request(kernel: &mut Kernel, ctx: UctxAddr, request: &ConnectRequest) -> (result:
    Result<u64, IpcError>)
    ensures
        result == Ok::<u64, IpcError>(CLIENT_HANDLE_ID as u64),
        final(kernel)@ == old(kernel)@ + connected_calls(ctx, request@),
        result == Ok::<u64, IpcError>(23),
        request.flags / 2 % 2 == 0 ==> final(kernel)@ == old(kernel)@ + seq![
            KernelCall::Connect {
                uuid: request.uuid.bytes@,
                path: Some(request.path@),
                max_path: 256,
                flags: request.flags,
                channel: None,
            },
            KernelCall::InstallHandle {
                ctx,
                handle: None,
                channel_id: Some(HandleIdT { value: 23 }),
            },
        ],
        request.flags / 2 % 2 == 1 ==> final(kernel)@ == old(kernel)@ + seq![
            KernelCall::Connect {
                uuid: request.uuid.bytes@,
                path: Some(request.path@),
                max_path: 256,
                flags: request.flags,
                channel: None,
            },
            KernelCall::Wait { handle: None, event: 0, timeout: 1000 },
            KernelCall::InstallHandle {
                ctx,
                handle: None,
                channel_id: Some(HandleIdT { value: 23 }),
            },
        ],
{
    let event: usize = 0;
    let mut chandle: Option<HandleT> = None;
    let mut step = ConnectStep::Connect;
    let ghost before = kernel@;
    let ghost connected = before + ConnectStep::Connect.calls(ctx, request@, 0, None);
    let ghost waited = if asks_to_wait(request.flags) {
        connected + ConnectStep::Wait.calls(ctx, request@, 0, None)
    } else {
        connected
    };
    let ghost installed = waited + ConnectStep::Install.calls(ctx, request@, 0, None);
    loop
        invariant
            before == old(kernel)@,
            chandle is None,
            event == 0,
            connected == before + ConnectStep::Connect.calls(ctx, request@, 0, None),
            waited == if asks_to_wait(request.flags) {
                connected + ConnectStep::Wait.calls(ctx, request@, 0, None)
            } else {
                connected
            },
            installed == waited + ConnectStep::Install.calls(ctx, request@, 0, None),
            match step {
                ConnectStep::Connect => kernel@ == before,
                ConnectStep::Wait => kernel@ == connected && asks_to_wait(request.flags),
                ConnectStep::WaitAgain => false,
                ConnectStep::Install => kernel@ == waited,
                ConnectStep::Done(result) => kernel@ == installed && result == Ok::<u64, IpcError>(
                    CLIENT_HANDLE_ID as u64,
                ),
            },
        decreases step.rank(),
    {
        if let ConnectStep::Done(result) = step {
            proof {
                law_flags_refused(request.flags);
            }
            return result;
        }
        let ret = step.ask(kernel, ctx, request, event, &chandle);
        proof {
            assert(forall|bits: u32| #[trigger] (0u32 & bits) == 0) by (bit_vector);
        }
        step = step.next(ret, request.flags, event as u32, &mut chandle);
    }
}

/// Connects to the port at a path, for the thread whose identifier is called `thread`, and
/// returns the identifier of the channel's handle.
pub fn connect(kernel: &mut Kernel, thread: &str, path: Option<&[i8]>, flags: u32) -> (result:
    Result<u64, IpcError>)
    requires
        !refuses_flags(flags) ==> path::readable(path),
    ensures
        result == (if refuses_flags(flags) {
            Err(IpcError::InvalidArguments)
        } else if path::text(path).len() >= IPC_PORT_PATH_MAX {
            Err(IpcError::BufferOverflow)
        } else {
            Ok(CLIENT_HANDLE_ID as u64)
        }),
        final(kernel)@ == old(kernel)@.push(KernelCall::CreateContext { slot: Some(0) }) + (
        if !refuses_flags(flags) && path::text(path).len() < IPC_PORT_PATH_MAX {
            connected_calls(0, wanted_channel(path::text(path), flags))
        } else {
            seq![]
        }),
        flags % 4 != 0 <==> result is Err && result->Err_0 is InvalidArguments,
        result is Ok <==> flags % 4 == 0 && (path is None || exists|i: int|
            0 <= i < 256 && i < path->0@.len() && path->0@[i] == 0),
        flags % 4 == 0 && result is Err ==> result->Err_0 is BufferOverflow,
        result is Ok ==> result->Ok_0 == 23,
        result is Ok ==> final(kernel)@ == old(kernel)@ + seq![
            KernelCall::CreateContext { slot: Some(0) },
            KernelCall::Connect {
                uuid: identity::name_based(
                    identity::oid_namespace(),
                    seq![0x72u8, 0x2d, 0x70, 0x69, 0x64],
                ),
                path: Some(path::padded(path::text(path))),
                max_path: 256,
                flags,
                channel: None,
            },
            KernelCall::InstallHandle {
                ctx: 0,
                handle: None,
                channel_id: Some(HandleIdT { value: 23 }),
            },
        ],
        result is Err ==> final(kernel)@ == old(kernel)@.push(
            KernelCall::CreateContext { slot: Some(0) },
        ),
{
    proof {
        law_flags_refused(flags);
    }
    let ctx = current_uctx(kernel, thread);
    match connect_request(path, flags) {
        Err(error) => Err(error),
        Ok(request) => submit_connect_request(kernel, ctx, &request),
    }
}

/// What the kernel's services return while a port is connected to.
pub struct ConnectReplies {
    pub connect: i32,
    pub wait: i32,
    pub wait_again: i32,
    pub install: i32,
}

impl ConnectReplies {
    /// What the service of a step returns.
    pub open spec fn to(self, step: ConnectStep) -> i32 {
        match step {
            ConnectStep::Connect => self.connect,
            ConnectStep::Wait => self.wait,
            ConnectStep::WaitAgain => self.wait_again,
            ConnectStep::Install => self.install,
            ConnectStep::Done(_) => NO_ERROR,
        }
    }
}

/// The result of going on from a step to the end.
pub open spec fn connect_run(
    step: ConnectStep,
    replies: ConnectReplies,
    flags: u32,
    event: u32,
    has_object: bool,
) -> Result<u64, IpcError>
    decreases step.rank(),
{
    match step {
        ConnectStep::Done(result) => result,
        _ => connect_run(
            step.after(replies.to(step), flags, event, has_object),
            replies,
            flags,
            event,
            has_object,
        ),
    }
}

/// Every step on the way has a successor: where the channel has an object, neither a wait nor
/// the installation returns a negative code.
pub open spec fn connect_goes_on(
    replies: ConnectReplies,
    flags: u32,
    event: u32,
    has_object: bool,
) -> bool {
    has_object && replies.connect == NO_ERROR ==> {
        &&& asks_to_wait(flags) ==> replies.wait >= 0
        &&& asks_to_wait(flags) && event_error(event) is Some || replies.install >= 0
    }
}

/// Every step from this one to the end has a successor.
pub open spec fn run_goes_on(
    step: ConnectStep,
    replies: ConnectReplies,
    flags: u32,
    event: u32,
    has_object: bool,
) -> bool
    decreases step.rank(),
{
    match step {
        ConnectStep::Done(_) => true,
        _ => step.goes_on(replies.to(step), has_object) && run_goes_on(
            step.after(replies.to(step), flags, event, has_object),
            replies,
            flags,
            event,
            has_object,
        ),
    }
}

/// The connecting to a port gets to its end, with a successor to every step on the way, exactly
/// where `connect_goes_on` says so.
pub proof fn law_connect_goes_on(
    replies: ConnectReplies,
    flags: u32,
    event: u32,
    has_object: bool,
)
    ensures
        connect_goes_on(replies, flags, event, has_object) <==> run_goes_on(
            ConnectStep::Connect,
            replies,
            flags,
            event,
            has_object,
        ),
{
    reveal_with_fuel(run_goes_on, 4);
}

/// The result of the installation, which comes last.
pub open spec fn install_outcome(install: i32, has_object: bool) -> Result<u64, IpcError> {
    if install == NO_ERROR {
        Ok(CLIENT_HANDLE_ID as u64)
    } else if has_object {
        Ok(code_word(install))
    } else {
        Err(IpcError::IsNone)
    }
}

/// Whatever the kernel returns, the connecting to a port comes to an end. A refused connection
/// hands its code out. A wait that fails, or that ends with the peer gone or the channel not
/// connected, is an error. Else the installation decides.
pub proof fn law_connect_outcome(
    replies: ConnectReplies,
    flags: u32,
    event: u32,
    has_object: bool,
)
    requires
        connect_goes_on(replies, flags, event, has_object),
    ensures
        connect_run(ConnectStep::Connect, replies, flags, event, has_object) == (
        if replies.connect != NO_ERROR {
            Ok::<u64, IpcError>(code_word(replies.connect))
        } else if asks_to_wait(flags) && replies.wait < 0 {
            Err(IpcError::IsNone)
        } else if asks_to_wait(flags) && event_error(event) is Some {
            Err(if has_object { event_error(event)->0 } else { IpcError::IsNone })
        } else {
            install_outcome(replies.install, has_object)
        }),
{
    reveal_with_fuel(connect_run, 4);
}

/// The object of the channel after a step, with a reference taken and given back where the step
/// tries one.
pub open spec fn channel_after(
    step: ConnectStep,
    ret: i32,
    event: u32,
    channel: Option<HandleT>,
) -> Option<HandleT> {
    if step.touches(ret, event) {
        handle::touched(channel)
    } else {
        channel
    }
}

/// What the kernel is asked from a step to the end.
pub open spec fn connect_trace(
    step: ConnectStep,
    ctx: UctxAddr,
    request: ConnectRequestModel,
    replies: ConnectReplies,
    event: usize,
    channel: Option<HandleT>,
) -> Seq<KernelCall>
    decreases step.rank(),
{
    let ret = replies.to(step);
    match step {
        ConnectStep::Done(_) => seq![],
        _ => step.calls(ctx, request, event, channel) + connect_trace(
            step.after(ret, request.flags, event as u32, channel is Some),
            ctx,
            request,
            replies,
            event,
            channel_after(step, ret, event as u32, channel),
        ),
    }
}

/// Whatever the kernel returns, it is first asked to connect. It is asked to wait only where the
/// request asks for it, a second time only where the first wait timed out, and to install the
/// channel only where nothing before has decided.
pub proof fn law_connect_trace(
    ctx: UctxAddr,
    request: ConnectRequestModel,
    replies: ConnectReplies,
    event: usize,
    channel: Option<HandleT>,
)
    requires
        connect_goes_on(replies, request.flags, event as u32, channel is Some),
    ensures
        connect_trace(ConnectStep::Connect, ctx, request, replies, event, channel) == ({
            let connect = ConnectStep::Connect.calls(ctx, request, event, channel);
            let wait = ConnectStep::Wait.calls(ctx, request, event, channel);
            let wait_again = ConnectStep::WaitAgain.calls(ctx, request, event, channel);
            let install = ConnectStep::Install.calls(ctx, request, event, channel);
            if replies.connect != NO_ERROR {
                connect
            } else if !asks_to_wait(request.flags) {
                connect + install
            } else if replies.wait == ERR_TIMED_OUT {
                connect + wait + wait_again
            } else if replies.wait < 0 || event_error(event as u32) is Some {
                connect + wait
            } else {
                connect + wait + install
            }
        }),
{
    reveal_with_fuel(connect_trace, 4);
}

/// A request that is not refused for its flags never waits.
pub proof fn law_accepted_request_never_waits(ret: i32, flags: u32, event: u32, has_object: bool)
    requires
        !refuses_flags(flags),
    ensures
        !asks_to_wait(flags),
        ConnectStep::Connect.after(ret, flags, event, has_object) !is Wait,
{
    flags::law_connect_mask(flags);
}

/// Every part of a request to connect comes from the client, unchanged: the path reads back from
/// the request, and requests that differ in the path or in the flags are different requests.
pub proof fn law_connect_request_keeps_its_arguments(
    text: Seq<i8>,
    flags: u32,
    other_text: Seq<i8>,
    other_flags: u32,
)
    requires
        text.len() < 256,
        forall|i: int| 0 <= i < text.len() ==> text[i] != 0,
        other_text.len() < 256,
        forall|i: int| 0 <= i < other_text.len() ==> other_text[i] != 0,
    ensures
        wanted_channel(text, flags).flags == flags,
        path::string_in(wanted_channel(text, flags).path) == text,
        wanted_channel(text, flags) == wanted_channel(other_text, other_flags) <==> text
            == other_text && flags == other_flags,
{
    path::law_padded_path_reads_back(text);
    path::law_padded_path_reads_back(other_text);
}

/// A request whose flags are accepted makes two calls where every service succeeds: to connect,
/// with the flags that were given, and to install the channel. None of the calls is a wait.
pub proof fn law_accepted_request_connects_once(ctx: UctxAddr, text: Seq<i8>, flags: u32)
    requires
        flags % 4 == 0,
    ensures
        ({
            let calls = connected_calls(ctx, wanted_channel(text, flags));
            &&& calls.len() == 2
            &&& calls[0] is Connect && calls[0]->Connect_flags == flags
            &&& calls[1] == KernelCall::InstallHandle {
                ctx,
                handle: None,
                channel_id: Some(HandleIdT { value: 23 }),
            }
            &&& forall|i: int| 0 <= i < calls.len() ==> calls[i] !is Wait
        }),
{
    law_flags_refused(flags);
}

/// Where every service succeeds and nothing is signalled, what the kernel is asked is what follows
/// from going from step to step.
pub proof fn law_connected_calls(ctx: UctxAddr, request: ConnectRequestModel, wait_again: i32)
    ensures
        connected_calls(ctx, request) == connect_trace(
            ConnectStep::Connect,
            ctx,
            request,
            ConnectReplies { connect: 0, wait: 0, wait_again, install: 0 },
            0,
            None,
        ),
{
    law_event_error_reads_three_bits(0);
    reveal_with_fuel(connect_trace, 4);
}

/// A step lacks a successor only where the channel has an object: after a second wait, and where
/// a first wait or the installation fails with a negative code, but for a first wait that timed
/// out.
pub proof fn law_only_a_channel_with_an_object_stops(step: ConnectStep, ret: i32, has_object: bool)
    ensures
        !step.goes_on(ret, has_object) <==> has_object && (step is WaitAgain || step is Install
            && ret < 0 || step is Wait && ret < 0 && ret != -3),
{
}

/// Whatever the kernel returns, it is asked to connect first and with the values of the request.
/// What follows a connection are waits of one second, as many as the flags and the first wait
/// call for, and at most one installation, after which there is nothing.
pub proof fn law_connect_trace_call_by_call(
    ctx: UctxAddr,
    request: ConnectRequestModel,
    replies: ConnectReplies,
    event: usize,
    channel: Option<HandleT>,
)
    requires
        connect_goes_on(replies, request.flags, event as u32, channel is Some),
    ensures
        ({
            let trace = connect_trace(ConnectStep::Connect, ctx, request, replies, event, channel);
            let wait = KernelCall::Wait { handle: channel, event, timeout: 1000 };
            let install = KernelCall::InstallHandle {
                ctx,
                handle: channel,
                channel_id: Some(HandleIdT { value: 23 }),
            };
            let word = event as u32;
            let waits = request.flags / 2 % 2 == 1;
            let given_up = word % 2 == 1 || word / 4 % 2 == 1 && word / 8 % 2 == 1;
            &&& trace[0] == KernelCall::Connect {
                uuid: request.uuid,
                path: Some(request.path),
                max_path: 256,
                flags: request.flags,
                channel,
            }
            &&& replies.connect != 0 ==> trace.len() == 1
            &&& replies.connect == 0 && !waits ==> trace.len() == 2 && trace[1] == install
            &&& replies.connect == 0 && waits ==> trace.len() >= 2 && trace[1] == wait
            &&& replies.connect == 0 && waits && replies.wait == -3 ==> trace.len() == 3 && trace[2]
                == wait
            &&& replies.connect == 0 && waits && replies.wait < 0 && replies.wait != -3
                ==> trace.len() == 2
            &&& replies.connect == 0 && waits && replies.wait >= 0 && given_up ==> trace.len() == 2
            &&& replies.connect == 0 && waits && replies.wait >= 0 && !given_up ==> trace.len() == 3
                && trace[2] == install
        }),
{
    law_connect_trace(ctx, request, replies, event, channel);
    law_flags_refused(request.flags);
    law_event_error_reads_three_bits(event as u32);
}

} // verus!
