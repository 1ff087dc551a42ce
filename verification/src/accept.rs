//! Accepting a connection on a port.

use vstd::prelude::*;
use vstd::string::StringExecFns;

use crate::context::{current_uctx, UctxAddr};
use crate::decimal;
use crate::error::IpcError;
use crate::handle::{self, HandleIdT, HandleRef, HandleT};
use crate::identity::{self, Uuid};
use crate::kernel::{
    ipc_port_accept, uctx_handle_get_tmp_ref, uctx_handle_install, Kernel, KernelCall,
    ReferenceModel, NO_ERROR,
};

verus! {

/// What the acceptor of a connection knows the channel by.
pub const CHANNEL_HANDLE_ID: usize = 42;

/// What became of the lookup of the port on which a connection is accepted.
#[derive(Clone, Copy, Debug, PartialEq, Eq)]
pub enum LookupReport {
    /// The lookup could not be made.
    Failed,
    /// The lookup returned this code, which is not `NO_ERROR`.
    Code(i32),
    /// The port was found.
    Found,
}

impl LookupReport {
    /// What a lookup that ended with `result` is reported as.
    pub fn of(result: Result<i32, IpcError>) -> (report: LookupReport)
        ensures
            report == (match result {
                Err(_) => LookupReport::Failed,
                Ok(value) => if value != NO_ERROR {
                    LookupReport::Code(value)
                } else {
                    LookupReport::Found
                },
            }),
    {
        match result {
            Err(_) => LookupReport::Failed,
            Ok(value) => {
                if value != NO_ERROR {
                    LookupReport::Code(value)
                } else {
                    LookupReport::Found
                }
            },
        }
    }

    /// The text that tells a user of the lookup.
    pub open spec fn text(self) -> Seq<char> {
        match self {
            LookupReport::Failed => "An error occurred."@,
            LookupReport::Code(value) => "Result is not NO_ERROR, got: "@ + decimal::decimal(
                value as int,
            ),
            LookupReport::Found => "The handle with ID 23 has been found "@,
        }
    }

    /// Renders the report for a user.
    pub fn message(&self) -> (message: String)
        ensures
            message@ == self.text(),
            *self is Failed ==> message@ == "An error occurred."@,
            *self is Code ==> message@ == "Result is not NO_ERROR, got: "@ + decimal::decimal(
                self->Code_0 as int,
            ),
            *self is Found ==> message@ == "The handle with ID 23 has been found "@,
    {
        match *self {
            LookupReport::Failed => "An error occurred.".to_string(),
            LookupReport::Code(value) => "Result is not NO_ERROR, got: ".to_string().concat(
                decimal::to_decimal(value).as_str(),
            ),
            LookupReport::Found => "The handle with ID 23 has been found ".to_string(),
        }
    }
}

/// The lookup that the kernel is asked for: with a temporary reference to a fresh object, which
/// is its own parent.
pub open spec fn lookup_call(ctx: UctxAddr, id: HandleIdT) -> KernelCall {
    let object = HandleT {
        refcnt: 1,
        flags: 0,
        wait_event: None,
        cookie: None,
        use_async: false,
    };
    KernelCall::Lookup {
        ctx,
        id,
        reference: Some(
            ReferenceModel {
                parent: Some(object),
                handle: Some(object),
                id: 1,
                emask: 0,
                cookie: None,
            },
        ),
    }
}

/// Looks a port up in a user context, by way of a temporary reference to a fresh object.
pub fn lookup_port(kernel: &mut Kernel, ctx: UctxAddr, handle_id: HandleIdT) -> (result: Result<
    i32,
    IpcError,
>)
    ensures
        result == Ok::<i32, IpcError>(NO_ERROR),
        final(kernel)@ == old(kernel)@.push(lookup_call(ctx, handle_id)),
        final(kernel)@ == old(kernel)@.push(
            KernelCall::Lookup {
                ctx,
                id: handle_id,
                reference: Some(
                    ReferenceModel {
                        parent: Some(
                            HandleT {
                                refcnt: 1,
                                flags: 0,
                                wait_event: None,
                                cookie: None,
                                use_async: false,
                            },
                        ),
                        handle: Some(
                            HandleT {
                                refcnt: 1,
                                flags: 0,
                                wait_event: None,
                                cookie: None,
                                use_async: false,
                            },
                        ),
                        id: 1,
                        emask: 0,
                        cookie: None,
                    },
                ),
            },
        ),
{
    let object = HandleT::new();
    let tmp_ref = HandleRef::temporary(&object);
    Ok(uctx_handle_get_tmp_ref(kernel, ctx, handle_id, Some(&tmp_ref)))
}

/// Where the accepting of a connection stands: the kernel service that is asked next, or the
/// result.
#[derive(Clone, Copy, Debug, PartialEq, Eq)]
pub enum AcceptStep {
    /// Accept a connection on the port.
    Accept,
    /// Install the channel in the user context.
    Install,
    /// Nothing is left to ask.
    Done(Result<u64, IpcError>),
}

impl AcceptStep {
    /// The service failed, so that a reference to an object is tried: to the port's object when
    /// nothing was accepted, to the channel's when it was not installed.
    pub open spec fn touches(self, ret: i32) -> bool {
        self !is Done && ret != NO_ERROR
    }

    /// The step has a successor: the code of a refused accept on a port with an object is handed
    /// to the caller, which a negative code cannot be.
    pub open spec fn goes_on(self, ret: i32, has_object: bool) -> bool {
        self is Accept && has_object ==> ret >= 0
    }

    /// The step that follows when the service of this step returned `ret`, and the port or the
    /// channel that it was about has an object or not.
    pub open spec fn after(self, ret: i32, has_object: bool) -> AcceptStep {
        match self {
            AcceptStep::Done(result) => AcceptStep::Done(result),
            _ => if ret != NO_ERROR && !has_object {
                AcceptStep::Done(Err(IpcError::IsNone))
            } else if self is Install {
                AcceptStep::Done(Ok(CHANNEL_HANDLE_ID as u64))
            } else if ret != NO_ERROR {
                AcceptStep::Done(Ok(ret as u64))
            } else {
                AcceptStep::Install
            },
        }
    }

    /// An upper bound on the services that are still asked.
    pub open spec fn rank(self) -> nat {
        match self {
            AcceptStep::Accept => 2,
            AcceptStep::Install => 1,
            AcceptStep::Done(_) => 0,
        }
    }

    /// What the kernel is asked at this step, in the context `ctx` and under the identity `peer`,
    /// for a port and a channel with these objects.
    pub open spec fn calls(
        self,
        ctx: UctxAddr,
        peer: Seq<u8>,
        port: Option<HandleT>,
        channel: Option<HandleT>,
    ) -> Seq<KernelCall> {
        match self {
            AcceptStep::Accept => seq![KernelCall::Accept { port, channel, uuid: peer }],
            AcceptStep::Install => seq![
                KernelCall::InstallHandle {
                    ctx,
                    handle: channel,
                    channel_id: Some(HandleIdT { value: CHANNEL_HANDLE_ID }),
                },
            ],
            AcceptStep::Done(_) => seq![],
        }
    }

    /// Asks the kernel for the service of this step, if there is one.
    pub fn ask(
        self,
        kernel: &mut Kernel,
        ctx: UctxAddr,
        peer: Uuid,
        phandle: &Option<HandleT>,
        chandle: &Option<HandleT>,
    ) -> (ret: i32)
        ensures
            ret == NO_ERROR,
            final(kernel)@ == old(kernel)@ + self.calls(ctx, peer.bytes@, *phandle, *chandle),
            ret == 0,
            self is Accept ==> final(kernel)@ == old(kernel)@.push(
                KernelCall::Accept { port: *phandle, channel: *chandle, uuid: peer.bytes@ },
            ),
            self is Install ==> final(kernel)@ == old(kernel)@.push(
                KernelCall::InstallHandle {
                    ctx,
                    handle: *chandle,
                    channel_id: Some(HandleIdT { value: 42 }),
                },
            ),
            self is Done ==> final(kernel)@ == old(kernel)@,
    {
        let new_id = HandleIdT { value: CHANNEL_HANDLE_ID };
        match self {
            AcceptStep::Accept => ipc_port_accept(kernel, phandle.as_ref(), chandle.as_ref(), peer),
            AcceptStep::Install => uctx_handle_install(
                kernel,
                ctx,
                chandle.as_ref(),
                Some(&new_id),
            ),
            AcceptStep::Done(_) => NO_ERROR,
        }
    }

    /// Goes on from what the service of this step returned. `handle` is the port's where a
    /// connection was to be accepted, and the channel's where it was to be installed.
    pub fn next(self, ret: i32, handle: &mut Option<HandleT>) -> (step: AcceptStep)
        requires
            self.touches(ret) ==> handle::can_touch(*old(handle)),
            self.goes_on(ret, *old(handle) is Some),
        ensures
            step == self.after(ret, *old(handle) is Some),
            *final(handle) == (if self.touches(ret) {
                handle::touched(*old(handle))
            } else {
                *old(handle)
            }),
            handle::in_use(*old(handle)) ==> *final(handle) == *old(handle),
            self is Accept && ret == 0 ==> step is Install,
            self is Accept && ret != 0 && *old(handle) is Some ==> step is Done && step->Done_0 is Ok
                && step->Done_0->Ok_0 == ret,
            self !is Done && ret != 0 && *old(handle) is None ==> step == AcceptStep::Done(
                Err(IpcError::IsNone),
            ),
            self is Install && (ret == 0 || *old(handle) is Some) ==> step == AcceptStep::Done(
                Ok(42),
            ),
            self is Done ==> step == self,
            *final(handle) is Some <==> *old(handle) is Some,
            self is Done || ret == 0 ==> *final(handle) == *old(handle),
            *old(handle) is Some && old(handle)->0.refcnt >= 1 ==> *final(handle) == *old(handle),
            self !is Done && ret != 0 && *old(handle) is Some && old(handle)->0.refcnt == 0
                ==> *final(handle) == Some(HandleT { refcnt: 1, ..old(handle)->0 }),
    {
        match self {
            AcceptStep::Accept => {
                if ret != NO_ERROR {
                    if let Err(error) = handle::touch(handle) {
                        return AcceptStep::Done(Err(error));
                    }
                    return AcceptStep::Done(Ok(ret as u64));
                }
                AcceptStep::Install
            },
            AcceptStep::Install => {
                if ret != NO_ERROR {
                    if let Err(error) = handle::touch(handle) {
                        return AcceptStep::Done(Err(error));
                    }
                }
                AcceptStep::Done(Ok(CHANNEL_HANDLE_ID as u64))
            },
            AcceptStep::Done(result) => AcceptStep::Done(result),
        }
    }
}

/// What the kernel is asked when every service succeeds, and neither the port nor the channel
/// has an object: to accept a connection, then to install the channel.
pub open spec fn accepted_calls(ctx: UctxAddr, peer: Seq<u8>) -> Seq<KernelCall> {
    AcceptStep::Accept.calls(ctx, peer, None, None) + AcceptStep::Install.calls(
        ctx,
        peer,
        None,
        None,
    )
}

/// Has the kernel accept a connection under the identity `peer` and install the channel.
pub fn accept_as(kernel: &mut Kernel, ctx: UctxAddr, peer: Uuid) -> (result: Result<u64, IpcError>)
    ensures
        result == Ok::<u64, IpcError>(CHANNEL_HANDLE_ID as u64),
        final(kernel)@ == old(kernel)@ + accepted_calls(ctx, peer.bytes@),
        result == Ok::<u64, IpcError>(42),
        final(kernel)@ == old(kernel)@ + seq![
            KernelCall::Accept { port: None, channel: None, uuid: peer.bytes@ },
            KernelCall::InstallHandle {
                ctx,
                handle: None,
                channel_id: Some(HandleIdT { value: 42 }),
            },
        ],
{
    let mut phandle: Option<HandleT> = None;
    let mut chandle: Option<HandleT> = None;
    let mut step = AcceptStep::Accept;
    let ghost before = kernel@;
    let ghost accepted = before + AcceptStep::Accept.calls(ctx, peer.bytes@, None, None);
    let ghost installed = accepted + AcceptStep::Install.calls(ctx, peer.bytes@, None, None);
    loop
        invariant
            before == old(kernel)@,
            phandle is None,
            chandle is None,
            accepted == before + AcceptStep::Accept.calls(ctx, peer.bytes@, None, None),
            installed == accepted + AcceptStep::Install.calls(ctx, peer.bytes@, None, None),
            match step {
                AcceptStep::Accept => kernel@ == before,
                AcceptStep::Install => kernel@ == accepted,
                AcceptStep::Done(result) => kernel@ == installed && result == Ok::<u64, IpcError>(
                    CHANNEL_HANDLE_ID as u64,
                ),
            },
        decreases step.rank(),
    {
        if let AcceptStep::Done(result) = step {
            return result;
        }
        let ret = step.ask(kernel, ctx, peer, &phandle, &chandle);
        step = match step {
            AcceptStep::Accept => step.next(ret, &mut phandle),
            _ => step.next(ret, &mut chandle),
        };
    }
}

/// Accepts a connection on the port known by `handle_id`, for the thread whose identifier is
/// called `thread`. Returns the report on the lookup of the port, and the identifier of the
/// channel's handle. Nothing is written to the address `user_uuid`.
pub fn accept(kernel: &mut Kernel, thread: &str, handle_id: HandleIdT, user_uuid: usize) -> (result:
    (LookupReport, Result<u64, IpcError>))
    ensures
        result.0 == LookupReport::Found,
        result.1 == Ok::<u64, IpcError>(CHANNEL_HANDLE_ID as u64),
        final(kernel)@ == old(kernel)@.push(KernelCall::CreateContext { slot: Some(0) }).push(
            lookup_call(0, handle_id),
        ) + accepted_calls(
            0,
            identity::name_based(identity::oid_namespace(), identity::accept_name()),
        ),
        result.1 == Ok::<u64, IpcError>(42),
        final(kernel)@ == old(kernel)@ + seq![
            KernelCall::CreateContext { slot: Some(0) },
            KernelCall::Lookup {
                ctx: 0,
                id: handle_id,
                reference: Some(
                    ReferenceModel {
                        parent: Some(
                            HandleT {
                                refcnt: 1,
                                flags: 0,
                                wait_event: None,
                                cookie: None,
                                use_async: false,
                            },
                        ),
                        handle: Some(
                            HandleT {
                                refcnt: 1,
                                flags: 0,
                                wait_event: None,
                                cookie: None,
                                use_async: false,
                            },
                        ),
                        id: 1,
                        emask: 0,
                        cookie: None,
                    },
                ),
            },
            KernelCall::Accept {
                port: None,
                channel: None,
                uuid: identity::name_based(
                    identity::oid_namespace(),
                    seq![0x6du8, 0x2d, 0x70, 0x69, 0x64],
                ),
            },
            KernelCall::InstallHandle {
                ctx: 0,
                handle: None,
                channel_id: Some(HandleIdT { value: 42 }),
            },
        ],
{
    let ctx = current_uctx(kernel, thread);
    let report = LookupReport::of(lookup_port(kernel, ctx, handle_id));
    (report, accept_as(kernel, ctx, identity::accept_uuid()))
}

/// What the kernel's services return while a connection is accepted.
pub struct AcceptReplies {
    pub accept: i32,
    pub install: i32,
}

/// The result of accepting a connection when the kernel returns `replies`, and the port and the
/// channel have an object or not.
pub open spec fn accept_run(
    replies: AcceptReplies,
    port_has_object: bool,
    channel_has_object: bool,
) -> AcceptStep {
    match AcceptStep::Accept.after(replies.accept, port_has_object) {
        AcceptStep::Install => AcceptStep::Install.after(replies.install, channel_has_object),
        step => step,
    }
}

/// Whatever the kernel returns, the accepting of a connection comes to an end. A refused accept
/// hands its code out where the port has an object, a refused installation is passed over where
/// the channel has one, and without the object either is an error.
pub proof fn law_accept_outcome(
    replies: AcceptReplies,
    port_has_object: bool,
    channel_has_object: bool,
)
    requires
        AcceptStep::Accept.goes_on(replies.accept, port_has_object),
    ensures
        accept_run(replies, port_has_object, channel_has_object) == AcceptStep::Done(
            if replies.accept != NO_ERROR {
                if port_has_object {
                    Ok(replies.accept as u64)
                } else {
                    Err(IpcError::IsNone)
                }
            } else if replies.install != NO_ERROR && !channel_has_object {
                Err(IpcError::IsNone)
            } else {
                Ok(CHANNEL_HANDLE_ID as u64)
            },
        ),
{
}

/// What the kernel is asked when a connection is accepted and it returns `replies`, for a port and
/// a channel with these objects.
pub open spec fn accept_trace(
    ctx: UctxAddr,
    peer: Seq<u8>,
    replies: AcceptReplies,
    port: Option<HandleT>,
    channel: Option<HandleT>,
) -> Seq<KernelCall> {
    let step = AcceptStep::Accept.after(replies.accept, port is Some);
    AcceptStep::Accept.calls(ctx, peer, port, channel) + step.calls(ctx, peer, port, channel)
}

/// Whatever the kernel returns, it is first asked to accept a connection, and asked to install
/// the channel exactly where it did accept one.
pub proof fn law_accept_trace(
    ctx: UctxAddr,
    peer: Seq<u8>,
    replies: AcceptReplies,
    port: Option<HandleT>,
    channel: Option<HandleT>,
)
    requires
        AcceptStep::Accept.goes_on(replies.accept, port is Some),
    ensures
        accept_trace(ctx, peer, replies, port, channel) == (if replies.accept != NO_ERROR {
            AcceptStep::Accept.calls(ctx, peer, port, channel)
        } else {
            AcceptStep::Accept.calls(ctx, peer, port, channel) + AcceptStep::Install.calls(
                ctx,
                peer,
                port,
                channel,
            )
        }),
{
}

/// A step lacks a successor only where a connection was refused with a negative code on a port
/// that has an object.
pub proof fn law_only_a_refused_accept_stops(step: AcceptStep, ret: i32, has_object: bool)
    ensures
        !step.goes_on(ret, has_object) <==> step is Accept && has_object && ret < 0,
{
}

/// Whatever the kernel returns, the first call is to accept a connection, under the identity of
/// the acceptor. A second one, to install the channel in the context, is made exactly where the
/// first succeeded, and there is no third.
pub proof fn law_accept_trace_call_by_call(
    ctx: UctxAddr,
    peer: Seq<u8>,
    replies: AcceptReplies,
    port: Option<HandleT>,
    channel: Option<HandleT>,
)
    requires
        replies.accept >= 0 || port is None,
    ensures
        ({
            let trace = accept_trace(ctx, peer, replies, port, channel);
            &&& trace[0] == KernelCall::Accept { port, channel, uuid: peer }
            &&& trace.len() == if replies.accept == 0 { 2int } else { 1int }
            &&& replies.accept == 0 ==> trace[1] == KernelCall::InstallHandle {
                ctx,
                handle: channel,
                channel_id: Some(HandleIdT { value: 42 }),
            }
        }),
{
    law_accept_trace(ctx, peer, replies, port, channel);
}

/// Where every service succeeds, the kernel is asked to accept a connection before it is asked to
/// install the channel, each once.
pub proof fn law_accepted_calls(ctx: UctxAddr, peer: Seq<u8>)
    ensures
        accepted_calls(ctx, peer) == seq![
            KernelCall::Accept { port: None, channel: None, uuid: peer },
            KernelCall::InstallHandle {
                ctx,
                handle: None,
                channel_id: Some(HandleIdT { value: 42 }),
            },
        ],
        accepted_calls(ctx, peer) == accept_trace(
            ctx,
            peer,
            AcceptReplies { accept: 0, install: 0 },
            None,
            None,
        ),
{
}

} // verus!
