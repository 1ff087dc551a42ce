//! Creating a port.

use vstd::prelude::*;

use crate::context::{current_uctx, UctxAddr};
use crate::error::IpcError;
use crate::handle::{self, HandleIdT, HandleT};
use crate::identity::{self, Uuid};
use crate::kernel::{
    ipc_port_create, ipc_port_publish, port_install, uctx_handle_remove, Kernel, KernelCall,
    NO_ERROR,
};
use crate::path::{self, IPC_PORT_PATH_MAX};

verus! {

/// What the creator of a port knows the port by.
pub const PORT_HANDLE_ID: usize = 23;

/// What the kernel is asked for when a port is created.
#[derive(Debug, PartialEq, Eq)]
pub struct PortRequest {
    pub uuid: Uuid,
    pub path: [i8; IPC_PORT_PATH_MAX],
    pub num_recv_bufs: u32,
    pub recv_buf_size: u32,
    pub flags: u32,
}

/// The parts of a request for a port.
pub struct PortRequestModel {
    pub uuid: Seq<u8>,
    pub path: Seq<i8>,
    pub num_recv_bufs: u32,
    pub recv_buf_size: u32,
    pub flags: u32,
}

impl View for PortRequest {
    type V = PortRequestModel;

    open spec fn view(&self) -> PortRequestModel {
        PortRequestModel {
            uuid: self.uuid.bytes@,
            path: self.path@,
            num_recv_bufs: self.num_recv_bufs,
            recv_buf_size: self.recv_buf_size,
            flags: self.flags,
        }
    }
}

/// The request for a port at the path `text`: it is made under the creator's identity.
pub open spec fn wanted_port(
    text: Seq<i8>,
    num_recv_bufs: u32,
    recv_buf_size: u32,
    flags: u32,
) -> PortRequestModel {
    PortRequestModel {
        uuid: identity::name_based(identity::oid_namespace(), identity::port_name()),
        path: path::padded(text),
        num_recv_bufs,
        recv_buf_size,
        flags,
    }
}

/// Where the creation of a port stands: the kernel service that is asked next, or the result.
#[derive(Clone, Copy, Debug, PartialEq, Eq)]
pub enum PortStep {
    /// Create the port.
    Create,
    /// Install the port in the user context.
    Install,
    /// Publish the port.
    Publish,
    /// Take the port out of the user context again.
    Remove,
    /// Nothing is left to ask.
    Done(Result<usize, IpcError>),
}

impl PortStep {
    /// The service failed in a way after which a reference to the port's object is tried.
    pub open spec fn touches(self, ret: i32) -> bool {
        self is Install && ret != NO_ERROR
    }

    /// The step that follows when the service of this step returned `ret`, and the port has an
    /// object or not.
    pub open spec fn after(self, ret: i32, has_object: bool) -> PortStep {
        match self {
            PortStep::Create => if ret == NO_ERROR {
                PortStep::Install
            } else {
                PortStep::Done(Err(IpcError::PortCreateFailed(ret)))
            },
            PortStep::Install => if ret == NO_ERROR || has_object {
                PortStep::Publish
            } else {
                PortStep::Done(Err(IpcError::IsNone))
            },
            PortStep::Publish => if ret == NO_ERROR {
                PortStep::Done(Ok(PORT_HANDLE_ID))
            } else {
                PortStep::Remove
            },
            PortStep::Remove => PortStep::Done(Err(IpcError::PublishFailed)),
            PortStep::Done(result) => PortStep::Done(result),
        }
    }

    /// An upper bound on the services that are still asked.
    pub open spec fn rank(self) -> nat {
        match self {
            PortStep::Create => 4,
            PortStep::Install => 3,
            PortStep::Publish => 2,
            PortStep::Remove => 1,
            PortStep::Done(_) => 0,
        }
    }

    /// What the kernel is asked at this step, for a request in the context `ctx` and a port with
    /// the object `port`.
    pub open spec fn calls(
        self,
        ctx: UctxAddr,
        request: PortRequestModel,
        port: Option<HandleT>,
    ) -> Seq<KernelCall> {
        let id = HandleIdT { value: PORT_HANDLE_ID };
        match self {
            PortStep::Create => seq![
                KernelCall::CreatePort {
                    uuid: request.uuid,
                    path: Some(request.path),
                    num_recv_bufs: request.num_recv_bufs,
                    recv_buf_size: request.recv_buf_size,
                    flags: request.flags,
                    port_handle: Some(port),
                },
            ],
            PortStep::Install => seq![KernelCall::InstallPort { ctx, port, id }],
            PortStep::Publish => seq![KernelCall::PublishPort { port }],
            PortStep::Remove => seq![KernelCall::RemoveHandle { ctx, id, port: None }],
            PortStep::Done(_) => seq![],
        }
    }

    /// Asks the kernel for the service of this step, if there is one.
    pub fn ask(
        self,
        kernel: &mut Kernel,
        ctx: UctxAddr,
        request: &PortRequest,
        port_handle: &mut Option<HandleT>,
    ) -> (ret: i32)
        ensures
            ret == NO_ERROR,
            *final(port_handle) == *old(port_handle),
            final(kernel)@ == old(kernel)@ + self.calls(ctx, request@, *old(port_handle)),
            ret == 0,
            self is Create ==> final(kernel)@ == old(kernel)@.push(
                KernelCall::CreatePort {
                    uuid: request.uuid.bytes@,
                    path: Some(request.path@),
                    num_recv_bufs: request.num_recv_bufs,
                    recv_buf_size: request.recv_buf_size,
                    flags: request.flags,
                    port_handle: Some(*old(port_handle)),
                },
            ),
            self is Install ==> final(kernel)@ == old(kernel)@.push(
                KernelCall::InstallPort {
                    ctx,
                    port: *old(port_handle),
                    id: HandleIdT { value: 23 },
                },
            ),
            self is Publish ==> final(kernel)@ == old(kernel)@.push(
                KernelCall::PublishPort { port: *old(port_handle) },
            ),
            self is Remove ==> final(kernel)@ == old(kernel)@.push(
                KernelCall::RemoveHandle { ctx, id: HandleIdT { value: 23 }, port: None },
            ),
            self is Done ==> final(kernel)@ == old(kernel)@,
    {
        let handle_id = HandleIdT { value: PORT_HANDLE_ID };
        match self {
            PortStep::Create => ipc_port_create(
                kernel,
                &request.uuid,
                Some(&request.path),
                request.num_recv_bufs,
                request.recv_buf_size,
                request.flags,
                Some(port_handle),
            ),
            PortStep::Install => port_install(kernel, ctx, port_handle.as_ref(), &handle_id),
            PortStep::Publish => ipc_port_publish(kernel, port_handle.as_ref()),
            PortStep::Remove => uctx_handle_remove(kernel, ctx, &handle_id, None),
            PortStep::Done(_) => NO_ERROR,
        }
    }

    /// Goes on from what the service of this step returned.
    pub fn next(self, ret: i32, port_handle: &mut Option<HandleT>) -> (step: PortStep)
        requires
            self.touches(ret) ==> handle::can_touch(*old(port_handle)),
        ensures
            step == self.after(ret, *old(port_handle) is Some),
            *final(port_handle) == (if self.touches(ret) {
                handle::touched(*old(port_handle))
            } else {
                *old(port_handle)
            }),
            handle::in_use(*old(port_handle)) ==> *final(port_handle) == *old(port_handle),
            self is Create ==> step == (if ret == 0 {
                PortStep::Install
            } else {
                PortStep::Done(Err(IpcError::PortCreateFailed(ret)))
            }),
            self is Install && (ret == 0 || *old(port_handle) is Some) ==> step is Publish,
            self is Install && ret != 0 && *old(port_handle) is None ==> step == PortStep::Done(
                Err(IpcError::IsNone),
            ),
            self is Publish && ret == 0 ==> step == PortStep::Done(Ok(23)),
            self is Publish && ret != 0 ==> step is Remove,
            self is Remove ==> step == PortStep::Done(Err(IpcError::PublishFailed)),
            self is Done ==> step == self,
            *final(port_handle) is Some <==> *old(port_handle) is Some,
            self !is Install || ret == 0 ==> *final(port_handle) == *old(port_handle),
            *old(port_handle) is Some && old(port_handle)->0.refcnt >= 1 ==> *final(port_handle)
                == *old(port_handle),
            self is Install && ret != 0 && *old(port_handle) is Some && old(port_handle)->0.refcnt == 0
                ==> *final(port_handle) == Some(HandleT { refcnt: 1, ..old(port_handle)->0 }),
    {
        match self {
            PortStep::Create => {
                if ret != NO_ERROR {
                    return PortStep::Done(Err(IpcError::PortCreateFailed(ret)));
                }
                PortStep::Install
            },
            PortStep::Install => {
                if ret != NO_ERROR {
                    if let Err(error) = handle::touch(port_handle) {
                        return PortStep::Done(Err(error));
                    }
                }
                PortStep::Publish
            },
            PortStep::Publish => {
                if ret != NO_ERROR {
                    return PortStep::Remove;
                }
                PortStep::Done(Ok(PORT_HANDLE_ID))
            },
            PortStep::Remove => PortStep::Done(Err(IpcError::PublishFailed)),
            PortStep::Done(result) => PortStep::Done(result),
        }
    }
}

/// Puts a request for a port together.
pub fn port_request(
    path: Option<&[i8]>,
    num_recv_bufs: u32,
    recv_buf_size: u32,
    flags: u32,
) -> (result: Result<PortRequest, IpcError>)
    requires
        path::readable(path),
    ensures
        path::text(path).len() >= IPC_PORT_PATH_MAX ==> result == Err::<
            PortRequest,
            IpcError,
        >(IpcError::BufferOverflow),
        path::text(path).len() < IPC_PORT_PATH_MAX ==> result is Ok && result->Ok_0@
            == wanted_port(path::text(path), num_recv_bufs, recv_buf_size, flags),
        result is Ok <==> path is None || exists|i: int|
            0 <= i < 256 && i < path->0@.len() && path->0@[i] == 0,
        result is Err ==> result->Err_0 is BufferOverflow,
        result is Ok ==> result->Ok_0.num_recv_bufs == num_recv_bufs,
        result is Ok ==> result->Ok_0.recv_buf_size == recv_buf_size,
        result is Ok ==> result->Ok_0.flags == flags,
        result is Ok ==> result->Ok_0.uuid.bytes@ == identity::name_based(
            identity::oid_namespace(),
            seq![0x71u8, 0x2d, 0x70, 0x69, 0x64],
        ),
        result is Ok ==> path::string_in(result->Ok_0.path@) == path::text(path),
        result is Ok ==> forall|i: int|
            0 <= i < 256 ==> #[trigger] result->Ok_0.path@[i] == (if i < path::text(path).len() {
                path->0@[i]
            } else {
                0i8
            }),
{
    let uuid = identity::port_uuid();
    match path::copy_path(path, IpcError::AlreadyExists) {
        Err(error) => Err(error),
        Ok(path) => Ok(PortRequest { uuid, path, num_recv_bufs, recv_buf_size, flags }),
    }
}

/// What the kernel is asked when every service succeeds, and the port gets no object: to create
/// the port, to install it and to publish it, in this order.
pub open spec fn published_port_calls(ctx: UctxAddr, request: PortRequestModel) -> Seq<KernelCall> {
    PortStep::Create.calls(ctx, request, None) + PortStep::Install.calls(ctx, request, None)
        + PortStep::Publish.calls(ctx, request, None)
}

/// Has the kernel create, install and publish the port of a request.
pub fn submit_port_request(kernel: &mut Kernel, ctx: UctxAddr, request: &PortRequest) -> (result:
    Result<usize, IpcError>)
    ensures
        result == Ok::<usize, IpcError>(PORT_HANDLE_ID),
        final(kernel)@ == old(kernel)@ + published_port_calls(ctx, request@),
        result == Ok::<usize, IpcError>(23),
        final(kernel)@ == old(kernel)@ + seq![
            KernelCall::CreatePort {
                uuid: request.uuid.bytes@,
                path: Some(request.path@),
                num_recv_bufs: request.num_recv_bufs,
                recv_buf_size: request.recv_buf_size,
                flags: request.flags,
                port_handle: Some(None),
            },
            KernelCall::InstallPort { ctx, port: None, id: HandleIdT { value: 23 } },
            KernelCall::PublishPort { port: None },
        ],
{
    let mut port_handle: Option<HandleT> = None;
    let mut step = PortStep::Create;
    let ghost before = kernel@;
    let ghost created = before + PortStep::Create.calls(ctx, request@, None);
    let ghost installed = created + PortStep::Install.calls(ctx, request@, None);
    let ghost published = installed + PortStep::Publish.calls(ctx, request@, None);
    loop
        invariant
            before == old(kernel)@,
            port_handle is None,
            created == before + PortStep::Create.calls(ctx, request@, None),
            installed == created + PortStep::Install.calls(ctx, request@, None),
            published == installed + PortStep::Publish.calls(ctx, request@, None),
            match step {
                PortStep::Create => kernel@ == before,
                PortStep::Install => kernel@ == created,
                PortStep::Publish => kernel@ == installed,
                PortStep::Remove => false,
                PortStep::Done(result) => kernel@ == published && result == Ok::<usize, IpcError>(
                    PORT_HANDLE_ID,
                ),
            },
        decreases step.rank(),
    {
        if let PortStep::Done(result) = step {
            return result;
        }
        let ret = step.ask(kernel, ctx, request, &mut port_handle);
        step = step.next(ret, &mut port_handle);
    }
}

/// Creates the port at a path, for the thread whose identifier is called `thread`, and returns
/// the identifier of its handle.
pub fn port_create(
    kernel: &mut Kernel,
    thread: &str,
    path: Option<&[i8]>,
    num_recv_bufs: u32,
    recv_buf_size: u32,
    flags: u32,
) -> (result: Result<usize, IpcError>)
    requires
        path::readable(path),
    ensures
        result == (if path::text(path).len() < IPC_PORT_PATH_MAX {
            Ok(PORT_HANDLE_ID)
        } else {
            Err(IpcError::BufferOverflow)
        }),
        final(kernel)@ == old(kernel)@.push(KernelCall::CreateContext { slot: Some(0) }) + (
        if path::text(path).len() < IPC_PORT_PATH_MAX {
            published_port_calls(
                0,
                wanted_port(path::text(path), num_recv_bufs, recv_buf_size, flags),
            )
        } else {
            seq![]
        }),
        result is Ok <==> path is None || exists|i: int|
            0 <= i < 256 && i < path->0@.len() && path->0@[i] == 0,
        result is Ok ==> result->Ok_0 == 23,
        result is Err ==> result->Err_0 is BufferOverflow,
        result is Ok ==> final(kernel)@ == old(kernel)@ + seq![
            KernelCall::CreateContext { slot: Some(0) },
            KernelCall::CreatePort {
                uuid: identity::name_based(
                    identity::oid_namespace(),
                    seq![0x71u8, 0x2d, 0x70, 0x69, 0x64],
                ),
                path: Some(path::padded(path::text(path))),
                num_recv_bufs,
                recv_buf_size,
                flags,
                port_handle: Some(None),
            },
            KernelCall::InstallPort { ctx: 0, port: None, id: HandleIdT { value: 23 } },
            KernelCall::PublishPort { port: None },
        ],
        result is Err ==> final(kernel)@ == old(kernel)@.push(
            KernelCall::CreateContext { slot: Some(0) },
        ),
{
    let ctx = current_uctx(kernel, thread);
    match port_request(path, num_recv_bufs, recv_buf_size, flags) {
        Err(error) => Err(error),
        Ok(request) => submit_port_request(kernel, ctx, &request),
    }
}

/// What the kernel's services return while a port is created.
pub struct PortReplies {
    pub create: i32,
    pub install: i32,
    pub publish: i32,
    pub remove: i32,
}

impl PortReplies {
    /// What the service of a step returns.
    pub open spec fn to(self, step: PortStep) -> i32 {
        match step {
            PortStep::Create => self.create,
            PortStep::Install => self.install,
            PortStep::Publish => self.publish,
            PortStep::Remove => self.remove,
            PortStep::Done(_) => NO_ERROR,
        }
    }
}

/// The result of going on from a step to the end.
pub open spec fn port_run(step: PortStep, replies: PortReplies, has_object: bool) -> Result<
    usize,
    IpcError,
>
    decreases step.rank(),
{
    match step {
        PortStep::Done(result) => result,
        _ => port_run(step.after(replies.to(step), has_object), replies, has_object),
    }
}

/// Whatever the kernel returns, the creation of a port comes to an end, and the first service
/// that fails decides: a refused creation and a refused publication are errors, and a refused
/// installation is one only where the port has no object.
pub proof fn law_port_outcome(replies: PortReplies, has_object: bool)
    ensures
        port_run(PortStep::Create, replies, has_object) == (if replies.create != NO_ERROR {
            Err::<usize, IpcError>(IpcError::PortCreateFailed(replies.create))
        } else if replies.install != NO_ERROR && !has_object {
            Err(IpcError::IsNone)
        } else if replies.publish != NO_ERROR {
            Err(IpcError::PublishFailed)
        } else {
            Ok(PORT_HANDLE_ID)
        }),
{
    reveal_with_fuel(port_run, 5);
}

/// The object of the port after a step, with a reference taken and given back where the step
/// tries one.
pub open spec fn port_after(step: PortStep, ret: i32, port: Option<HandleT>) -> Option<HandleT> {
    if step.touches(ret) {
        handle::touched(port)
    } else {
        port
    }
}

/// What the kernel is asked from a step to the end.
pub open spec fn port_trace(
    step: PortStep,
    ctx: UctxAddr,
    request: PortRequestModel,
    replies: PortReplies,
    port: Option<HandleT>,
) -> Seq<KernelCall>
    decreases step.rank(),
{
    match step {
        PortStep::Done(_) => seq![],
        _ => step.calls(ctx, request, port) + port_trace(
            step.after(replies.to(step), port is Some),
            ctx,
            request,
            replies,
            port_after(step, replies.to(step), port),
        ),
    }
}

/// Whatever the kernel returns, the services are asked in the order in which a port comes into
/// being, each with the values of the request, and none after the one that decides. The removal
/// is asked only after a refused publication.
pub proof fn law_port_trace(
    ctx: UctxAddr,
    request: PortRequestModel,
    replies: PortReplies,
    port: Option<HandleT>,
)
    requires
        handle::in_use(port),
        replies.create == NO_ERROR && replies.install != NO_ERROR ==> handle::can_touch(port),
    ensures
        port_trace(PortStep::Create, ctx, request, replies, port) == (
        if replies.create != NO_ERROR {
            PortStep::Create.calls(ctx, request, port)
        } else if replies.install != NO_ERROR && port is None {
            PortStep::Create.calls(ctx, request, port) + PortStep::Install.calls(ctx, request, port)
        } else if replies.publish == NO_ERROR {
            PortStep::Create.calls(ctx, request, port) + PortStep::Install.calls(ctx, request, port)
                + PortStep::Publish.calls(ctx, request, port)
        } else {
            PortStep::Create.calls(ctx, request, port) + PortStep::Install.calls(ctx, request, port)
                + PortStep::Publish.calls(ctx, request, port) + PortStep::Remove.calls(
                ctx,
                request,
                port,
            )
        }),
{
    reveal_with_fuel(port_trace, 5);
    if replies.create == NO_ERROR && replies.install != NO_ERROR {
        handle::law_touch_changes_nothing(port);
    }
}

/// Every part of a request for a port comes from the creator, unchanged: the path reads back from
/// the request, and requests that differ in any argument are different requests.
pub proof fn law_port_request_keeps_its_arguments(
    text: Seq<i8>,
    num_recv_bufs: u32,
    recv_buf_size: u32,
    flags: u32,
    other_text: Seq<i8>,
    other_num: u32,
    other_size: u32,
    other_flags: u32,
)
    requires
        text.len() < 256,
        forall|i: int| 0 <= i < text.len() ==> text[i] != 0,
        other_text.len() < 256,
        forall|i: int| 0 <= i < other_text.len() ==> other_text[i] != 0,
    ensures
        path::string_in(wanted_port(text, num_recv_bufs, recv_buf_size, flags).path) == text,
        wanted_port(text, num_recv_bufs, recv_buf_size, flags).num_recv_bufs == num_recv_bufs,
        wanted_port(text, num_recv_bufs, recv_buf_size, flags).recv_buf_size == recv_buf_size,
        wanted_port(text, num_recv_bufs, recv_buf_size, flags).flags == flags,
        wanted_port(text, num_recv_bufs, recv_buf_size, flags) == wanted_port(
            other_text,
            other_num,
            other_size,
            other_flags,
        ) <==> text == other_text && num_recv_bufs == other_num && recv_buf_size == other_size
            && flags == other_flags,
{
    path::law_padded_path_reads_back(text);
    path::law_padded_path_reads_back(other_text);
}

/// Where every service succeeds, the kernel is asked three times and no more: to create the port
/// with the values of the request, to install it and to publish it.
pub proof fn law_published_port_calls(ctx: UctxAddr, request: PortRequestModel, remove: i32)
    ensures
        published_port_calls(ctx, request) == seq![
            KernelCall::CreatePort {
                uuid: request.uuid,
                path: Some(request.path),
                num_recv_bufs: request.num_recv_bufs,
                recv_buf_size: request.recv_buf_size,
                flags: request.flags,
                port_handle: Some(None),
            },
            KernelCall::InstallPort { ctx, port: None, id: HandleIdT { value: 23 } },
            KernelCall::PublishPort { port: None },
        ],
        published_port_calls(ctx, request) == port_trace(
            PortStep::Create,
            ctx,
            request,
            PortReplies { create: 0, install: 0, publish: 0, remove },
            None,
        ),
{
    reveal_with_fuel(port_trace, 5);
}

/// Whatever the kernel returns, it is asked to create the port first, to install it exactly where
/// that succeeded, to publish it exactly where nothing has decided by then, and to remove it
/// exactly where the publication was refused. Each call is about this port and this request.
pub proof fn law_port_trace_call_by_call(
    ctx: UctxAddr,
    request: PortRequestModel,
    replies: PortReplies,
    port: Option<HandleT>,
)
    requires
        port is Some ==> 1 <= port->0.refcnt < u32::MAX,
    ensures
        ({
            let trace = port_trace(PortStep::Create, ctx, request, replies, port);
            let published = replies.create == 0 && (replies.install == 0 || port is Some);
            &&& trace[0] == KernelCall::CreatePort {
                uuid: request.uuid,
                path: Some(request.path),
                num_recv_bufs: request.num_recv_bufs,
                recv_buf_size: request.recv_buf_size,
                flags: request.flags,
                port_handle: Some(port),
            }
            &&& trace.len() >= 2 <==> replies.create == 0
            &&& trace.len() >= 2 ==> trace[1] == KernelCall::InstallPort {
                ctx,
                port,
                id: HandleIdT { value: 23 },
            }
            &&& trace.len() >= 3 <==> published
            &&& trace.len() >= 3 ==> trace[2] == KernelCall::PublishPort { port }
            &&& trace.len() >= 4 <==> published && replies.publish != 0
            &&& trace.len() >= 4 ==> trace[3] == KernelCall::RemoveHandle {
                ctx,
                id: HandleIdT { value: 23 },
                port: None,
            }
            &&& 1 <= trace.len() <= 4
        }),
{
    law_port_trace(ctx, request, replies, port);
}

/// A port that could not be published has been taken out of the user context by the time its
/// creator learns of it: the removal precedes that error, and nothing else does.
pub proof fn law_unpublished_port_is_removed(step: PortStep, ret: i32, has_object: bool)
    ensures
        step is Publish && ret != NO_ERROR ==> step.after(ret, has_object) is Remove,
        step !is Done && step.after(ret, has_object) == PortStep::Done(
            Err(IpcError::PublishFailed),
        ) <==> step is Remove,
{
}

} // verus!
