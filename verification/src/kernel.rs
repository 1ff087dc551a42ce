//! The kernel's side of ports and channels.
//!
//! Every service succeeds, reads nothing and changes nothing. What remains of a call is its entry
//! in the log of the kernel. The log exists in proofs only: with it a contract can say which
//! services are asked, in which order and with which arguments.

use vstd::prelude::*;

use crate::context::{UctxAddr, UctxT};
use crate::handle::{HandleIdT, HandleRef, HandleT};
use crate::identity::Uuid;

verus! {

/// The code of a service that succeeded.
pub const NO_ERROR: i32 = 0;

/// The code of a wait that ended without an event.
pub const ERR_TIMED_OUT: i32 = -3;

/// The timeout, in milliseconds, of the first wait of a connect request.
pub const DEFAULT_IPC_CONNECT_WARN_TIMEOUT: i32 = 1000;

/// The timeout, in milliseconds, of the wait that follows one that timed out.
pub const INFINITE_TIME: i32 = 1000;

/// A call of a service, with what was behind each argument when the call was made. An argument
/// that may be the null address is `None` there.
pub enum KernelCall {
    /// A call of `uctx_create`.
    CreateContext { slot: Option<UctxT> },
    /// A call of `ipc_port_create`.
    CreatePort {
        uuid: Seq<u8>,
        path: Option<Seq<i8>>,
        num_recv_bufs: u32,
        recv_buf_size: u32,
        flags: u32,
        port_handle: Option<Option<HandleT>>,
    },
    /// A call of `port_install`.
    InstallPort { ctx: UctxAddr, port: Option<HandleT>, id: HandleIdT },
    /// A call of `ipc_port_publish`.
    PublishPort { port: Option<HandleT> },
    /// A call of `uctx_handle_remove`.
    RemoveHandle { ctx: UctxAddr, id: HandleIdT, port: Option<HandleT> },
    /// A call of `handle_wait`.
    Wait { handle: Option<HandleT>, event: usize, timeout: i32 },
    /// A call of `ipc_port_connect_async`.
    Connect {
        uuid: Seq<u8>,
        path: Option<Seq<i8>>,
        max_path: u32,
        flags: u32,
        channel: Option<HandleT>,
    },
    /// A call of `ipc_port_accept`.
    Accept { port: Option<HandleT>, channel: Option<HandleT>, uuid: Seq<u8> },
    /// A call of `uctx_handle_get_tmp_ref`.
    Lookup { ctx: UctxAddr, id: HandleIdT, reference: Option<ReferenceModel> },
    /// A call of `uctx_handle_install`.
    InstallHandle { ctx: UctxAddr, handle: Option<HandleT>, channel_id: Option<HandleIdT> },
}

/// A reference in the table of a user context, with the objects themselves in it.
pub struct ReferenceModel {
    pub parent: Option<HandleT>,
    pub handle: Option<HandleT>,
    pub id: u32,
    pub emask: u32,
    pub cookie: Option<usize>,
}

/// What is at an address that may be null.
pub open spec fn at<T>(address: Option<&T>) -> Option<T> {
    match address {
        Some(value) => Some(*value),
        None => None,
    }
}

/// The bytes at an address that may be null.
pub open spec fn bytes_at(address: Option<&[i8]>) -> Option<Seq<i8>> {
    match address {
        Some(memory) => Some(memory@),
        None => None,
    }
}

/// The reference at an address that may be null.
pub open spec fn reference_at(address: Option<&HandleRef>) -> Option<ReferenceModel> {
    match address {
        Some(reference) => Some(
            ReferenceModel {
                parent: at(reference.parent),
                handle: at(reference.handle),
                id: reference.id,
                emask: reference.emask,
                cookie: reference.cookie,
            },
        ),
        None => None,
    }
}

/// The log holds what is behind an address, unchanged, and tells the null address from all others.
pub proof fn law_log_keeps_what_is_behind<T>(value: &T, memory: &[i8], reference: &HandleRef)
    ensures
        at(Some(value)) == Some(*value),
        at::<T>(None) is None,
        bytes_at(Some(memory)) == Some(memory@),
        bytes_at(None) is None,
        reference_at(None) is None,
        reference_at(Some(reference)) is Some,
        reference_at(Some(reference))->0.parent is Some <==> reference.parent is Some,
        reference.parent is Some ==> reference_at(Some(reference))->0.parent == Some(
            *reference.parent->0,
        ),
        reference_at(Some(reference))->0.handle is Some <==> reference.handle is Some,
        reference.handle is Some ==> reference_at(Some(reference))->0.handle == Some(
            *reference.handle->0,
        ),
        reference_at(Some(reference))->0.id == reference.id,
        reference_at(Some(reference))->0.emask == reference.emask,
        reference_at(Some(reference))->0.cookie == reference.cookie,
{
}

/// The kernel. Its view is the log of the calls that were made so far; only a call of a service
/// adds to the log.
pub struct Kernel {
    log: Ghost<Seq<KernelCall>>,
}

impl View for Kernel {
    type V = Seq<KernelCall>;

    closed spec fn view(&self) -> Seq<KernelCall> {
        self.log@
    }
}

impl Kernel {
    /// A kernel that was not asked for anything yet.
    pub fn new() -> (kernel: Kernel)
        ensures
            kernel@ == Seq::<KernelCall>::empty(),
    {
        Kernel { log: Ghost(Seq::empty()) }
    }
}

/// Creates a port; the handle of the port goes to `port_handle`.
pub fn ipc_port_create(
    kernel: &mut Kernel,
    uuid: &Uuid,
    path: Option<&[i8]>,
    num_recv_bufs: u32,
    recv_buf_size: u32,
    flags: u32,
    port_handle: Option<&mut Option<HandleT>>,
) -> (ret: i32)
    ensures
        ret == NO_ERROR,
        port_handle is Some ==> *final(port_handle->0) == *port_handle->0,
        final(kernel)@ == old(kernel)@.push(
            KernelCall::CreatePort {
                uuid: uuid.bytes@,
                path: bytes_at(path),
                num_recv_bufs,
                recv_buf_size,
                flags,
                port_handle: match port_handle {
                    Some(handle) => Some(*handle),
                    None => None,
                },
            },
        ),
{
    proof {
        kernel.log@ = kernel.log@.push(
            KernelCall::CreatePort {
                uuid: uuid.bytes@,
                path: bytes_at(path),
                num_recv_bufs,
                recv_buf_size,
                flags,
                port_handle: match port_handle {
                    Some(handle) => Some(*handle),
                    None => None,
                },
            },
        );
    }
    NO_ERROR
}

/// Creates a user context.
pub fn uctx_create(kernel: &mut Kernel, ctx: Option<&mut UctxT>) -> (ret: u32)
    ensures
        ret == 0,
        ctx is Some ==> *final(ctx->0) == *ctx->0,
        final(kernel)@ == old(kernel)@.push(
            KernelCall::CreateContext {
                slot: match ctx {
                    Some(uctx) => Some(*uctx),
                    None => None,
                },
            },
        ),
{
    proof {
        kernel.log@ = kernel.log@.push(
            KernelCall::CreateContext {
                slot: match ctx {
                    Some(uctx) => Some(*uctx),
                    None => None,
                },
            },
        );
    }
    0
}

/// Makes a port known to a user context.
pub fn port_install(
    kernel: &mut Kernel,
    ctx: UctxAddr,
    port_handle: Option<&HandleT>,
    handle_id: &HandleIdT,
) -> (ret: i32)
    ensures
        ret == NO_ERROR,
        final(kernel)@ == old(kernel)@.push(
            KernelCall::InstallPort { ctx, port: at(port_handle), id: *handle_id },
        ),
{
    proof {
        kernel.log@ = kernel.log@.push(
            KernelCall::InstallPort { ctx, port: at(port_handle), id: *handle_id },
        );
    }
    NO_ERROR
}

/// Opens a port for connections.
pub fn ipc_port_publish(kernel: &mut Kernel, port_handle: Option<&HandleT>) -> (ret: i32)
    ensures
        ret == NO_ERROR,
        final(kernel)@ == old(kernel)@.push(KernelCall::PublishPort { port: at(port_handle) }),
{
    proof {
        kernel.log@ = kernel.log@.push(KernelCall::PublishPort { port: at(port_handle) });
    }
    NO_ERROR
}

/// Takes a handle out of a user context.
pub fn uctx_handle_remove(
    kernel: &mut Kernel,
    ctx: UctxAddr,
    handle_id: &HandleIdT,
    port_handle: Option<&HandleT>,
) -> (ret: i32)
    ensures
        ret == NO_ERROR,
        final(kernel)@ == old(kernel)@.push(
            KernelCall::RemoveHandle { ctx, id: *handle_id, port: at(port_handle) },
        ),
{
    proof {
        kernel.log@ = kernel.log@.push(
            KernelCall::RemoveHandle { ctx, id: *handle_id, port: at(port_handle) },
        );
    }
    NO_ERROR
}

/// Waits for an event of a handle.
pub fn handle_wait(
    kernel: &mut Kernel,
    handle: Option<&HandleT>,
    handle_event: usize,
    timeout: i32,
) -> (ret: i32)
    ensures
        ret == NO_ERROR,
        final(kernel)@ == old(kernel)@.push(
            KernelCall::Wait { handle: at(handle), event: handle_event, timeout },
        ),
{
    proof {
        kernel.log@ = kernel.log@.push(
            KernelCall::Wait { handle: at(handle), event: handle_event, timeout },
        );
    }
    NO_ERROR
}

/// Starts to connect to the port at a path.
pub fn ipc_port_connect_async(
    kernel: &mut Kernel,
    cid: &Uuid,
    path: Option<&[i8]>,
    max_path: u32,
    flags: u32,
    chandle: Option<&HandleT>,
) -> (ret: i32)
    ensures
        ret == NO_ERROR,
        final(kernel)@ == old(kernel)@.push(
            KernelCall::Connect {
                uuid: cid.bytes@,
                path: bytes_at(path),
                max_path,
                flags,
                channel: at(chandle),
            },
        ),
{
    proof {
        kernel.log@ = kernel.log@.push(
            KernelCall::Connect {
                uuid: cid.bytes@,
                path: bytes_at(path),
                max_path,
                flags,
                channel: at(chandle),
            },
        );
    }
    NO_ERROR
}

/// Accepts a connection on a port.
pub fn ipc_port_accept(
    kernel: &mut Kernel,
    phandle: Option<&HandleT>,
    chandle: Option<&HandleT>,
    uuid: Uuid,
) -> (ret: i32)
    ensures
        ret == NO_ERROR,
        final(kernel)@ == old(kernel)@.push(
            KernelCall::Accept { port: at(phandle), channel: at(chandle), uuid: uuid.bytes@ },
        ),
{
    proof {
        kernel.log@ = kernel.log@.push(
            KernelCall::Accept { port: at(phandle), channel: at(chandle), uuid: uuid.bytes@ },
        );
    }
    NO_ERROR
}

/// Looks a handle up in a user context.
pub fn uctx_handle_get_tmp_ref(
    kernel: &mut Kernel,
    ctx: UctxAddr,
    handle_id: HandleIdT,
    out: Option<&HandleRef>,
) -> (ret: i32)
    ensures
        ret == NO_ERROR,
        final(kernel)@ == old(kernel)@.push(
            KernelCall::Lookup { ctx, id: handle_id, reference: reference_at(out) },
        ),
{
    proof {
        kernel.log@ = kernel.log@.push(
            KernelCall::Lookup { ctx, id: handle_id, reference: reference_at(out) },
        );
    }
    NO_ERROR
}

/// Makes a channel known to a user context.
pub fn uctx_handle_install(
    kernel: &mut Kernel,
    ctx: UctxAddr,
    handle: Option<&HandleT>,
    id: Option<&HandleIdT>,
) -> (ret: i32)
    ensures
        ret == NO_ERROR,
        final(kernel)@ == old(kernel)@.push(
            KernelCall::InstallHandle { ctx, handle: at(handle), channel_id: at(id) },
        ),
{
    proof {
        kernel.log@ = kernel.log@.push(
            KernelCall::InstallHandle { ctx, handle: at(handle), channel_id: at(id) },
        );
    }
    NO_ERROR
}

} // verus!
