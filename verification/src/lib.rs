//! Ports, channels and handles of a small inter-process communication layer.
//!
//! A server creates a port at a path with [`port_create`], and takes connections on it with
//! [`accept`](fn@accept). A client connects to the port with [`connect`](fn@connect). Each of
//! the three puts a request together, and then asks the services of the [`kernel`] one after the
//! other; a step type says, for whatever a service returns, what comes next.

pub mod accept;
pub mod connect;
pub mod context;
pub mod decimal;
pub mod error;
pub mod flags;
pub mod handle;
pub mod identity;
pub mod kernel;
pub mod path;
pub mod port;

pub use accept::accept;
pub use connect::connect;
pub use context::{current_uctx, UctxAddr, UctxT};
pub use error::IpcError;
pub use handle::{Handle, HandleIdT, HandleRef, HandleT};
pub use identity::Uuid;
pub use kernel::{
    handle_wait, ipc_port_accept, ipc_port_connect_async, ipc_port_create, ipc_port_publish,
    port_install, uctx_create, uctx_handle_get_tmp_ref, uctx_handle_install, uctx_handle_remove,
    Kernel,
};
pub use path::{str_len, strlcpy_from_user};
pub use port::port_create;
