use rustipc::context::{find_or_create_uctx, tls_key};
use rustipc::decimal::to_decimal;
use rustipc::flags::{IpcConnectState, IpcHandleState};
use rustipc::identity::{accept_uuid, connect_uuid, port_uuid};
use rustipc::{
    current_uctx, handle_wait, ipc_port_accept, ipc_port_connect_async, ipc_port_create,
    ipc_port_publish, port_install, uctx_create, uctx_handle_get_tmp_ref, uctx_handle_install,
    uctx_handle_remove, HandleIdT, HandleRef, HandleT, IpcError, Kernel, Uuid,
};

#[test]
fn identities_of_the_endpoints() {
    assert_eq!(
        port_uuid().bytes,
        [
            0xbd, 0x6a, 0x91, 0xb4, 0x9a, 0xec, 0x56, 0x18, 0xad, 0xb7, 0x54, 0xf0, 0xd0, 0xb8,
            0x05, 0xe8
        ]
    );
    assert_eq!(
        accept_uuid().bytes,
        [
            0xdb, 0x7b, 0x71, 0xe6, 0x3f, 0xbf, 0x52, 0x2b, 0x80, 0x59, 0x9f, 0xaa, 0xc6, 0xbc,
            0x1c, 0x33
        ]
    );
    assert_eq!(
        connect_uuid().bytes,
        [
            0x54, 0x0e, 0xf6, 0x65, 0xa6, 0x45, 0x54, 0x00, 0xbc, 0x52, 0x44, 0x5e, 0x4c, 0x05,
            0x73, 0x88
        ]
    );
}

#[test]
fn identity_of_another_name() {
    let expected = uuid::Uuid::new_v5(&uuid::Uuid::NAMESPACE_OID, b"example.org");
    let uuid = Uuid::of_name(b"example.org");
    assert_eq!(uuid.bytes, expected.into_bytes());
    assert_eq!(uuid.bytes[6] / 16, 5);
    assert_eq!(uuid.bytes[8] / 64, 2);
}

#[test]
fn contexts_are_filed_by_thread() {
    assert_eq!(tls_key("ThreadId(1)"), "uctx_tls_ThreadId(1)");
    assert_ne!(tls_key("ThreadId(1)"), tls_key("ThreadId(2)"));
    assert_eq!(current_uctx(&mut Kernel::new(), "ThreadId(1)"), 0);
}

#[test]
fn context_that_is_filed_is_found() {
    let mut kernel = Kernel::new();
    let mut tls = vstd::hash_map::StringHashMap::new();
    tls.insert(tls_key("a"), 77);
    tls.insert(tls_key("b"), 0);
    assert_eq!(find_or_create_uctx(&mut kernel, &mut tls, tls_key("a")), 77);
    assert_eq!(find_or_create_uctx(&mut kernel, &mut tls, tls_key("b")), 0);
    assert_eq!(find_or_create_uctx(&mut kernel, &mut tls, tls_key("c")), 0);
    assert_eq!(tls.get("uctx_tls_a"), Some(&77));
    assert_eq!(tls.get("uctx_tls_c"), Some(&0));
    assert_eq!(tls.len(), 3);
    assert_eq!(find_or_create_uctx(&mut kernel, &mut tls, tls_key("c")), 0);
    assert_eq!(find_or_create_uctx(&mut kernel, &mut tls, tls_key("a")), 77);
    assert_eq!(tls.len(), 3);
}

#[test]
fn services_succeed() {
    let object = HandleT::new();
    let id = HandleIdT { value: 23 };
    let uuid = Uuid { bytes: [1; 16] };
    let mut kernel = Kernel::new();
    let mut uctx = 5;
    assert_eq!(uctx_create(&mut kernel, Some(&mut uctx)), 0);
    assert_eq!(uctx, 5);
    let ctx = 0x1_0000_0000;
    let mut port = None;
    assert_eq!(ipc_port_create(&mut kernel, &uuid, Some(&[0]), 1, 1, 0, Some(&mut port)), 0);
    assert_eq!(port, None);
    assert_eq!(port_install(&mut kernel, ctx, Some(&object), &id), 0);
    assert_eq!(ipc_port_publish(&mut kernel, None), 0);
    assert_eq!(uctx_handle_remove(&mut kernel, ctx, &id, None), 0);
    assert_eq!(handle_wait(&mut kernel, Some(&object), 0, 1000), 0);
    assert_eq!(ipc_port_connect_async(&mut kernel, &uuid, Some(&[0]), 256, 0, None), 0);
    assert_eq!(ipc_port_accept(&mut kernel, None, None, uuid), 0);
    assert_eq!(uctx_handle_get_tmp_ref(&mut kernel, ctx, id, Some(&HandleRef::temporary(&object))), 0);
    assert_eq!(uctx_handle_install(&mut kernel, ctx, Some(&object), Some(&id)), 0);
}

#[test]
fn services_take_null_addresses() {
    let mut kernel = Kernel::new();
    let uuid = Uuid { bytes: [1; 16] };
    assert_eq!(uctx_create(&mut kernel, None), 0);
    assert_eq!(ipc_port_create(&mut kernel, &uuid, None, 1, 1, 0, None), 0);
    assert_eq!(ipc_port_connect_async(&mut kernel, &uuid, None, 256, 0, None), 0);
    assert_eq!(uctx_handle_get_tmp_ref(&mut kernel, 0, HandleIdT { value: 1 }, None), 0);
    assert_eq!(uctx_handle_install(&mut kernel, 0, None, None), 0);
}

#[test]
fn flag_words() {
    assert_eq!(IpcConnectState::IpcConnectWaitForPort.bits(), 1);
    assert_eq!(IpcConnectState::IpcConnectAsync.bits(), 2);
    assert_eq!(
        IpcConnectState::IpcConnectMask.bits(),
        IpcConnectState::IpcConnectWaitForPort.bits() | IpcConnectState::IpcConnectAsync.bits()
    );
    assert_eq!(IpcHandleState::IpcHandlePollNone.bits(), 0);
    assert_eq!(IpcHandleState::IpcHandlePollReady.bits(), 1);
    assert_eq!(IpcHandleState::IpcHandlePollError.bits(), 2);
    assert_eq!(IpcHandleState::IpcHandlePollHup.bits(), 4);
    assert_eq!(IpcHandleState::IpcHandlePollMsg.bits(), 8);
    assert_eq!(IpcHandleState::IpcHandlePollSendUnblocked.bits(), 16);
}

#[test]
fn error_messages() {
    assert_eq!(IpcError::IsNone.message(), "is none");
    assert_eq!(IpcError::BufferOverflow.message(), "Buffer overflow");
    assert_eq!(IpcError::AlreadyExists.message(), "already exists");
    assert_eq!(
        IpcError::PortCreateFailed(-12).message(),
        "ipc_port_create failed with error: -12"
    );
    assert_eq!(IpcError::PublishFailed.message(), "Failed to publish IPC port");
    assert_eq!(IpcError::InvalidArguments.message(), "invalid arguments");
    assert_eq!(IpcError::ChannelClosed.message(), "channel closed");
    assert_eq!(IpcError::NotReady.message(), "not ready");
}

#[test]
fn decimal_notation() {
    for n in [0, 7, 10, 99, 100, -1, -10, 2024, i32::MAX, i32::MIN] {
        assert_eq!(to_decimal(n), n.to_string());
    }
}
