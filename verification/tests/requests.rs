use rustipc::accept::{accept_as, lookup_port, AcceptStep, LookupReport};
use rustipc::connect::{connect_request, submit_connect_request, ConnectStep};
use rustipc::port::{port_request, submit_port_request, PortStep};
use rustipc::{accept, connect, port_create, HandleIdT, HandleT, IpcError, Kernel};

const THREAD: &str = "ThreadId(1)";

fn user(text: &str) -> Vec<i8> {
    let mut memory: Vec<i8> = text.bytes().map(|b| b as i8).collect();
    memory.push(0);
    memory
}

fn uuid_of(name: &[u8]) -> [u8; 16] {
    uuid::Uuid::new_v5(&uuid::Uuid::NAMESPACE_OID, name).into_bytes()
}

#[test]
fn server_and_client_meet() {
    let mut kernel = Kernel::new();
    let path = user("/tmp/ipc");
    let id = port_create(&mut kernel, THREAD, Some(&path), 10, 1024, 0).unwrap();
    assert_eq!(id, 23);
    let (lookup, channel) = accept(&mut kernel, THREAD, HandleIdT { value: id }, 0);
    assert_eq!(lookup, LookupReport::Found);
    assert_eq!(channel, Ok(42));
    assert_eq!(connect(&mut kernel, THREAD, Some(&path), 0), Ok(23));
}

#[test]
fn path_without_room_is_refused() {
    let fits = user(&"p".repeat(255));
    let too_long = user(&"p".repeat(256));
    assert_eq!(port_create(&mut Kernel::new(), THREAD, Some(&fits), 1, 1, 0), Ok(23));
    assert_eq!(
        port_create(&mut Kernel::new(), THREAD, Some(&too_long), 1, 1, 0),
        Err(IpcError::BufferOverflow)
    );
    assert_eq!(connect(&mut Kernel::new(), THREAD, Some(&fits), 0), Ok(23));
    assert_eq!(connect(&mut Kernel::new(), THREAD, Some(&too_long), 0), Err(IpcError::BufferOverflow));
}

#[test]
fn null_path_is_an_empty_path() {
    assert_eq!(port_create(&mut Kernel::new(), THREAD, None, 1, 1, 0), Ok(23));
    assert_eq!(connect(&mut Kernel::new(), THREAD, None, 0), Ok(23));
}

#[test]
fn connect_options_are_refused() {
    let path = user("/tmp/ipc");
    for flags in [1, 2, 3, 5, 6, 7] {
        assert_eq!(connect(&mut Kernel::new(), THREAD, Some(&path), flags), Err(IpcError::InvalidArguments));
    }
    for flags in [4, 8, 0xffff_fffc] {
        assert_eq!(connect(&mut Kernel::new(), THREAD, Some(&path), flags), Ok(23));
    }
    // The flags come first.
    assert_eq!(
        connect(&mut Kernel::new(), THREAD, Some(&user(&"p".repeat(300))), 1),
        Err(IpcError::InvalidArguments)
    );
}

#[test]
fn port_request_carries_its_arguments() {
    let request = port_request(Some(&user("/a")), 10, 1024, 7).unwrap();
    assert_eq!(request.uuid.bytes, uuid_of(b"q-pid"));
    assert_eq!(&request.path[..3], &[47, 97, 0]);
    assert_eq!(request.num_recv_bufs, 10);
    assert_eq!(request.recv_buf_size, 1024);
    assert_eq!(request.flags, 7);
    assert_eq!(submit_port_request(&mut Kernel::new(), 0, &request), Ok(23));
}

#[test]
fn connect_request_carries_its_arguments() {
    let mut request = connect_request(Some(&user("/b")), 4).unwrap();
    assert_eq!(request.uuid.bytes, uuid_of(b"r-pid"));
    assert_eq!(&request.path[..3], &[47, 98, 0]);
    assert_eq!(request.flags, 4);
    assert_eq!(submit_connect_request(&mut Kernel::new(), 0, &request), Ok(23));
    request.flags = 2;
    assert_eq!(submit_connect_request(&mut Kernel::new(), 0, &request), Ok(23));
}

#[test]
fn accept_under_any_identity() {
    assert_eq!(lookup_port(&mut Kernel::new(), 0, HandleIdT { value: 5 }), Ok(0));
    assert_eq!(accept_as(&mut Kernel::new(), 0, rustipc::Uuid { bytes: [0; 16] }), Ok(42));
}

#[test]
fn lookup_reports() {
    assert_eq!(LookupReport::of(Err(IpcError::IsNone)), LookupReport::Failed);
    assert_eq!(LookupReport::of(Ok(-2)), LookupReport::Code(-2));
    assert_eq!(LookupReport::of(Ok(0)), LookupReport::Found);
    assert_eq!(LookupReport::Failed.message(), "An error occurred.");
    assert_eq!(LookupReport::Code(-2).message(), "Result is not NO_ERROR, got: -2");
    assert_eq!(LookupReport::Found.message(), "The handle with ID 23 has been found ");
}

#[test]
fn port_steps_without_an_object() {
    let mut none: Option<HandleT> = None;
    assert_eq!(PortStep::Create.next(0, &mut none), PortStep::Install);
    assert_eq!(
        PortStep::Create.next(-7, &mut none),
        PortStep::Done(Err(IpcError::PortCreateFailed(-7)))
    );
    assert_eq!(PortStep::Install.next(0, &mut none), PortStep::Publish);
    assert_eq!(PortStep::Install.next(1, &mut none), PortStep::Done(Err(IpcError::IsNone)));
    assert_eq!(PortStep::Publish.next(0, &mut none), PortStep::Done(Ok(23)));
    assert_eq!(PortStep::Done(Ok(23)).next(-1, &mut none), PortStep::Done(Ok(23)));
}

#[test]
fn refused_installation_of_a_port_with_an_object_is_passed_over() {
    let mut object = Some(HandleT::new());
    assert_eq!(PortStep::Install.next(-1, &mut object), PortStep::Publish);
    assert_eq!(object, Some(HandleT::new()));
}

#[test]
fn unpublished_port_is_removed() {
    let mut none: Option<HandleT> = None;
    let step = PortStep::Publish.next(-1, &mut none);
    assert_eq!(step, PortStep::Remove);
    for ret in [0, -9] {
        assert_eq!(step.next(ret, &mut none), PortStep::Done(Err(IpcError::PublishFailed)));
    }
}

#[test]
fn port_outcome_of_a_whole_run() {
    let mut object = Some(HandleT::new());
    let mut step = PortStep::Create;
    for ret in [0, 5, -1, 0] {
        step = step.next(ret, &mut object);
    }
    assert_eq!(step, PortStep::Done(Err(IpcError::PublishFailed)));
    assert_eq!(object, Some(HandleT::new()));
}

#[test]
fn accept_steps() {
    let mut none: Option<HandleT> = None;
    let mut object = Some(HandleT::new());
    assert_eq!(AcceptStep::Accept.next(0, &mut none), AcceptStep::Install);
    assert_eq!(AcceptStep::Accept.next(-4, &mut none), AcceptStep::Done(Err(IpcError::IsNone)));
    assert_eq!(AcceptStep::Accept.next(4, &mut object), AcceptStep::Done(Ok(4)));
    assert_eq!(AcceptStep::Install.next(0, &mut none), AcceptStep::Done(Ok(42)));
    assert_eq!(AcceptStep::Install.next(1, &mut none), AcceptStep::Done(Err(IpcError::IsNone)));
    assert_eq!(AcceptStep::Install.next(-1, &mut object), AcceptStep::Done(Ok(42)));
    assert_eq!(object, Some(HandleT::new()));
}

#[test]
fn refused_connection_hands_its_code_out() {
    let mut none: Option<HandleT> = None;
    assert_eq!(ConnectStep::Connect.next(9, 0, 0, &mut none), ConnectStep::Done(Ok(9)));
    assert_eq!(
        ConnectStep::Connect.next(-1, 0, 0, &mut none),
        ConnectStep::Done(Ok(u64::MAX))
    );
    assert_eq!(
        ConnectStep::Connect.next(i32::MIN, 0, 0, &mut none),
        ConnectStep::Done(Ok(0xffff_ffff_8000_0000))
    );
}

#[test]
fn only_the_asynchronous_option_waits() {
    let mut none: Option<HandleT> = None;
    assert_eq!(ConnectStep::Connect.next(0, 0, 0, &mut none), ConnectStep::Install);
    assert_eq!(ConnectStep::Connect.next(0, 1, 0, &mut none), ConnectStep::Install);
    assert_eq!(ConnectStep::Connect.next(0, 2, 0, &mut none), ConnectStep::Wait);
}

#[test]
fn wait_that_times_out_is_repeated_in_vain() {
    let mut none: Option<HandleT> = None;
    let step = ConnectStep::Wait.next(-3, 2, 0, &mut none);
    assert_eq!(step, ConnectStep::WaitAgain);
    assert_eq!(step.next(0, 2, 0, &mut none), ConnectStep::Done(Err(IpcError::IsNone)));
    assert_eq!(
        ConnectStep::Wait.next(-4, 2, 0, &mut none),
        ConnectStep::Done(Err(IpcError::IsNone))
    );
}

#[test]
fn events_after_a_wait() {
    let mut object = Some(HandleT::new());
    assert_eq!(
        ConnectStep::Wait.next(0, 2, 0x4 | 0x8, &mut object),
        ConnectStep::Done(Err(IpcError::ChannelClosed))
    );
    assert_eq!(
        ConnectStep::Wait.next(0, 2, 0x1 | 0x4 | 0x8, &mut object),
        ConnectStep::Done(Err(IpcError::ChannelClosed))
    );
    assert_eq!(
        ConnectStep::Wait.next(0, 2, 0x1 | 0x4, &mut object),
        ConnectStep::Done(Err(IpcError::NotReady))
    );
    for event in [0x0, 0x2, 0x4, 0x8, 0x10] {
        assert_eq!(ConnectStep::Wait.next(0, 2, event, &mut object), ConnectStep::Install);
    }
    assert_eq!(object, Some(HandleT::new()));
    let mut none: Option<HandleT> = None;
    assert_eq!(
        ConnectStep::Wait.next(0, 2, 0x1, &mut none),
        ConnectStep::Done(Err(IpcError::IsNone))
    );
}

#[test]
fn installation_of_a_channel() {
    let mut none: Option<HandleT> = None;
    let mut object = Some(HandleT::new());
    assert_eq!(ConnectStep::Install.next(0, 0, 0, &mut none), ConnectStep::Done(Ok(23)));
    assert_eq!(
        ConnectStep::Install.next(-6, 0, 0, &mut none),
        ConnectStep::Done(Err(IpcError::IsNone))
    );
    assert_eq!(ConnectStep::Install.next(6, 0, 0, &mut object), ConnectStep::Done(Ok(6)));
}

#[test]
fn steps_ask_their_services() {
    let mut kernel = Kernel::new();
    let mut object = Some(HandleT::new());
    let port = port_request(Some(&user("/a")), 10, 1024, 7).unwrap();
    for step in [PortStep::Create, PortStep::Install, PortStep::Publish, PortStep::Remove] {
        assert_eq!(step.ask(&mut kernel, 0, &port, &mut object), 0);
        assert_eq!(object, Some(HandleT::new()));
    }
    let channel = connect_request(Some(&user("/a")), 0).unwrap();
    for step in [
        ConnectStep::Connect,
        ConnectStep::Wait,
        ConnectStep::WaitAgain,
        ConnectStep::Install,
    ] {
        assert_eq!(step.ask(&mut kernel, 0, &channel, 0, &object), 0);
    }
    for step in [AcceptStep::Accept, AcceptStep::Install] {
        assert_eq!(step.ask(&mut kernel, 0, port.uuid, &None, &object), 0);
    }
}
