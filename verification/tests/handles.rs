use rustipc::handle::touch;
use rustipc::{Handle, HandleRef, HandleT, IpcError};

#[test]
fn fresh_object_has_one_reference() {
    let object = HandleT::new();
    assert_eq!(object.refcnt, 1);
    assert_eq!(object.flags, 0);
    assert!(object.wait_event.is_none());
    assert!(object.cookie.is_none());
    assert!(!object.use_async);
}

fn object_with(refcnt: u32) -> HandleT {
    let mut object = HandleT::new();
    object.refcnt = refcnt;
    object.flags = 9;
    object.cookie = Some(5);
    object
}

#[test]
fn reference_is_counted_and_given_back() {
    let reference = Handle::new(Some(HandleT::new())).unwrap();
    assert_eq!(reference.object().refcnt, 2);
    assert_eq!(reference.release(), HandleT::new());
}

#[test]
fn references_balance() {
    for refcnt in [1, 2, 3, 1000, u32::MAX - 1] {
        let reference = Handle::new(Some(object_with(refcnt))).unwrap();
        assert_eq!(reference.object(), &object_with(refcnt + 1));
        assert_eq!(reference.release(), object_with(refcnt));
    }
}

#[test]
fn last_reference_stays() {
    let reference = Handle::new(Some(object_with(0))).unwrap();
    assert_eq!(reference.object().refcnt, 1);
    assert_eq!(reference.release(), object_with(1));
}

#[test]
fn count_comes_back_after_every_reference() {
    let mut object = object_with(3);
    for _ in 0..4 {
        let reference = Handle::new(Some(object)).unwrap();
        assert_eq!(reference.object().refcnt, 4);
        object = reference.release();
        assert_eq!(object.refcnt, 3);
    }
}

#[test]
fn reference_ends_with_its_scope() {
    let reference = Handle::new(Some(object_with(3))).unwrap();
    std::mem::drop(reference);
}

#[test]
fn nothing_to_refer_to() {
    assert_eq!(Handle::new(None), Err(IpcError::IsNone));
    let mut none = None;
    assert_eq!(touch(&mut none), Err(IpcError::IsNone));
    assert_eq!(none, None);
}

#[test]
fn touch_leaves_an_object_in_use_alone() {
    let mut handle = Some(HandleT::new());
    assert_eq!(touch(&mut handle), Ok(()));
    assert_eq!(handle, Some(HandleT::new()));
}

#[test]
fn touch_leaves_a_reference_to_an_object_that_had_none() {
    let mut object = HandleT::new();
    object.refcnt = 0;
    let mut handle = Some(object);
    assert_eq!(touch(&mut handle), Ok(()));
    assert_eq!(handle, Some(HandleT::new()));
}

#[test]
fn temporary_reference_points_at_its_own_parent() {
    let object = HandleT::new();
    let reference = HandleRef::temporary(&object);
    assert_eq!(reference.parent, Some(&object));
    assert_eq!(reference.handle, Some(&object));
    assert_eq!(reference.id, 1);
    assert_eq!(reference.emask, 0);
    assert_eq!(reference.cookie, None);
}
