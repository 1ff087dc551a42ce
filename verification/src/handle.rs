//! Kernel handles, the references counted on them, and their identifiers.

use vstd::prelude::*;

use crate::error::IpcError;

verus! {

/// An event that a handle can wait for.
#[derive(Debug, PartialEq, Eq)]
pub struct Event {}

/// A kernel object.
#[derive(Debug, PartialEq, Eq)]
pub struct HandleT {
    /// How many references there are to the object.
    pub refcnt: u32,
    pub flags: u32,
    /// The event that is waited for, if any.
    pub wait_event: Option<Event>,
    /// What the owner of the object attached to it, if anything.
    pub cookie: Option<u64>,
    pub use_async: bool,
}

impl HandleT {
    /// An object that is in use: it has a reference.
    pub open spec fn wf(&self) -> bool {
        self.refcnt >= 1
    }

    /// The same object with one reference more.
    pub open spec fn retained(self) -> HandleT {
        HandleT { refcnt: (self.refcnt + 1) as u32, ..self }
    }

    /// The same object with one reference less, but for the last one, which stays.
    pub open spec fn released(self) -> HandleT {
        if self.refcnt == 1 {
            self
        } else {
            HandleT { refcnt: (self.refcnt - 1) as u32, ..self }
        }
    }

    /// A fresh object: one reference, no flags, nothing attached and nothing waited for.
    pub fn new() -> (handle: HandleT)
        ensures
            handle.wf(),
            handle == (HandleT {
                refcnt: 1,
                flags: 0,
                wait_event: None,
                cookie: None,
                use_async: false,
            }),
    {
        HandleT { refcnt: 1, flags: 0, wait_event: None, cookie: None, use_async: false }
    }
}

/// A counted reference to a kernel object, which it owns while it lasts. Its view is the object,
/// whose count includes this reference.
///
/// The reference is given back exactly once: when the `Handle` leaves its scope, which ends the
/// object too, or when [`Handle::release`] takes it and hands the object back.
#[derive(Debug, PartialEq, Eq)]
pub struct Handle {
    handle: HandleT,
}

impl View for Handle {
    type V = HandleT;

    closed spec fn view(&self) -> HandleT {
        self.handle
    }
}

impl Handle {
    /// The object's count includes this reference.
    #[verifier::type_invariant]
    spec fn inv(self) -> bool {
        self.handle.wf()
    }

    /// Takes a reference to an object, if there is one.
    pub fn new(new_handle: Option<HandleT>) -> (result: Result<Handle, IpcError>)
        requires
            can_touch(new_handle),
        ensures
            match new_handle {
                Some(object) => result is Ok && result->Ok_0@ == object.retained(),
                None => result == Err::<Handle, IpcError>(IpcError::IsNone),
            },
            new_handle is Some ==> result->Ok_0@.refcnt == new_handle->0.refcnt + 1,
            new_handle is Some ==> result->Ok_0@ == (HandleT {
                refcnt: result->Ok_0@.refcnt,
                ..new_handle->0
            }),
    {
        match new_handle {
            None => Err(IpcError::IsNone),
            Some(object) => {
                let mut handle = object;
                handle.refcnt = handle.refcnt + 1;
                Ok(Handle { handle })
            },
        }
    }

    /// The object that is referred to.
    pub fn object(&self) -> (object: &HandleT)
        ensures
            *object == self@,
            object.wf(),
    {
        proof {
            use_type_invariant(self);
        }
        &self.handle
    }

    /// Takes this reference off the count: it goes down by one, unless this is the last reference.
    fn give_back(&mut self)
        ensures
            final(self)@ == old(self)@.released(),
            old(self)@.refcnt >= 1,
            final(self)@.refcnt == (if old(self)@.refcnt > 1 { old(self)@.refcnt - 1 } else { 1 }),
            final(self)@ == (HandleT { refcnt: final(self)@.refcnt, ..old(self)@ }),
        opens_invariants none
        no_unwind
    {
        proof {
            use_type_invariant(&*self);
        }
        if self.handle.refcnt != 1 {
            self.handle.refcnt = self.handle.refcnt - 1;
        }
    }

    /// Gives the reference back and hands the object out.
    pub fn release(self) -> (object: HandleT)
        ensures
            object == self@.released(),
            object.wf(),
            self@.refcnt >= 1,
            object.refcnt == (if self@.refcnt > 1 { self@.refcnt - 1 } else { 1 }),
            object == (HandleT { refcnt: object.refcnt, ..self@ }),
    {
        let mut reference = self;
        reference.give_back();
        proof {
            use_type_invariant(&reference);
        }
        // What is left in `reference` when it leaves its scope is a fresh object.
        let mut object = HandleT::new();
        std::mem::swap(&mut reference.handle, &mut object);
        object
    }
}

impl Drop for Handle {
    /// Gives the reference back at the end of the scope.
    fn drop(&mut self)
        ensures
            final(self)@ == old(self)@.released(),
            old(self)@.refcnt >= 1,
            final(self)@.refcnt == (if old(self)@.refcnt > 1 { old(self)@.refcnt - 1 } else { 1 }),
            final(self)@ == (HandleT { refcnt: final(self)@.refcnt, ..old(self)@ }),
        opens_invariants none
        no_unwind
    {
        self.give_back();
    }
}

/// The object, if there is one, is in use.
pub open spec fn in_use(handle: Option<HandleT>) -> bool {
    handle is Some ==> handle->0.wf()
}

/// A reference to the object, if there is one, can still be counted.
pub open spec fn can_touch(handle: Option<HandleT>) -> bool {
    handle is Some ==> handle->0.refcnt < u32::MAX
}

/// The object, if there is one, after a reference to it was taken and given back.
pub open spec fn touched(handle: Option<HandleT>) -> Option<HandleT> {
    match handle {
        Some(object) => Some(object.retained().released()),
        None => None,
    }
}

/// Takes a reference to the object behind `handle` and gives it back at once. Without an object
/// there is nothing to refer to, which is an error.
pub fn touch(handle: &mut Option<HandleT>) -> (result: Result<(), IpcError>)
    requires
        can_touch(*old(handle)),
    ensures
        result == (if *old(handle) is Some { Ok(()) } else { Err(IpcError::IsNone) }),
        *final(handle) == touched(*old(handle)),
        in_use(*old(handle)) ==> *final(handle) == *old(handle),
        *old(handle) is None ==> *final(handle) is None,
        *old(handle) is Some && old(handle)->0.refcnt >= 1 ==> *final(handle) == *old(handle),
        *old(handle) is Some && old(handle)->0.refcnt == 0 ==> *final(handle) == Some(
            HandleT { refcnt: 1, ..old(handle)->0 },
        ),
{
    match Handle::new(handle.take()) {
        Err(error) => Err(error),
        Ok(reference) => {
            *handle = Some(reference.release());
            Ok(())
        },
    }
}

/// A reference to an object in the table of a user context.
#[derive(Debug)]
pub struct HandleRef<'a> {
    pub parent: Option<&'a HandleT>,
    pub handle: Option<&'a HandleT>,
    pub id: u32,
    /// The events that are of interest.
    pub emask: u32,
    /// The address of what the owner of the reference attached to it, if anything.
    pub cookie: Option<usize>,
}

impl<'a> HandleRef<'a> {
    /// A temporary reference to an object that is its own parent.
    pub fn temporary(object: &'a HandleT) -> (reference: HandleRef<'a>)
        ensures
            reference == (HandleRef {
                parent: Some(object),
                handle: Some(object),
                id: 1,
                emask: 0,
                cookie: None,
            }),
    {
        HandleRef { parent: Some(object), handle: Some(object), id: 1, emask: 0, cookie: None }
    }
}

/// What a user context knows a handle by.
#[derive(Clone, Copy, Debug, PartialEq, Eq, Structural)]
pub struct HandleIdT {
    pub value: usize,
}

/// The object after `n` references were taken.
pub open spec fn retained_times(object: HandleT, n: nat) -> HandleT
    decreases n,
{
    if n == 0 {
        object
    } else {
        retained_times(object, (n - 1) as nat).retained()
    }
}

/// The object after `n` references were given back.
pub open spec fn released_times(object: HandleT, n: nat) -> HandleT
    decreases n,
{
    if n == 0 {
        object
    } else {
        released_times(object.released(), (n - 1) as nat)
    }
}

/// References that are taken and given back leave an object in use as it was.
pub proof fn law_references_balance(object: HandleT, n: nat)
    requires
        object.wf(),
        object.refcnt + n <= u32::MAX,
    ensures
        released_times(retained_times(object, n), n) == object,
        retained_times(object, n).refcnt == object.refcnt + n,
    decreases n,
{
    if n > 0 {
        law_references_balance(object, (n - 1) as nat);
    }
}

/// What can happen to the references to an object.
pub enum RefOp {
    /// A reference is taken.
    Take,
    /// A reference is given back.
    Give,
}

/// How many of the references taken in a history, the latest entry last, are still held. Where
/// none is held there is none to give back, and an entry that says so stands for nothing.
pub open spec fn held(history: Seq<RefOp>) -> nat
    decreases history.len(),
{
    if history.len() == 0 {
        0
    } else {
        let before = held(history.drop_last());
        match history.last() {
            RefOp::Take => before + 1,
            RefOp::Give => if before == 0 {
                0
            } else {
                (before - 1) as nat
            },
        }
    }
}

/// The object after a history of references taken and given back.
pub open spec fn after_history(object: HandleT, history: Seq<RefOp>) -> HandleT
    decreases history.len(),
{
    if history.len() == 0 {
        object
    } else {
        let before = after_history(object, history.drop_last());
        match history.last() {
            RefOp::Take => before.retained(),
            RefOp::Give => if held(history.drop_last()) == 0 {
                before
            } else {
                before.released()
            },
        }
    }
}

/// At no point of the history does the count of the object run over.
pub open spec fn countable(object: HandleT, history: Seq<RefOp>) -> bool {
    forall|n: int|
        0 <= n <= history.len() ==> object.refcnt + #[trigger] held(history.take(n)) <= u32::MAX
}

/// After any history, the count of an object in use is what it was at first plus the references
/// still held, and nothing else about the object has changed. So the count of a fresh object is
/// one plus those.
pub proof fn law_count_is_references_held(object: HandleT, history: Seq<RefOp>)
    requires
        object.wf(),
        countable(object, history),
    ensures
        after_history(object, history).refcnt == object.refcnt + held(history),
        after_history(object, history) == (HandleT {
            refcnt: (object.refcnt + held(history)) as u32,
            ..object
        }),
    decreases history.len(),
{
    let all = history.len() as int;
    assert(history.take(all) =~= history);
    assert(object.refcnt + held(history.take(all)) <= u32::MAX);
    if history.len() > 0 {
        let before = history.drop_last();
        assert forall|n: int| 0 <= n <= before.len() implies object.refcnt + #[trigger] held(
            before.take(n),
        ) <= u32::MAX by {
            assert(before.take(n) =~= history.take(n));
        }
        law_count_is_references_held(object, before);
    }
}

/// An object in use is as it was after a reference to it was taken and given back.
pub proof fn law_touch_changes_nothing(handle: Option<HandleT>)
    requires
        in_use(handle),
        can_touch(handle),
    ensures
        touched(handle) == handle,
{
}

/// A reference to an object can be taken as long as the count has room for one more, and a count
/// of zero is the only one of an object that is not in use.
pub proof fn law_reference_needs_room_in_the_count(object: HandleT)
    ensures
        can_touch(Some(object)) <==> object.refcnt + 1 <= u32::MAX,
        can_touch(None),
        in_use(Some(object)) <==> object.refcnt != 0,
        in_use(None),
{
}

/// However many references are given back, an object in use keeps at least one.
pub proof fn law_last_reference_stays(object: HandleT, n: nat)
    requires
        object.wf(),
    ensures
        released_times(object, n).wf(),
        n >= object.refcnt ==> released_times(object, n).refcnt == 1,
    decreases n,
{
    if n > 0 {
        law_last_reference_stays(object.released(), (n - 1) as nat);
    }
}

} // verus!
