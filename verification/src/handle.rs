//! Handles on foreign objects and the reference-count accounting they owe.
//!
//! A handle never touches the foreign runtime itself. It says which
//! reference-count operation is due when it is made and when it is given up,
//! and whoever talks to the runtime performs that operation.

use vstd::prelude::*;

verus! {

/// The address that the foreign runtime uses for "no object".
pub const NIL: usize = 0;

/// How a handle relates to the reference it wraps.
#[derive(Clone, Copy, Debug, PartialEq, Eq, Structural)]
pub enum Ownership {
    /// The host held no reference: one is taken when the handle is made and
    /// given back when it is released.
    Retain,
    /// The host was already granted one reference: none is taken, and the
    /// granted one is given back on release.
    Adopt,
    /// The handle only looks at the object for the length of one call.
    Borrow,
}

/// One operation on a foreign object's reference count.
#[derive(Clone, Copy, Debug, PartialEq, Eq, Structural)]
pub enum RefAction {
    Increment,
    Decrement,
    Nothing,
}

/// Why a handle could not be made.
#[derive(Clone, Copy, Debug, PartialEq, Eq, Structural)]
pub enum HandleError {
    /// The address was the null sentinel.
    InvalidPointer,
}

/// The operation due when a handle of this mode is made.
pub open spec fn action_on_acquire(mode: Ownership) -> RefAction {
    match mode {
        Ownership::Retain => RefAction::Increment,
        Ownership::Adopt => RefAction::Nothing,
        Ownership::Borrow => RefAction::Nothing,
    }
}

/// The operation due when a handle of this mode is given up.
pub open spec fn action_on_release(mode: Ownership) -> RefAction {
    match mode {
        Ownership::Retain => RefAction::Decrement,
        Ownership::Adopt => RefAction::Decrement,
        Ownership::Borrow => RefAction::Nothing,
    }
}

/// The references that the host was granted before the handle was made.
pub open spec fn granted_before(mode: Ownership) -> int {
    match mode {
        Ownership::Adopt => 1,
        _ => 0,
    }
}

/// What an operation adds to a reference count.
pub open spec fn delta(action: RefAction) -> int {
    match action {
        RefAction::Increment => 1,
        RefAction::Decrement => -1,
        RefAction::Nothing => 0,
    }
}

/// The sum of what a run of operations adds to a reference count.
pub open spec fn net_delta(actions: Seq<RefAction>) -> int
    decreases actions.len(),
{
    if actions.len() == 0 {
        0
    } else {
        net_delta(actions.drop_last()) + delta(actions.last())
    }
}

/// Whether handles of this mode own a reference.
pub open spec fn owns(mode: Ownership) -> bool {
    mode != Ownership::Borrow
}

/// A non-null foreign object address together with its ownership mode.
///
/// The type is neither `Clone` nor `Copy`: the one value that holds an
/// acquired reference is the one that gives it back.
#[derive(Debug)]
pub struct ForeignHandle {
    ptr: usize,
    mode: Ownership,
}

impl ForeignHandle {
    #[verifier::type_invariant]
    spec fn non_null(&self) -> bool {
        self.ptr != NIL
    }

    /// The address of the foreign object.
    pub closed spec fn address(&self) -> usize {
        self.ptr
    }

    /// The ownership mode of the handle.
    pub closed spec fn ownership(&self) -> Ownership {
        self.mode
    }

    fn wrap(ptr: usize, mode: Ownership) -> (made: Result<ForeignHandle, HandleError>)
        ensures
            made is Ok <==> ptr != NIL,
            made matches Ok(handle) ==> handle.address() == ptr && handle.ownership() == mode,
            made matches Err(e) ==> e == HandleError::InvalidPointer,
    {
        if ptr == NIL {
            Err(HandleError::InvalidPointer)
        } else {
            Ok(ForeignHandle { ptr, mode })
        }
    }

    /// Wraps an object to which the host holds no reference yet. The handle
    /// owes one increment now and one decrement on release.
    pub fn from_owned_retain(ptr: usize) -> (made: Result<ForeignHandle, HandleError>)
        ensures
            made is Ok <==> ptr != NIL,
            made matches Ok(handle) ==> handle.address() == ptr && handle.ownership()
                == Ownership::Retain,
            made matches Err(e) ==> e == HandleError::InvalidPointer,
    {
        ForeignHandle::wrap(ptr, Ownership::Retain)
    }

    /// Wraps an object of which the host was granted one reference. The
    /// handle owes no increment, and one decrement on release.
    pub fn from_owned_adopt(ptr: usize) -> (made: Result<ForeignHandle, HandleError>)
        ensures
            made is Ok <==> ptr != NIL,
            made matches Ok(handle) ==> handle.address() == ptr && handle.ownership()
                == Ownership::Adopt,
            made matches Err(e) ==> e == HandleError::InvalidPointer,
    {
        ForeignHandle::wrap(ptr, Ownership::Adopt)
    }

    /// Wraps an object for the length of the call that produced its address.
    /// The handle owes nothing, now or later.
    pub fn borrow(ptr: usize) -> (made: Result<ForeignHandle, HandleError>)
        ensures
            made is Ok <==> ptr != NIL,
            made matches Ok(handle) ==> handle.address() == ptr && handle.ownership()
                == Ownership::Borrow,
            made matches Err(e) ==> e == HandleError::InvalidPointer,
    {
        ForeignHandle::wrap(ptr, Ownership::Borrow)
    }

    /// The address of the foreign object, never the null sentinel.
    pub fn as_ptr(&self) -> (ptr: usize)
        ensures
            ptr == self.address(),
            ptr != NIL,
    {
        proof {
            use_type_invariant(self);
        }
        self.ptr
    }

    /// The ownership mode of the handle.
    pub fn mode(&self) -> (mode: Ownership)
        ensures
            mode == self.ownership(),
    {
        self.mode
    }

    /// Whether the handle owns a reference.
    pub fn is_owning(&self) -> (owning: bool)
        ensures
            owning == owns(self.ownership()),
    {
        match self.mode {
            Ownership::Borrow => false,
            _ => true,
        }
    }

    /// The operation that making this handle owes to the foreign object.
    pub fn acquire(&self) -> (action: RefAction)
        ensures
            action == action_on_acquire(self.ownership()),
    {
        match self.mode {
            Ownership::Retain => RefAction::Increment,
            _ => RefAction::Nothing,
        }
    }

    /// Gives the handle up. The result is the object's address and the one
    /// operation that is owed to it; the handle is gone, so nothing can owe
    /// that operation a second time.
    pub fn release(self) -> (due: (usize, RefAction))
        ensures
            due.0 == self.address(),
            due.0 != NIL,
            due.1 == action_on_release(self.ownership()),
    {
        proof {
            use_type_invariant(&self);
        }
        let action = match self.mode {
            Ownership::Borrow => RefAction::Nothing,
            _ => RefAction::Decrement,
        };
        (self.ptr, action)
    }
}

/// Over the life of an owning handle the increments, the granted reference
/// counted as one, are as many as the decrements: one each. What
/// [`ForeignHandle::acquire`] and [`ForeignHandle::release`] ask for leaves
/// the host with no reference and the foreign object with none too many.
pub proof fn lemma_owning_handle_balanced(handle: ForeignHandle)
    requires
        owns(handle.ownership()),
    ensures
        granted_before(handle.ownership()) + delta(action_on_acquire(handle.ownership())) == 1,
        delta(action_on_release(handle.ownership())) == -1,
        granted_before(handle.ownership()) + net_delta(
            seq![action_on_acquire(handle.ownership()), action_on_release(handle.ownership())],
        ) == 0,
{
    lemma_net_delta_of_life(handle.ownership());
}

/// A borrowing handle never changes a reference count.
pub proof fn lemma_borrowing_handle_silent(handle: ForeignHandle)
    requires
        !owns(handle.ownership()),
    ensures
        action_on_acquire(handle.ownership()) == RefAction::Nothing,
        action_on_release(handle.ownership()) == RefAction::Nothing,
        net_delta(
            seq![action_on_acquire(handle.ownership()), action_on_release(handle.ownership())],
        ) == 0,
{
    lemma_net_delta_of_life(handle.ownership());
}

/// What the two operations of a handle's life add to a reference count.
pub proof fn lemma_net_delta_of_life(mode: Ownership)
    ensures
        net_delta(seq![action_on_acquire(mode), action_on_release(mode)]) == delta(
            action_on_acquire(mode),
        ) + delta(action_on_release(mode)),
{
    let life = seq![action_on_acquire(mode), action_on_release(mode)];
    assert(life.drop_last() =~= seq![action_on_acquire(mode)]);
    assert(life.drop_last().drop_last() =~= Seq::<RefAction>::empty());
    assert(net_delta(life.drop_last().drop_last()) == 0);
    assert(net_delta(life.drop_last()) == delta(action_on_acquire(mode)));
}

} // verus!
