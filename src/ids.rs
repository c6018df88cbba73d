use vstd::prelude::*;

verus! {

/// A class handle of the native interface, compared by value and never dereferenced here.
#[derive(Clone, Copy, Debug, PartialEq, Eq, Structural, Hash)]
pub struct ClassId {
    pub native_id: usize,
}

/// A method handle of the native interface.
#[derive(Clone, Copy, Debug, PartialEq, Eq, Structural, Hash)]
pub struct MethodId {
    pub native_id: usize,
}

/// A thread handle of the native interface.
#[derive(Clone, Copy, Debug, PartialEq, Eq, Structural, Hash)]
pub struct ThreadId {
    pub native_id: usize,
}

/// An object handle of the native interface, such as a class loader.
#[derive(Clone, Copy, Debug, PartialEq, Eq, Structural, Hash)]
pub struct ObjectId {
    pub native_id: usize,
}

/// What a method entry or exit event carries.
#[derive(Clone, Copy, Debug, PartialEq, Eq, Structural)]
pub struct MethodInvocationEvent {
    pub method_id: MethodId,
    pub thread_id: ThreadId,
}

} // verus!
