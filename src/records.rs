use vstd::prelude::*;
use crate::class::{JavaType, descriptor_of, valid_descriptor};
use crate::ids::{ClassId, ObjectId, ThreadId};

verus! {

/// What the native interface reports of a thread.
#[derive(Clone, Debug)]
pub struct Thread {
    pub id: ThreadId,
    pub name: String,
    pub priority: u32,
    pub is_daemon: bool,
    pub context_class_loader: ObjectId,
}

/// The name of a method.
#[derive(Clone, Debug)]
pub struct MethodSignature {
    pub name: String,
}

impl MethodSignature {
    pub fn new(name: String) -> (r: MethodSignature)
        ensures
            r.name@ == name@,
    {
        MethodSignature { name }
    }
}

/// The type descriptor of a class, as the native interface reports it, and the type that it
/// names where it is well formed.
pub struct ClassSignature {
    pub signature: String,
    pub java_type: Option<JavaType>,
}

impl ClassSignature {
    pub fn new(signature: String) -> (r: ClassSignature)
        ensures
            r.signature@ == signature@,
            r.java_type.is_some() == valid_descriptor(signature@),
            r.java_type matches Some(t) ==> descriptor_of(t) == signature@,
    {
        let java_type = JavaType::parse(signature.as_str());
        ClassSignature { signature, java_type }
    }
}

/// A block of memory that the native allocator handed out: its address and its length. The
/// caller owns it and releases it explicitly.
#[derive(Clone, Copy, Debug, PartialEq, Eq, Structural)]
pub struct MemoryAllocation {
    pub ptr: usize,
    pub len: usize,
}

/// A class and the bytes of the class file that is to replace its definition.
#[derive(Clone, Debug)]
pub struct JVMTIClassDefinition {
    pub class: ClassId,
    pub class_data: Vec<u8>,
}

} // verus!
