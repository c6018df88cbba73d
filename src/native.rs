use vstd::prelude::*;
use crate::capabilities::Capabilities;
use crate::class::{descriptor_of, valid_descriptor};
use crate::environment::{JVMTI, table_map, lemma_table_update, with_entry, disabled_table, lemma_disabled_table};
use crate::error::{NativeError, error_of, wrap_error, status_to_result};
use crate::event::{EventCallbacks, VMEvent, EVENT_KIND_COUNT, lemma_slots_consistent};
use crate::ids::{ClassId, MethodId, ObjectId, ThreadId};
use crate::marshal::{decoded_text, drain_native_array, element_count, decode_native_string};
use crate::records::{ClassSignature, JVMTIClassDefinition, MemoryAllocation, MethodSignature, Thread};
use crate::version::VersionNumber;

verus! {

/// The largest count or length that the native interface takes as a 32-bit integer.
pub const NATIVE_INT_MAX: usize = 0x7FFF_FFFF;

/// The largest size that the native allocator takes.
pub const NATIVE_LONG_MAX: u64 = 0x7FFF_FFFF_FFFF_FFFF;

/// The native value that enables notification of an event.
pub const NATIVE_ENABLE: u32 = 1;

/// The native value that disables notification of an event.
pub const NATIVE_DISABLE: u32 = 0;

/// What the native interface reports of a thread, before decoding.
pub struct NativeThreadInfo {
    /// The bytes of the name up to its terminating zero; `None` for a null name.
    pub name: Option<Vec<u8>>,
    pub priority: i32,
    pub is_daemon: u8,
    pub context_class_loader: ObjectId,
}

/// The one place where the native function table is called. Each method makes one native call
/// and hands back its status code and out-parameters as plain values; arrays stay on the native
/// side, and `read_class` / `read_thread` read element `index` of one. The environment decides
/// everything else, and is verified for whatever these calls return.
pub trait NativeInterface {
    fn get_version_number(&self) -> u32;

    /// Status, element count and array start.
    fn get_loaded_classes(&self) -> (u32, i32, usize);

    /// Status, element count and array start.
    fn get_class_loader_classes(&self, class_loader: ObjectId) -> (u32, i32, usize);

    fn read_class(&self, array: usize, index: usize) -> ClassId;

    /// Status, element count and array start.
    fn get_all_threads(&self) -> (u32, i32, usize);

    fn read_thread(&self, array: usize, index: usize) -> ThreadId;

    fn retransform_classes(&self, class_count: i32, classes: &[ClassId]) -> u32;

    /// `byte_counts[i]` is the length of `definitions[i].class_data`.
    fn redefine_classes(&self, class_count: i32, byte_counts: &[i32], definitions: &[JVMTIClassDefinition]) -> u32;

    fn add_capabilities(&self, capabilities: u64) -> u32;

    /// Installs the dispatch table: slot `i` is for native event number 50 + `i`, and is empty
    /// where it is false.
    fn set_event_callbacks(&self, table: &[bool]) -> u32;

    fn set_event_notification_mode(&self, mode: u32, event_code: u32) -> u32;

    fn get_thread_info(&self, thread: ThreadId) -> (u32, NativeThreadInfo);

    fn get_method_declaring_class(&self, method: MethodId) -> (u32, ClassId);

    /// Status and the bytes of the name.
    fn get_method_name(&self, method: MethodId) -> (u32, Option<Vec<u8>>);

    /// Status and the bytes of the signature.
    fn get_class_signature(&self, class: ClassId) -> (u32, Option<Vec<u8>>);

    /// Status and the address of the block.
    fn allocate(&self, size: i64) -> (u32, usize);
}

/// The bytes of a native string, as a sequence.
pub open spec fn bytes_of(input: Option<Vec<u8>>) -> Option<Seq<u8>> {
    match input {
        Some(b) => Some(b@),
        None => None,
    }
}

/// Decodes a native string given as owned bytes.
pub fn decode_owned_string(input: &Option<Vec<u8>>) -> (r: String)
    ensures
        r@ == decoded_text(bytes_of(*input)),
{
    match input {
        Some(b) => decode_native_string(Some(b.as_slice())),
        None => decode_native_string(None),
    }
}

/// The value of a native call that reported `status`: the value on success, the status's
/// error otherwise.
pub fn value_or_error<T>(status: u32, value: T) -> (r: Result<T, NativeError>)
    ensures
        status == 0 ==> r == Ok::<T, NativeError>(value),
        status != 0 ==> r == Err::<T, NativeError>(error_of(status)),
{
    match wrap_error(status) {
        NativeError::NoError => Ok(value),
        err => Err(err),
    }
}

/// The outcome of a native call that returns an array: on success the `count` elements that
/// `read` gives, in array order; otherwise the status's error, and nothing is read.
pub fn collect_native_array<T, F: Fn(usize) -> T>(status: u32, count: i32, read: F) -> (r: Result<Vec<T>, NativeError>)
    requires
        status == 0 ==> forall|i: usize| (i as int) < element_count(count) ==> read.requires((i,)),
    ensures
        status == 0 ==> (r matches Ok(v) && v@.len() == element_count(count) && forall|i: int|
            0 <= i < v@.len() ==> read.ensures((i as usize,), v@[i])),
        status != 0 ==> (r matches Err(e) && e == error_of(status)),
{
    match wrap_error(status) {
        NativeError::NoError => Ok(drain_native_array(count, read)),
        err => Err(err),
    }
}

/// A thread record from what the native interface reported of `thread_id`.
pub fn thread_from_native(status: u32, thread_id: ThreadId, info: NativeThreadInfo) -> (r: Result<Thread, NativeError>)
    ensures
        status == 0 ==> (r matches Ok(t) && t.id == thread_id && t.name@ == decoded_text(
            bytes_of(info.name),
        ) && t.priority == info.priority as u32 && t.is_daemon == (info.is_daemon > 0)
            && t.context_class_loader == info.context_class_loader),
        status != 0 ==> (r matches Err(e) && e == error_of(status)),
{
    match wrap_error(status) {
        NativeError::NoError => Ok(
            Thread {
                id: thread_id,
                name: decode_owned_string(&info.name),
                priority: info.priority as u32,
                is_daemon: info.is_daemon > 0,
                context_class_loader: info.context_class_loader,
            },
        ),
        err => Err(err),
    }
}

/// A method name from what the native interface reported.
pub fn method_name_from_native(status: u32, name: &Option<Vec<u8>>) -> (r: Result<MethodSignature, NativeError>)
    ensures
        status == 0 ==> (r matches Ok(m) && m.name@ == decoded_text(bytes_of(*name))),
        status != 0 ==> (r matches Err(e) && e == error_of(status)),
{
    match wrap_error(status) {
        NativeError::NoError => Ok(MethodSignature::new(decode_owned_string(name))),
        err => Err(err),
    }
}

/// A class signature from what the native interface reported.
pub fn class_signature_from_native(status: u32, signature: &Option<Vec<u8>>) -> (r: Result<ClassSignature, NativeError>)
    ensures
        status == 0 ==> (r matches Ok(c) && c.signature@ == decoded_text(bytes_of(*signature))
            && c.java_type.is_some() == valid_descriptor(c.signature@) && (c.java_type matches Some(
            t) ==> descriptor_of(t) == c.signature@)),
        status != 0 ==> (r matches Err(e) && e == error_of(status)),
{
    match wrap_error(status) {
        NativeError::NoError => Ok(ClassSignature::new(decode_owned_string(signature))),
        err => Err(err),
    }
}

/// A length as the native 32-bit count; lengths that do not fit are an illegal argument.
pub fn native_count(len: usize) -> (r: Result<i32, NativeError>)
    ensures
        len <= NATIVE_INT_MAX ==> r == Ok::<i32, NativeError>(len as i32),
        len > NATIVE_INT_MAX ==> r == Err::<i32, NativeError>(NativeError::IllegalArgument),
{
    if len <= NATIVE_INT_MAX {
        Ok(len as i32)
    } else {
        Err(NativeError::IllegalArgument)
    }
}

/// Whether every class file of `definitions` has a length that fits a native count.
pub open spec fn definitions_fit(definitions: Seq<JVMTIClassDefinition>) -> bool {
    forall|i: int| 0 <= i < definitions.len() ==> definitions[i].class_data@.len() <= NATIVE_INT_MAX
}

/// The native count of class definitions and the byte count of each; an illegal argument where
/// a count does not fit.
pub fn class_definition_counts(definitions: &[JVMTIClassDefinition]) -> (r: Result<(i32, Vec<i32>), NativeError>)
    ensures
        (definitions@.len() <= NATIVE_INT_MAX && definitions_fit(definitions@)) ==> (r matches Ok(
            (n, counts),
        ) && n as int == definitions@.len() && counts@.len() == definitions@.len() && forall|i: int|
            0 <= i < counts@.len() ==> counts@[i] as int == definitions@[i].class_data@.len()),
        !(definitions@.len() <= NATIVE_INT_MAX && definitions_fit(definitions@)) ==> r
            == Err::<(i32, Vec<i32>), NativeError>(NativeError::IllegalArgument),
{
    let n = match native_count(definitions.len()) {
        Ok(n) => n,
        Err(e) => return Err(e),
    };
    let mut counts: Vec<i32> = Vec::new();
    let mut i: usize = 0;
    while i < definitions.len()
        invariant
            i <= definitions@.len(),
            counts@.len() == i,
            forall|j: int| 0 <= j < i ==> definitions@[j].class_data@.len() <= NATIVE_INT_MAX,
            forall|j: int| 0 <= j < i ==> counts@[j] as int == definitions@[j].class_data@.len(),
        decreases definitions@.len() - i,
    {
        match native_count(definitions[i].class_data.len()) {
            Ok(c) => counts.push(c),
            Err(e) => return Err(e),
        }
        i = i + 1;
    }
    Ok((n, counts))
}

/// The native mode value for enabling or disabling an event.
pub fn native_mode(mode: bool) -> (r: u32)
    ensures
        r == if mode { NATIVE_ENABLE } else { NATIVE_DISABLE },
{
    if mode {
        NATIVE_ENABLE
    } else {
        NATIVE_DISABLE
    }
}

/// A size in bytes as the native 64-bit size; sizes that do not fit are an illegal argument.
pub fn native_size(len: usize) -> (r: Result<i64, NativeError>)
    ensures
        len as int <= NATIVE_LONG_MAX ==> r == Ok::<i64, NativeError>(len as i64),
        len as int > NATIVE_LONG_MAX ==> r == Err::<i64, NativeError>(NativeError::IllegalArgument),
{
    if len as u64 <= NATIVE_LONG_MAX {
        Ok(len as i64)
    } else {
        Err(NativeError::IllegalArgument)
    }
}

/// A tool environment backed by the native interface `N`. It keeps the configuration that it
/// has installed: the capabilities added, the handler registry and the notification table.
pub struct JVMTIEnvironment<N, H> {
    native: N,
    capabilities: Capabilities,
    callbacks: EventCallbacks<H>,
    events: Vec<bool>,
}

impl<N, H> JVMTIEnvironment<N, H> {
    #[verifier::type_invariant]
    spec fn wf(self) -> bool {
        self.events@.len() == EVENT_KIND_COUNT
    }
}

impl<N: NativeInterface, H> JVMTIEnvironment<N, H> {
    /// The native interface that the environment calls.
    pub closed spec fn native_spec(self) -> N {
        self.native
    }

    /// An environment over `native`, with no capability added, no handler and every event
    /// disabled.
    pub fn new(native: N) -> (r: JVMTIEnvironment<N, H>)
        ensures
            r.native_spec() == native,
            r.capabilities().bits_spec() == 0,
            forall|k: VMEvent| !r.handlers().registered(k),
            forall|k: VMEvent| r.enabled_map().contains_key(k) && !r.enabled_map()[k],
    {
        let events = disabled_table();
        proof {
            lemma_disabled_table(events@);
        }
        JVMTIEnvironment { native, capabilities: Capabilities::new(), callbacks: EventCallbacks::new(), events }
    }

    /// The native interface that the environment calls.
    pub fn native(&self) -> (r: &N)
        ensures
            *r == self.native_spec(),
    {
        &self.native
    }
}

impl<N: NativeInterface, H> JVMTI<H> for JVMTIEnvironment<N, H> {
    closed spec fn capabilities(&self) -> Capabilities {
        self.capabilities
    }

    closed spec fn handlers(&self) -> EventCallbacks<H> {
        self.callbacks
    }

    closed spec fn enabled_map(&self) -> Map<VMEvent, bool> {
        table_map(self.events@)
    }

    fn get_version_number(&self) -> VersionNumber {
        let version = self.native.get_version_number();
        VersionNumber::from_u32(&version)
    }

    fn get_loaded_classes(&self) -> (r: Result<Vec<ClassId>, NativeError>) {
        let (status, count, array) = self.native.get_loaded_classes();
        collect_native_array(status, count, |i: usize| -> (c: ClassId) { self.native.read_class(array, i) })
    }

    fn get_class_loader_loaded_classes(&self, class_loader: ObjectId) -> (r: Result<Vec<ClassId>, NativeError>) {
        let (status, count, array) = self.native.get_class_loader_classes(class_loader);
        collect_native_array(status, count, |i: usize| -> (c: ClassId) { self.native.read_class(array, i) })
    }

    fn retransform_classes(&self, classes: &[ClassId]) -> (r: Result<(), NativeError>)
        ensures
            classes@.len() > NATIVE_INT_MAX ==> r == Err::<(), NativeError>(NativeError::IllegalArgument),
    {
        let count = match native_count(classes.len()) {
            Ok(n) => n,
            Err(e) => return Err(e),
        };
        status_to_result(self.native.retransform_classes(count, classes))
    }

    fn redefine_classes(&self, class_definitions: &[JVMTIClassDefinition]) -> (r: Result<(), NativeError>)
        ensures
            !(class_definitions@.len() <= NATIVE_INT_MAX && definitions_fit(class_definitions@)) ==> r == Err::<(), NativeError>(NativeError::IllegalArgument),
    {
        match class_definition_counts(class_definitions) {
            Ok((count, byte_counts)) => status_to_result(
                self.native.redefine_classes(count, byte_counts.as_slice(), class_definitions),
            ),
            Err(e) => Err(e),
        }
    }

    fn get_all_threads(&self) -> (r: Result<Vec<ThreadId>, NativeError>) {
        let (status, count, array) = self.native.get_all_threads();
        collect_native_array(status, count, |i: usize| -> (t: ThreadId) { self.native.read_thread(array, i) })
    }

    fn add_capabilities(&mut self, new_capabilities: &Capabilities) -> (r: Result<Capabilities, NativeError>) {
        proof {
            use_type_invariant(&*self);
        }
        let status = self.native.add_capabilities(new_capabilities.to_native());
        match wrap_error(status) {
            NativeError::NoError => {
                let merged = self.capabilities.merge(new_capabilities);
                self.capabilities = merged;
                Ok(merged)
            },
            err => Err(err),
        }
    }

    fn get_capabilities(&self) -> (r: Capabilities) {
        self.capabilities
    }

    fn set_event_callbacks(&mut self, callbacks: EventCallbacks<H>) -> (r: Option<NativeError>) {
        proof {
            use_type_invariant(&*self);
        }
        let table = callbacks.dispatch_table();
        let status = self.native.set_event_callbacks(table.as_slice());
        match wrap_error(status) {
            NativeError::NoError => {
                self.callbacks = callbacks;
                None
            },
            err => Some(err),
        }
    }

    fn set_event_notification_mode(&mut self, event: VMEvent, mode: bool) -> (r: Option<NativeError>) {
        proof {
            use_type_invariant(&*self);
            lemma_slots_consistent(event, event);
            lemma_table_update(self.events@, event, mode);
        }
        let status = self.native.set_event_notification_mode(native_mode(mode), event.native_code());
        match wrap_error(status) {
            NativeError::NoError => {
                self.events = with_entry(&self.events, event.index(), mode);
                None
            },
            err => Some(err),
        }
    }

    fn get_thread_info(&self, thread_id: &ThreadId) -> (r: Result<Thread, NativeError>) {
        let (status, info) = self.native.get_thread_info(*thread_id);
        thread_from_native(status, *thread_id, info)
    }

    fn get_method_declaring_class(&self, method_id: &MethodId) -> (r: Result<ClassId, NativeError>) {
        let (status, class) = self.native.get_method_declaring_class(*method_id);
        value_or_error(status, class)
    }

    fn get_method_name(&self, method_id: &MethodId) -> (r: Result<MethodSignature, NativeError>) {
        let (status, name) = self.native.get_method_name(*method_id);
        method_name_from_native(status, &name)
    }

    fn get_class_signature(&self, class_id: &ClassId) -> (r: Result<ClassSignature, NativeError>) {
        let (status, signature) = self.native.get_class_signature(*class_id);
        class_signature_from_native(status, &signature)
    }

    fn allocate(&self, len: usize) -> (r: Result<MemoryAllocation, NativeError>)
        ensures
            len as int > NATIVE_LONG_MAX ==> r == Err::<MemoryAllocation, NativeError>(NativeError::IllegalArgument),
    {
        let size = match native_size(len) {
            Ok(size) => size,
            Err(e) => return Err(e),
        };
        let (status, ptr) = self.native.allocate(size);
        value_or_error(status, MemoryAllocation { ptr, len })
    }

    fn deallocate(&self) {
    }
}

} // verus!
