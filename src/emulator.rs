use vstd::prelude::*;
use crate::capabilities::Capabilities;
use crate::environment::{JVMTI, fires, table_map, lemma_table_update, with_entry, disabled_table, lemma_disabled_table};
use crate::error::NativeError;
use crate::event::{EventCallbacks, VMEvent, EVENT_KIND_COUNT, lemma_slots_consistent};
use crate::ids::{ClassId, MethodId, MethodInvocationEvent, ObjectId, ThreadId};
use crate::records::{ClassSignature, JVMTIClassDefinition, MemoryAllocation, MethodSignature, Thread};
use crate::version::VersionNumber;

verus! {

/// An in-process stand-in for a virtual machine's tool environment. It keeps its configuration
/// locally, makes no native call, and lets a test emit events itself.
pub struct JVMEmulator<H> {
    capabilities: Capabilities,
    callbacks: EventCallbacks<H>,
    events: Vec<bool>,
}

impl<H> JVMEmulator<H> {
    #[verifier::type_invariant]
    spec fn wf(self) -> bool {
        self.events@.len() == EVENT_KIND_COUNT
    }

    /// An emulator with no capability, no handler and every event disabled.
    pub fn new() -> (r: JVMEmulator<H>)
        ensures
            r.capabilities().bits_spec() == 0,
            forall|k: VMEvent| !r.handlers().registered(k),
            forall|k: VMEvent| r.enabled_map().contains_key(k) && !r.enabled_map()[k],
    {
        let events = disabled_table();
        proof {
            lemma_disabled_table(events@);
        }
        JVMEmulator { capabilities: Capabilities::new(), callbacks: EventCallbacks::new(), events }
    }

    /// A fresh emulated environment, as the virtual machine hands one to each agent.
    pub fn get_environment(&self) -> (r: Result<JVMEmulator<H>, NativeError>)
        ensures
            r matches Ok(env) && env.capabilities().bits_spec() == 0 && (forall|k: VMEvent|
                !env.handlers().registered(k)) && (forall|k: VMEvent|
                env.enabled_map().contains_key(k) && !env.enabled_map()[k]),
    {
        Ok(JVMEmulator::new())
    }

    /// Shuts the emulated virtual machine down; there is nothing to release.
    pub fn destroy(&self) -> (r: Result<(), NativeError>)
        ensures
            r.is_ok(),
    {
        Ok(())
    }

    /// Whether notification of `event` is enabled.
    pub fn is_enabled(&self, event: VMEvent) -> (r: bool)
        ensures
            r == self.enabled_map()[event],
    {
        proof {
            use_type_invariant(self);
        }
        self.events[event.index()]
    }
}

impl<H: Fn(MethodInvocationEvent)> JVMEmulator<H> {
    /// Emits a method entry event: the registered handler is called once with `event` when
    /// method entry is enabled and a handler is registered, and nothing is called otherwise.
    /// The result says whether the handler was called.
    pub fn emit_method_entry(&self, event: MethodInvocationEvent) -> (r: bool)
        requires
            self.handlers().method_entry matches Some(h) ==> h.requires((event,)),
        ensures
            r == fires(self.handlers(), self.enabled_map(), VMEvent::MethodEntry),
            r ==> (self.handlers().method_entry matches Some(h) && h.ensures((event,), ())),
    {
        proof {
            lemma_slots_consistent(VMEvent::MethodEntry, VMEvent::MethodEntry);
        }
        if !self.is_enabled(VMEvent::MethodEntry) {
            return false;
        }
        match &self.callbacks.method_entry {
            Some(handler) => {
                handler(event);
                true
            },
            None => false,
        }
    }
}

impl<H> JVMTI<H> for JVMEmulator<H> {
    closed spec fn capabilities(&self) -> Capabilities {
        self.capabilities
    }

    closed spec fn handlers(&self) -> EventCallbacks<H> {
        self.callbacks
    }

    closed spec fn enabled_map(&self) -> Map<VMEvent, bool> {
        table_map(self.events@)
    }

    fn get_version_number(&self) -> (r: VersionNumber)
        ensures
            r.major_version == 0 && r.minor_version == 0 && r.micro_version == 0,
    {
        VersionNumber::unknown()
    }

    fn add_capabilities(&mut self, new_capabilities: &Capabilities) -> (r: Result<Capabilities, NativeError>)
        ensures
            r.is_ok(),
    {
        proof {
            use_type_invariant(&*self);
        }
        let merged = self.capabilities.merge(new_capabilities);
        self.capabilities = merged;
        Ok(self.capabilities)
    }

    fn get_capabilities(&self) -> (r: Capabilities) {
        self.capabilities
    }

    fn get_class_loader_loaded_classes(&self, class_loader: ObjectId) -> (r: Result<Vec<ClassId>, NativeError>)
        ensures
            r matches Err(e) && e == NativeError::NotAvailable,
    {
        Err(NativeError::NotAvailable)
    }

    fn get_loaded_classes(&self) -> (r: Result<Vec<ClassId>, NativeError>)
        ensures
            r matches Err(e) && e == NativeError::NotAvailable,
    {
        Err(NativeError::NotAvailable)
    }

    fn set_event_callbacks(&mut self, callbacks: EventCallbacks<H>) -> (r: Option<NativeError>)
        ensures
            r.is_none(),
    {
        proof {
            use_type_invariant(&*self);
        }
        self.callbacks = callbacks;
        None
    }

    fn set_event_notification_mode(&mut self, event: VMEvent, mode: bool) -> (r: Option<NativeError>)
        ensures
            r.is_none(),
    {
        proof {
            use_type_invariant(&*self);
            lemma_slots_consistent(event, event);
            lemma_table_update(self.events@, event, mode);
        }
        let i = event.index();
        self.events = with_entry(&self.events, i, mode);
        None
    }

    fn redefine_classes(&self, class_definitions: &[JVMTIClassDefinition]) -> (r: Result<(), NativeError>)
        ensures
            r matches Err(e) && e == NativeError::NotAvailable,
    {
        Err(NativeError::NotAvailable)
    }

    fn retransform_classes(&self, classes: &[ClassId]) -> (r: Result<(), NativeError>)
        ensures
            r matches Err(e) && e == NativeError::NotAvailable,
    {
        Err(NativeError::NotAvailable)
    }

    fn get_all_threads(&self) -> (r: Result<Vec<ThreadId>, NativeError>)
        ensures
            r matches Err(e) && e == NativeError::NotAvailable,
    {
        Err(NativeError::NotAvailable)
    }

    fn get_thread_info(&self, thread_id: &ThreadId) -> (r: Result<Thread, NativeError>)
        ensures
            r matches Err(e) && e == NativeError::NotImplemented,
    {
        Err(NativeError::NotImplemented)
    }

    fn get_method_declaring_class(&self, method_id: &MethodId) -> (r: Result<ClassId, NativeError>)
        ensures
            r matches Err(e) && e == NativeError::NotImplemented,
    {
        Err(NativeError::NotImplemented)
    }

    fn get_method_name(&self, method_id: &MethodId) -> (r: Result<MethodSignature, NativeError>)
        ensures
            method_id.native_id == 1 ==> (r matches Ok(m) && m.name@.len() == 0),
            method_id.native_id != 1 ==> (r matches Err(e) && e == NativeError::NotImplemented),
    {
        if method_id.native_id == 1 {
            Ok(MethodSignature::new(String::new()))
        } else {
            Err(NativeError::NotImplemented)
        }
    }

    fn get_class_signature(&self, class_id: &ClassId) -> (r: Result<ClassSignature, NativeError>)
        ensures
            r matches Err(e) && e == NativeError::NotImplemented,
    {
        Err(NativeError::NotImplemented)
    }

    fn allocate(&self, len: usize) -> (r: Result<MemoryAllocation, NativeError>)
        ensures
            r == Ok::<MemoryAllocation, NativeError>(MemoryAllocation { ptr: 0, len }),
    {
        Ok(MemoryAllocation { ptr: 0, len })
    }

    fn deallocate(&self) {
    }
}

} // verus!
