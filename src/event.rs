use vstd::prelude::*;

verus! {

/// The kinds of event that a handler can be registered for.
#[derive(Clone, Copy, Debug, PartialEq, Eq, Structural, Hash)]
pub enum VMEvent {
    VmInit,
    VmStart,
    VmDeath,
    VmObjectAlloc,
    MethodEntry,
    MethodExit,
    ThreadStart,
    ThreadEnd,
    Exception,
    ExceptionCatch,
    MonitorWait,
    MonitorWaited,
    MonitorContendedEnter,
    MonitorContendedEntered,
    FieldAccess,
    FieldModification,
    GarbageCollectionStart,
    GarbageCollectionFinish,
    ClassFileLoadHook,
}

/// The number of event kinds.
pub const EVENT_KIND_COUNT: usize = 19;

/// The number of slots in the native dispatch table.
pub const DISPATCH_TABLE_LEN: usize = 35;

/// The first native event number; slot `i` of the dispatch table is for event number
/// `FIRST_EVENT_CODE + i`.
pub const FIRST_EVENT_CODE: u32 = 50;

/// The native event number of a kind.
pub open spec fn code_of(k: VMEvent) -> u32 {
    match k {
        VMEvent::VmInit => 50,
        VMEvent::VmStart => 57,
        VMEvent::VmDeath => 51,
        VMEvent::VmObjectAlloc => 84,
        VMEvent::MethodEntry => 65,
        VMEvent::MethodExit => 66,
        VMEvent::ThreadStart => 52,
        VMEvent::ThreadEnd => 53,
        VMEvent::Exception => 58,
        VMEvent::ExceptionCatch => 59,
        VMEvent::MonitorWait => 73,
        VMEvent::MonitorWaited => 74,
        VMEvent::MonitorContendedEnter => 75,
        VMEvent::MonitorContendedEntered => 76,
        VMEvent::FieldAccess => 63,
        VMEvent::FieldModification => 64,
        VMEvent::GarbageCollectionStart => 81,
        VMEvent::GarbageCollectionFinish => 82,
        VMEvent::ClassFileLoadHook => 54,
    }
}

/// The position of a kind in a notification table.
pub open spec fn index_of(k: VMEvent) -> int {
    match k {
        VMEvent::VmInit => 0,
        VMEvent::VmStart => 1,
        VMEvent::VmDeath => 2,
        VMEvent::VmObjectAlloc => 3,
        VMEvent::MethodEntry => 4,
        VMEvent::MethodExit => 5,
        VMEvent::ThreadStart => 6,
        VMEvent::ThreadEnd => 7,
        VMEvent::Exception => 8,
        VMEvent::ExceptionCatch => 9,
        VMEvent::MonitorWait => 10,
        VMEvent::MonitorWaited => 11,
        VMEvent::MonitorContendedEnter => 12,
        VMEvent::MonitorContendedEntered => 13,
        VMEvent::FieldAccess => 14,
        VMEvent::FieldModification => 15,
        VMEvent::GarbageCollectionStart => 16,
        VMEvent::GarbageCollectionFinish => 17,
        VMEvent::ClassFileLoadHook => 18,
    }
}

/// The kind whose handler goes into slot `slot` of the native dispatch table, if any.
pub open spec fn kind_at_slot(slot: int) -> Option<VMEvent> {
    if slot == 0 {
        Some(VMEvent::VmInit)
    } else if slot == 1 {
        Some(VMEvent::VmDeath)
    } else if slot == 2 {
        Some(VMEvent::ThreadStart)
    } else if slot == 3 {
        Some(VMEvent::ThreadEnd)
    } else if slot == 4 {
        Some(VMEvent::ClassFileLoadHook)
    } else if slot == 7 {
        Some(VMEvent::VmStart)
    } else if slot == 8 {
        Some(VMEvent::Exception)
    } else if slot == 9 {
        Some(VMEvent::ExceptionCatch)
    } else if slot == 13 {
        Some(VMEvent::FieldAccess)
    } else if slot == 14 {
        Some(VMEvent::FieldModification)
    } else if slot == 15 {
        Some(VMEvent::MethodEntry)
    } else if slot == 16 {
        Some(VMEvent::MethodExit)
    } else if slot == 23 {
        Some(VMEvent::MonitorWait)
    } else if slot == 24 {
        Some(VMEvent::MonitorWaited)
    } else if slot == 25 {
        Some(VMEvent::MonitorContendedEnter)
    } else if slot == 26 {
        Some(VMEvent::MonitorContendedEntered)
    } else if slot == 31 {
        Some(VMEvent::GarbageCollectionStart)
    } else if slot == 32 {
        Some(VMEvent::GarbageCollectionFinish)
    } else if slot == 34 {
        Some(VMEvent::VmObjectAlloc)
    } else {
        None
    }
}

impl VMEvent {
    /// The native event number of this kind.
    pub fn native_code(self) -> (r: u32)
        ensures
            r == code_of(self),
    {
        match self {
            VMEvent::VmInit => 50,
            VMEvent::VmStart => 57,
            VMEvent::VmDeath => 51,
            VMEvent::VmObjectAlloc => 84,
            VMEvent::MethodEntry => 65,
            VMEvent::MethodExit => 66,
            VMEvent::ThreadStart => 52,
            VMEvent::ThreadEnd => 53,
            VMEvent::Exception => 58,
            VMEvent::ExceptionCatch => 59,
            VMEvent::MonitorWait => 73,
            VMEvent::MonitorWaited => 74,
            VMEvent::MonitorContendedEnter => 75,
            VMEvent::MonitorContendedEntered => 76,
            VMEvent::FieldAccess => 63,
            VMEvent::FieldModification => 64,
            VMEvent::GarbageCollectionStart => 81,
            VMEvent::GarbageCollectionFinish => 82,
            VMEvent::ClassFileLoadHook => 54,
        }
    }

    /// The position of this kind in a notification table.
    pub fn index(self) -> (r: usize)
        ensures
            r as int == index_of(self),
            r < EVENT_KIND_COUNT,
    {
        match self {
            VMEvent::VmInit => 0,
            VMEvent::VmStart => 1,
            VMEvent::VmDeath => 2,
            VMEvent::VmObjectAlloc => 3,
            VMEvent::MethodEntry => 4,
            VMEvent::MethodExit => 5,
            VMEvent::ThreadStart => 6,
            VMEvent::ThreadEnd => 7,
            VMEvent::Exception => 8,
            VMEvent::ExceptionCatch => 9,
            VMEvent::MonitorWait => 10,
            VMEvent::MonitorWaited => 11,
            VMEvent::MonitorContendedEnter => 12,
            VMEvent::MonitorContendedEntered => 13,
            VMEvent::FieldAccess => 14,
            VMEvent::FieldModification => 15,
            VMEvent::GarbageCollectionStart => 16,
            VMEvent::GarbageCollectionFinish => 17,
            VMEvent::ClassFileLoadHook => 18,
        }
    }

    /// The kind whose handler goes into slot `slot` of the native dispatch table, if any.
    pub fn at_slot(slot: usize) -> (r: Option<VMEvent>)
        ensures
            r == kind_at_slot(slot as int),
    {
        match slot {
            0 => Some(VMEvent::VmInit),
            1 => Some(VMEvent::VmDeath),
            2 => Some(VMEvent::ThreadStart),
            3 => Some(VMEvent::ThreadEnd),
            4 => Some(VMEvent::ClassFileLoadHook),
            7 => Some(VMEvent::VmStart),
            8 => Some(VMEvent::Exception),
            9 => Some(VMEvent::ExceptionCatch),
            13 => Some(VMEvent::FieldAccess),
            14 => Some(VMEvent::FieldModification),
            15 => Some(VMEvent::MethodEntry),
            16 => Some(VMEvent::MethodExit),
            23 => Some(VMEvent::MonitorWait),
            24 => Some(VMEvent::MonitorWaited),
            25 => Some(VMEvent::MonitorContendedEnter),
            26 => Some(VMEvent::MonitorContendedEntered),
            31 => Some(VMEvent::GarbageCollectionStart),
            32 => Some(VMEvent::GarbageCollectionFinish),
            34 => Some(VMEvent::VmObjectAlloc),
            _ => None,
        }
    }
}

/// Each kind sits in exactly one slot of the dispatch table, that of its native number, and
/// distinct kinds have distinct positions in the notification table.
pub proof fn lemma_slots_consistent(k: VMEvent, j: VMEvent)
    ensures
        FIRST_EVENT_CODE <= code_of(k) < FIRST_EVENT_CODE + DISPATCH_TABLE_LEN,
        kind_at_slot(code_of(k) - FIRST_EVENT_CODE) == Some(k),
        0 <= index_of(k) < EVENT_KIND_COUNT,
        index_of(k) == index_of(j) ==> k == j,
{
}

/// At most one handler for each kind of event. `H` is the type of the handlers.
pub struct EventCallbacks<H> {
    pub vm_init: Option<H>,
    pub vm_start: Option<H>,
    pub vm_death: Option<H>,
    pub vm_object_alloc: Option<H>,
    pub method_entry: Option<H>,
    pub method_exit: Option<H>,
    pub thread_start: Option<H>,
    pub thread_end: Option<H>,
    pub exception: Option<H>,
    pub exception_catch: Option<H>,
    pub monitor_wait: Option<H>,
    pub monitor_waited: Option<H>,
    pub monitor_contended_enter: Option<H>,
    pub monitor_contended_entered: Option<H>,
    pub field_access: Option<H>,
    pub field_modification: Option<H>,
    pub garbage_collection_start: Option<H>,
    pub garbage_collection_finish: Option<H>,
    pub class_file_load_hook: Option<H>,
}

impl<H> EventCallbacks<H> {
    /// Whether a handler is registered for `k`.
    pub open spec fn registered(&self, k: VMEvent) -> bool {
        match k {
            VMEvent::VmInit => self.vm_init.is_some(),
            VMEvent::VmStart => self.vm_start.is_some(),
            VMEvent::VmDeath => self.vm_death.is_some(),
            VMEvent::VmObjectAlloc => self.vm_object_alloc.is_some(),
            VMEvent::MethodEntry => self.method_entry.is_some(),
            VMEvent::MethodExit => self.method_exit.is_some(),
            VMEvent::ThreadStart => self.thread_start.is_some(),
            VMEvent::ThreadEnd => self.thread_end.is_some(),
            VMEvent::Exception => self.exception.is_some(),
            VMEvent::ExceptionCatch => self.exception_catch.is_some(),
            VMEvent::MonitorWait => self.monitor_wait.is_some(),
            VMEvent::MonitorWaited => self.monitor_waited.is_some(),
            VMEvent::MonitorContendedEnter => self.monitor_contended_enter.is_some(),
            VMEvent::MonitorContendedEntered => self.monitor_contended_entered.is_some(),
            VMEvent::FieldAccess => self.field_access.is_some(),
            VMEvent::FieldModification => self.field_modification.is_some(),
            VMEvent::GarbageCollectionStart => self.garbage_collection_start.is_some(),
            VMEvent::GarbageCollectionFinish => self.garbage_collection_finish.is_some(),
            VMEvent::ClassFileLoadHook => self.class_file_load_hook.is_some(),
        }
    }

    /// A registry with no handler.
    pub fn new() -> (r: EventCallbacks<H>)
        ensures
            forall|k: VMEvent| !r.registered(k),
    {
        EventCallbacks {
            vm_init: None,
            vm_start: None,
            vm_death: None,
            vm_object_alloc: None,
            method_entry: None,
            method_exit: None,
            thread_start: None,
            thread_end: None,
            exception: None,
            exception_catch: None,
            monitor_wait: None,
            monitor_waited: None,
            monitor_contended_enter: None,
            monitor_contended_entered: None,
            field_access: None,
            field_modification: None,
            garbage_collection_start: None,
            garbage_collection_finish: None,
            class_file_load_hook: None,
        }
    }

    /// Whether a handler is registered for `k`.
    pub fn has_handler(&self, k: VMEvent) -> (r: bool)
        ensures
            r == self.registered(k),
    {
        match k {
            VMEvent::VmInit => self.vm_init.is_some(),
            VMEvent::VmStart => self.vm_start.is_some(),
            VMEvent::VmDeath => self.vm_death.is_some(),
            VMEvent::VmObjectAlloc => self.vm_object_alloc.is_some(),
            VMEvent::MethodEntry => self.method_entry.is_some(),
            VMEvent::MethodExit => self.method_exit.is_some(),
            VMEvent::ThreadStart => self.thread_start.is_some(),
            VMEvent::ThreadEnd => self.thread_end.is_some(),
            VMEvent::Exception => self.exception.is_some(),
            VMEvent::ExceptionCatch => self.exception_catch.is_some(),
            VMEvent::MonitorWait => self.monitor_wait.is_some(),
            VMEvent::MonitorWaited => self.monitor_waited.is_some(),
            VMEvent::MonitorContendedEnter => self.monitor_contended_enter.is_some(),
            VMEvent::MonitorContendedEntered => self.monitor_contended_entered.is_some(),
            VMEvent::FieldAccess => self.field_access.is_some(),
            VMEvent::FieldModification => self.field_modification.is_some(),
            VMEvent::GarbageCollectionStart => self.garbage_collection_start.is_some(),
            VMEvent::GarbageCollectionFinish => self.garbage_collection_finish.is_some(),
            VMEvent::ClassFileLoadHook => self.class_file_load_hook.is_some(),
        }
    }

    /// The native dispatch table: one slot for each native event number from
    /// `FIRST_EVENT_CODE` on, set where a handler is registered for the kind of that number and
    /// clear everywhere else.
    pub fn dispatch_table(&self) -> (r: Vec<bool>)
        ensures
            r@.len() == DISPATCH_TABLE_LEN,
            forall|i: int|
                0 <= i < DISPATCH_TABLE_LEN ==> r@[i] == match kind_at_slot(i) {
                    Some(k) => self.registered(k),
                    None => false,
                },
            forall|k: VMEvent| r@[code_of(k) - FIRST_EVENT_CODE] == self.registered(k),
    {
        let mut table: Vec<bool> = Vec::new();
        let mut slot: usize = 0;
        while slot < DISPATCH_TABLE_LEN
            invariant
                slot <= DISPATCH_TABLE_LEN,
                table@.len() == slot,
                forall|i: int|
                    0 <= i < slot ==> table@[i] == match kind_at_slot(i) {
                        Some(k) => self.registered(k),
                        None => false,
                    },
            decreases DISPATCH_TABLE_LEN - slot,
        {
            let present = match VMEvent::at_slot(slot) {
                Some(k) => self.has_handler(k),
                None => false,
            };
            table.push(present);
            slot = slot + 1;
        }
        assert forall|k: VMEvent| table@[code_of(k) - FIRST_EVENT_CODE] == self.registered(k) by {
            lemma_slots_consistent(k, k);
        }
        table
    }
}

} // verus!
