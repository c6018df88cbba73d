use jvmti::capabilities::{Capabilities, Capability};
use jvmti::emulator::JVMEmulator;
use jvmti::environment::JVMTI;
use jvmti::error::NativeError;
use jvmti::event::{EventCallbacks, VMEvent};
use jvmti::ids::{ClassId, MethodId, MethodInvocationEvent, ObjectId, ThreadId};
use std::cell::RefCell;
use std::rc::Rc;

type Handler = Box<dyn Fn(MethodInvocationEvent)>;

fn recording(log: &Rc<RefCell<Vec<(usize, usize)>>>) -> EventCallbacks<Handler> {
    let mut cb: EventCallbacks<Handler> = EventCallbacks::new();
    let sink = log.clone();
    cb.method_entry = Some(Box::new(move |e: MethodInvocationEvent| {
        sink.borrow_mut().push((e.method_id.native_id, e.thread_id.native_id))
    }));
    cb
}

fn entry(method: usize, thread: usize) -> MethodInvocationEvent {
    MethodInvocationEvent { method_id: MethodId { native_id: method }, thread_id: ThreadId { native_id: thread } }
}

#[test]
fn method_entry_handler_runs_once_with_the_emitted_ids() {
    let log = Rc::new(RefCell::new(Vec::new()));
    let mut emu: JVMEmulator<Handler> = JVMEmulator::new();
    assert_eq!(emu.set_event_callbacks(recording(&log)), None);
    assert_eq!(emu.set_event_notification_mode(VMEvent::MethodEntry, true), None);
    assert!(emu.emit_method_entry(entry(0x1234, 0x42)));
    assert_eq!(*log.borrow(), vec![(0x1234, 0x42)]);
}

#[test]
fn events_fire_only_when_enabled_and_handled_in_any_order() {
    let log = Rc::new(RefCell::new(Vec::new()));
    let mut emu: JVMEmulator<Handler> = JVMEmulator::new();
    assert!(!emu.emit_method_entry(entry(1, 1)));
    emu.set_event_notification_mode(VMEvent::MethodEntry, true);
    assert!(!emu.emit_method_entry(entry(1, 1)));
    emu.set_event_callbacks(recording(&log));
    assert!(emu.emit_method_entry(entry(2, 2)));
    emu.set_event_notification_mode(VMEvent::MethodEntry, false);
    assert!(!emu.emit_method_entry(entry(3, 3)));

    let mut other: JVMEmulator<Handler> = JVMEmulator::new();
    other.set_event_callbacks(recording(&log));
    other.set_event_notification_mode(VMEvent::MethodEntry, true);
    assert!(other.emit_method_entry(entry(4, 4)));
    other.set_event_callbacks(EventCallbacks::new());
    assert!(!other.emit_method_entry(entry(5, 5)));
    assert!(other.is_enabled(VMEvent::MethodEntry));
    assert!(!other.is_enabled(VMEvent::MethodExit));
    assert_eq!(*log.borrow(), vec![(2, 2), (4, 4)]);
}

#[test]
fn emulator_merges_capabilities() {
    let mut emu: JVMEmulator<Handler> = JVMEmulator::new();
    let mut a = Capabilities::new();
    a.set(Capability::CanGenerateMethodEntryEvents, true);
    let mut b = Capabilities::new();
    b.set(Capability::CanTagObjects, true);
    assert_eq!(emu.add_capabilities(&a), Ok(a));
    let both = emu.add_capabilities(&b).unwrap();
    assert!(both.has(Capability::CanGenerateMethodEntryEvents));
    assert!(both.has(Capability::CanTagObjects));
    assert_eq!(emu.get_capabilities(), both);
}

#[test]
fn emulator_answers_without_a_native_side() {
    let emu: JVMEmulator<Handler> = JVMEmulator::new();
    assert_eq!(emu.get_version_number().major_version, 0);
    assert_eq!(emu.get_loaded_classes(), Err(NativeError::NotAvailable));
    assert_eq!(emu.get_class_loader_loaded_classes(ObjectId { native_id: 1 }), Err(NativeError::NotAvailable));
    assert_eq!(emu.get_all_threads(), Err(NativeError::NotAvailable));
    assert_eq!(emu.retransform_classes(&[ClassId { native_id: 1 }]), Err(NativeError::NotAvailable));
    assert_eq!(emu.redefine_classes(&[]), Err(NativeError::NotAvailable));
    assert!(matches!(emu.get_thread_info(&ThreadId { native_id: 1 }), Err(NativeError::NotImplemented)));
    assert_eq!(emu.get_method_declaring_class(&MethodId { native_id: 1 }), Err(NativeError::NotImplemented));
    assert_eq!(emu.get_method_name(&MethodId { native_id: 1 }).unwrap().name, "");
    assert!(matches!(emu.get_method_name(&MethodId { native_id: 2 }), Err(NativeError::NotImplemented)));
    assert!(matches!(emu.get_class_signature(&ClassId { native_id: 1 }), Err(NativeError::NotImplemented)));
    let block = emu.allocate(64).unwrap();
    assert_eq!(block.len, 64);
    emu.deallocate();
}
