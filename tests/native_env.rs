use jvmti::capabilities::{Capabilities, Capability};
use jvmti::environment::JVMTI;
use jvmti::error::NativeError;
use jvmti::event::{EventCallbacks, VMEvent};
use jvmti::ids::{ClassId, MethodId, ObjectId, ThreadId};
use jvmti::native::{
    class_definition_counts, native_count, native_mode, native_size, JVMTIEnvironment, NativeInterface, NativeThreadInfo,
};
use jvmti::records::JVMTIClassDefinition;
use std::cell::{Cell, RefCell};

/// A native side whose answers are set by each test and which records what it was asked.
struct FakeVm {
    status: u32,
    version: u32,
    classes: Vec<usize>,
    threads: Vec<usize>,
    reads: Cell<usize>,
    name: Option<Vec<u8>>,
    capabilities_sent: Cell<u64>,
    table_sent: RefCell<Vec<bool>>,
    mode_sent: Cell<(u32, u32)>,
    redefined: RefCell<Vec<(i32, Vec<i32>)>>,
    allocated: Cell<i64>,
}

impl FakeVm {
    fn answering(status: u32) -> FakeVm {
        FakeVm {
            status,
            version: 0x3001_0200,
            classes: vec![0x10, 0x20, 0x30],
            threads: vec![0x7, 0x8],
            reads: Cell::new(0),
            name: Some(b"main".to_vec()),
            capabilities_sent: Cell::new(0),
            table_sent: RefCell::new(Vec::new()),
            mode_sent: Cell::new((9, 9)),
            redefined: RefCell::new(Vec::new()),
            allocated: Cell::new(-1),
        }
    }
}

impl NativeInterface for FakeVm {
    fn get_version_number(&self) -> u32 {
        self.version
    }
    fn get_loaded_classes(&self) -> (u32, i32, usize) {
        (self.status, self.classes.len() as i32, 0x1000)
    }
    fn get_class_loader_classes(&self, class_loader: ObjectId) -> (u32, i32, usize) {
        (self.status, class_loader.native_id as i32, 0x1000)
    }
    fn read_class(&self, array: usize, index: usize) -> ClassId {
        assert_eq!(array, 0x1000);
        self.reads.set(self.reads.get() + 1);
        ClassId { native_id: self.classes[index] }
    }
    fn get_all_threads(&self) -> (u32, i32, usize) {
        (self.status, self.threads.len() as i32, 0x2000)
    }
    fn read_thread(&self, array: usize, index: usize) -> ThreadId {
        assert_eq!(array, 0x2000);
        ThreadId { native_id: self.threads[index] }
    }
    fn retransform_classes(&self, class_count: i32, classes: &[ClassId]) -> u32 {
        assert_eq!(class_count as usize, classes.len());
        self.status
    }
    fn redefine_classes(&self, class_count: i32, byte_counts: &[i32], definitions: &[JVMTIClassDefinition]) -> u32 {
        assert_eq!(class_count as usize, definitions.len());
        self.redefined.borrow_mut().push((class_count, byte_counts.to_vec()));
        self.status
    }
    fn add_capabilities(&self, capabilities: u64) -> u32 {
        self.capabilities_sent.set(capabilities);
        self.status
    }
    fn set_event_callbacks(&self, table: &[bool]) -> u32 {
        *self.table_sent.borrow_mut() = table.to_vec();
        self.status
    }
    fn set_event_notification_mode(&self, mode: u32, event_code: u32) -> u32 {
        self.mode_sent.set((mode, event_code));
        self.status
    }
    fn get_thread_info(&self, _thread: ThreadId) -> (u32, NativeThreadInfo) {
        let info = NativeThreadInfo {
            name: self.name.clone(),
            priority: 5,
            is_daemon: 1,
            context_class_loader: ObjectId { native_id: 0x99 },
        };
        (self.status, info)
    }
    fn get_method_declaring_class(&self, method: MethodId) -> (u32, ClassId) {
        (self.status, ClassId { native_id: method.native_id + 1 })
    }
    fn get_method_name(&self, _method: MethodId) -> (u32, Option<Vec<u8>>) {
        (self.status, self.name.clone())
    }
    fn get_class_signature(&self, _class: ClassId) -> (u32, Option<Vec<u8>>) {
        (self.status, Some(b"Ljava/lang/String;".to_vec()))
    }
    fn allocate(&self, size: i64) -> (u32, usize) {
        self.allocated.set(size);
        (self.status, 0xdead0)
    }
}

type Env = JVMTIEnvironment<FakeVm, u8>;

#[test]
fn loaded_classes_come_back_in_native_order() {
    let env: Env = JVMTIEnvironment::new(FakeVm::answering(0));
    let classes = env.get_loaded_classes().unwrap();
    assert_eq!(classes, vec![ClassId { native_id: 0x10 }, ClassId { native_id: 0x20 }, ClassId { native_id: 0x30 }]);
    assert_eq!(env.native().reads.get(), 3);
}

#[test]
fn failed_array_calls_read_nothing() {
    let env: Env = JVMTIEnvironment::new(FakeVm::answering(112));
    assert_eq!(env.get_loaded_classes(), Err(NativeError::WrongPhase));
    assert_eq!(env.get_all_threads(), Err(NativeError::WrongPhase));
    assert_eq!(env.native().reads.get(), 0);
}

#[test]
fn empty_class_loader_reads_nothing() {
    let env: Env = JVMTIEnvironment::new(FakeVm::answering(0));
    assert_eq!(env.get_class_loader_loaded_classes(ObjectId { native_id: 0 }), Ok(vec![]));
    assert_eq!(env.get_class_loader_loaded_classes(ObjectId { native_id: 2 }).unwrap().len(), 2);
    assert_eq!(env.native().reads.get(), 2);
}

#[test]
fn all_threads_are_listed() {
    let env: Env = JVMTIEnvironment::new(FakeVm::answering(0));
    assert_eq!(env.get_all_threads(), Ok(vec![ThreadId { native_id: 7 }, ThreadId { native_id: 8 }]));
}

#[test]
fn failed_add_capabilities_keeps_the_old_set() {
    let mut env: Env = JVMTIEnvironment::new(FakeVm::answering(99));
    let mut wanted = Capabilities::new();
    wanted.set(Capability::CanGenerateMethodEntryEvents, true);
    assert_eq!(env.add_capabilities(&wanted), Err(NativeError::MustPossessCapability));
    assert!(!env.get_capabilities().has(Capability::CanGenerateMethodEntryEvents));
    assert_eq!(env.native().capabilities_sent.get(), 1u64 << 24);
}

#[test]
fn successful_add_capabilities_merges() {
    let mut env: Env = JVMTIEnvironment::new(FakeVm::answering(0));
    let mut wanted = Capabilities::new();
    wanted.set(Capability::CanGenerateMethodEntryEvents, true);
    let got = env.add_capabilities(&wanted).unwrap();
    assert!(got.has(Capability::CanGenerateMethodEntryEvents));
    assert_eq!(env.get_capabilities(), got);
}

#[test]
fn redefining_two_classes_succeeds() {
    let env: Env = JVMTIEnvironment::new(FakeVm::answering(0));
    let defs = vec![
        JVMTIClassDefinition { class: ClassId { native_id: 1 }, class_data: vec![0xCA, 0xFE, 0xBA, 0xBE] },
        JVMTIClassDefinition { class: ClassId { native_id: 2 }, class_data: vec![1, 2] },
    ];
    assert_eq!(env.redefine_classes(&defs), Ok(()));
    assert_eq!(*env.native().redefined.borrow(), vec![(2, vec![4, 2])]);
}

#[test]
fn failed_redefinition_reports_the_native_error() {
    let env: Env = JVMTIEnvironment::new(FakeVm::answering(60));
    let defs = vec![JVMTIClassDefinition { class: ClassId { native_id: 1 }, class_data: vec![0] }];
    assert_eq!(env.redefine_classes(&defs), Err(NativeError::InvalidClassFormat));
    assert_eq!(env.retransform_classes(&[ClassId { native_id: 1 }]), Err(NativeError::InvalidClassFormat));
}

#[test]
fn counts_that_do_not_fit_are_rejected() {
    assert_eq!(native_count(5), Ok(5));
    assert_eq!(native_count(0x7FFF_FFFF), Ok(i32::MAX));
    assert_eq!(native_count(0x8000_0000), Err(NativeError::IllegalArgument));
    assert_eq!(native_size(16), Ok(16));
    assert_eq!(native_size(usize::MAX), Err(NativeError::IllegalArgument));
    assert_eq!(native_mode(true), 1);
    assert_eq!(native_mode(false), 0);
    let (n, counts) = class_definition_counts(&[]).unwrap();
    assert_eq!((n, counts), (0, vec![]));
}

#[test]
fn callbacks_are_installed_as_a_dense_table() {
    let mut env: Env = JVMTIEnvironment::new(FakeVm::answering(0));
    let mut cb: EventCallbacks<u8> = EventCallbacks::new();
    cb.method_entry = Some(1);
    assert_eq!(env.set_event_callbacks(cb), None);
    let table = env.native().table_sent.borrow().clone();
    assert_eq!(table.len(), 35);
    assert!(table[15]);
    assert_eq!(table.iter().filter(|s| **s).count(), 1);
}

#[test]
fn notification_mode_is_sent_with_the_event_number() {
    let mut env: Env = JVMTIEnvironment::new(FakeVm::answering(0));
    assert_eq!(env.set_event_notification_mode(VMEvent::MethodExit, true), None);
    assert_eq!(env.native().mode_sent.get(), (1, 66));
    let mut failing: Env = JVMTIEnvironment::new(FakeVm::answering(102));
    assert_eq!(failing.set_event_notification_mode(VMEvent::VmInit, false), Some(NativeError::InvalidEventType));
    assert_eq!(failing.set_event_callbacks(EventCallbacks::new()), Some(NativeError::InvalidEventType));
}

#[test]
fn thread_info_is_decoded() {
    let env: Env = JVMTIEnvironment::new(FakeVm::answering(0));
    let t = env.get_thread_info(&ThreadId { native_id: 3 }).unwrap();
    assert_eq!(t.id, ThreadId { native_id: 3 });
    assert_eq!(t.name, "main");
    assert_eq!(t.priority, 5);
    assert!(t.is_daemon);
    assert_eq!(t.context_class_loader, ObjectId { native_id: 0x99 });
    let mut unnamed = FakeVm::answering(0);
    unnamed.name = None;
    let env2: Env = JVMTIEnvironment::new(unnamed);
    assert_eq!(env2.get_thread_info(&ThreadId { native_id: 3 }).unwrap().name, "(NULL)");
    assert_eq!(env2.get_method_name(&MethodId { native_id: 3 }).unwrap().name, "(NULL)");
    let bad: Env = JVMTIEnvironment::new(FakeVm::answering(10));
    assert!(matches!(bad.get_thread_info(&ThreadId { native_id: 3 }), Err(NativeError::InvalidThread)));
}

#[test]
fn method_and_class_queries_are_marshalled() {
    let env: Env = JVMTIEnvironment::new(FakeVm::answering(0));
    assert_eq!(env.get_method_declaring_class(&MethodId { native_id: 4 }), Ok(ClassId { native_id: 5 }));
    assert_eq!(env.get_method_name(&MethodId { native_id: 4 }).unwrap().name, "main");
    assert_eq!(env.get_class_signature(&ClassId { native_id: 4 }).unwrap().signature, "Ljava/lang/String;");
    let v = env.get_version_number();
    assert_eq!((v.major_version, v.minor_version, v.micro_version), (1, 2, 0));
    let bad: Env = JVMTIEnvironment::new(FakeVm::answering(23));
    assert_eq!(bad.get_method_declaring_class(&MethodId { native_id: 4 }), Err(NativeError::InvalidMethodId));
}

#[test]
fn allocation_passes_the_size_and_keeps_the_length() {
    let env: Env = JVMTIEnvironment::new(FakeVm::answering(0));
    let block = env.allocate(128).unwrap();
    assert_eq!((block.ptr, block.len), (0xdead0, 128));
    assert_eq!(env.native().allocated.get(), 128);
    let full: Env = JVMTIEnvironment::new(FakeVm::answering(110));
    assert_eq!(full.allocate(8), Err(NativeError::OutOfMemory));
    env.deallocate();
}
