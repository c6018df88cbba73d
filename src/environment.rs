use vstd::prelude::*;
use crate::capabilities::{Capabilities, merged};
use crate::error::NativeError;
use crate::event::{EventCallbacks, VMEvent, EVENT_KIND_COUNT, index_of, lemma_slots_consistent};
use crate::ids::{ClassId, MethodId, ObjectId, ThreadId};
use crate::records::{ClassSignature, JVMTIClassDefinition, MemoryAllocation, MethodSignature, Thread};
use crate::version::VersionNumber;

verus! {

/// The notification table held in `events`, one entry per kind.
pub open spec fn table_map(events: Seq<bool>) -> Map<VMEvent, bool> {
    Map::new(|k: VMEvent| true, |k: VMEvent| events[index_of(k)])
}

/// Setting the entry of kind `k` sets that kind in the map and no other.
pub(crate) proof fn lemma_table_update(events: Seq<bool>, k: VMEvent, on: bool)
    requires
        events.len() == EVENT_KIND_COUNT,
    ensures
        table_map(events.update(index_of(k), on)) == table_map(events).insert(k, on),
{
    assert forall|j: VMEvent| #[trigger] table_map(events.update(index_of(k), on))[j] == table_map(
        events,
    ).insert(k, on)[j] by {
        lemma_slots_consistent(j, k);
    }
    assert(table_map(events.update(index_of(k), on)) =~= table_map(events).insert(k, on));
}

/// A copy of `table` with entry `i` set to `on`.
pub(crate) fn with_entry(table: &Vec<bool>, i: usize, on: bool) -> (r: Vec<bool>)
    requires
        i < table@.len(),
    ensures
        r@ == table@.update(i as int, on),
{
    let mut out: Vec<bool> = Vec::new();
    let mut j: usize = 0;
    while j < table.len()
        invariant
            j <= table@.len(),
            i < table@.len(),
            out@ == table@.update(i as int, on).subrange(0, j as int),
        decreases table@.len() - j,
    {
        let v = if j == i { on } else { table[j] };
        out.push(v);
        j = j + 1;
        assert(out@ =~= table@.update(i as int, on).subrange(0, j as int));
    }
    assert(out@ =~= table@.update(i as int, on));
    out
}

/// A notification table with every kind disabled.
pub(crate) fn disabled_table() -> (r: Vec<bool>)
    ensures
        r@.len() == EVENT_KIND_COUNT,
        forall|j: int| 0 <= j < EVENT_KIND_COUNT ==> !r@[j],
{
    let mut events: Vec<bool> = Vec::new();
    let mut i: usize = 0;
    while i < EVENT_KIND_COUNT
        invariant
            i <= EVENT_KIND_COUNT,
            events@.len() == i,
            forall|j: int| 0 <= j < i ==> !events@[j],
        decreases EVENT_KIND_COUNT - i,
    {
        events.push(false);
        i = i + 1;
    }
    events
}

/// A table of all-disabled entries disables every kind.
pub(crate) proof fn lemma_disabled_table(events: Seq<bool>)
    requires
        events.len() == EVENT_KIND_COUNT,
        forall|j: int| 0 <= j < EVENT_KIND_COUNT ==> !events[j],
    ensures
        forall|k: VMEvent| table_map(events).contains_key(k) && !table_map(events)[k],
{
    assert forall|k: VMEvent| table_map(events).contains_key(k) && !table_map(events)[k] by {
        lemma_slots_consistent(k, k);
    }
}

/// One configuration call on the event tables.
pub enum EventOp<H> {
    /// Enable or disable notification of one kind.
    Mode(VMEvent, bool),
    /// Replace the whole handler registry.
    Callbacks(EventCallbacks<H>),
}

/// Whether notification of `k` is enabled in `enabled`; kinds never set are disabled.
pub open spec fn is_on(enabled: Map<VMEvent, bool>, k: VMEvent) -> bool {
    enabled.contains_key(k) && enabled[k]
}

/// Whether an event of kind `k` is delivered: it must be enabled and have a handler.
pub open spec fn fires<H>(handlers: EventCallbacks<H>, enabled: Map<VMEvent, bool>, k: VMEvent) -> bool {
    is_on(enabled, k) && handlers.registered(k)
}

/// The handler registry after one successful configuration call.
pub open spec fn handlers_after_op<H>(handlers: EventCallbacks<H>, op: EventOp<H>) -> EventCallbacks<H> {
    match op {
        EventOp::Mode(_, _) => handlers,
        EventOp::Callbacks(c) => c,
    }
}

/// The notification table after one successful configuration call.
pub open spec fn enabled_after_op<H>(enabled: Map<VMEvent, bool>, op: EventOp<H>) -> Map<VMEvent, bool> {
    match op {
        EventOp::Mode(k, on) => enabled.insert(k, on),
        EventOp::Callbacks(_) => enabled,
    }
}

/// The handler registry after a sequence of successful configuration calls.
pub open spec fn handlers_after<H>(handlers: EventCallbacks<H>, ops: Seq<EventOp<H>>) -> EventCallbacks<H>
    decreases ops.len(),
{
    if ops.len() == 0 {
        handlers
    } else {
        handlers_after_op(handlers_after(handlers, ops.drop_last()), ops.last())
    }
}

/// The notification table after a sequence of successful configuration calls.
pub open spec fn enabled_after<H>(enabled: Map<VMEvent, bool>, ops: Seq<EventOp<H>>) -> Map<VMEvent, bool>
    decreases ops.len(),
{
    if ops.len() == 0 {
        enabled
    } else {
        enabled_after_op(enabled_after(enabled, ops.drop_last()), ops.last())
    }
}

/// The mode that the last call in `ops` to set `k` gave, or the starting mode if none did.
pub open spec fn last_mode<H>(enabled: Map<VMEvent, bool>, ops: Seq<EventOp<H>>, k: VMEvent) -> bool
    decreases ops.len(),
{
    if ops.len() == 0 {
        is_on(enabled, k)
    } else {
        match ops.last() {
            EventOp::Mode(j, on) => if j == k {
                on
            } else {
                last_mode(enabled, ops.drop_last(), k)
            },
            EventOp::Callbacks(_) => last_mode(enabled, ops.drop_last(), k),
        }
    }
}

/// The registry that the last replacement in `ops` installed, or the starting one if none did.
pub open spec fn last_callbacks<H>(handlers: EventCallbacks<H>, ops: Seq<EventOp<H>>) -> EventCallbacks<H>
    decreases ops.len(),
{
    if ops.len() == 0 {
        handlers
    } else {
        match ops.last() {
            EventOp::Mode(_, _) => last_callbacks(handlers, ops.drop_last()),
            EventOp::Callbacks(c) => c,
        }
    }
}

/// After any sequence of successful configuration calls, an event of kind `k` is delivered
/// exactly when the last mode set for `k` enables it and the last registry installed has a
/// handler for it; the order of the calls matters for nothing else.
pub proof fn lemma_fires_iff_final_state<H>(
    handlers: EventCallbacks<H>,
    enabled: Map<VMEvent, bool>,
    ops: Seq<EventOp<H>>,
    k: VMEvent,
)
    ensures
        fires(handlers_after(handlers, ops), enabled_after(enabled, ops), k) == (last_mode(
            enabled,
            ops,
            k,
        ) && last_callbacks(handlers, ops).registered(k)),
{
    lemma_last_mode(enabled, ops, k);
    lemma_last_callbacks(handlers, ops);
}

/// The notification table after a sequence of calls enables `k` exactly when the last mode set
/// for `k` does.
pub proof fn lemma_last_mode<H>(enabled: Map<VMEvent, bool>, ops: Seq<EventOp<H>>, k: VMEvent)
    ensures
        is_on(enabled_after(enabled, ops), k) == last_mode(enabled, ops, k),
    decreases ops.len(),
{
    if ops.len() > 0 {
        lemma_last_mode(enabled, ops.drop_last(), k);
    }
}

/// The registry after a sequence of calls is the last one installed.
pub proof fn lemma_last_callbacks<H>(handlers: EventCallbacks<H>, ops: Seq<EventOp<H>>)
    ensures
        handlers_after(handlers, ops) == last_callbacks(handlers, ops),
    decreases ops.len(),
{
    if ops.len() > 0 {
        lemma_last_callbacks(handlers, ops.drop_last());
    }
}

/// Setting a mode and replacing the registry give the same state in either order.
pub proof fn lemma_mode_and_callbacks_commute<H>(
    handlers: EventCallbacks<H>,
    enabled: Map<VMEvent, bool>,
    k: VMEvent,
    on: bool,
    callbacks: EventCallbacks<H>,
)
    ensures
        handlers_after(handlers, seq![EventOp::Mode(k, on), EventOp::Callbacks(callbacks)])
            == handlers_after(handlers, seq![EventOp::Callbacks(callbacks), EventOp::Mode(k, on)]),
        enabled_after(enabled, seq![EventOp::Mode(k, on), EventOp::Callbacks(callbacks)])
            == enabled_after(enabled, seq![EventOp::Callbacks(callbacks), EventOp::Mode(k, on)]),
{
    let s1 = seq![EventOp::Mode(k, on), EventOp::Callbacks(callbacks)];
    let s2 = seq![EventOp::Callbacks(callbacks), EventOp::Mode(k, on)];
    assert(s1.drop_last() =~= seq![EventOp::Mode(k, on)]);
    assert(s2.drop_last() =~= seq![EventOp::Callbacks(callbacks)]);
    assert(s1.drop_last().drop_last() =~= Seq::<EventOp<H>>::empty());
    assert(s2.drop_last().drop_last() =~= Seq::<EventOp<H>>::empty());
    reveal_with_fuel(handlers_after, 3);
    reveal_with_fuel(enabled_after, 3);
}

/// The operations of a tool environment. The native environment and the emulated one both meet
/// these contracts, so one can stand in for the other.
///
/// `capabilities`, `handlers` and `enabled_map` are the configuration that the environment
/// holds: the capabilities granted so far, the handler registry, and the notification table.
pub trait JVMTI<H>: Sized {
    spec fn capabilities(&self) -> Capabilities;

    spec fn handlers(&self) -> EventCallbacks<H>;

    spec fn enabled_map(&self) -> Map<VMEvent, bool>;

    /// The version of the native interface.
    fn get_version_number(&self) -> VersionNumber;

    /// Adds the capabilities that are set in `new_capabilities`, keeping all earlier ones. On
    /// failure nothing is added.
    fn add_capabilities(&mut self, new_capabilities: &Capabilities) -> (r: Result<Capabilities, NativeError>)
        ensures
            match r {
                Ok(c) => c == final(self).capabilities() && final(self).capabilities() == merged(
                    old(self).capabilities(),
                    *new_capabilities,
                ),
                Err(e) => e != NativeError::NoError && final(self).capabilities() == old(
                    self,
                ).capabilities(),
            },
            final(self).handlers() == old(self).handlers(),
            final(self).enabled_map() == old(self).enabled_map(),
    ;

    /// The capabilities granted so far.
    fn get_capabilities(&self) -> (r: Capabilities)
        ensures
            r == self.capabilities(),
    ;

    /// The classes that the given class loader has loaded.
    fn get_class_loader_loaded_classes(&self, class_loader: ObjectId) -> (r: Result<Vec<ClassId>, NativeError>)
        ensures
            r matches Err(e) ==> e != NativeError::NoError,
    ;

    /// All classes loaded so far.
    fn get_loaded_classes(&self) -> (r: Result<Vec<ClassId>, NativeError>)
        ensures
            r matches Err(e) ==> e != NativeError::NoError,
    ;

    /// Replaces the whole handler registry at once; on failure the old one stays.
    fn set_event_callbacks(&mut self, callbacks: EventCallbacks<H>) -> (r: Option<NativeError>)
        ensures
            match r {
                None => final(self).handlers() == callbacks,
                Some(e) => e != NativeError::NoError && final(self).handlers() == old(self).handlers(),
            },
            final(self).capabilities() == old(self).capabilities(),
            final(self).enabled_map() == old(self).enabled_map(),
    ;

    /// Enables or disables notification of one kind of event, whether or not a handler is
    /// registered for it; on failure the table stays as it was.
    fn set_event_notification_mode(&mut self, event: VMEvent, mode: bool) -> (r: Option<NativeError>)
        ensures
            match r {
                None => final(self).enabled_map() == old(self).enabled_map().insert(event, mode),
                Some(e) => e != NativeError::NoError && final(self).enabled_map() == old(
                    self,
                ).enabled_map(),
            },
            final(self).capabilities() == old(self).capabilities(),
            final(self).handlers() == old(self).handlers(),
    ;

    /// Replaces the definitions of the given classes with the given class files.
    fn redefine_classes(&self, class_definitions: &[JVMTIClassDefinition]) -> (r: Result<(), NativeError>)
        ensures
            r matches Err(e) ==> e != NativeError::NoError,
    ;

    /// Asks for the given classes to be transformed again.
    fn retransform_classes(&self, classes: &[ClassId]) -> (r: Result<(), NativeError>)
        ensures
            r matches Err(e) ==> e != NativeError::NoError,
    ;

    /// All live threads.
    fn get_all_threads(&self) -> (r: Result<Vec<ThreadId>, NativeError>)
        ensures
            r matches Err(e) ==> e != NativeError::NoError,
    ;

    /// What the native interface reports of a thread.
    fn get_thread_info(&self, thread_id: &ThreadId) -> (r: Result<Thread, NativeError>)
        ensures
            r matches Ok(t) ==> t.id == *thread_id,
            r matches Err(e) ==> e != NativeError::NoError,
    ;

    /// The class that declares a method.
    fn get_method_declaring_class(&self, method_id: &MethodId) -> (r: Result<ClassId, NativeError>)
        ensures
            r matches Err(e) ==> e != NativeError::NoError,
    ;

    /// The name of a method.
    fn get_method_name(&self, method_id: &MethodId) -> (r: Result<MethodSignature, NativeError>)
        ensures
            r matches Err(e) ==> e != NativeError::NoError,
    ;

    /// The type descriptor of a class.
    fn get_class_signature(&self, class_id: &ClassId) -> (r: Result<ClassSignature, NativeError>)
        ensures
            r matches Err(e) ==> e != NativeError::NoError,
    ;

    /// A block of `len` bytes from the native allocator.
    fn allocate(&self, len: usize) -> (r: Result<MemoryAllocation, NativeError>)
        ensures
            r matches Ok(m) ==> m.len == len,
            r matches Err(e) ==> e != NativeError::NoError,
    ;

    /// Releases memory; the caller decides when.
    fn deallocate(&self);
}

/// What the configuration calls on an environment add up to: after any sequence of successful
/// calls, the environment's own tables are those of the model, so an event of kind `k` is
/// delivered exactly when the last mode set for `k` enables it and the last registry installed
/// has a handler for it.
pub proof fn lemma_environment_fires<H, E: JVMTI<H>>(start: E, ops: Seq<EventOp<H>>, end: E, k: VMEvent)
    requires
        end.handlers() == handlers_after(start.handlers(), ops),
        end.enabled_map() == enabled_after(start.enabled_map(), ops),
    ensures
        fires(end.handlers(), end.enabled_map(), k) == (last_mode(start.enabled_map(), ops, k)
            && last_callbacks(start.handlers(), ops).registered(k)),
{
    lemma_fires_iff_final_state(start.handlers(), start.enabled_map(), ops, k);
}

} // verus!
