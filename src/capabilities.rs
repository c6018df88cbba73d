use vstd::prelude::*;

verus! {

/// One named optional feature of the native interface, in the order of the native bit layout.
#[derive(Clone, Copy, Debug, PartialEq, Eq, Structural)]
pub enum Capability {
    CanTagObjects,
    CanGenerateFieldModificationEvents,
    CanGenerateFieldAccessEvents,
    CanGetBytecodes,
    CanGetSyntheticAttribute,
    CanGetOwnedMonitorInfo,
    CanGetCurrentContendedMonitor,
    CanGetMonitorInfo,
    CanPopFrame,
    CanRedefineClasses,
    CanSignalThread,
    CanGetSourceFileName,
    CanGetLineNumbers,
    CanGetSourceDebugExtension,
    CanAccessLocalVariables,
    CanMaintainOriginalMethodOrder,
    CanGenerateSingleStepEvents,
    CanGenerateExceptionEvents,
    CanGenerateFramePopEvents,
    CanGenerateBreakpointEvents,
    CanSuspend,
    CanRedefineAnyClass,
    CanGetCurrentThreadCpuTime,
    CanGetThreadCpuTime,
    CanGenerateMethodEntryEvents,
    CanGenerateMethodExitEvents,
    CanGenerateAllClassHookEvents,
    CanGenerateCompiledMethodLoadEvents,
    CanGenerateMonitorEvents,
    CanGenerateVmObjectAllocEvents,
    CanGenerateNativeMethodBindEvents,
    CanGenerateGarbageCollectionEvents,
    CanGenerateObjectFreeEvents,
    CanForceEarlyReturn,
    CanGetOwnedMonitorStackDepthInfo,
    CanGetConstantPool,
    CanSetNativeMethodPrefix,
    CanRetransformClasses,
    CanRetransformAnyClass,
    CanGenerateResourceExhaustionHeapEvents,
    CanGenerateResourceExhaustionThreadsEvents,
}

/// The number of capabilities, and so of meaningful bits in the native representation.
pub const CAPABILITY_COUNT: u64 = 41;

/// All bits that stand for a capability.
pub const CAPABILITY_MASK: u64 = 0x1FF_FFFF_FFFF;

/// The bit position of a capability in the native representation.
pub open spec fn bit_of(k: Capability) -> u64 {
    match k {
        Capability::CanTagObjects => 0,
        Capability::CanGenerateFieldModificationEvents => 1,
        Capability::CanGenerateFieldAccessEvents => 2,
        Capability::CanGetBytecodes => 3,
        Capability::CanGetSyntheticAttribute => 4,
        Capability::CanGetOwnedMonitorInfo => 5,
        Capability::CanGetCurrentContendedMonitor => 6,
        Capability::CanGetMonitorInfo => 7,
        Capability::CanPopFrame => 8,
        Capability::CanRedefineClasses => 9,
        Capability::CanSignalThread => 10,
        Capability::CanGetSourceFileName => 11,
        Capability::CanGetLineNumbers => 12,
        Capability::CanGetSourceDebugExtension => 13,
        Capability::CanAccessLocalVariables => 14,
        Capability::CanMaintainOriginalMethodOrder => 15,
        Capability::CanGenerateSingleStepEvents => 16,
        Capability::CanGenerateExceptionEvents => 17,
        Capability::CanGenerateFramePopEvents => 18,
        Capability::CanGenerateBreakpointEvents => 19,
        Capability::CanSuspend => 20,
        Capability::CanRedefineAnyClass => 21,
        Capability::CanGetCurrentThreadCpuTime => 22,
        Capability::CanGetThreadCpuTime => 23,
        Capability::CanGenerateMethodEntryEvents => 24,
        Capability::CanGenerateMethodExitEvents => 25,
        Capability::CanGenerateAllClassHookEvents => 26,
        Capability::CanGenerateCompiledMethodLoadEvents => 27,
        Capability::CanGenerateMonitorEvents => 28,
        Capability::CanGenerateVmObjectAllocEvents => 29,
        Capability::CanGenerateNativeMethodBindEvents => 30,
        Capability::CanGenerateGarbageCollectionEvents => 31,
        Capability::CanGenerateObjectFreeEvents => 32,
        Capability::CanForceEarlyReturn => 33,
        Capability::CanGetOwnedMonitorStackDepthInfo => 34,
        Capability::CanGetConstantPool => 35,
        Capability::CanSetNativeMethodPrefix => 36,
        Capability::CanRetransformClasses => 37,
        Capability::CanRetransformAnyClass => 38,
        Capability::CanGenerateResourceExhaustionHeapEvents => 39,
        Capability::CanGenerateResourceExhaustionThreadsEvents => 40,
    }
}

impl Capability {
    /// The bit position of this capability in the native representation.
    pub fn bit(self) -> (r: u64)
        ensures
            r == bit_of(self),
            r < CAPABILITY_COUNT,
    {
        match self {
            Capability::CanTagObjects => 0,
            Capability::CanGenerateFieldModificationEvents => 1,
            Capability::CanGenerateFieldAccessEvents => 2,
            Capability::CanGetBytecodes => 3,
            Capability::CanGetSyntheticAttribute => 4,
            Capability::CanGetOwnedMonitorInfo => 5,
            Capability::CanGetCurrentContendedMonitor => 6,
            Capability::CanGetMonitorInfo => 7,
            Capability::CanPopFrame => 8,
            Capability::CanRedefineClasses => 9,
            Capability::CanSignalThread => 10,
            Capability::CanGetSourceFileName => 11,
            Capability::CanGetLineNumbers => 12,
            Capability::CanGetSourceDebugExtension => 13,
            Capability::CanAccessLocalVariables => 14,
            Capability::CanMaintainOriginalMethodOrder => 15,
            Capability::CanGenerateSingleStepEvents => 16,
            Capability::CanGenerateExceptionEvents => 17,
            Capability::CanGenerateFramePopEvents => 18,
            Capability::CanGenerateBreakpointEvents => 19,
            Capability::CanSuspend => 20,
            Capability::CanRedefineAnyClass => 21,
            Capability::CanGetCurrentThreadCpuTime => 22,
            Capability::CanGetThreadCpuTime => 23,
            Capability::CanGenerateMethodEntryEvents => 24,
            Capability::CanGenerateMethodExitEvents => 25,
            Capability::CanGenerateAllClassHookEvents => 26,
            Capability::CanGenerateCompiledMethodLoadEvents => 27,
            Capability::CanGenerateMonitorEvents => 28,
            Capability::CanGenerateVmObjectAllocEvents => 29,
            Capability::CanGenerateNativeMethodBindEvents => 30,
            Capability::CanGenerateGarbageCollectionEvents => 31,
            Capability::CanGenerateObjectFreeEvents => 32,
            Capability::CanForceEarlyReturn => 33,
            Capability::CanGetOwnedMonitorStackDepthInfo => 34,
            Capability::CanGetConstantPool => 35,
            Capability::CanSetNativeMethodPrefix => 36,
            Capability::CanRetransformClasses => 37,
            Capability::CanRetransformAnyClass => 38,
            Capability::CanGenerateResourceExhaustionHeapEvents => 39,
            Capability::CanGenerateResourceExhaustionThreadsEvents => 40,
        }
    }
}

/// A set of capabilities, held as the native bit vector: bit `bit_of(k)` is set when `k` is in
/// the set.
#[derive(Clone, Copy, Debug, PartialEq, Eq, Structural)]
pub struct Capabilities {
    bits: u64,
}

/// Whether bit `i` of `bits` is set.
pub open spec fn bit_set(bits: u64, i: u64) -> bool {
    (bits >> i) & 1u64 == 1u64
}

impl Capabilities {
    /// The native bit vector of the set.
    pub closed spec fn bits_spec(self) -> u64 {
        self.bits
    }

    /// Whether capability `k` is in the set.
    pub open spec fn contains(self, k: Capability) -> bool {
        bit_set(self.bits_spec(), bit_of(k))
    }

    /// The set holds no bit that stands for no capability.
    pub open spec fn wf(self) -> bool {
        self.bits_spec() & !CAPABILITY_MASK == 0
    }

    /// The empty set: every capability false.
    pub fn new() -> (r: Capabilities)
        ensures
            r.bits_spec() == 0,
            r.wf(),
            forall|k: Capability| !r.contains(k),
    {
        assert forall|i: u64| i < 64 implies !bit_set(0u64, i) by {
            assert((0u64 >> i) & 1u64 == 0u64) by (bit_vector);
        }
        assert(0u64 & !0x1FF_FFFF_FFFFu64 == 0) by (bit_vector);
        Capabilities { bits: 0 }
    }

    /// Decodes the native bit vector; bits that stand for no capability are dropped.
    pub fn from_native(native: &u64) -> (r: Capabilities)
        ensures
            r.bits_spec() == *native & CAPABILITY_MASK,
            r.wf(),
            forall|k: Capability| r.contains(k) == bit_set(*native, bit_of(k)),
    {
        let bits: u64 = *native & CAPABILITY_MASK;
        let n: u64 = *native;
        assert forall|k: Capability| bit_set(bits, bit_of(k)) == bit_set(n, bit_of(k)) by {
            let i = bit_of(k);
            assert(i < 41);
            assert(i < 41 ==> ((n & 0x1FF_FFFF_FFFFu64) >> i) & 1u64 == (n >> i) & 1u64)
                by (bit_vector);
        }
        assert((n & 0x1FF_FFFF_FFFFu64) & !0x1FF_FFFF_FFFFu64 == 0) by (bit_vector);
        Capabilities { bits }
    }

    /// The native bit vector of the set.
    pub fn to_native(&self) -> (r: u64)
        ensures
            r == self.bits_spec(),
    {
        self.bits
    }

    /// Whether capability `k` is in the set.
    pub fn has(&self, k: Capability) -> (r: bool)
        ensures
            r == self.contains(k),
    {
        let i = k.bit();
        (self.bits >> i) & 1u64 == 1u64
    }

    /// Puts `k` in the set or takes it out, leaving every other capability as it was.
    pub fn set(&mut self, k: Capability, value: bool)
        requires
            old(self).wf(),
        ensures
            final(self).wf(),
            final(self).contains(k) == value,
            forall|j: Capability| j != k ==> final(self).contains(j) == old(self).contains(j),
    {
        let i = k.bit();
        let b: u64 = self.bits;
        let one: u64 = 1u64 << i;
        let nb: u64 = if value { b | one } else { b & !one };
        assert forall|j: Capability| j != k implies bit_set(nb, bit_of(j)) == bit_set(b, bit_of(j)) by {
            let m = bit_of(j);
            assert(m != i) by {
                lemma_bit_of_injective(j, k);
            }
            assert(m < 64 && i < 64 && m != i && one == 1u64 << i ==> (((b | one) >> m) & 1u64 == (b >> m) & 1u64 && ((b & !one) >> m) & 1u64 == (b >> m) & 1u64)) by (bit_vector);
        }
        assert(i < 64 && one == 1u64 << i ==> (((b | one) >> i) & 1u64 == 1u64 && ((b & !one) >> i) & 1u64 == 0u64)) by (bit_vector);
        assert(i < 41 && one == 1u64 << i && b & !0x1FF_FFFF_FFFFu64 == 0 ==> ((b | one) & !0x1FF_FFFF_FFFFu64 == 0 && (b & !one) & !0x1FF_FFFF_FFFFu64 == 0)) by (bit_vector);
        self.bits = nb;
    }

    /// The union of two sets: a capability is in the result when it is in either.
    pub fn merge(&self, other: &Capabilities) -> (r: Capabilities)
        ensures
            r == merged(*self, *other),
            forall|k: Capability| r.contains(k) == (self.contains(k) || other.contains(k)),
            self.wf() && other.wf() ==> r.wf(),
    {
        let a: u64 = self.bits;
        let b: u64 = other.bits;
        assert forall|k: Capability| bit_set(a | b, bit_of(k)) == (bit_set(a, bit_of(k)) || bit_set(b, bit_of(k))) by {
            let i = bit_of(k);
            assert(i < 64 ==> ((((a | b) >> i) & 1u64 == 1u64) == (((a >> i) & 1u64 == 1u64) || ((b >> i) & 1u64 == 1u64)))) by (bit_vector);
        }
        assert(a & !0x1FF_FFFF_FFFFu64 == 0 && b & !0x1FF_FFFF_FFFFu64 == 0 ==> (a | b) & !0x1FF_FFFF_FFFFu64 == 0) by (bit_vector);
        Capabilities { bits: a | b }
    }
}

/// The union of two sets, as a value.
pub open spec fn merged(a: Capabilities, b: Capabilities) -> Capabilities {
    Capabilities::from_bits(a.bits_spec() | b.bits_spec())
}

impl Capabilities {
    /// The set whose native bit vector is `bits`.
    pub closed spec fn from_bits(bits: u64) -> Capabilities {
        Capabilities { bits }
    }
}

/// Distinct capabilities have distinct bit positions.
pub proof fn lemma_bit_of_injective(a: Capability, b: Capability)
    ensures
        bit_of(a) == bit_of(b) ==> a == b,
{
}

/// Merging is commutative and idempotent, and merging with the empty set changes nothing.
pub proof fn lemma_merge_laws(a: Capabilities, b: Capabilities)
    ensures
        merged(a, b) == merged(b, a),
        merged(a, a) == a,
        merged(a, Capabilities::from_bits(0)) == a,
        forall|k: Capability| merged(a, b).contains(k) == (a.contains(k) || b.contains(k)),
{
    let x = a.bits_spec();
    let y = b.bits_spec();
    assert(x | y == y | x) by (bit_vector);
    assert(x | x == x) by (bit_vector);
    assert(x | 0u64 == x) by (bit_vector);
    assert forall|k: Capability| merged(a, b).contains(k) == (a.contains(k) || b.contains(k)) by {
        let i = bit_of(k);
        assert(i < 64 ==> ((((x | y) >> i) & 1u64 == 1u64) == (((x >> i) & 1u64 == 1u64) || ((y >> i) & 1u64 == 1u64)))) by (bit_vector);
    }
}

/// Merging is associative.
pub proof fn lemma_merge_associative(a: Capabilities, b: Capabilities, c: Capabilities)
    ensures
        merged(merged(a, b), c) == merged(a, merged(b, c)),
{
    let x = a.bits_spec();
    let y = b.bits_spec();
    let z = c.bits_spec();
    assert((x | y) | z == x | (y | z)) by (bit_vector);
}

} // verus!
