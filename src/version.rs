use vstd::prelude::*;

verus! {

/// A version of the native interface: major, minor and micro numbers.
#[derive(Clone, Copy, Debug, PartialEq, Eq, Structural)]
pub struct VersionNumber {
    pub major_version: u16,
    pub minor_version: u8,
    pub micro_version: u8,
}

/// Bits 16 to 27 of the packed value.
pub open spec fn major_of(v: u32) -> int {
    (v as int / 65536) % 4096
}

/// Bits 8 to 15 of the packed value.
pub open spec fn minor_of(v: u32) -> int {
    (v as int / 256) % 256
}

/// Bits 0 to 7 of the packed value.
pub open spec fn micro_of(v: u32) -> int {
    v as int % 256
}

impl VersionNumber {
    /// Decodes a packed native version; the interface-type bits 28 to 30 are not part of it.
    pub fn from_u32(version: &u32) -> (r: VersionNumber)
        ensures
            r.major_version as int == major_of(*version),
            r.minor_version as int == minor_of(*version),
            r.micro_version as int == micro_of(*version),
    {
        let v: u32 = *version;
        let major: u32 = (v >> 16u32) & 0x0FFFu32;
        let minor: u32 = (v >> 8u32) & 0xFFu32;
        let micro: u32 = v & 0xFFu32;
        assert(major == (v / 65536) % 4096) by (bit_vector)
            requires
                major == (v >> 16u32) & 0x0FFFu32,
        ;
        assert(minor == (v / 256) % 256) by (bit_vector)
            requires
                minor == (v >> 8u32) & 0xFFu32,
        ;
        assert(micro == v % 256) by (bit_vector)
            requires
                micro == v & 0xFFu32,
        ;
        VersionNumber {
            major_version: major as u16,
            minor_version: minor as u8,
            micro_version: micro as u8,
        }
    }

    /// The version reported where no native query can be made.
    pub fn unknown() -> (r: VersionNumber)
        ensures
            r.major_version == 0 && r.minor_version == 0 && r.micro_version == 0,
    {
        VersionNumber { major_version: 0, minor_version: 0, micro_version: 0 }
    }
}

} // verus!
