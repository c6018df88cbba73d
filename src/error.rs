use vstd::prelude::*;

verus! {

/// The closed set of errors that an environment operation can report.
///
/// Every variant but the last two corresponds to one native status code; `NoError` is the
/// native success status and is never returned as an error by the environment operations.
#[derive(Clone, Copy, Debug, PartialEq, Eq, Structural)]
pub enum NativeError {
    NoError,
    InvalidThread,
    InvalidThreadGroup,
    InvalidPriority,
    ThreadNotSuspended,
    ThreadSuspended,
    ThreadNotAlive,
    InvalidObject,
    InvalidClass,
    ClassNotPrepared,
    InvalidMethodId,
    InvalidLocation,
    InvalidFieldId,
    InvalidModule,
    NoMoreFrames,
    OpaqueFrame,
    TypeMismatch,
    InvalidSlot,
    Duplicate,
    NotFound,
    InvalidMonitor,
    NotMonitorOwner,
    Interrupt,
    InvalidClassFormat,
    CircularClassDefinition,
    FailsVerification,
    UnsupportedRedefinitionMethodAdded,
    UnsupportedRedefinitionSchemaChange,
    InvalidTypestate,
    UnsupportedRedefinitionHierarchyChange,
    UnsupportedRedefinitionMethodDeleted,
    UnsupportedVersion,
    NamesDontMatch,
    UnsupportedRedefinitionClassModifiersChanged,
    UnsupportedRedefinitionMethodModifiersChanged,
    UnsupportedRedefinitionClassAttributeChanged,
    UnmodifiableClass,
    UnmodifiableModule,
    NotAvailable,
    MustPossessCapability,
    NullPointer,
    AbsentInformation,
    InvalidEventType,
    IllegalArgument,
    NativeMethod,
    ClassLoaderUnsupported,
    OutOfMemory,
    AccessDenied,
    WrongPhase,
    InternalError,
    UnattachedThread,
    InvalidEnvironment,
    /// The operation has not been wired to a native call.
    NotImplemented,
    /// A native status code outside the defined set.
    UnknownError,
}

/// Whether `code` is one of the status codes that the native interface defines.
pub open spec fn is_defined_status(code: u32) -> bool {
    code == 0
        || code == 10
        || code == 11
        || code == 12
        || code == 13
        || code == 14
        || code == 15
        || code == 20
        || code == 21
        || code == 22
        || code == 23
        || code == 24
        || code == 25
        || code == 26
        || code == 31
        || code == 32
        || code == 34
        || code == 35
        || code == 40
        || code == 41
        || code == 50
        || code == 51
        || code == 52
        || code == 60
        || code == 61
        || code == 62
        || code == 63
        || code == 64
        || code == 65
        || code == 66
        || code == 67
        || code == 68
        || code == 69
        || code == 70
        || code == 71
        || code == 72
        || code == 79
        || code == 80
        || code == 98
        || code == 99
        || code == 100
        || code == 101
        || code == 102
        || code == 103
        || code == 104
        || code == 106
        || code == 110
        || code == 111
        || code == 112
        || code == 113
        || code == 115
        || code == 116
}

/// The error kind that a native status code stands for.
pub open spec fn error_of(code: u32) -> NativeError {
    match code {
        0u32 => NativeError::NoError,
        10u32 => NativeError::InvalidThread,
        11u32 => NativeError::InvalidThreadGroup,
        12u32 => NativeError::InvalidPriority,
        13u32 => NativeError::ThreadNotSuspended,
        14u32 => NativeError::ThreadSuspended,
        15u32 => NativeError::ThreadNotAlive,
        20u32 => NativeError::InvalidObject,
        21u32 => NativeError::InvalidClass,
        22u32 => NativeError::ClassNotPrepared,
        23u32 => NativeError::InvalidMethodId,
        24u32 => NativeError::InvalidLocation,
        25u32 => NativeError::InvalidFieldId,
        26u32 => NativeError::InvalidModule,
        31u32 => NativeError::NoMoreFrames,
        32u32 => NativeError::OpaqueFrame,
        34u32 => NativeError::TypeMismatch,
        35u32 => NativeError::InvalidSlot,
        40u32 => NativeError::Duplicate,
        41u32 => NativeError::NotFound,
        50u32 => NativeError::InvalidMonitor,
        51u32 => NativeError::NotMonitorOwner,
        52u32 => NativeError::Interrupt,
        60u32 => NativeError::InvalidClassFormat,
        61u32 => NativeError::CircularClassDefinition,
        62u32 => NativeError::FailsVerification,
        63u32 => NativeError::UnsupportedRedefinitionMethodAdded,
        64u32 => NativeError::UnsupportedRedefinitionSchemaChange,
        65u32 => NativeError::InvalidTypestate,
        66u32 => NativeError::UnsupportedRedefinitionHierarchyChange,
        67u32 => NativeError::UnsupportedRedefinitionMethodDeleted,
        68u32 => NativeError::UnsupportedVersion,
        69u32 => NativeError::NamesDontMatch,
        70u32 => NativeError::UnsupportedRedefinitionClassModifiersChanged,
        71u32 => NativeError::UnsupportedRedefinitionMethodModifiersChanged,
        72u32 => NativeError::UnsupportedRedefinitionClassAttributeChanged,
        79u32 => NativeError::UnmodifiableClass,
        80u32 => NativeError::UnmodifiableModule,
        98u32 => NativeError::NotAvailable,
        99u32 => NativeError::MustPossessCapability,
        100u32 => NativeError::NullPointer,
        101u32 => NativeError::AbsentInformation,
        102u32 => NativeError::InvalidEventType,
        103u32 => NativeError::IllegalArgument,
        104u32 => NativeError::NativeMethod,
        106u32 => NativeError::ClassLoaderUnsupported,
        110u32 => NativeError::OutOfMemory,
        111u32 => NativeError::AccessDenied,
        112u32 => NativeError::WrongPhase,
        113u32 => NativeError::InternalError,
        115u32 => NativeError::UnattachedThread,
        116u32 => NativeError::InvalidEnvironment,
        _ => NativeError::UnknownError,
    }
}

/// The native status code of an error kind, where it has one.
pub open spec fn status_of(e: NativeError) -> Option<u32> {
    match e {
        NativeError::NoError => Some(0u32),
        NativeError::InvalidThread => Some(10u32),
        NativeError::InvalidThreadGroup => Some(11u32),
        NativeError::InvalidPriority => Some(12u32),
        NativeError::ThreadNotSuspended => Some(13u32),
        NativeError::ThreadSuspended => Some(14u32),
        NativeError::ThreadNotAlive => Some(15u32),
        NativeError::InvalidObject => Some(20u32),
        NativeError::InvalidClass => Some(21u32),
        NativeError::ClassNotPrepared => Some(22u32),
        NativeError::InvalidMethodId => Some(23u32),
        NativeError::InvalidLocation => Some(24u32),
        NativeError::InvalidFieldId => Some(25u32),
        NativeError::InvalidModule => Some(26u32),
        NativeError::NoMoreFrames => Some(31u32),
        NativeError::OpaqueFrame => Some(32u32),
        NativeError::TypeMismatch => Some(34u32),
        NativeError::InvalidSlot => Some(35u32),
        NativeError::Duplicate => Some(40u32),
        NativeError::NotFound => Some(41u32),
        NativeError::InvalidMonitor => Some(50u32),
        NativeError::NotMonitorOwner => Some(51u32),
        NativeError::Interrupt => Some(52u32),
        NativeError::InvalidClassFormat => Some(60u32),
        NativeError::CircularClassDefinition => Some(61u32),
        NativeError::FailsVerification => Some(62u32),
        NativeError::UnsupportedRedefinitionMethodAdded => Some(63u32),
        NativeError::UnsupportedRedefinitionSchemaChange => Some(64u32),
        NativeError::InvalidTypestate => Some(65u32),
        NativeError::UnsupportedRedefinitionHierarchyChange => Some(66u32),
        NativeError::UnsupportedRedefinitionMethodDeleted => Some(67u32),
        NativeError::UnsupportedVersion => Some(68u32),
        NativeError::NamesDontMatch => Some(69u32),
        NativeError::UnsupportedRedefinitionClassModifiersChanged => Some(70u32),
        NativeError::UnsupportedRedefinitionMethodModifiersChanged => Some(71u32),
        NativeError::UnsupportedRedefinitionClassAttributeChanged => Some(72u32),
        NativeError::UnmodifiableClass => Some(79u32),
        NativeError::UnmodifiableModule => Some(80u32),
        NativeError::NotAvailable => Some(98u32),
        NativeError::MustPossessCapability => Some(99u32),
        NativeError::NullPointer => Some(100u32),
        NativeError::AbsentInformation => Some(101u32),
        NativeError::InvalidEventType => Some(102u32),
        NativeError::IllegalArgument => Some(103u32),
        NativeError::NativeMethod => Some(104u32),
        NativeError::ClassLoaderUnsupported => Some(106u32),
        NativeError::OutOfMemory => Some(110u32),
        NativeError::AccessDenied => Some(111u32),
        NativeError::WrongPhase => Some(112u32),
        NativeError::InternalError => Some(113u32),
        NativeError::UnattachedThread => Some(115u32),
        NativeError::InvalidEnvironment => Some(116u32),
        NativeError::NotImplemented => None,
        NativeError::UnknownError => None,
    }
}

/// Maps a native status code to its error kind; codes that the native interface does
/// not define become `UnknownError`.
pub fn wrap_error(code: u32) -> (r: NativeError)
    ensures
        r == error_of(code),
{
    match code {
        0 => NativeError::NoError,
        10 => NativeError::InvalidThread,
        11 => NativeError::InvalidThreadGroup,
        12 => NativeError::InvalidPriority,
        13 => NativeError::ThreadNotSuspended,
        14 => NativeError::ThreadSuspended,
        15 => NativeError::ThreadNotAlive,
        20 => NativeError::InvalidObject,
        21 => NativeError::InvalidClass,
        22 => NativeError::ClassNotPrepared,
        23 => NativeError::InvalidMethodId,
        24 => NativeError::InvalidLocation,
        25 => NativeError::InvalidFieldId,
        26 => NativeError::InvalidModule,
        31 => NativeError::NoMoreFrames,
        32 => NativeError::OpaqueFrame,
        34 => NativeError::TypeMismatch,
        35 => NativeError::InvalidSlot,
        40 => NativeError::Duplicate,
        41 => NativeError::NotFound,
        50 => NativeError::InvalidMonitor,
        51 => NativeError::NotMonitorOwner,
        52 => NativeError::Interrupt,
        60 => NativeError::InvalidClassFormat,
        61 => NativeError::CircularClassDefinition,
        62 => NativeError::FailsVerification,
        63 => NativeError::UnsupportedRedefinitionMethodAdded,
        64 => NativeError::UnsupportedRedefinitionSchemaChange,
        65 => NativeError::InvalidTypestate,
        66 => NativeError::UnsupportedRedefinitionHierarchyChange,
        67 => NativeError::UnsupportedRedefinitionMethodDeleted,
        68 => NativeError::UnsupportedVersion,
        69 => NativeError::NamesDontMatch,
        70 => NativeError::UnsupportedRedefinitionClassModifiersChanged,
        71 => NativeError::UnsupportedRedefinitionMethodModifiersChanged,
        72 => NativeError::UnsupportedRedefinitionClassAttributeChanged,
        79 => NativeError::UnmodifiableClass,
        80 => NativeError::UnmodifiableModule,
        98 => NativeError::NotAvailable,
        99 => NativeError::MustPossessCapability,
        100 => NativeError::NullPointer,
        101 => NativeError::AbsentInformation,
        102 => NativeError::InvalidEventType,
        103 => NativeError::IllegalArgument,
        104 => NativeError::NativeMethod,
        106 => NativeError::ClassLoaderUnsupported,
        110 => NativeError::OutOfMemory,
        111 => NativeError::AccessDenied,
        112 => NativeError::WrongPhase,
        113 => NativeError::InternalError,
        115 => NativeError::UnattachedThread,
        116 => NativeError::InvalidEnvironment,
        _ => NativeError::UnknownError,
    }
}

/// The mapping is total and faithful: a defined status code maps to the one kind whose code it
/// is, and every other code maps to the catch-all kind.
pub proof fn lemma_status_mapping_total(code: u32)
    ensures
        is_defined_status(code) ==> status_of(error_of(code)) == Some(code),
        !is_defined_status(code) ==> error_of(code) == NativeError::UnknownError,
        error_of(code) == NativeError::NoError <==> code == 0,
{
}

/// Turns a native status into the result of an operation that returns nothing on success.
pub fn status_to_result(code: u32) -> (r: Result<(), NativeError>)
    ensures
        code == 0 ==> r == Ok::<(), NativeError>(()),
        code != 0 ==> r == Err::<(), NativeError>(error_of(code)),
{
    match wrap_error(code) {
        NativeError::NoError => Ok(()),
        err => Err(err),
    }
}

/// Turns a native status into the outcome of an operation that reports only failures.
pub fn status_to_option(code: u32) -> (r: Option<NativeError>)
    ensures
        code == 0 ==> r.is_none(),
        code != 0 ==> r == Some(error_of(code)),
{
    match wrap_error(code) {
        NativeError::NoError => None,
        err => Some(err),
    }
}

} // verus!
