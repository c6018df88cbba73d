//! Safe bindings to a virtual machine's native tool interface, with an in-process emulation of
//! the same contract for tests.
pub mod error;
pub mod version;
pub mod capabilities;
pub mod ids;
pub mod event;
pub mod marshal;
pub mod records;
pub mod environment;
pub mod emulator;
pub mod class;
pub mod native;
