//! Detection of hypervisors and emulators from an unprivileged process, by
//! timing the identification instruction, reading the hypervisor-present bit
//! and classifying the CPU vendor identifier.
pub mod cpuid;
pub mod detect;
pub mod detection;
pub mod hash;

pub use detect::vm_detect;
pub use detection::Detection;
