//! A verified model of privilege-scoped syscall dispatch on a small RTOS
//! kernel: context tags, the three invocation strategies, object access
//! grants, mutex bindings and the one-way drop to user mode.
pub mod context;
pub mod kernel;
pub mod binding;
pub mod laws;
