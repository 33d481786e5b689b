//! Self-updating support for command-line binaries: a wrapper that keeps a
//! headless update from writing to standard output.
//!
//! The verified core is split in four modules:
//!
//! - [`silence`] holds the configuration of the wrapper: the [`silence::Sink`]
//!   that fd 1 is pointed at while the wrapped update runs, and the builder
//!   that checks that a backend was supplied.
//! - [`redirect`] is the redirect protocol as a state machine: from each
//!   reply of the operating system it decides the next step, so that fd 1 is
//!   restored and no descriptor is leaked whatever fails, provided the final
//!   restore of fd 1 itself takes effect.
//! - [`effects`] models what each step of the protocol does to fd 1 and to
//!   the descriptors the session holds, and proves the laws every session
//!   keeps.
//! - [`status`] turns the extended outcome of an update into its short status.

pub mod effects;
pub mod redirect;
pub mod silence;
pub mod status;
