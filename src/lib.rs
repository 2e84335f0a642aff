//! Bootstrapping a development server on a remote host: platform detection,
//! the idempotent install script, the supervision protocol that ties the
//! server's lifetime to the control channel, and the local session record.

pub mod arch;
pub mod error;
pub mod flow;
pub mod install;
pub mod session;
pub mod supervisor;
pub mod text;
