//! Verified core of a small setuid helper that runs a caller-chosen command
//! inside an existing Linux network namespace and then drops privilege for
//! good.
//!
//! The library holds everything that can be checked: the allow-list
//! validation of untrusted tokens, the privilege-transition state machine
//! that orders escalation, namespace entry, privilege drop and command
//! launch, the fixed argument plans handed to the external `ip` tool, and
//! the mapping from a child's termination to this tool's own exit status.
//! The unverified binary around it performs the raw system calls and feeds
//! their results back into the state machine.

pub mod errors;
pub mod launch;
pub mod session;
pub mod topology;
pub mod validate;
