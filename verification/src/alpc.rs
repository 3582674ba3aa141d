//! Advanced local procedure call: ports, connections and cross-process mailboxes.

pub mod connection;
pub mod cross_proc;
pub mod message;
pub mod phase6_csrss;
pub mod port;
pub mod session_policy;
