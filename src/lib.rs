//! A local syslog collector: the grammars that turn datagrams and kernel-log
//! lines into normalised messages, the registry of sources, and the
//! decisions of the readiness-driven dispatch loop.
pub mod dispatch;
pub mod klog;
pub mod message;
pub mod pri;
pub mod registry;
pub mod syslog;
pub mod text;
