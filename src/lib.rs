//! Server side of the external-processing protocol: a proxy streams
//! phase-tagged messages, and each one is answered in order by a
//! phase-matched response built from a pluggable handler's decision.
pub mod envelope;
pub mod ext_proc;
pub mod handler;
pub mod pump;
