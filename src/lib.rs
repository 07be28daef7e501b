//! A clipboard watcher's core: content fingerprints and change detection,
//! extraction of embedded command markup, the line-oriented JSON protocol
//! spoken with the supervising host, and the polling state machine.
pub mod fingerprint;
pub mod monitor;
pub mod protocol;
pub mod triggers;
