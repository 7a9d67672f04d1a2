//! Verified core of the KZ Castor IEM DSP daemon and its control client:
//! the IPC wire framing, the configuration model and the command rules of
//! the daemon, and the sample delay lines used by the crossfeed and HRTF
//! stages.
pub mod config;
pub mod delay;
pub mod engine;
pub mod frame;
pub mod ipc;
