//! Fault-tolerance and supervision core of an unattended watering appliance:
//! per-subsystem liveness tracking, hardware-watchdog bookkeeping, the WiFi
//! connectivity state machine and the one-shot bring-up of the second core.
pub mod appcore;
pub mod error;
pub mod health;
pub mod network;
pub mod status;
pub mod watchdog;
