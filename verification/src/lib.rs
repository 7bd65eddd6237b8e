//! Mediation between abstract actuator and sensor commands and the byte
//! sequences that individual hardware families understand, together with the
//! bookkeeping of devices as they are discovered, connected and lost.
//!
//! Everything here is pure: handlers and managers return values that describe
//! the traffic and the events they intend, and the caller performs them.

pub mod device;
pub mod errors;
pub mod message;
