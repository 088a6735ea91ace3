//! Acquisition control for a continuously sampled instrument: timestamped
//! samples, the acquisition buffer that a controller arms and drains, the
//! rolling plot window, and the session logic of the control server.

pub mod time;
pub mod sample;
pub mod acquisition;
pub mod plot;
pub mod session;
pub mod reading;
