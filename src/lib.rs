//! Camera module firmware logic: driver codes and sensor configuration, a capture
//! session that hands out one frame buffer at a time and always returns it, and a
//! supervisor that brings a wireless link up and keeps it up with bounded retries.

pub mod camera;
pub mod formats;
pub mod link;
pub mod session;
