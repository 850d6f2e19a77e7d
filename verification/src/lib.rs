//! A one-shot timed dispatcher: acquires authoritative time from a fallback
//! list of time servers, estimates round-trip latency to bias the fire
//! instant, waits for a computed deadline without busy-spinning, fires a
//! single action, and interprets the server's response codes.

pub mod clock;
pub mod credential;
pub mod device_id;
pub mod dispatch;
pub mod interpret;
pub mod latency;
pub mod observer;
pub mod response;
pub mod schedule;
pub mod textenc;
