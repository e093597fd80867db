//! A single-slot, asynchronous network request broker.
//!
//! A process submits a GET/POST-style request; the broker serializes it into
//! the single shared transfer buffer, hands the buffer to the byte transport,
//! and, once the transmit- and receive-completion events have been fed back,
//! copies the response into the process's registered memory and produces a
//! one-shot notification.  Exactly one request may be outstanding system-wide.

pub mod codes;
pub mod frame;
pub mod storage;
pub mod driver;
