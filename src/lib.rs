//! A bridge between remote clients and one virtual joystick.
//!
//! Inbound messages are decoded into commands, handed through one queue to a
//! single worker, and applied in arrival order to the one device state that
//! the worker owns.
//!
//! - `types`: axes, commands as they arrive, and their tagged decoded form.
//! - `util`: axis name resolution, value limits, the machine's addresses and
//!   the locations of the TLS files.
//! - `device`: the in-memory device state and what commands do to it.
//! - `worker`: the single writer of the device state, as a state machine.
//! - `connection`: the decisions of one client connection.
//! - `cert`: the self-signed certificate that the server presents.
pub mod types;
pub mod util;
pub mod device;
pub mod worker;
pub mod connection;
pub mod cert;
