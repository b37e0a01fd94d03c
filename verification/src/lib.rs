//! Workbench notifier: a small UDP daemon that drives a 24-LED bi-color
//! bargraph and a 20 x 4 character LCD on an I2C bus, and its client.
//!
//! This crate holds everything the daemon and the client decide, and
//! nothing they do to the outside world. Sockets, the bus, locks, timers
//! and tasks belong to the program around it.
//!
//! - [`proto`]: the requests and responses of the seven endpoints.
//! - [`wire`], [`varint`], [`codec`]: the datagram header and the payload
//!   encoding, with the proofs that decoding undoes encoding.
//! - [`dispatch`]: the table from endpoint keys to endpoints.
//! - [`server`]: what each request asks of which device, and the reply
//!   that follows the device's answer.
//! - [`bargraph`], [`lcd`]: how LEDs map to display memory and how a text
//!   is laid out on the display.
//! - [`blink`]: the state machine that blinks fast on a notification and
//!   slows down until it is acknowledged.
//! - [`client`]: a call with its retries.
//! - [`cmds`]: the command loop of a worker that owns a bargraph.
//! - [`cli`]: the words of the command line.

pub mod bargraph;
pub mod blink;
pub mod cli;
pub mod client;
pub mod cmds;
pub mod codec;
pub mod dispatch;
pub mod lcd;
pub mod proto;
pub mod server;
pub mod varint;
pub mod wire;
