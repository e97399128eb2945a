//! Launch-and-notify: the verified core of a wrapper that runs a command,
//! shows its output as it comes, and reports how it ran to a webhook.
//!
//! The library decides and formats. It spawns nothing and reads or writes
//! no stream, file or socket; of the machine it consults only the time
//! zone, when it shows a moment, and the colour switch of the process, when
//! it paints text. A program around it spawns the child, reads its
//! streams, keeps the time and speaks HTTP, and hands the library what it
//! saw:
//!
//! - `relay` takes in what each read of a stream returned and says what to
//!   forward to the terminal, while it keeps a copy without terminal
//!   control sequences;
//! - `webhook` turns an id and a token into an endpoint through stages that
//!   each name what they reject, and lays out the request that delivers a
//!   report;
//! - `command` holds the command that ran and the text of its report;
//! - `duration` renders elapsed time, plain and in colour;
//! - `status` derives the wrapper's exit code from how the child ended;
//! - `decimal` and `text` render and read numbers and join words.

pub mod command;
pub mod decimal;
pub mod duration;
pub mod relay;
pub mod status;
pub mod text;
pub mod webhook;
