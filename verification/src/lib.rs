//! A small terminal companion: a pomodoro timer, a todo list, and a
//! background internet-radio playback controller.
//!
//! This crate holds the verified core: the playback state machine and
//! session protocol, the timer arithmetic, the todo bookkeeping, the
//! theme cycle, and the storage paths and records. The terminal
//! front end, the audio worker thread, and all file and network I/O
//! live outside, in a thin unverified shell that drives this core.
pub mod pomodoro;
pub mod radio;
pub mod storage;
pub mod text;
pub mod theme;
pub mod todo;
