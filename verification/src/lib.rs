//! Core library of a small desktop widget application.
//!
//! The heart of the crate is the native icon pipeline: given the raw pixels
//! that the operating system renders for a file, it converts them into a
//! canonical 128x128 RGBA bitmap, compresses them to PNG and wraps the bytes
//! in a base64 text encoding.  Every step of that pipeline is verified; the
//! operating-system calls themselves are reached through a small set of
//! trusted wrappers and are modelled by an explicit extraction state machine.
//!
//! Around the pipeline the crate holds the plain data model that the widget's
//! command layer exchanges with its user interface: todo, shortcut and
//! calendar-event records, the setup hand-shake and the window snap edges.

pub mod encode;
pub mod error;
pub mod events;
pub mod extract;
pub mod models;
pub mod pixel;
pub mod resample;
pub mod setup;
pub mod shortcuts;
pub mod snap;
