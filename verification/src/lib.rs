//! A callback holder: a byte buffer, an ordered registry of callbacks, and a
//! dispatch that runs every registered callback on a read-only view of the
//! buffer.
//!
//! - `callback`: the view that callbacks are shown, and a registry entry.
//! - `holder`: registration and dispatch, with their contracts.
//! - `process`: the line of text that reports a buffer's bytes.

pub mod callback;
pub mod holder;
pub mod process;

pub use callback::{CallbackData, MyCallback, MyCallbackData};
pub use holder::{MyStruct, MyTrait};
pub use process::process_data;
