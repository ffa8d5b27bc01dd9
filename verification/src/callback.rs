//! What a callback is, and what it is shown when it runs.

use vstd::prelude::*;

verus! {

/// Data that a holder can hand to its callbacks.
pub trait CallbackData {
    /// The bytes that a callback can read through this value.
    spec fn bytes(&self) -> Seq<u8>;
}

/// A read-only view of a byte buffer, borrowed for as long as the buffer lives.
#[derive(Debug)]
pub struct MyCallbackData<'a> {
    /// The bytes of the buffer.
    pub data: &'a [u8],
}

impl<'a> CallbackData for MyCallbackData<'a> {
    open spec fn bytes(&self) -> Seq<u8> {
        self.data@
    }
}

/// One registry entry: a function value that is run on a view of the buffer.
///
/// `F` is the type of the function value. A registry that mixes closures of
/// different types holds them boxed, as `Box<dyn Fn(&MyCallbackData) -> R>`.
pub struct MyCallback<F> {
    /// The function value that a dispatch calls.
    pub callback: F,
}

} // verus!
