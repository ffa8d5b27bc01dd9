//! The holder: registration and dispatch.

use vstd::prelude::*;
use crate::callback::{CallbackData, MyCallback, MyCallbackData};

verus! {

/// A callback system over data of type `T`, with callbacks of type `F`.
///
/// The model of a holder is its registry, the sequence of its callbacks in the
/// order of their registration, together with the bytes of its buffer. A
/// callback is known to a contract by what it accepts (`call_requires`) and by
/// what it may return (`call_ensures`), so a dispatch hands back what the
/// callbacks returned: that is where a contract can say which callback ran on
/// what.
pub trait MyTrait<'a, T: CallbackData, F> {
    /// The registered callbacks, oldest first.
    spec fn registry(&self) -> Seq<MyCallback<F>>;

    /// The bytes of the buffer.
    spec fn buffer(&self) -> Seq<u8>;

    /// The view that a dispatch hands to every callback.
    spec fn payload(&self) -> T;

    /// The view that callbacks are handed shows the buffer, byte for byte.
    proof fn payload_shows_buffer(&self)
        ensures
            self.payload().bytes() == self.buffer(),
    ;

    /// Appends `cb` to the registry. The registry grows by exactly this one
    /// entry, the earlier entries keep their places, and the buffer stays as
    /// it is.
    fn set_callback(&mut self, cb: MyCallback<F>)
        ensures
            final(self).registry() == old(self).registry().push(cb),
            final(self).registry().len() == old(self).registry().len() + 1,
            old(self).registry().is_prefix_of(final(self).registry()),
            final(self).buffer() == old(self).buffer(),
            final(self).payload() == old(self).payload(),
    ;

    /// Runs every registered callback on the holder's view and returns one
    /// result for each, in registration order: the result at `i` is what the
    /// callback registered at `i` returned on `payload()`.
    ///
    /// Every callback has to accept that view; nothing else is ever handed to
    /// one. The holder itself is left as it was.
    fn do_something<R>(&self) -> (out: Vec<R>) where F: Fn(&T) -> R
        requires
            forall|i: int|
                0 <= i < self.registry().len() ==> call_requires(
                    #[trigger] self.registry()[i].callback,
                    (&self.payload(),),
                ),
        ensures
            out.len() == self.registry().len(),
            forall|i: int|
                0 <= i < self.registry().len() ==> call_ensures(
                    self.registry()[i].callback,
                    (&self.payload(),),
                    #[trigger] out[i],
                ),
    ;
}

/// A holder over a borrowed byte buffer of any length.
pub struct MyStruct<'a, F> {
    /// The registry, in registration order.
    pub callbacks: Vec<MyCallback<F>>,
    /// The buffer that every callback is shown.
    pub data: &'a [u8],
}

impl<'a, F> MyTrait<'a, MyCallbackData<'a>, F> for MyStruct<'a, F> {
    open spec fn registry(&self) -> Seq<MyCallback<F>> {
        self.callbacks@
    }

    open spec fn buffer(&self) -> Seq<u8> {
        self.data@
    }

    open spec fn payload(&self) -> MyCallbackData<'a> {
        MyCallbackData { data: self.data }
    }

    proof fn payload_shows_buffer(&self) {
    }

    fn set_callback(&mut self, cb: MyCallback<F>) {
        self.callbacks.push(cb);
    }

    fn do_something<R>(&self) -> (out: Vec<R>) where F: Fn(&MyCallbackData<'a>) -> R {
        let mut out: Vec<R> = Vec::new();
        let mut i: usize = 0;
        while i < self.callbacks.len()
            invariant
                i <= self.callbacks.len(),
                out.len() == i,
                forall|k: int|
                    0 <= k < self.registry().len() ==> call_requires(
                        #[trigger] self.registry()[k].callback,
                        (&self.payload(),),
                    ),
                forall|k: int|
                    0 <= k < i ==> call_ensures(
                        self.registry()[k].callback,
                        (&self.payload(),),
                        #[trigger] out[k],
                    ),
            decreases self.callbacks.len() - i,
        {
            let cb_data = MyCallbackData { data: self.data };
            let cb = &self.callbacks[i];
            assert(call_requires(self.registry()[i as int].callback, (&self.payload(),)));
            let result = (cb.callback)(&cb_data);
            out.push(result);
            i = i + 1;
        }
        out
    }
}

} // verus!
