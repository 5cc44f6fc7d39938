//! Synchronization interfaces.

use vstd::prelude::*;

verus! {

/// Any object implementing this trait guarantees exclusive access to the data
/// it wraps for the duration of the closure handed to `lock`.
pub trait Mutex {
    /// The type of the data that is wrapped by this mutex.
    type Data;

    /// The protected value.
    spec fn data(&self) -> Self::Data;

    /// Runs `f` on the protected value and returns what `f` returns. The
    /// value that `f` leaves behind is the value protected afterwards.
    fn lock<R>(&mut self, f: impl FnOnce(&mut Self::Data) -> R) -> (r: R)
        requires
            forall|data: &mut Self::Data| *data == old(self).data() ==> call_requires(f, (data,)),
        ensures
            exists|data: &mut Self::Data|
                {
                    &&& *data == old(self).data()
                    &&& *final(data) == final(self).data()
                    &&& call_ensures(f, (data,), r)
                },
    ;
}

} // verus!
