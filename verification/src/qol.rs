use vstd::prelude::*;

verus! {

/// Pipeline helpers: `to` feeds a value through a function, `op` rewrites
/// it with one.
pub trait PipeOp<T>: Sized {
    fn to<U, F: FnOnce(Self) -> U>(self, f: F) -> (r: U)
        requires
            f.requires((self,)),
        ensures
            f.ensures((self,), r),
    ;

    fn op<F: FnOnce(Self) -> Self>(self, f: F) -> (r: Self)
        requires
            f.requires((self,)),
        ensures
            f.ensures((self,), r),
    ;
}

impl<T> PipeOp<T> for T {
    fn to<U, F: FnOnce(Self) -> U>(self, f: F) -> (r: U) {
        f(self)
    }

    fn op<F: FnOnce(Self) -> Self>(self, f: F) -> (r: Self) {
        f(self)
    }
}

} // verus!
