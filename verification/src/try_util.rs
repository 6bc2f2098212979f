use vstd::prelude::*;

verus! {

/// Turning a boolean condition into a `Result`, building the error lazily.
pub trait BoolExt: Sized {
    /// The condition this value stands for.
    spec fn truth(self) -> bool;

    /// An error exactly when the condition holds.
    fn err_if<E, F: FnOnce() -> E>(self, f: F) -> (r: Result<(), E>)
        requires
            self.truth() ==> call_requires(f, ()),
        ensures
            self.truth() ==> (r matches Err(e) && call_ensures(f, (), e)),
            !self.truth() ==> r is Ok,
    ;

    /// An error exactly when the condition fails.
    fn err_if_not<E, F: FnOnce() -> E>(self, f: F) -> (r: Result<(), E>)
        requires
            !self.truth() ==> call_requires(f, ()),
        ensures
            !self.truth() ==> (r matches Err(e) && call_ensures(f, (), e)),
            self.truth() ==> r is Ok,
    ;
}

impl BoolExt for bool {
    open spec fn truth(self) -> bool {
        self
    }

    fn err_if<E, F: FnOnce() -> E>(self, f: F) -> (r: Result<(), E>) {
        if self {
            Err(f())
        } else {
            Ok(())
        }
    }

    fn err_if_not<E, F: FnOnce() -> E>(self, f: F) -> (r: Result<(), E>) {
        if !self {
            Err(f())
        } else {
            Ok(())
        }
    }
}

} // verus!
