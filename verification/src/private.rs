use vstd::prelude::*;

verus! {

/// Closes the set of native types: the module that holds this trait is not
/// visible outside the crate, so no other crate can implement it, and with it
/// none can implement [`crate::native::ArrowNativeType`].
pub trait Sealed {

}

} // verus!
