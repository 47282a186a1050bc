use vstd::prelude::*;

verus! {

/// The error reported by a fill that finds the scratch region already full.
#[verifier::external_type_specification]
#[verifier::external_body]
pub struct ExSliceWriteError(embedded_io::SliceWriteError);

/// Relies on the derived `Clone` of `embedded_io::SliceWriteError`, a `Copy`
/// type: the clone is the value itself.
pub assume_specification[ <embedded_io::SliceWriteError as Clone>::clone ](
    e: &embedded_io::SliceWriteError,
) -> (r: embedded_io::SliceWriteError)
    ensures
        r == *e,
;

/// Failure of an operation on the buffered adapter: either the scratch
/// region had no room (`Sync`), or the sink rejected a transfer (`Async`).
#[derive(Debug, Clone, PartialEq)]
pub enum Error<E> {
    Sync(embedded_io::SliceWriteError),
    Async(E),
}

} // verus!
