use vstd::prelude::*;

verus! {

/// The error taxonomy of the depository library.
///
/// `Validation` reports a malformed user-supplied field (an empty reader
/// name); `NotFound` a position or identity lookup miss inside a depository
/// collection; `ReaderNotFound` a borrow whose target reader does not exist;
/// `Persistence` a load or save failure, raised by the surrounding program.
#[derive(Clone, Copy, PartialEq, Eq, Structural, Debug)]
pub enum DepoError {
    Validation,
    NotFound,
    ReaderNotFound,
    Persistence,
}

} // verus!
