//! Errors of the ION allocator and their mapping to kernel error kinds.

use vstd::prelude::*;
use axerrno::AxErrorKind;

verus! {

/// The error kinds of `axerrno::AxErrorKind`, a plain enum, so that verified
/// code can name and match its variants.
#[verifier::external_type_specification]
pub struct ExAxErrorKind(AxErrorKind);

#[derive(Debug, Clone, Copy, PartialEq, Eq, Structural)]
pub enum IonError {
    /// Invalid argument.
    InvalidArg,
    /// Out of memory.
    NoMemory,
    /// Invalid buffer handle.
    InvalidBuffer,
    /// A buffer with that handle is already registered.
    BufferExists,
    /// No buffer with that handle is registered.
    BufferNotFound,
    /// Invalid heap type.
    InvalidHeap,
    /// Operation not supported.
    NotSupported,
    /// Internal error.
    Internal,
}

pub type IonResult<T> = Result<T, IonError>;

/// The kernel error kind an ION error is reported as.
pub open spec fn ion_error_kind(e: IonError) -> AxErrorKind {
    match e {
        IonError::InvalidArg => AxErrorKind::InvalidInput,
        IonError::NoMemory => AxErrorKind::NoMemory,
        IonError::InvalidBuffer => AxErrorKind::NotFound,
        IonError::BufferNotFound => AxErrorKind::NotFound,
        IonError::BufferExists => AxErrorKind::AlreadyExists,
        IonError::InvalidHeap => AxErrorKind::Unsupported,
        IonError::NotSupported => AxErrorKind::Unsupported,
        IonError::Internal => AxErrorKind::Interrupted,
    }
}

impl From<IonError> for AxErrorKind {
    fn from(err: IonError) -> (r: AxErrorKind) {
        match err {
            IonError::InvalidArg => AxErrorKind::InvalidInput,
            IonError::NoMemory => AxErrorKind::NoMemory,
            IonError::InvalidBuffer | IonError::BufferNotFound => AxErrorKind::NotFound,
            IonError::BufferExists => AxErrorKind::AlreadyExists,
            IonError::InvalidHeap | IonError::NotSupported => AxErrorKind::Unsupported,
            IonError::Internal => AxErrorKind::Interrupted,
        }
    }
}

impl vstd::std_specs::convert::FromSpecImpl<IonError> for AxErrorKind {
    open spec fn obeys_from_spec() -> bool {
        true
    }

    open spec fn from_spec(err: IonError) -> AxErrorKind {
        ion_error_kind(err)
    }
}

} // verus!
