//! Handling of the control variables read at start: the debug log that is
//! removed and the verbosity flag. Neither affects which records are
//! admitted or how they are applied.
use vstd::prelude::*;

verus! {

/// Failure reported by the variable store.
#[derive(Clone, Copy, Debug, PartialEq, Eq, Structural)]
pub enum StoreError {
    /// The variable does not exist.
    NotFound,
    /// Any other failure, with the firmware's status code.
    Failed { status: usize },
}

/// A condition that ends the run.
#[derive(Clone, Copy, Debug, PartialEq, Eq, Structural)]
pub enum FatalError {
    /// The variable store itself failed, with the firmware's status code.
    StoreUnavailable { status: usize },
}

pub open spec fn store_outcome(result: Result<(), StoreError>) -> Result<(), FatalError> {
    match result {
        Ok(()) => Ok(()),
        Err(StoreError::NotFound) => Ok(()),
        Err(StoreError::Failed { status }) => Err(FatalError::StoreUnavailable { status }),
    }
}

/// A stored verbosity flag asks for verbose output when its first byte is
/// not zero.
pub open spec fn verbose_flag(data: Seq<u8>) -> bool {
    data.len() > 0 && data[0] != 0
}

pub open spec fn verbosity_outcome(read: Result<Seq<u8>, StoreError>) -> Result<bool, FatalError> {
    match read {
        Ok(data) => Ok(verbose_flag(data)),
        Err(StoreError::NotFound) => Ok(false),
        Err(StoreError::Failed { status }) => Err(FatalError::StoreUnavailable { status }),
    }
}

/// Judges the removal of the debug log: a missing log counts as removed,
/// any other failure is fatal.
pub fn debug_log_cleared(result: Result<(), StoreError>) -> (r: Result<(), FatalError>)
    ensures
        r == store_outcome(result),
{
    match result {
        Ok(()) => Ok(()),
        Err(StoreError::NotFound) => Ok(()),
        Err(StoreError::Failed { status }) => Err(FatalError::StoreUnavailable { status }),
    }
}

/// Reads the verbosity flag from the result of fetching its variable: an
/// absent flag means quiet output, any other failure is fatal.
pub fn verbosity(read: &Result<Vec<u8>, StoreError>) -> (r: Result<bool, FatalError>)
    ensures
        r == verbosity_outcome(
            match read {
                Ok(data) => Ok(data@),
                Err(e) => Err(*e),
            },
        ),
{
    match read {
        Ok(data) => Ok(data.len() > 0 && data[0] != 0),
        Err(StoreError::NotFound) => Ok(false),
        Err(StoreError::Failed { status }) => Err(FatalError::StoreUnavailable { status: *status }),
    }
}

} // verus!
