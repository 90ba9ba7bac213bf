use vstd::prelude::*;

verus! {

/// Why a call to an upstream source gave no records.
#[derive(Clone, Copy, Debug, PartialEq, Eq, Structural)]
pub enum FetchError {
    /// The request did not reach the source or no answer came back.
    Transport,
    /// The source answered with a status other than success.
    Status,
    /// The answer could not be read as records.
    Decode,
}

impl FetchError {
    /// What the status of an answer says of the call: any status outside
    /// the 2xx range is a failure.
    pub open spec fn spec_from_status(status: u16) -> Option<FetchError> {
        if 200 <= status < 300 {
            None
        } else {
            Some(FetchError::Status)
        }
    }

    pub fn from_status(status: u16) -> (error: Option<FetchError>)
        ensures
            error == Self::spec_from_status(status),
    {
        if 200 <= status && status < 300 {
            None
        } else {
            Some(FetchError::Status)
        }
    }
}

/// Why a call to durable storage failed.
#[derive(Clone, Copy, Debug, PartialEq, Eq, Structural)]
pub enum StoreError {
    /// No connection to the store.
    Connection,
    /// The store refused or failed the query.
    Query,
    /// A row could not be read as a record.
    RowDecode,
}

} // verus!
