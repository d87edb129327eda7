use vstd::prelude::*;

verus! {

/// The ways a query on the catalog can fail.
#[derive(PartialEq, Eq, Structural, Debug, Clone, Copy)]
pub enum ApiError {
    /// The id is not in the catalog, or its content file is gone.
    NotFound,
    /// Reading a post's content failed for another reason.
    Internal,
    /// The posts root could not be listed.
    FatalConfig,
}

impl ApiError {
    /// HTTP status with which the error is answered.
    pub open spec fn status_spec(self) -> u16 {
        match self {
            ApiError::NotFound => 404,
            ApiError::Internal => 500,
            ApiError::FatalConfig => 500,
        }
    }

    pub fn status_code(&self) -> (r: u16)
        ensures
            r == self.status_spec(),
    {
        match self {
            ApiError::NotFound => 404,
            ApiError::Internal => 500,
            ApiError::FatalConfig => 500,
        }
    }

    /// The error for a content file that could not be opened: `NotFound`
    /// where the file is missing, `Internal` otherwise.
    pub fn from_open_failure(file_missing: bool) -> (r: ApiError)
        ensures
            file_missing ==> r == ApiError::NotFound,
            !file_missing ==> r == ApiError::Internal,
    {
        if file_missing {
            ApiError::NotFound
        } else {
            ApiError::Internal
        }
    }
}

} // verus!
