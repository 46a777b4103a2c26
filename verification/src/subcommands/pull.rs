//! Pulling a binary from a location, to look at its size and checksum
//! and, where a path is given, to keep it.

use crate::config::optional_view;
use crate::location::{
    fetch_program_file, first_request_of, FetchRequest, FetchRequestView, LocationError,
};
use vstd::prelude::*;

verus! {

/// What a pull does: a request for the bytes, and the file that takes
/// them. Without a file they go to a temporary one.
#[derive(Debug)]
pub struct Pull {
    pub request: FetchRequest,
    pub out: Option<String>,
}

/// Plans the pull of the artifact at `location`.
pub fn process(location: &str, out: Option<String>) -> (r: Result<Pull, LocationError>)
    ensures
        match r {
            Ok(pull) => first_request_of(location@) == Ok::<FetchRequestView, LocationError>(
                pull.request@,
            ) && optional_view(pull.out) == optional_view(out),
            Err(e) => first_request_of(location@) == Err::<FetchRequestView, LocationError>(e),
        },
{
    match fetch_program_file(location) {
        Ok(request) => Ok(Pull { request, out }),
        Err(e) => Err(e),
    }
}

} // verus!
