//! The PHP worker: where its script is found and how the status it answers with is read.
use vstd::prelude::*;

use std::path::PathBuf;

use crate::errors::{VetisError, VirtualHostError};
use crate::std_types::{joined_path, path_join};

verus! {

broadcast use vstd::string::group_string_axioms;

/// The script of a PHP application: `<target>.php` in its directory.
pub fn script_path(directory: &str, target: &str) -> (r: PathBuf)
    ensures
        r == joined_path(directory@, target@ + ".php"@),
{
    let mut name = target.to_string();
    name.append(".php");
    path_join(directory, name.as_str())
}

/// `StatusCode::from_u16` accepts the codes from 100 to 999.
pub open spec fn valid_status(code: u16) -> bool {
    100 <= code && code <= 999
}

/// The status code a PHP script answered with, or the `Interface` error raised for a code
/// that is not a valid HTTP status ("invalid status code").
pub fn response_status(code: u16) -> (r: Result<u16, VetisError>)
    ensures
        valid_status(code) ==> r == Ok::<u16, VetisError>(code),
        !valid_status(code) ==> (r matches Err(
            VetisError::VirtualHost(VirtualHostError::Interface(m)),
        ) && m@ == "invalid status code"@),
{
    if 100 <= code && code <= 999 {
        Ok(code)
    } else {
        Err(VetisError::VirtualHost(VirtualHostError::Interface("invalid status code".to_string())))
    }
}

} // verus!
