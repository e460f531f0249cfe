//! The argument of the attribute: the enumeration on the other side.

use crate::error::Error;
use crate::syntax::{parse_path, path_syntax};
use vstd::prelude::*;

verus! {

/// Reads the path of the target enumeration from the argument of the
/// attribute.
///
/// The argument is accepted where it is one type path and nothing else. The
/// path handed back is printed from its tokens, so it holds no comment and no
/// line break of the argument. Whether an enumeration stands at that path is
/// not looked at.
pub fn parse_target(input: &str) -> (parsed: Result<String, Error>)
    ensures
        match parsed {
            Ok(path) => path_syntax(input@) == Some(path@),
            Err(error) => error == Error::MalformedTarget && path_syntax(input@) is None,
        },
{
    match parse_path(input) {
        Some(path) => Ok(path),
        None => Err(Error::MalformedTarget),
    }
}

} // verus!
