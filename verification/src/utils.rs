//! Method lookup for the method code that a [`Request`](crate::request::Request) carries.

use vstd::prelude::*;

use crate::method::{method_of_code, Method};

verus! {

/// Maps a method code held in a `String` to its method; any other text
/// maps to `None`.
pub fn map_method(method: &String) -> (res: Option<Method>)
    ensures
        res == method_of_code(method@),
{
    crate::method::map_method(method.as_str())
}

} // verus!
