//! Parameters of requests.
use crate::error::{fails_with, ErrorView, RuntimeError, RuntimeResult};
use crate::json::{Json, JsonView};
use crate::text::cat;
use vstd::prelude::*;
use vstd::string::*;

verus! {

/// The text that a parameter must be and is, if it is.
pub open spec fn required_text(params: JsonView, name: Seq<char>) -> Option<Seq<char>> {
    match params.member(name) {
        Some(JsonView::Text(s)) => if s.len() > 0 {
            Some(s)
        } else {
            None
        },
        _ => None,
    }
}

/// A parameter is missing.
pub open spec fn missing_parameter(name: Seq<char>) -> ErrorView {
    ErrorView::invalid_params("Missing required parameter: "@ + name)
}

/// A parameter is missing.
pub fn missing_parameter_error(name: &str) -> (r: RuntimeError)
    ensures
        r@ == missing_parameter(name@),
{
    RuntimeError::invalid_params(cat("Missing required parameter: ", name).as_str())
}

/// The text that a parameter must be.
pub fn required_string<'a>(params: &'a Json, name: &str) -> (r: RuntimeResult<&'a str>)
    ensures
        match required_text(params@, name@) {
            Some(s) => r is Ok && r->Ok_0@ == s,
            None => fails_with(r, missing_parameter(name@)),
        },
{
    match params.get(name) {
        Some(Json::Text(value)) => if !value.as_str().is_empty() {
            return Ok(value.as_str());
        },
        _ => {},
    }
    Err(missing_parameter_error(name))
}

} // verus!
