//! Failure to read an enumeration from text.

use vstd::prelude::*;

verus! {

#[derive(Debug, Clone)]
pub struct ParseEnumError {
    pub enum_name: &'static str,
    pub value: String,
    pub expected: &'static [&'static str],
}

} // verus!
