//! Text that may be missing, as a string that may be missing.
use vstd::prelude::*;

use crate::text::{CText, NulError};

verus! {

/// The text as a string.
pub fn serialize(text: &Option<CText>) -> (written: Option<String>)
    ensures
        match *text {
            Some(text) => written matches Some(string) && string@ == text@
                && !crate::text::has_nul(string@),
            None => written is None,
        },
{
    match text {
        Some(text) => Some(text.to_string()),
        None => None,
    }
}

/// The text of a string, which may hold no NUL byte.
pub fn deserialize(written: Option<String>) -> (text: Result<Option<CText>, NulError>)
    ensures
        match written {
            Some(string) => match text {
                Ok(text) => text matches Some(text) && text@ == string@ && !crate::text::has_nul(
                    string@,
                ),
                Err(error) => crate::text::has_nul(string@) && error.position
                    == crate::text::first_nul(string@),
            },
            None => text matches Ok(None),
        },
{
    match written {
        Some(string) => match CText::from_string(string) {
            Ok(text) => Ok(Some(text)),
            Err(error) => Err(error),
        },
        None => Ok(None),
    }
}

} // verus!
