//! Walrus decentralized storage operations: what each answers for the
//! outcome of its storage request.

pub mod read_json;
pub mod upload_json;
pub mod verify_blob;

use crate::json::{decimal, decimal_spec};
use vstd::prelude::*;

verus! {

/// A failed Walrus request: the error's text and, for an error answered by
/// the Walrus API, its HTTP status code.
#[derive(Debug)]
pub struct WalrusFailure {
    pub message: String,
    pub status_code: Option<u16>,
}

/// The `status_code` member of an error object: `,"status_code":<code>`
/// when there is a code, nothing otherwise.
pub open spec fn status_code_member(status_code: Option<u16>) -> Seq<char> {
    match status_code {
        Some(code) => ",\"status_code\":"@ + decimal_spec(code as nat),
        None => Seq::empty(),
    }
}

pub(crate) fn append_status_code(out: &mut String, status_code: Option<u16>)
    ensures
        final(out)@ == old(out)@ + status_code_member(status_code),
{
    match status_code {
        Some(code) => {
            out.append(",\"status_code\":");
            let digits = decimal(code as u64);
            out.append(digits.as_str());
        },
        None => {
            assert(old(out)@ + status_code_member(status_code) =~= old(out)@);
        },
    }
}

} // verus!
