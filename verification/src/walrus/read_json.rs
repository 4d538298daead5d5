//! Reads a JSON document stored as a Walrus blob.

use crate::clock::is_utc_timestamp;
use crate::common::{
    append_json_string, prepare_walrus_attest, walrus_user_data_spec, WalrusAttestPlan,
};
use crate::digest::{sha256_hex, sha256_hex_spec};
use crate::json::{json_parse_spec, json_string_spec, parse_json};
use crate::walrus::{append_status_code, status_code_member, WalrusFailure};
use vstd::prelude::*;
use vstd::utf8::encode_utf8;

verus! {

/// Errors of reading a JSON blob.
#[derive(Debug)]
pub enum ReadJsonError {
    ReadError(WalrusFailure),
    InvalidJson(String),
}

/// The text of a read error.
pub open spec fn read_error_text(error: ReadJsonError) -> Seq<char> {
    match error {
        ReadJsonError::ReadError(failure) => "Failed to read JSON: "@ + failure.message@,
        ReadJsonError::InvalidJson(detail) => "Invalid JSON data: "@ + detail@,
    }
}

impl ReadJsonError {
    /// The error's text.
    pub fn message(&self) -> (text: String)
        ensures
            text@ == read_error_text(*self),
    {
        match self {
            ReadJsonError::ReadError(failure) => {
                let mut text = String::from_str("Failed to read JSON: ");
                text.append(failure.message.as_str());
                text
            },
            ReadJsonError::InvalidJson(detail) => {
                let mut text = String::from_str("Invalid JSON data: ");
                text.append(detail.as_str());
                text
            },
        }
    }
}

/// Request of `POST /walrus/read-json`.
#[derive(Debug)]
pub struct Input {
    pub blob_id: String,
    pub aggregator_url: Option<String>,
}

impl Input {
    /// The digest that binds the attestation to this request: that of the
    /// blob id.
    pub fn input_hash(&self) -> (hash: String)
        ensures
            hash@ == sha256_hex_spec(encode_utf8(self.blob_id@)),
    {
        sha256_hex(self.blob_id.as_str().as_bytes())
    }
}

/// What kind of failure a read met.
#[derive(Clone, Copy, Debug, PartialEq, Eq, Structural)]
pub enum ReadErrorKind {
    Network,
    Validation,
}

/// The JSON text of an error kind: its snake-case name.
pub open spec fn read_kind_json(kind: ReadErrorKind) -> Seq<char> {
    match kind {
        ReadErrorKind::Network => "\"network\""@,
        ReadErrorKind::Validation => "\"validation\""@,
    }
}

/// Answer of a read: the document as JSON text, or why there is none.
#[derive(Debug)]
pub enum Output {
    Read { json: String },
    Error { reason: String, kind: ReadErrorKind, status_code: Option<u16> },
}

/// The JSON text of an answer: `{"ok":{"json":<document>}}` or
/// `{"err":{"reason":...,"kind":...,"status_code":...}}`, the status code
/// left out when absent.
pub open spec fn output_json_spec(output: Output) -> Seq<char> {
    match output {
        Output::Read { json } => "{\"ok\":{\"json\":"@ + json@ + "}}"@,
        Output::Error { reason, kind, status_code } => "{\"err\":{\"reason\":"@ + json_string_spec(
            reason@,
        ) + ",\"kind\":"@ + read_kind_json(kind) + status_code_member(status_code) + "}}"@,
    }
}

impl Output {
    /// The answer as JSON text.
    pub fn to_json(&self) -> (text: String)
        ensures
            text@ == output_json_spec(*self),
    {
        match self {
            Output::Read { json } => {
                let mut text = String::from_str("{\"ok\":{\"json\":");
                text.append(json.as_str());
                text.append("}}");
                text
            },
            Output::Error { reason, kind, status_code } => {
                let mut text = String::from_str("{\"err\":{\"reason\":");
                append_json_string(&mut text, reason.as_str());
                text.append(",\"kind\":");
                match kind {
                    ReadErrorKind::Network => text.append("\"network\""),
                    ReadErrorKind::Validation => text.append("\"validation\""),
                }
                append_status_code(&mut text, *status_code);
                text.append("}}");
                text
            },
        }
    }
}

/// The answer for the outcome of reading the blob as a JSON string: the
/// string must itself hold a JSON document, which is answered in the
/// compact form `serde_json` writes; a string that does not parse is a
/// validation error, a failed read a network error.
pub fn outcome(result: Result<String, WalrusFailure>) -> (output: Output)
    ensures
        match result {
            Ok(raw) => match json_parse_spec(raw@) {
                Ok(document) => output matches Output::Read { json } && json@ == document,
                Err(detail) => output matches Output::Error { reason, kind, status_code } && reason@
                    == "Invalid JSON data: "@ + detail && kind == ReadErrorKind::Validation
                    && status_code is None,
            },
            Err(failure) => output matches Output::Error { reason, kind, status_code } && reason@
                == "Failed to read JSON: "@ + failure.message@ && kind == ReadErrorKind::Network
                && status_code == failure.status_code,
        },
{
    match result {
        Ok(raw) => match parse_json(raw.as_str()) {
            Ok(json) => Output::Read { json },
            Err(detail) => {
                let error = ReadJsonError::InvalidJson(detail);
                Output::Error {
                    reason: error.message(),
                    kind: ReadErrorKind::Validation,
                    status_code: None,
                }
            },
        },
        Err(failure) => {
            let status_code = failure.status_code;
            let error = ReadJsonError::ReadError(failure);
            Output::Error { reason: error.message(), kind: ReadErrorKind::Network, status_code }
        },
    }
}

/// The attestation plan for an answer to `input`: operation `read-json`,
/// the digest of the blob id, and the answer's JSON text, timed by a
/// reading of the enclave's clock taken now; nothing when the clock cannot
/// be read.
pub fn attestation_plan(input: &Input, output: &Output) -> (plan: Option<WalrusAttestPlan>)
    ensures
        plan matches Some(plan) ==> {
            &&& plan.spec_clock() matches Some(reading) && reading.is_consistent()
                && plan.spec_timestamp() == reading.spec_text()
            &&& plan.spec_op() == "read-json"@
            &&& plan.spec_input_hash() == sha256_hex_spec(encode_utf8(input.blob_id@))
            &&& plan.spec_output_json() == output_json_spec(*output)
            &&& plan.spec_output_hash() == sha256_hex_spec(encode_utf8(output_json_spec(*output)))
            &&& is_utc_timestamp(plan.spec_timestamp())
            &&& plan.spec_user_data() == walrus_user_data_spec(
                plan.spec_op(),
                plan.spec_input_hash(),
                plan.spec_output_hash(),
                plan.spec_timestamp(),
            )
        },
{
    let input_hash = input.input_hash();
    prepare_walrus_attest("read-json", input_hash.as_str(), output.to_json())
}

} // verus!
