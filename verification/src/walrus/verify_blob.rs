//! Checks that a blob is certified on Walrus.

use crate::clock::is_utc_timestamp;
use crate::common::{
    append_json_string, prepare_walrus_attest, walrus_user_data_spec, WalrusAttestPlan,
};
use crate::digest::{sha256_hex, sha256_hex_spec};
use crate::json::json_string_spec;
use crate::walrus::{append_status_code, status_code_member, WalrusFailure};
use vstd::prelude::*;
use vstd::utf8::encode_utf8;

verus! {

/// Errors of blob verification.
#[derive(Debug)]
pub enum VerifyBlobError {
    VerificationError(WalrusFailure),
}

impl VerifyBlobError {
    /// The error's text.
    pub fn message(&self) -> (text: String)
        ensures
            match self {
                VerifyBlobError::VerificationError(failure) => text@ == "Failed to verify blob: "@
                    + failure.message@,
            },
    {
        match self {
            VerifyBlobError::VerificationError(failure) => {
                let mut text = String::from_str("Failed to verify blob: ");
                text.append(failure.message.as_str());
                text
            },
        }
    }
}

/// Request of `POST /walrus/verify-blob`.
#[derive(Debug)]
pub struct Input {
    pub blob_id: String,
    pub aggregator_url: Option<String>,
}

impl Input {
    /// The digest that binds the attestation to this request: that of the
    /// blob id.
    pub fn input_hash(&self) -> (hash: String)
        ensures
            hash@ == sha256_hex_spec(encode_utf8(self.blob_id@)),
    {
        sha256_hex(self.blob_id.as_str().as_bytes())
    }
}

/// Answer of blob verification.
#[derive(Debug)]
pub enum Output {
    Verified { blob_id: String },
    Unverified { blob_id: String },
    Error { reason: String, status_code: Option<u16> },
}

/// The JSON text of an answer: the variant's snake-case name mapped to its
/// fields; an absent status code is left out.
pub open spec fn output_json_spec(output: Output) -> Seq<char> {
    match output {
        Output::Verified { blob_id } => "{\"verified\":{\"blob_id\":"@ + json_string_spec(blob_id@)
            + "}}"@,
        Output::Unverified { blob_id } => "{\"unverified\":{\"blob_id\":"@ + json_string_spec(
            blob_id@,
        ) + "}}"@,
        Output::Error { reason, status_code } => "{\"err\":{\"reason\":"@ + json_string_spec(reason@)
            + status_code_member(status_code) + "}}"@,
    }
}

impl Output {
    /// The answer as JSON text.
    pub fn to_json(&self) -> (text: String)
        ensures
            text@ == output_json_spec(*self),
    {
        match self {
            Output::Verified { blob_id } => {
                let mut text = String::from_str("{\"verified\":{\"blob_id\":");
                append_json_string(&mut text, blob_id.as_str());
                text.append("}}");
                text
            },
            Output::Unverified { blob_id } => {
                let mut text = String::from_str("{\"unverified\":{\"blob_id\":");
                append_json_string(&mut text, blob_id.as_str());
                text.append("}}");
                text
            },
            Output::Error { reason, status_code } => {
                let mut text = String::from_str("{\"err\":{\"reason\":");
                append_json_string(&mut text, reason.as_str());
                append_status_code(&mut text, *status_code);
                text.append("}}");
                text
            },
        }
    }
}

/// The answer for the outcome of the verification request: whether the blob
/// is certified, or why the request failed.
pub fn outcome(input: &Input, result: Result<bool, WalrusFailure>) -> (output: Output)
    ensures
        match result {
            Ok(true) => output matches Output::Verified { blob_id } && blob_id == input.blob_id,
            Ok(false) => output matches Output::Unverified { blob_id } && blob_id
                == input.blob_id,
            Err(failure) => output matches Output::Error { reason, status_code } && reason
                == failure.message && status_code == failure.status_code,
        },
{
    let blob_id = input.blob_id.clone();
    match result {
        Ok(true) => Output::Verified { blob_id },
        Ok(false) => Output::Unverified { blob_id },
        Err(failure) => Output::Error { reason: failure.message, status_code: failure.status_code },
    }
}

/// The attestation plan for an answer to `input`: operation `verify-blob`,
/// the digest of the blob id, and the answer's JSON text, timed by a
/// reading of the enclave's clock taken now; nothing when the clock cannot
/// be read.
pub fn attestation_plan(input: &Input, output: &Output) -> (plan: Option<WalrusAttestPlan>)
    ensures
        plan matches Some(plan) ==> {
            &&& plan.spec_clock() matches Some(reading) && reading.is_consistent()
                && plan.spec_timestamp() == reading.spec_text()
            &&& plan.spec_op() == "verify-blob"@
            &&& plan.spec_input_hash() == sha256_hex_spec(encode_utf8(input.blob_id@))
            &&& plan.spec_output_json() == output_json_spec(*output)
            &&& plan.spec_output_hash() == sha256_hex_spec(encode_utf8(output_json_spec(*output)))
            &&& is_utc_timestamp(plan.spec_timestamp())
            &&& plan.spec_user_data() == walrus_user_data_spec(
                plan.spec_op(),
                plan.spec_input_hash(),
                plan.spec_output_hash(),
                plan.spec_timestamp(),
            )
        },
{
    let input_hash = input.input_hash();
    prepare_walrus_attest("verify-blob", input_hash.as_str(), output.to_json())
}

} // verus!
