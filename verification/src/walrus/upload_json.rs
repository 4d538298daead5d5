//! Stores a JSON document as a Walrus blob.

use crate::clock::is_utc_timestamp;
use crate::common::{
    append_json_string, prepare_walrus_attest, walrus_user_data_spec, WalrusAttestPlan,
};
use crate::digest::{sha256_hex, sha256_hex_spec};
use crate::json::{decimal, decimal_spec, json_parse_spec, json_string_spec, parse_json};
use crate::walrus::{append_status_code, status_code_member, WalrusFailure};
use vstd::prelude::*;
use vstd::utf8::encode_utf8;

verus! {

/// Errors of storing a JSON document.
#[derive(Debug)]
pub enum UploadJsonError {
    UploadError(WalrusFailure),
    InvalidJson(String),
}

/// The text of an upload error.
pub open spec fn upload_error_text(error: UploadJsonError) -> Seq<char> {
    match error {
        UploadJsonError::UploadError(failure) => "Failed to upload JSON: "@ + failure.message@,
        UploadJsonError::InvalidJson(detail) => "Invalid JSON data: "@ + detail@,
    }
}

impl UploadJsonError {
    /// The error's text.
    pub fn message(&self) -> (text: String)
        ensures
            text@ == upload_error_text(*self),
    {
        match self {
            UploadJsonError::UploadError(failure) => {
                let mut text = String::from_str("Failed to upload JSON: ");
                text.append(failure.message.as_str());
                text
            },
            UploadJsonError::InvalidJson(detail) => {
                let mut text = String::from_str("Invalid JSON data: ");
                text.append(detail.as_str());
                text
            },
        }
    }
}

/// Request of `POST /walrus/upload-json`.
#[derive(Debug)]
pub struct Input {
    pub json: String,
    pub publisher_url: Option<String>,
    pub aggregator_url: Option<String>,
    pub epochs: u8,
    pub send_to_address: Option<String>,
}

/// Number of storage epochs when the request names none.
pub fn default_epochs() -> (epochs: u8)
    ensures
        epochs == 1,
{
    1
}

impl Input {
    /// The digest that binds the attestation to this request: that of the
    /// document text.
    pub fn input_hash(&self) -> (hash: String)
        ensures
            hash@ == sha256_hex_spec(encode_utf8(self.json@)),
    {
        sha256_hex(self.json.as_str().as_bytes())
    }
}

/// A blob the publisher had already certified.
#[derive(Debug)]
pub struct CertifiedBlob {
    pub blob_id: String,
    pub end_epoch: u64,
    pub tx_digest: String,
}

/// A blob the publisher newly created.
#[derive(Debug)]
pub struct CreatedBlob {
    pub blob_id: String,
    pub end_epoch: u64,
    pub object_id: String,
}

/// The publisher's report on a stored blob; the publisher reports exactly
/// one of the two.
#[derive(Debug)]
pub struct StorageInfo {
    pub newly_created: Option<CreatedBlob>,
    pub already_certified: Option<CertifiedBlob>,
}

/// What kind of failure an upload met.
#[derive(Clone, Copy, Debug, PartialEq, Eq, Structural)]
pub enum UploadErrorKind {
    Network,
    Validation,
}

/// The JSON text of an error kind: its snake-case name.
pub open spec fn upload_kind_json(kind: UploadErrorKind) -> Seq<char> {
    match kind {
        UploadErrorKind::Network => "\"network\""@,
        UploadErrorKind::Validation => "\"validation\""@,
    }
}

/// Answer of an upload.
#[derive(Debug)]
pub enum Output {
    AlreadyCertified { blob_id: String, end_epoch: u64, tx_digest: String },
    NewlyCreated { blob_id: String, end_epoch: u64, sui_object_id: String },
    Error { reason: String, kind: UploadErrorKind, status_code: Option<u16> },
}

/// The JSON text of an answer: the variant's snake-case name mapped to its
/// fields; an absent status code is left out.
pub open spec fn output_json_spec(output: Output) -> Seq<char> {
    match output {
        Output::AlreadyCertified { blob_id, end_epoch, tx_digest } =>
            "{\"already_certified\":{\"blob_id\":"@ + json_string_spec(blob_id@) + ",\"end_epoch\":"@
            + decimal_spec(end_epoch as nat) + ",\"tx_digest\":"@ + json_string_spec(tx_digest@)
            + "}}"@,
        Output::NewlyCreated { blob_id, end_epoch, sui_object_id } =>
            "{\"newly_created\":{\"blob_id\":"@ + json_string_spec(blob_id@) + ",\"end_epoch\":"@
            + decimal_spec(end_epoch as nat) + ",\"sui_object_id\":"@ + json_string_spec(
            sui_object_id@,
        ) + "}}"@,
        Output::Error { reason, kind, status_code } => "{\"err\":{\"reason\":"@ + json_string_spec(
            reason@,
        ) + ",\"kind\":"@ + upload_kind_json(kind) + status_code_member(status_code) + "}}"@,
    }
}

impl Output {
    /// The answer as JSON text.
    pub fn to_json(&self) -> (text: String)
        ensures
            text@ == output_json_spec(*self),
    {
        match self {
            Output::AlreadyCertified { blob_id, end_epoch, tx_digest } => {
                let mut text = String::from_str("{\"already_certified\":{\"blob_id\":");
                append_json_string(&mut text, blob_id.as_str());
                text.append(",\"end_epoch\":");
                let epoch = decimal(*end_epoch);
                text.append(epoch.as_str());
                text.append(",\"tx_digest\":");
                append_json_string(&mut text, tx_digest.as_str());
                text.append("}}");
                text
            },
            Output::NewlyCreated { blob_id, end_epoch, sui_object_id } => {
                let mut text = String::from_str("{\"newly_created\":{\"blob_id\":");
                append_json_string(&mut text, blob_id.as_str());
                text.append(",\"end_epoch\":");
                let epoch = decimal(*end_epoch);
                text.append(epoch.as_str());
                text.append(",\"sui_object_id\":");
                append_json_string(&mut text, sui_object_id.as_str());
                text.append("}}");
                text
            },
            Output::Error { reason, kind, status_code } => {
                let mut text = String::from_str("{\"err\":{\"reason\":");
                append_json_string(&mut text, reason.as_str());
                text.append(",\"kind\":");
                match kind {
                    UploadErrorKind::Network => text.append("\"network\""),
                    UploadErrorKind::Validation => text.append("\"validation\""),
                }
                append_status_code(&mut text, *status_code);
                text.append("}}");
                text
            },
        }
    }
}

/// Checks, before anything is sent, that the document is JSON.
pub fn validate(input: &Input) -> (checked: Result<(), UploadJsonError>)
    ensures
        checked is Ok <==> json_parse_spec(input.json@) is Ok,
        json_parse_spec(input.json@) matches Err(detail) ==> checked matches Err(
            UploadJsonError::InvalidJson(message),
        ) && message@ == detail,
{
    match parse_json(input.json.as_str()) {
        Ok(_) => Ok(()),
        Err(detail) => Err(UploadJsonError::InvalidJson(detail)),
    }
}

/// The answer for a stored blob: the certified blob when the publisher
/// reports one, the newly created blob otherwise.
pub fn to_output(info: StorageInfo) -> (output: Output)
    requires
        info.already_certified is Some || info.newly_created is Some,
    ensures
        match info.already_certified {
            Some(certified) => output == (Output::AlreadyCertified {
                blob_id: certified.blob_id,
                end_epoch: certified.end_epoch,
                tx_digest: certified.tx_digest,
            }),
            None => {
                let created = info.newly_created.unwrap();
                output == (Output::NewlyCreated {
                    blob_id: created.blob_id,
                    end_epoch: created.end_epoch,
                    sui_object_id: created.object_id,
                })
            },
        },
{
    match info.already_certified {
        Some(certified) => Output::AlreadyCertified {
            blob_id: certified.blob_id,
            end_epoch: certified.end_epoch,
            tx_digest: certified.tx_digest,
        },
        None => {
            let created = info.newly_created.unwrap();
            Output::NewlyCreated {
                blob_id: created.blob_id,
                end_epoch: created.end_epoch,
                sui_object_id: created.object_id,
            }
        },
    }
}

/// The answer for the outcome of an upload: the stored blob, or the error
/// as text with its kind (an invalid document is a validation error,
/// anything else a network error) and, for an API error, its status code.
pub fn outcome(result: Result<StorageInfo, UploadJsonError>) -> (output: Output)
    requires
        result matches Ok(info) ==> info.already_certified is Some || info.newly_created is Some,
    ensures
        match result {
            Ok(info) => match info.already_certified {
                Some(certified) => output == (Output::AlreadyCertified {
                    blob_id: certified.blob_id,
                    end_epoch: certified.end_epoch,
                    tx_digest: certified.tx_digest,
                }),
                None => {
                    let created = info.newly_created.unwrap();
                    output == (Output::NewlyCreated {
                        blob_id: created.blob_id,
                        end_epoch: created.end_epoch,
                        sui_object_id: created.object_id,
                    })
                },
            },
            Err(error) => output matches Output::Error { reason, kind, status_code } && reason@
                == upload_error_text(error) && match error {
                UploadJsonError::InvalidJson(_) => kind == UploadErrorKind::Validation
                    && status_code is None,
                UploadJsonError::UploadError(failure) => kind == UploadErrorKind::Network
                    && status_code == failure.status_code,
            },
        },
{
    match result {
        Ok(info) => to_output(info),
        Err(error) => {
            let (kind, status_code) = match &error {
                UploadJsonError::InvalidJson(_) => (UploadErrorKind::Validation, None),
                UploadJsonError::UploadError(failure) => (
                    UploadErrorKind::Network,
                    failure.status_code,
                ),
            };
            Output::Error { reason: error.message(), kind, status_code }
        },
    }
}

/// The attestation plan for an answer to `input`: operation `upload-json`,
/// the digest of the document text, and the answer's JSON text, timed by a
/// reading of the enclave's clock taken now; nothing when the clock cannot
/// be read.
pub fn attestation_plan(input: &Input, output: &Output) -> (plan: Option<WalrusAttestPlan>)
    ensures
        plan matches Some(plan) ==> {
            &&& plan.spec_clock() matches Some(reading) && reading.is_consistent()
                && plan.spec_timestamp() == reading.spec_text()
            &&& plan.spec_op() == "upload-json"@
            &&& plan.spec_input_hash() == sha256_hex_spec(encode_utf8(input.json@))
            &&& plan.spec_output_json() == output_json_spec(*output)
            &&& plan.spec_output_hash() == sha256_hex_spec(encode_utf8(output_json_spec(*output)))
            &&& is_utc_timestamp(plan.spec_timestamp())
            &&& plan.spec_user_data() == walrus_user_data_spec(
                plan.spec_op(),
                plan.spec_input_hash(),
                plan.spec_output_hash(),
                plan.spec_timestamp(),
            )
        },
{
    let input_hash = input.input_hash();
    prepare_walrus_attest("upload-json", input_hash.as_str(), output.to_json())
}

} // verus!
