use nexus_tool::digest::sha256_hex;
use nexus_tool::walrus::read_json;
use nexus_tool::walrus::upload_json;
use nexus_tool::walrus::verify_blob;
use nexus_tool::walrus::WalrusFailure;

fn api_error() -> WalrusFailure {
    WalrusFailure { message: "API error: 404 - not found".to_string(), status_code: Some(404) }
}

fn transport_error() -> WalrusFailure {
    WalrusFailure { message: "HTTP request failed: timeout".to_string(), status_code: None }
}

fn verify_input() -> verify_blob::Input {
    verify_blob::Input { blob_id: "blob-1".to_string(), aggregator_url: None }
}

#[test]
fn verify_blob_outcomes() {
    let input = verify_input();
    assert_eq!(
        verify_blob::outcome(&input, Ok(true)).to_json(),
        "{\"verified\":{\"blob_id\":\"blob-1\"}}"
    );
    assert_eq!(
        verify_blob::outcome(&input, Ok(false)).to_json(),
        "{\"unverified\":{\"blob_id\":\"blob-1\"}}"
    );
    assert_eq!(
        verify_blob::outcome(&input, Err(api_error())).to_json(),
        "{\"err\":{\"reason\":\"API error: 404 - not found\",\"status_code\":404}}"
    );
    assert_eq!(
        verify_blob::outcome(&input, Err(transport_error())).to_json(),
        "{\"err\":{\"reason\":\"HTTP request failed: timeout\"}}"
    );
}

#[test]
fn verify_blob_error_text() {
    let error = verify_blob::VerifyBlobError::VerificationError(api_error());
    assert_eq!(error.message(), "Failed to verify blob: API error: 404 - not found");
}

#[test]
fn verify_blob_attestation_plan() {
    let input = verify_input();
    assert_eq!(input.input_hash(), sha256_hex(b"blob-1"));
    let output = verify_blob::outcome(&input, Ok(true));
    let plan = verify_blob::attestation_plan(&input, &output).expect("clock readable");
    let output_hash = sha256_hex(output.to_json().as_bytes());
    assert!(plan.user_data().starts_with("{\"op\":\"verify-blob\",\"input_hash\":\""));
    assert!(plan.user_data().contains(&sha256_hex(b"blob-1")));
    assert!(plan.user_data().contains(&output_hash));
}

#[test]
fn read_json_outcomes() {
    assert_eq!(
        read_json::outcome(Ok("{\"name\": \"walrus\", \"n\": 2}".to_string())).to_json(),
        "{\"ok\":{\"json\":{\"name\":\"walrus\",\"n\":2}}}"
    );
    let invalid = read_json::outcome(Ok("not json".to_string()));
    match &invalid {
        read_json::Output::Error { reason, kind, status_code } => {
            assert!(reason.starts_with("Invalid JSON data: "));
            assert_eq!(*kind, read_json::ReadErrorKind::Validation);
            assert_eq!(*status_code, None);
        }
        read_json::Output::Read { .. } => panic!("expected an error"),
    }
    assert!(invalid.to_json().contains("\"kind\":\"validation\""));
    assert_eq!(
        read_json::outcome(Err(api_error())).to_json(),
        "{\"err\":{\"reason\":\"Failed to read JSON: API error: 404 - not found\",\"kind\":\"network\",\"status_code\":404}}"
    );
    assert_eq!(
        read_json::outcome(Err(transport_error())).to_json(),
        "{\"err\":{\"reason\":\"Failed to read JSON: HTTP request failed: timeout\",\"kind\":\"network\"}}"
    );
}

#[test]
fn read_json_error_texts() {
    let error = read_json::ReadJsonError::InvalidJson("oops".to_string());
    assert_eq!(error.message(), "Invalid JSON data: oops");
    let error = read_json::ReadJsonError::ReadError(transport_error());
    assert_eq!(error.message(), "Failed to read JSON: HTTP request failed: timeout");
}

#[test]
fn read_json_attestation_plan() {
    let input = read_json::Input { blob_id: "blob-2".to_string(), aggregator_url: None };
    let output = read_json::outcome(Ok("[1]".to_string()));
    let plan = read_json::attestation_plan(&input, &output).expect("clock readable");
    assert!(plan.user_data().starts_with("{\"op\":\"read-json\","));
    assert!(plan.user_data().contains(&sha256_hex(b"{\"ok\":{\"json\":[1]}}")));
}

fn upload_input(json: &str) -> upload_json::Input {
    upload_json::Input {
        json: json.to_string(),
        publisher_url: None,
        aggregator_url: None,
        epochs: upload_json::default_epochs(),
        send_to_address: None,
    }
}

#[test]
fn upload_defaults_to_one_epoch() {
    assert_eq!(upload_json::default_epochs(), 1);
}

#[test]
fn upload_rejects_invalid_json_before_sending() {
    assert!(upload_json::validate(&upload_input("{\"a\": 1}")).is_ok());
    match upload_json::validate(&upload_input("{oops")) {
        Err(error) => {
            let output = upload_json::outcome(Err(error));
            match output {
                upload_json::Output::Error { reason, kind, status_code } => {
                    assert!(reason.starts_with("Invalid JSON data: "));
                    assert_eq!(kind, upload_json::UploadErrorKind::Validation);
                    assert_eq!(status_code, None);
                }
                _ => panic!("expected an error answer"),
            }
        }
        Ok(()) => panic!("expected a validation error"),
    }
}

#[test]
fn upload_outcomes() {
    let certified = upload_json::StorageInfo {
        newly_created: None,
        already_certified: Some(upload_json::CertifiedBlob {
            blob_id: "b".to_string(),
            end_epoch: 12,
            tx_digest: "d".to_string(),
        }),
    };
    assert_eq!(
        upload_json::outcome(Ok(certified)).to_json(),
        "{\"already_certified\":{\"blob_id\":\"b\",\"end_epoch\":12,\"tx_digest\":\"d\"}}"
    );
    let created = upload_json::StorageInfo {
        newly_created: Some(upload_json::CreatedBlob {
            blob_id: "c".to_string(),
            end_epoch: 7,
            object_id: "0x1".to_string(),
        }),
        already_certified: None,
    };
    assert_eq!(
        upload_json::to_output(created).to_json(),
        "{\"newly_created\":{\"blob_id\":\"c\",\"end_epoch\":7,\"sui_object_id\":\"0x1\"}}"
    );
    let failed = upload_json::outcome(Err(upload_json::UploadJsonError::UploadError(api_error())));
    assert_eq!(
        failed.to_json(),
        "{\"err\":{\"reason\":\"Failed to upload JSON: API error: 404 - not found\",\"kind\":\"network\",\"status_code\":404}}"
    );
    let failed =
        upload_json::outcome(Err(upload_json::UploadJsonError::UploadError(transport_error())));
    assert_eq!(
        failed.to_json(),
        "{\"err\":{\"reason\":\"Failed to upload JSON: HTTP request failed: timeout\",\"kind\":\"network\"}}"
    );
}

#[test]
fn upload_attestation_plan_hashes_document() {
    let input = upload_input("{\"a\":1}");
    assert_eq!(input.input_hash(), sha256_hex(b"{\"a\":1}"));
    let output = upload_json::outcome(Err(upload_json::UploadJsonError::InvalidJson("x".to_string())));
    let plan = upload_json::attestation_plan(&input, &output).expect("clock readable");
    assert!(plan.user_data().starts_with("{\"op\":\"upload-json\","));
    assert!(plan.user_data().contains(&sha256_hex(output.to_json().as_bytes())));
}
