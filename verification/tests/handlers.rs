use nexus_tool::common::{
    attestation_response, complete_invoke, complete_walrus_attest, health_check_response,
    prepare_invoke, prepare_invoke_at, prepare_walrus_attest_at, AttestationDoc,
    EnclaveAttestation, InvokeRequest, InvokeResponse,
};
use nexus_tool::digest::sha256_hex;
use nexus_tool::EnclaveError;

const TS: &str = "2026-06-15T10:00:00Z";

fn doc() -> EnclaveAttestation {
    EnclaveAttestation {
        raw_cbor_hex: "a1b2".to_string(),
        pcr0: "mock:0000".to_string(),
        tee_type: "mock".to_string(),
    }
}

#[test]
fn health_check_reports_key_and_tool() {
    let response = health_check_response(&[0xde, 0xad, 0x01]);
    assert_eq!(response.public_key, "dead01");
    assert_eq!(response.status, "ok");
    assert_eq!(response.tool_fqn, "xyz.ashwin.tee.demo@1");
}

#[test]
fn attestation_response_passes_document_through() {
    let response = attestation_response(&[0x0f], Ok(doc())).ok().unwrap();
    assert_eq!(response.attestation, "a1b2");
    assert_eq!(response.public_key, "0f");
}

#[test]
fn attestation_failure_is_a_generic_error() {
    match attestation_response(&[0x0f], Err("nsm unavailable".to_string())) {
        Err(EnclaveError::GenericError(message)) => {
            assert_eq!(message, "attestation failed: nsm unavailable")
        }
        Ok(_) => panic!("expected an error"),
    }
}

#[test]
fn enclave_error_answer() {
    let error = EnclaveError::GenericError("bad \"input\"".to_string());
    assert_eq!(error.status_code(), 400);
    assert_eq!(error.body_json(), "{\"error\":\"bad \\\"input\\\"\"}");
}

#[test]
fn invoke_user_data_binds_both_hashes() {
    let request = InvokeRequest { message: "hello TEE".to_string() };
    let plan = prepare_invoke_at(&request, TS.to_string());
    let input_hash = sha256_hex(b"hello TEE");
    let output_hash = sha256_hex(b"Processed inside enclave: hello TEE");
    assert_eq!(
        plan.user_data(),
        format!(
            "{{\"input_hash\":\"{input_hash}\",\"output_hash\":\"{output_hash}\",\"tool_fqn\":\"xyz.ashwin.tee.demo@1\",\"timestamp\":\"{TS}\"}}"
        )
    );
}

#[test]
fn invoke_answer_carries_result_and_attestation() {
    let request = InvokeRequest { message: "hello TEE".to_string() };
    let plan = prepare_invoke_at(&request, TS.to_string());
    let response = complete_invoke(plan, Ok(doc())).ok().unwrap();
    assert_eq!(response.result, "Processed inside enclave: hello TEE");
    let attestation = &response.attestation;
    assert_eq!(attestation.report, "a1b2");
    assert_eq!(attestation.pcr0.as_deref(), Some("mock:0000"));
    assert_eq!(attestation.tee_type, "mock");
    assert_eq!(attestation.input_hash, sha256_hex(b"hello TEE"));
    assert_eq!(attestation.output_hash, sha256_hex(response.result.as_bytes()));
    assert_eq!(attestation.tool_fqn, "xyz.ashwin.tee.demo@1");
    assert_eq!(attestation.timestamp, TS);
}

#[test]
fn invoke_envelope_json() {
    let request = InvokeRequest { message: "hi".to_string() };
    let plan = prepare_invoke_at(&request, TS.to_string());
    let response = complete_invoke(plan, Ok(doc())).ok().unwrap();
    let input_hash = sha256_hex(b"hi");
    let output_hash = sha256_hex(b"Processed inside enclave: hi");
    assert_eq!(
        response.envelope_json(),
        format!(
            "{{\"ok\":{{\"result\":\"Processed inside enclave: hi\",\"attestation\":{{\"pcr0\":\"mock:0000\",\"report\":\"a1b2\",\"tool_fqn\":\"xyz.ashwin.tee.demo@1\",\"input_hash\":\"{input_hash}\",\"output_hash\":\"{output_hash}\",\"timestamp\":\"{TS}\",\"tee_type\":\"mock\"}}}}}}"
        )
    );
}

#[test]
fn attestation_doc_without_pcr0_is_null() {
    let doc = AttestationDoc {
        pcr0: None,
        report: String::new(),
        tool_fqn: "t".to_string(),
        input_hash: "i".to_string(),
        output_hash: "o".to_string(),
        timestamp: "s".to_string(),
        tee_type: "nitro".to_string(),
    };
    assert_eq!(
        doc.to_json(),
        "{\"pcr0\":null,\"report\":\"\",\"tool_fqn\":\"t\",\"input_hash\":\"i\",\"output_hash\":\"o\",\"timestamp\":\"s\",\"tee_type\":\"nitro\"}"
    );
    let response = InvokeResponse { result: "r".to_string(), attestation: doc };
    assert!(response.envelope_json().starts_with("{\"ok\":{\"result\":\"r\",\"attestation\":{"));
}

#[test]
fn invoke_fails_when_attestation_fails() {
    let request = InvokeRequest { message: "hello".to_string() };
    let plan = prepare_invoke_at(&request, TS.to_string());
    match complete_invoke(plan, Err("no NSM device".to_string())) {
        Err(EnclaveError::GenericError(message)) => {
            assert_eq!(message, "attestation failed: no NSM device")
        }
        Ok(_) => panic!("expected an error"),
    }
}

#[test]
fn invoke_now_binds_hashes() {
    let request = InvokeRequest { message: "clock".to_string() };
    let plan = prepare_invoke(&request).expect("clock readable");
    assert!(plan.user_data().contains(&sha256_hex(b"clock")));
    assert!(plan.user_data().contains(&sha256_hex(b"Processed inside enclave: clock")));
}

#[test]
fn invoke_attestation_has_documented_keys_and_timestamp_form() {
    let request = InvokeRequest { message: "hello TEE".to_string() };
    let plan = prepare_invoke(&request).expect("clock readable");
    let response = complete_invoke(plan, Ok(doc())).ok().unwrap();
    let body: serde_json::Value = serde_json::from_str(&response.envelope_json()).unwrap();
    let attestation = body["ok"]["attestation"].as_object().unwrap();
    let keys: Vec<&str> = attestation.keys().map(|k| k.as_str()).collect();
    assert_eq!(
        keys,
        vec!["pcr0", "report", "tool_fqn", "input_hash", "output_hash", "timestamp", "tee_type"]
    );
    let timestamp = attestation["timestamp"].as_str().unwrap();
    assert_eq!(timestamp.len(), 20);
    let bytes = timestamp.as_bytes();
    for (i, b) in bytes.iter().enumerate() {
        match i {
            4 | 7 => assert_eq!(*b, b'-'),
            10 => assert_eq!(*b, b'T'),
            13 | 16 => assert_eq!(*b, b':'),
            19 => assert_eq!(*b, b'Z'),
            _ => assert!(b.is_ascii_digit()),
        }
    }
    assert!(response.envelope_json().contains(&format!("\"timestamp\":\"{timestamp}\"")));
}

#[test]
fn walrus_answer_with_attestation() {
    let output_json = "{\"verified\":{\"blob_id\":\"b1\"}}".to_string();
    let plan = prepare_walrus_attest_at("verify-blob", "sha256:in", output_json.clone(), TS.to_string());
    let output_hash = sha256_hex(output_json.as_bytes());
    assert_eq!(
        plan.user_data(),
        format!(
            "{{\"op\":\"verify-blob\",\"input_hash\":\"sha256:in\",\"output_hash\":\"{output_hash}\",\"tool_fqn\":\"xyz.ashwin.tee.walrus@1\",\"timestamp\":\"{TS}\"}}"
        )
    );
    let body = complete_walrus_attest(plan, &[0x10], Some(doc()));
    assert_eq!(
        body,
        format!(
            "{{\"result\":{output_json},\"attestation\":{{\"pcr0\":\"mock:0000\",\"raw_cbor_hex\":\"a1b2\",\"public_key\":\"10\",\"input_hash\":\"sha256:in\",\"output_hash\":\"{output_hash}\",\"tool_fqn\":\"xyz.ashwin.tee.walrus@1\",\"timestamp\":\"{TS}\"}}}}"
        )
    );
}

#[test]
fn walrus_answer_without_attestation() {
    let plan = prepare_walrus_attest_at("read-json", "h", "{}".to_string(), TS.to_string());
    let body = complete_walrus_attest(plan, &[], None);
    assert!(body.starts_with("{\"result\":{},\"attestation\":{\"pcr0\":null,\"raw_cbor_hex\":\"\",\"public_key\":\"\","));
}
