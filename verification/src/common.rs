//! The tool's HTTP operations: the documents they answer with and the
//! attestation that binds each answer to its request.

use crate::clock::{is_utc_timestamp, read_utc_clock, ClockReading};
use crate::digest::{hex_encode, hex_lower, sha256_hex, sha256_hex_spec};
use crate::json::{json_string, json_string_spec};
use crate::log_buffer::{latest, LogBuffer};
use vstd::prelude::*;
use vstd::utf8::encode_utf8;

verus! {

/// Fully qualified name of the demo tool.
pub open spec fn demo_tool_fqn() -> Seq<char> {
    "xyz.ashwin.tee.demo@1"@
}

/// Fully qualified name of the Walrus storage tool.
pub open spec fn walrus_tool_fqn() -> Seq<char> {
    "xyz.ashwin.tee.walrus@1"@
}

/// The error text reported when the enclave could not produce an
/// attestation.
pub open spec fn attestation_failed_spec(reason: Seq<char>) -> Seq<char> {
    "attestation failed: "@ + reason
}

/// Errors answered by the enclave's HTTP operations.
#[derive(Debug)]
pub enum EnclaveError {
    GenericError(String),
}

/// The JSON body of an error answer: `{"error": <message>}`.
pub open spec fn error_body_spec(message: Seq<char>) -> Seq<char> {
    "{\"error\":"@ + json_string_spec(message) + "}"@
}

impl EnclaveError {
    /// Every error is answered with HTTP status 400 (Bad Request).
    pub fn status_code(&self) -> (code: u16)
        ensures
            code == 400,
    {
        400
    }

    /// The JSON body answered for this error.
    pub fn body_json(&self) -> (body: String)
        ensures
            match self {
                EnclaveError::GenericError(message) => body@ == error_body_spec(message@),
            },
    {
        match self {
            EnclaveError::GenericError(message) => {
                let mut body = String::from_str("{\"error\":");
                body.append(json_string(message.as_str()).as_str());
                body.append("}");
                body
            },
        }
    }
}

/// What the enclave's attestation device hands back for an attestation
/// request: the COSE_Sign1 document, hex-encoded, the enclave's PCR0, and
/// the kind of TEE that produced them (`nitro`, `tdx`, or `mock` when no
/// enclave is present).
#[derive(Debug)]
pub struct EnclaveAttestation {
    pub raw_cbor_hex: String,
    pub pcr0: String,
    pub tee_type: String,
}

/// Answer to `GET /get_attestation`.
#[derive(Debug)]
pub struct GetAttestationResponse {
    pub attestation: String,
    pub public_key: String,
}

/// Answer to `GET /health`.
#[derive(Debug)]
pub struct HealthCheckResponse {
    pub public_key: String,
    pub status: String,
    pub tool_fqn: String,
}

/// Body of `POST /tee/demo/invoke`.
#[derive(Debug)]
pub struct InvokeRequest {
    pub message: String,
}

/// The attestation that accompanies a tool answer.
#[derive(Debug)]
pub struct AttestationDoc {
    /// SHA-384 PCR0 — identity fingerprint of the running enclave binary.
    pub pcr0: Option<String>,
    /// Attestation report: the raw COSE_Sign1 document, hex-encoded.
    pub report: String,
    /// Tool FQN this attestation was produced for.
    pub tool_fqn: String,
    /// SHA-256 of the serialized input — binds this attestation to the specific invocation.
    pub input_hash: String,
    /// SHA-256 of the serialized output — proves output wasn't tampered post-enclave.
    pub output_hash: String,
    /// Timestamp from inside the enclave.
    pub timestamp: String,
    /// Kind of TEE that produced the report.
    pub tee_type: String,
}

/// The result of an invocation together with its attestation.
#[derive(Debug)]
pub struct InvokeResponse {
    pub result: String,
    pub attestation: AttestationDoc,
}

/// Query of `GET /logs`.
pub struct LogsQueryParams {
    pub lines: Option<usize>,
}

/// Answer to `GET /logs`.
pub struct LogsResponse {
    pub lines: Vec<String>,
    pub count: usize,
}

/// Answer to `GET /health` for the enclave key `public_key`.
pub fn health_check_response(public_key: &[u8]) -> (response: HealthCheckResponse)
    ensures
        response.public_key@ == hex_lower(public_key@),
        response.status@ == "ok"@,
        response.tool_fqn@ == demo_tool_fqn(),
{
    HealthCheckResponse {
        public_key: hex_encode(public_key),
        status: String::from_str("ok"),
        tool_fqn: String::from_str("xyz.ashwin.tee.demo@1"),
    }
}

fn attestation_failed(reason: &str) -> (error: EnclaveError)
    ensures
        error matches EnclaveError::GenericError(message) && message@ == attestation_failed_spec(
            reason@,
        ),
{
    let mut message = String::from_str("attestation failed: ");
    message.append(reason);
    EnclaveError::GenericError(message)
}

/// Answer to `GET /get_attestation`, from the enclave key and the outcome of
/// the attestation request made with it (and no user data).
pub fn attestation_response(
    public_key: &[u8],
    attestation: Result<EnclaveAttestation, String>,
) -> (response: Result<GetAttestationResponse, EnclaveError>)
    ensures
        response is Ok <==> attestation is Ok,
        attestation matches Ok(doc) ==> response matches Ok(answer) && answer.attestation
            == doc.raw_cbor_hex && answer.public_key@ == hex_lower(public_key@),
        attestation matches Err(reason) ==> response matches Err(EnclaveError::GenericError(message))
            && message@ == attestation_failed_spec(reason@),
{
    match attestation {
        Ok(doc) => Ok(
            GetAttestationResponse {
                attestation: doc.raw_cbor_hex,
                public_key: hex_encode(public_key),
            },
        ),
        Err(reason) => Err(attestation_failed(reason.as_str())),
    }
}

/// How many log lines `GET /logs` returns: the `lines` asked for (100 when
/// absent), at most 1000.
pub open spec fn requested_lines(params: LogsQueryParams) -> nat {
    let asked: nat = match params.lines {
        Some(n) => n as nat,
        None => 100,
    };
    if asked < 1000 { asked } else { 1000 }
}

/// Answer to `GET /logs`: the most recent lines of the buffer, oldest first,
/// and their number.
pub fn logs_response(buffer: &LogBuffer, params: &LogsQueryParams) -> (response: LogsResponse)
    ensures
        response.lines@ == latest(buffer@, requested_lines(*params)),
        response.count == response.lines@.len(),
{
    let asked = match params.lines {
        Some(n) => n,
        None => 100,
    };
    let n = if asked < 1000 { asked } else { 1000 };
    let lines = buffer.recent(n);
    let count = lines.len();
    LogsResponse { lines, count }
}

/// Appends the JSON text of the string `s`.
pub(crate) fn append_json_string(out: &mut String, s: &str)
    ensures
        final(out)@ == old(out)@ + json_string_spec(s@),
{
    let quoted = json_string(s);
    out.append(quoted.as_str());
}

/// The JSON text of an optional string: the string, or `null`.
pub open spec fn optional_string_json(value: Option<String>) -> Seq<char> {
    match value {
        Some(s) => json_string_spec(s@),
        None => "null"@,
    }
}

fn append_optional_json_string(out: &mut String, value: &Option<String>)
    ensures
        final(out)@ == old(out)@ + optional_string_json(*value),
{
    match value {
        Some(s) => append_json_string(out, s.as_str()),
        None => out.append("null"),
    }
}

/// The JSON object of an attestation document: exactly the members `pcr0`,
/// `report`, `tool_fqn`, `input_hash`, `output_hash`, `timestamp` and
/// `tee_type`, in that order.
pub open spec fn attestation_doc_json(doc: AttestationDoc) -> Seq<char> {
    "{\"pcr0\":"@ + optional_string_json(doc.pcr0) + ",\"report\":"@ + json_string_spec(doc.report@)
        + ",\"tool_fqn\":"@ + json_string_spec(doc.tool_fqn@) + ",\"input_hash\":"@
        + json_string_spec(doc.input_hash@) + ",\"output_hash\":"@ + json_string_spec(
        doc.output_hash@,
    ) + ",\"timestamp\":"@ + json_string_spec(doc.timestamp@) + ",\"tee_type\":"@
        + json_string_spec(doc.tee_type@) + "}"@
}

/// The answer body of an invocation: `{"ok": {"result": ..., "attestation": ...}}`.
pub open spec fn invoke_envelope_json(response: InvokeResponse) -> Seq<char> {
    "{\"ok\":{\"result\":"@ + json_string_spec(response.result@) + ",\"attestation\":"@
        + attestation_doc_json(response.attestation) + "}}"@
}

impl AttestationDoc {
    /// The document as a JSON object.
    pub fn to_json(&self) -> (text: String)
        ensures
            text@ == attestation_doc_json(*self),
    {
        let mut text = String::from_str("{\"pcr0\":");
        append_optional_json_string(&mut text, &self.pcr0);
        text.append(",\"report\":");
        append_json_string(&mut text, self.report.as_str());
        text.append(",\"tool_fqn\":");
        append_json_string(&mut text, self.tool_fqn.as_str());
        text.append(",\"input_hash\":");
        append_json_string(&mut text, self.input_hash.as_str());
        text.append(",\"output_hash\":");
        append_json_string(&mut text, self.output_hash.as_str());
        text.append(",\"timestamp\":");
        append_json_string(&mut text, self.timestamp.as_str());
        text.append(",\"tee_type\":");
        append_json_string(&mut text, self.tee_type.as_str());
        text.append("}");
        text
    }
}

impl InvokeResponse {
    /// The answer body: the response wrapped as `{"ok": ...}`.
    pub fn envelope_json(&self) -> (text: String)
        ensures
            text@ == invoke_envelope_json(*self),
    {
        let mut text = String::from_str("{\"ok\":{\"result\":");
        append_json_string(&mut text, self.result.as_str());
        text.append(",\"attestation\":");
        let doc = self.attestation.to_json();
        text.append(doc.as_str());
        text.append("}}");
        text
    }
}

/// What the demo tool answers for `message`.
pub open spec fn invoke_result_spec(message: Seq<char>) -> Seq<char> {
    "Processed inside enclave: "@ + message
}

/// The user data attested for a demo invocation: a JSON object binding the
/// input and output hashes to the tool and the time.
pub open spec fn demo_user_data_spec(
    input_hash: Seq<char>,
    output_hash: Seq<char>,
    timestamp: Seq<char>,
) -> Seq<char> {
    "{\"input_hash\":"@ + json_string_spec(input_hash) + ",\"output_hash\":"@ + json_string_spec(
        output_hash,
    ) + ",\"tool_fqn\":"@ + json_string_spec(demo_tool_fqn()) + ",\"timestamp\":"@
        + json_string_spec(timestamp) + "}"@
}

/// Everything a demo invocation computes before the enclave is asked for an
/// attestation over `user_data`.
pub struct InvokePlan {
    message: String,
    result: String,
    input_hash: String,
    output_hash: String,
    timestamp: String,
    user_data: String,
    clock: Option<ClockReading>,
}

impl InvokePlan {
    /// The message that was invoked with.
    pub closed spec fn spec_message(&self) -> Seq<char> {
        self.message@
    }

    /// The answer to the message.
    pub closed spec fn spec_result(&self) -> Seq<char> {
        self.result@
    }

    /// The digest of the message.
    pub closed spec fn spec_input_hash(&self) -> Seq<char> {
        self.input_hash@
    }

    /// The digest of the answer.
    pub closed spec fn spec_output_hash(&self) -> Seq<char> {
        self.output_hash@
    }

    /// When the invocation ran.
    pub closed spec fn spec_timestamp(&self) -> Seq<char> {
        self.timestamp@
    }

    /// The JSON text to be attested.
    pub closed spec fn spec_user_data(&self) -> Seq<char> {
        self.user_data@
    }

    /// The clock reading the plan was timed with, when it was made now.
    pub closed spec fn spec_clock(&self) -> Option<ClockReading> {
        self.clock
    }

    #[verifier::type_invariant]
    spec fn bound(&self) -> bool {
        &&& self.clock matches Some(reading) ==> self.timestamp@ == reading.spec_text()
        &&& self.result@ == invoke_result_spec(self.message@)
        &&& self.input_hash@ == sha256_hex_spec(encode_utf8(self.message@))
        &&& self.output_hash@ == sha256_hex_spec(encode_utf8(self.result@))
        &&& self.user_data@ == demo_user_data_spec(
            self.input_hash@,
            self.output_hash@,
            self.timestamp@,
        )
    }

    /// The JSON text to hand to the enclave as attestation user data.
    pub fn user_data(&self) -> (text: &str)
        ensures
            text@ == self.spec_user_data(),
    {
        self.user_data.as_str()
    }
}

fn demo_user_data(input_hash: &str, output_hash: &str, timestamp: &str) -> (text: String)
    ensures
        text@ == demo_user_data_spec(input_hash@, output_hash@, timestamp@),
{
    let mut text = String::from_str("{\"input_hash\":");
    append_json_string(&mut text, input_hash);
    text.append(",\"output_hash\":");
    append_json_string(&mut text, output_hash);
    text.append(",\"tool_fqn\":");
    append_json_string(&mut text, "xyz.ashwin.tee.demo@1");
    text.append(",\"timestamp\":");
    append_json_string(&mut text, timestamp);
    text.append("}");
    text
}

fn invoke_plan(request: &InvokeRequest, timestamp: String, clock: Option<ClockReading>) -> (plan:
    InvokePlan)
    requires
        clock matches Some(reading) ==> timestamp@ == reading.spec_text(),
    ensures
        plan.spec_clock() == clock,
        plan.spec_message() == request.message@,
        plan.spec_result() == invoke_result_spec(request.message@),
        plan.spec_input_hash() == sha256_hex_spec(encode_utf8(request.message@)),
        plan.spec_output_hash() == sha256_hex_spec(encode_utf8(invoke_result_spec(request.message@))),
        plan.spec_timestamp() == timestamp@,
        plan.spec_user_data() == demo_user_data_spec(
            plan.spec_input_hash(),
            plan.spec_output_hash(),
            timestamp@,
        ),
{
    let message = request.message.clone();
    let input_hash = sha256_hex(message.as_str().as_bytes());
    let mut result = String::from_str("Processed inside enclave: ");
    result.append(message.as_str());
    let output_hash = sha256_hex(result.as_str().as_bytes());
    let user_data = demo_user_data(input_hash.as_str(), output_hash.as_str(), timestamp.as_str());
    InvokePlan { message, result, input_hash, output_hash, timestamp, user_data, clock }
}

/// The part of `POST /tee/demo/invoke` before the attestation, run at the
/// given time: the answer, the digests of message and answer, and the user
/// data that binds them. No clock reading is involved.
pub fn prepare_invoke_at(request: &InvokeRequest, timestamp: String) -> (plan: InvokePlan)
    ensures
        plan.spec_clock() is None,
        plan.spec_message() == request.message@,
        plan.spec_result() == invoke_result_spec(request.message@),
        plan.spec_input_hash() == sha256_hex_spec(encode_utf8(request.message@)),
        plan.spec_output_hash() == sha256_hex_spec(encode_utf8(invoke_result_spec(request.message@))),
        plan.spec_timestamp() == timestamp@,
        plan.spec_user_data() == demo_user_data_spec(
            plan.spec_input_hash(),
            plan.spec_output_hash(),
            timestamp@,
        ),
{
    invoke_plan(request, timestamp, None)
}

/// The part of `POST /tee/demo/invoke` before the attestation, run now: the
/// plan is timed by a reading of the enclave's clock taken during the call,
/// and its timestamp is that reading's text; nothing when the clock cannot
/// be read.
pub fn prepare_invoke(request: &InvokeRequest) -> (plan: Option<InvokePlan>)
    ensures
        plan matches Some(plan) ==> {
            &&& plan.spec_clock() matches Some(reading) && reading.is_consistent()
                && plan.spec_timestamp() == reading.spec_text()
            &&& plan.spec_message() == request.message@
            &&& plan.spec_result() == invoke_result_spec(request.message@)
            &&& plan.spec_input_hash() == sha256_hex_spec(encode_utf8(request.message@))
            &&& plan.spec_output_hash() == sha256_hex_spec(
                encode_utf8(invoke_result_spec(request.message@)),
            )
            &&& is_utc_timestamp(plan.spec_timestamp())
            &&& plan.spec_user_data() == demo_user_data_spec(
                plan.spec_input_hash(),
                plan.spec_output_hash(),
                plan.spec_timestamp(),
            )
        },
{
    match read_utc_clock() {
        Some(reading) => {
            proof {
                ClockReading::lemma_text_is_utc_timestamp(reading);
            }
            let timestamp = String::from_str(reading.text());
            Some(invoke_plan(request, timestamp, Some(reading)))
        },
        None => None,
    }
}

/// The answer to `POST /tee/demo/invoke`, from the prepared invocation and
/// the outcome of the attestation request over the plan's user data.
pub fn complete_invoke(
    plan: InvokePlan,
    attestation: Result<EnclaveAttestation, String>,
) -> (response: Result<InvokeResponse, EnclaveError>)
    ensures
        response is Ok <==> attestation is Ok,
        attestation matches Err(reason) ==> response matches Err(EnclaveError::GenericError(message))
            && message@ == attestation_failed_spec(reason@),
        attestation matches Ok(doc) ==> response matches Ok(answer) && {
            &&& answer.result@ == plan.spec_result()
            &&& answer.result@ == invoke_result_spec(plan.spec_message())
            &&& answer.attestation.pcr0 == Some(doc.pcr0)
            &&& answer.attestation.report == doc.raw_cbor_hex
            &&& answer.attestation.tee_type == doc.tee_type
            &&& answer.attestation.input_hash@ == plan.spec_input_hash()
            &&& answer.attestation.input_hash@ == sha256_hex_spec(encode_utf8(plan.spec_message()))
            &&& answer.attestation.output_hash@ == plan.spec_output_hash()
            &&& answer.attestation.output_hash@ == sha256_hex_spec(encode_utf8(answer.result@))
            &&& answer.attestation.tool_fqn@ == demo_tool_fqn()
            &&& answer.attestation.timestamp@ == plan.spec_timestamp()
            &&& plan.spec_user_data() == demo_user_data_spec(
                answer.attestation.input_hash@,
                answer.attestation.output_hash@,
                answer.attestation.timestamp@,
            )
        },
{
    proof {
        use_type_invariant(&plan);
    }
    match attestation {
        Ok(doc) => {
            let InvokePlan {
                message: _,
                result,
                input_hash,
                output_hash,
                timestamp,
                user_data: _,
                clock: _,
            } = plan;
            let attestation = AttestationDoc {
                pcr0: Some(doc.pcr0),
                report: doc.raw_cbor_hex,
                tool_fqn: String::from_str("xyz.ashwin.tee.demo@1"),
                input_hash,
                output_hash,
                timestamp,
                tee_type: doc.tee_type,
            };
            Ok(InvokeResponse { result, attestation })
        },
        Err(reason) => Err(attestation_failed(reason.as_str())),
    }
}

/// The user data attested for a Walrus operation: a JSON object binding the
/// operation, the input and output hashes, the tool and the time.
pub open spec fn walrus_user_data_spec(
    op: Seq<char>,
    input_hash: Seq<char>,
    output_hash: Seq<char>,
    timestamp: Seq<char>,
) -> Seq<char> {
    "{\"op\":"@ + json_string_spec(op) + ",\"input_hash\":"@ + json_string_spec(input_hash)
        + ",\"output_hash\":"@ + json_string_spec(output_hash) + ",\"tool_fqn\":"@
        + json_string_spec(walrus_tool_fqn()) + ",\"timestamp\":"@ + json_string_spec(timestamp)
        + "}"@
}

/// The answer body of a Walrus operation: its result (already JSON) and the
/// attestation, whose PCR0 is `null` and document empty when the enclave
/// produced none.
pub open spec fn walrus_answer_json(
    output_json: Seq<char>,
    attestation: Option<EnclaveAttestation>,
    public_key: Seq<u8>,
    input_hash: Seq<char>,
    output_hash: Seq<char>,
    timestamp: Seq<char>,
) -> Seq<char> {
    let pcr0 = match attestation {
        Some(doc) => json_string_spec(doc.pcr0@),
        None => "null"@,
    };
    let raw = match attestation {
        Some(doc) => doc.raw_cbor_hex@,
        None => Seq::<char>::empty(),
    };
    "{\"result\":"@ + output_json + ",\"attestation\":{\"pcr0\":"@ + pcr0 + ",\"raw_cbor_hex\":"@
        + json_string_spec(raw) + ",\"public_key\":"@ + json_string_spec(hex_lower(public_key))
        + ",\"input_hash\":"@ + json_string_spec(input_hash) + ",\"output_hash\":"@
        + json_string_spec(output_hash) + ",\"tool_fqn\":"@ + json_string_spec(walrus_tool_fqn())
        + ",\"timestamp\":"@ + json_string_spec(timestamp) + "}}"@
}

/// Everything a Walrus operation computes about its answer before the
/// enclave is asked for an attestation over `user_data`.
pub struct WalrusAttestPlan {
    op: String,
    input_hash: String,
    output_json: String,
    output_hash: String,
    timestamp: String,
    user_data: String,
    clock: Option<ClockReading>,
}

impl WalrusAttestPlan {
    /// The operation's name.
    pub closed spec fn spec_op(&self) -> Seq<char> {
        self.op@
    }

    /// The digest of the operation's input.
    pub closed spec fn spec_input_hash(&self) -> Seq<char> {
        self.input_hash@
    }

    /// The operation's result as JSON text.
    pub closed spec fn spec_output_json(&self) -> Seq<char> {
        self.output_json@
    }

    /// The digest of the result's JSON text.
    pub closed spec fn spec_output_hash(&self) -> Seq<char> {
        self.output_hash@
    }

    /// When the operation's answer was attested.
    pub closed spec fn spec_timestamp(&self) -> Seq<char> {
        self.timestamp@
    }

    /// The JSON text to be attested.
    pub closed spec fn spec_user_data(&self) -> Seq<char> {
        self.user_data@
    }

    /// The clock reading the plan was timed with, when it was made now.
    pub closed spec fn spec_clock(&self) -> Option<ClockReading> {
        self.clock
    }

    #[verifier::type_invariant]
    spec fn bound(&self) -> bool {
        &&& self.clock matches Some(reading) ==> self.timestamp@ == reading.spec_text()
        &&& self.output_hash@ == sha256_hex_spec(encode_utf8(self.output_json@))
        &&& self.user_data@ == walrus_user_data_spec(
            self.op@,
            self.input_hash@,
            self.output_hash@,
            self.timestamp@,
        )
    }

    /// The JSON text to hand to the enclave as attestation user data.
    pub fn user_data(&self) -> (text: &str)
        ensures
            text@ == self.spec_user_data(),
    {
        self.user_data.as_str()
    }
}

/// Attestation plan at the given time, recording the clock reading that
/// gave it, if any.
fn walrus_plan(
    op: &str,
    input_hash: &str,
    output_json: String,
    timestamp: String,
    clock: Option<ClockReading>,
) -> (plan: WalrusAttestPlan)
    requires
        clock matches Some(reading) ==> timestamp@ == reading.spec_text(),
    ensures
        plan.spec_clock() == clock,
        plan.spec_op() == op@,
        plan.spec_input_hash() == input_hash@,
        plan.spec_output_json() == output_json@,
        plan.spec_output_hash() == sha256_hex_spec(encode_utf8(output_json@)),
        plan.spec_timestamp() == timestamp@,
        plan.spec_user_data() == walrus_user_data_spec(
            op@,
            input_hash@,
            plan.spec_output_hash(),
            timestamp@,
        ),
{
    let output_hash = sha256_hex(output_json.as_str().as_bytes());
    let mut user_data = String::from_str("{\"op\":");
    append_json_string(&mut user_data, op);
    user_data.append(",\"input_hash\":");
    append_json_string(&mut user_data, input_hash);
    user_data.append(",\"output_hash\":");
    append_json_string(&mut user_data, output_hash.as_str());
    user_data.append(",\"tool_fqn\":");
    append_json_string(&mut user_data, "xyz.ashwin.tee.walrus@1");
    user_data.append(",\"timestamp\":");
    append_json_string(&mut user_data, timestamp.as_str());
    user_data.append("}");
    WalrusAttestPlan {
        op: String::from_str(op),
        input_hash: String::from_str(input_hash),
        output_json,
        output_hash,
        timestamp,
        user_data,
        clock,
    }
}

/// Attestation plan for the result `output_json` of the Walrus operation
/// `op` on the input with digest `input_hash`, at the given time. No clock
/// reading is involved.
pub fn prepare_walrus_attest_at(
    op: &str,
    input_hash: &str,
    output_json: String,
    timestamp: String,
) -> (plan: WalrusAttestPlan)
    ensures
        plan.spec_clock() is None,
        plan.spec_op() == op@,
        plan.spec_input_hash() == input_hash@,
        plan.spec_output_json() == output_json@,
        plan.spec_output_hash() == sha256_hex_spec(encode_utf8(output_json@)),
        plan.spec_timestamp() == timestamp@,
        plan.spec_user_data() == walrus_user_data_spec(
            op@,
            input_hash@,
            plan.spec_output_hash(),
            timestamp@,
        ),
{
    walrus_plan(op, input_hash, output_json, timestamp, None)
}

/// Attestation plan for a Walrus operation's result, made now; nothing when
/// the enclave's clock cannot be read.
pub fn prepare_walrus_attest(op: &str, input_hash: &str, output_json: String) -> (plan: Option<
    WalrusAttestPlan,
>)
    ensures
        plan matches Some(plan) ==> {
            &&& plan.spec_clock() matches Some(reading) && reading.is_consistent()
                && plan.spec_timestamp() == reading.spec_text()
            &&& plan.spec_op() == op@
            &&& plan.spec_input_hash() == input_hash@
            &&& plan.spec_output_json() == output_json@
            &&& plan.spec_output_hash() == sha256_hex_spec(encode_utf8(output_json@))
            &&& is_utc_timestamp(plan.spec_timestamp())
            &&& plan.spec_user_data() == walrus_user_data_spec(
                op@,
                input_hash@,
                plan.spec_output_hash(),
                plan.spec_timestamp(),
            )
        },
{
    match read_utc_clock() {
        Some(reading) => {
            proof {
                ClockReading::lemma_text_is_utc_timestamp(reading);
            }
            let timestamp = String::from_str(reading.text());
            Some(walrus_plan(op, input_hash, output_json, timestamp, Some(reading)))
        },
        None => None,
    }
}

/// The answer body of a Walrus operation, from its attestation plan, the
/// enclave key and the attestation (absent when the enclave failed to
/// produce one).
pub fn complete_walrus_attest(
    plan: WalrusAttestPlan,
    public_key: &[u8],
    attestation: Option<EnclaveAttestation>,
) -> (body: String)
    ensures
        body@ == walrus_answer_json(
            plan.spec_output_json(),
            attestation,
            public_key@,
            plan.spec_input_hash(),
            plan.spec_output_hash(),
            plan.spec_timestamp(),
        ),
        plan.spec_output_hash() == sha256_hex_spec(encode_utf8(plan.spec_output_json())),
        plan.spec_user_data() == walrus_user_data_spec(
            plan.spec_op(),
            plan.spec_input_hash(),
            plan.spec_output_hash(),
            plan.spec_timestamp(),
        ),
{
    proof {
        use_type_invariant(&plan);
        reveal_strlit("");
    }
    let mut body = String::from_str("{\"result\":");
    body.append(plan.output_json.as_str());
    body.append(",\"attestation\":{\"pcr0\":");
    match &attestation {
        Some(doc) => append_json_string(&mut body, doc.pcr0.as_str()),
        None => body.append("null"),
    }
    body.append(",\"raw_cbor_hex\":");
    match &attestation {
        Some(doc) => append_json_string(&mut body, doc.raw_cbor_hex.as_str()),
        None => {
            assert(""@ =~= Seq::<char>::empty());
            append_json_string(&mut body, "")
        },
    }
    body.append(",\"public_key\":");
    let key = hex_encode(public_key);
    append_json_string(&mut body, key.as_str());
    body.append(",\"input_hash\":");
    append_json_string(&mut body, plan.input_hash.as_str());
    body.append(",\"output_hash\":");
    append_json_string(&mut body, plan.output_hash.as_str());
    body.append(",\"tool_fqn\":");
    append_json_string(&mut body, "xyz.ashwin.tee.walrus@1");
    body.append(",\"timestamp\":");
    append_json_string(&mut body, plan.timestamp.as_str());
    body.append("}}");
    body
}

/// Two demo invocations prepared now carry the same timestamp exactly when
/// the enclave clock read the same time for both: the timestamp follows the
/// clock.
pub proof fn lemma_invoke_timestamp_follows_clock(first: InvokePlan, second: InvokePlan)
    requires
        first.spec_clock() matches Some(r) && r.is_consistent() && first.spec_timestamp()
            == r.spec_text(),
        second.spec_clock() matches Some(r) && r.is_consistent() && second.spec_timestamp()
            == r.spec_text(),
    ensures
        first.spec_timestamp() == second.spec_timestamp() <==> first.spec_clock()->0.spec_time()
            == second.spec_clock()->0.spec_time(),
{
    ClockReading::lemma_text_identifies_time(first.spec_clock()->0, second.spec_clock()->0);
}

/// Two Walrus attestation plans made now carry the same timestamp exactly
/// when the enclave clock read the same time for both: the timestamp follows
/// the clock.
pub proof fn lemma_walrus_timestamp_follows_clock(first: WalrusAttestPlan, second: WalrusAttestPlan)
    requires
        first.spec_clock() matches Some(r) && r.is_consistent() && first.spec_timestamp()
            == r.spec_text(),
        second.spec_clock() matches Some(r) && r.is_consistent() && second.spec_timestamp()
            == r.spec_text(),
    ensures
        first.spec_timestamp() == second.spec_timestamp() <==> first.spec_clock()->0.spec_time()
            == second.spec_clock()->0.spec_time(),
{
    ClockReading::lemma_text_identifies_time(first.spec_clock()->0, second.spec_clock()->0);
}

} // verus!
