//! The local IPC wire format: operation names, JSON-RPC 2.0 envelopes and
//! errors, and `[u32 BE length][payload]` framing.

use crate::error::PumasError;
use crate::publication::ErrorView;

use vstd::prelude::*;
use vstd::string::StringExecFns;

verus! {

/// Largest accepted frame payload, in bytes.
pub const MAX_IPC_MESSAGE_SIZE: usize = 16777216;

/// Closed set of operations exposed to same-device clients.
#[derive(Clone, Copy, Debug, PartialEq, Eq, Structural)]
pub enum LocalIpcOperation {
    ModelLibrarySelectorSnapshot,
    ResolveModelArtifactLoadTarget,
    ResolveModelPackageFactsSummaries,
    ResolveModelExecutionDescriptorsBatch,
    GetInferenceSettingsBatch,
    SubscribeModelLibraryUpdateStreamSince,
}

pub open spec fn wire_text(op: LocalIpcOperation) -> Seq<char> {
    match op {
        LocalIpcOperation::ModelLibrarySelectorSnapshot => "model_library_selector_snapshot"@,
        LocalIpcOperation::ResolveModelArtifactLoadTarget => "resolve_model_artifact_load_target"@,
        LocalIpcOperation::ResolveModelPackageFactsSummaries => "resolve_model_package_facts_summaries"@,
        LocalIpcOperation::ResolveModelExecutionDescriptorsBatch => "resolve_model_execution_descriptors_batch"@,
        LocalIpcOperation::GetInferenceSettingsBatch => "get_inference_settings_batch"@,
        LocalIpcOperation::SubscribeModelLibraryUpdateStreamSince => "subscribe_model_library_update_stream_since"@,
    }
}

/// Distinct operations have distinct wire names.
pub proof fn lemma_wire_text_injective(a: LocalIpcOperation, b: LocalIpcOperation)
    ensures
        wire_text(a) == wire_text(b) ==> a == b,
{
    reveal_strlit("model_library_selector_snapshot");
    reveal_strlit("resolve_model_artifact_load_target");
    reveal_strlit("resolve_model_package_facts_summaries");
    reveal_strlit("resolve_model_execution_descriptors_batch");
    reveal_strlit("get_inference_settings_batch");
    reveal_strlit("subscribe_model_library_update_stream_since");
    if wire_text(a) == wire_text(b) && a != b {
        let x = wire_text(a);
        let y = wire_text(b);
        assert(x.len() != y.len() || exists|i: int| 0 <= i < x.len() && x[i] != y[i]) by {
            match (a, b) {
                (LocalIpcOperation::ResolveModelPackageFactsSummaries, LocalIpcOperation::ResolveModelExecutionDescriptorsBatch) => {
                    assert(x[14] != y[14]);
                },
                (LocalIpcOperation::ResolveModelExecutionDescriptorsBatch, LocalIpcOperation::ResolveModelPackageFactsSummaries) => {
                    assert(x[14] != y[14]);
                },
                (LocalIpcOperation::ResolveModelArtifactLoadTarget, LocalIpcOperation::ResolveModelPackageFactsSummaries) => {
                    assert(x[14] != y[14]);
                },
                (LocalIpcOperation::ResolveModelPackageFactsSummaries, LocalIpcOperation::ResolveModelArtifactLoadTarget) => {
                    assert(x[14] != y[14]);
                },
                (LocalIpcOperation::ResolveModelArtifactLoadTarget, LocalIpcOperation::ResolveModelExecutionDescriptorsBatch) => {
                    assert(x[14] != y[14]);
                },
                (LocalIpcOperation::ResolveModelExecutionDescriptorsBatch, LocalIpcOperation::ResolveModelArtifactLoadTarget) => {
                    assert(x[14] != y[14]);
                },
                _ => {
                    assert(x[0] != y[0] || x.len() != y.len());
                },
            }
        }
    }
}

impl LocalIpcOperation {
    /// The operation named on the wire, if any.
    pub fn from_wire_name(name: &str) -> (r: Option<Self>)
        ensures
            match r {
                Some(op) => wire_text(op) == name@,
                None => forall|op: LocalIpcOperation| wire_text(op) != name@,
            },
    {
        let all = [
            LocalIpcOperation::ModelLibrarySelectorSnapshot,
            LocalIpcOperation::ResolveModelArtifactLoadTarget,
            LocalIpcOperation::ResolveModelPackageFactsSummaries,
            LocalIpcOperation::ResolveModelExecutionDescriptorsBatch,
            LocalIpcOperation::GetInferenceSettingsBatch,
            LocalIpcOperation::SubscribeModelLibraryUpdateStreamSince,
        ];
        let given = name.to_owned();
        let mut i: usize = 0;
        while i < 6
            invariant
                given@ == name@,
                all@ == seq![
                    LocalIpcOperation::ModelLibrarySelectorSnapshot,
                    LocalIpcOperation::ResolveModelArtifactLoadTarget,
                    LocalIpcOperation::ResolveModelPackageFactsSummaries,
                    LocalIpcOperation::ResolveModelExecutionDescriptorsBatch,
                    LocalIpcOperation::GetInferenceSettingsBatch,
                    LocalIpcOperation::SubscribeModelLibraryUpdateStreamSince,
                ],
                i <= 6,
                forall|j: int| 0 <= j < i ==> wire_text(#[trigger] all@[j]) != name@,
            decreases 6 - i,
        {
            let op = all[i];
            if op.wire_name().to_owned() == given {
                return Some(op);
            }
            i = i + 1;
        }
        proof {
            assert forall|op: LocalIpcOperation| wire_text(op) != name@ by {
                match op {
                    LocalIpcOperation::ModelLibrarySelectorSnapshot => assert(wire_text(all@[0]) != name@),
                    LocalIpcOperation::ResolveModelArtifactLoadTarget => assert(wire_text(all@[1]) != name@),
                    LocalIpcOperation::ResolveModelPackageFactsSummaries => assert(wire_text(all@[2]) != name@),
                    LocalIpcOperation::ResolveModelExecutionDescriptorsBatch => assert(wire_text(all@[3]) != name@),
                    LocalIpcOperation::GetInferenceSettingsBatch => assert(wire_text(all@[4]) != name@),
                    LocalIpcOperation::SubscribeModelLibraryUpdateStreamSince => assert(wire_text(all@[5]) != name@),
                }
            }
        }
        None
    }

    /// The operation's name on the wire.
    pub fn wire_name(self) -> (r: &'static str)
        ensures
            r@ == wire_text(self),
    {
        match self {
            LocalIpcOperation::ModelLibrarySelectorSnapshot => "model_library_selector_snapshot",
            LocalIpcOperation::ResolveModelArtifactLoadTarget => "resolve_model_artifact_load_target",
            LocalIpcOperation::ResolveModelPackageFactsSummaries => "resolve_model_package_facts_summaries",
            LocalIpcOperation::ResolveModelExecutionDescriptorsBatch => "resolve_model_execution_descriptors_batch",
            LocalIpcOperation::GetInferenceSettingsBatch => "get_inference_settings_batch",
            LocalIpcOperation::SubscribeModelLibraryUpdateStreamSince => "subscribe_model_library_update_stream_since",
        }
    }
}

/// A JSON-RPC 2.0 error object; `data` carries `{"class": class}`.
#[derive(Debug)]
pub struct IpcError {
    pub code: i32,
    pub message: String,
    pub class: Option<String>,
}

/// The public error with this code, class and fixed message.
pub open spec fn is_public_error(e: IpcError, code: int, class: Seq<char>, message: Seq<char>) -> bool {
    &&& e.code == code
    &&& e.message@ == message
    &&& e.class matches Some(c) && c@ == class
}

/// The refusal of an envelope that is not a local IPC request.
pub open spec fn is_invalid_request(e: IpcError) -> bool {
    is_public_error(e, -32600, "invalid_request"@, "Invalid local IPC request"@)
}

/// The refusal of an operation that is not offered.
pub open spec fn is_method_not_found(e: IpcError) -> bool {
    is_public_error(e, -32601, "method_not_found"@, "Unsupported local IPC operation"@)
}

/// The refusal of parameters that an operation does not accept.
pub open spec fn is_invalid_params(e: IpcError) -> bool {
    is_public_error(e, -32602, "invalid_params"@, "Invalid local IPC parameters"@)
}

impl IpcError {
    /// A public error: its code, class and fixed message.
    fn public(code: i32, class: &str, message: &str) -> (e: Self)
        ensures
            e.code == code,
            e.message@ == message@,
            e.class matches Some(c) && c@ == class@,
    {
        IpcError { code, message: message.to_owned(), class: Some(class.to_owned()) }
    }

    pub fn parse_error() -> (e: Self)
        ensures
            e.code == -32700,
            e.message@ == "Malformed local IPC JSON"@,
            e.class matches Some(c) && c@ == "parse_error"@,
    {
        Self::public(-32700, "parse_error", "Malformed local IPC JSON")
    }

    pub fn invalid_request() -> (e: Self)
        ensures
            e.code == -32600,
            e.message@ == "Invalid local IPC request"@,
            e.class matches Some(c) && c@ == "invalid_request"@,
    {
        Self::public(-32600, "invalid_request", "Invalid local IPC request")
    }

    pub fn method_not_found() -> (e: Self)
        ensures
            e.code == -32601,
            e.message@ == "Unsupported local IPC operation"@,
            e.class matches Some(c) && c@ == "method_not_found"@,
    {
        Self::public(-32601, "method_not_found", "Unsupported local IPC operation")
    }

    pub fn invalid_params() -> (e: Self)
        ensures
            e.code == -32602,
            e.message@ == "Invalid local IPC parameters"@,
            e.class matches Some(c) && c@ == "invalid_params"@,
    {
        Self::public(-32602, "invalid_params", "Invalid local IPC parameters")
    }

    pub fn internal() -> (e: Self)
        ensures
            e.code == -32603,
            e.message@ == "Local IPC operation failed"@,
            e.class matches Some(c) && c@ == "internal"@,
    {
        Self::public(-32603, "internal", "Local IPC operation failed")
    }

    /// The public projection of a library error, from its RPC code: the
    /// code is kept, and its class chooses a fixed message.
    pub fn from_pumas(rpc_code: i32) -> (e: Self)
        ensures
            e.code == rpc_code,
            e.class matches Some(c) && c@ == rpc_class(rpc_code),
            e.message@ == code_message(rpc_code),
    {
        proof {
            reveal_strlit("invalid_params");
            reveal_strlit("unavailable");
            reveal_strlit("not_found");
            reveal_strlit("cancelled");
            reveal_strlit("conflict");
            reveal_strlit("internal");
            reveal_strlit("operation_failed");
        }
        let class = if rpc_code == -32602 || rpc_code == -32005 {
            "invalid_params"
        } else if rpc_code == -32000 || rpc_code == -32006 || rpc_code == -32012 {
            "unavailable"
        } else if rpc_code == -32001 || rpc_code == -32002 || rpc_code == -32009 || rpc_code == -32010 {
            "not_found"
        } else if rpc_code == -32004 {
            "cancelled"
        } else if rpc_code == -32011 {
            "conflict"
        } else if rpc_code == -32603 {
            "internal"
        } else {
            "operation_failed"
        };
        let message = if rpc_code == -32602 || rpc_code == -32005 {
            "Invalid local IPC parameters"
        } else if rpc_code == -32000 || rpc_code == -32006 || rpc_code == -32012 {
            "Local IPC service unavailable"
        } else if rpc_code == -32001 || rpc_code == -32002 || rpc_code == -32009 || rpc_code == -32010 {
            "Requested local resource not found"
        } else if rpc_code == -32004 {
            "Local IPC operation cancelled"
        } else if rpc_code == -32011 {
            "Local IPC operation conflicted with current state"
        } else if rpc_code == -32603 {
            "Local IPC operation failed"
        } else {
            "Local IPC operation could not be completed"
        };
        Self::public(rpc_code, class, message)
    }
}

/// The public class of an RPC code.
pub open spec fn rpc_class(code: i32) -> Seq<char> {
    if code == -32602 || code == -32005 {
        "invalid_params"@
    } else if code == -32000 || code == -32006 || code == -32012 {
        "unavailable"@
    } else if code == -32001 || code == -32002 || code == -32009 || code == -32010 {
        "not_found"@
    } else if code == -32004 {
        "cancelled"@
    } else if code == -32011 {
        "conflict"@
    } else if code == -32603 {
        "internal"@
    } else {
        "operation_failed"@
    }
}

/// The fixed public message of the class of an RPC code.
pub open spec fn code_message(code: i32) -> Seq<char> {
    if code == -32602 || code == -32005 {
        "Invalid local IPC parameters"@
    } else if code == -32000 || code == -32006 || code == -32012 {
        "Local IPC service unavailable"@
    } else if code == -32001 || code == -32002 || code == -32009 || code == -32010 {
        "Requested local resource not found"@
    } else if code == -32004 {
        "Local IPC operation cancelled"@
    } else if code == -32011 {
        "Local IPC operation conflicted with current state"@
    } else if code == -32603 {
        "Local IPC operation failed"@
    } else {
        "Local IPC operation could not be completed"@
    }
}

/// The `id` member of a JSON-RPC envelope.
#[derive(Clone, Copy, Debug, PartialEq, Eq, Structural)]
pub enum RpcId {
    Absent,
    Unsigned(u64),
    /// Any other JSON value.
    Other,
}

/// A JSON-RPC 2.0 request; `params` is JSON text.
pub struct IpcRequest {
    pub jsonrpc: String,
    pub method: String,
    pub params: Option<String>,
    pub id: RpcId,
}

impl IpcRequest {
    /// A version 2.0 request for the operation.
    pub fn new(operation: LocalIpcOperation, params: String, id: u64) -> (r: Self)
        ensures
            r.jsonrpc@ == "2.0"@,
            r.method@ == wire_text(operation),
            r.params matches Some(p) && p@ == params@,
            r.id == RpcId::Unsigned(id),
    {
        IpcRequest {
            jsonrpc: "2.0".to_owned(),
            method: operation.wire_name().to_owned(),
            params: Some(params),
            id: RpcId::Unsigned(id),
        }
    }
}

/// A JSON-RPC 2.0 response; `result` is JSON text.
pub struct IpcResponse {
    pub jsonrpc: String,
    pub result: Option<String>,
    pub error: Option<IpcError>,
    pub id: RpcId,
}

/// What a response answers for the request with id `expected`.
pub open spec fn response_result(
    jsonrpc: Seq<char>,
    result: Option<Seq<char>>,
    error: Option<(i32, Seq<char>)>,
    id: RpcId,
    expected: u64,
) -> Result<Seq<char>, ErrorView> {
    if jsonrpc != "2.0"@ || id != RpcId::Unsigned(expected) {
        Err(ErrorView::InvalidParams { message: "Invalid local IPC response correlation"@ })
    } else {
        match (result, error) {
            (Some(r), None) => Ok(r),
            (None, Some((code, message))) => if code == -32602 {
                Err(ErrorView::InvalidParams { message })
            } else {
                Err(ErrorView::Other(message))
            },
            _ => Err(ErrorView::InvalidParams { message: "Invalid local IPC response outcome"@ }),
        }
    }
}

pub open spec fn error_parts(e: Option<IpcError>) -> Option<(i32, Seq<char>)> {
    match e {
        Some(e) => Some((e.code, e.message@)),
        None => None,
    }
}

impl IpcResponse {
    /// A success response.
    pub fn success(id: RpcId, result: String) -> (r: Self)
        ensures
            r.jsonrpc@ == "2.0"@,
            r.result matches Some(x) && x@ == result@,
            r.error is None,
            r.id == id,
    {
        IpcResponse { jsonrpc: "2.0".to_owned(), result: Some(result), error: None, id }
    }

    /// An error response.
    pub fn error(id: RpcId, error: IpcError) -> (r: Self)
        ensures
            r.jsonrpc@ == "2.0"@,
            r.result is None,
            r.error == Some(error),
            r.id == id,
    {
        IpcResponse { jsonrpc: "2.0".to_owned(), result: None, error: Some(error), id }
    }

    /// The result of the response to request `expected_id`: its result, or
    /// its error (invalid parameters stay `InvalidParams`, others become
    /// `Other`), after checking the version and the correlation id.
    pub fn into_result(self, expected_id: u64) -> (r: Result<String, PumasError>)
        ensures
            match (r, response_result(self.jsonrpc@, self.result.deep_view(), error_parts(self.error), self.id, expected_id)) {
                (Ok(x), Ok(y)) => x@ == y,
                (Err(e), Err(v)) => e@ == v,
                _ => false,
            },
    {
        let version = "2.0".to_owned();
        if self.jsonrpc != version || self.id != RpcId::Unsigned(expected_id) {
            return Err(PumasError::InvalidParams { message: "Invalid local IPC response correlation".to_owned() });
        }
        match (self.result, self.error) {
            (Some(result), None) => Ok(result),
            (None, Some(error)) => if error.code == -32602 {
                Err(PumasError::InvalidParams { message: error.message })
            } else {
                Err(PumasError::Other(error.message))
            },
            _ => Err(PumasError::InvalidParams { message: "Invalid local IPC response outcome".to_owned() }),
        }
    }
}

/// The four big-endian bytes of `n`.
pub open spec fn u32_be(n: u32) -> Seq<u8> {
    seq![(n >> 24u32) as u8, (n >> 16u32) as u8, (n >> 8u32) as u8, n as u8]
}

/// The frame of a payload: its length (as `u32`) then its bytes.
pub open spec fn frame(payload: Seq<u8>) -> Seq<u8> {
    u32_be(payload.len() as u32) + payload
}

/// Append the frame of `payload` to `writer`.
pub fn write_frame_blocking(writer: &mut Vec<u8>, payload: &[u8])
    ensures
        final(writer)@ == old(writer)@ + frame(payload@),
{
    let len = payload.len() as u32;
    writer.push((len >> 24u32) as u8);
    writer.push((len >> 16u32) as u8);
    writer.push((len >> 8u32) as u8);
    writer.push(len as u8);
    let ghost head = writer@;
    let mut i: usize = 0;
    while i < payload.len()
        invariant
            i <= payload@.len(),
            writer@ == head + payload@.take(i as int),
        decreases payload.len() - i,
    {
        writer.push(payload[i]);
        assert(payload@.take(i + 1) =~= payload@.take(i as int).push(payload@[i as int]));
        assert(writer@ =~= head + payload@.take(i + 1));
        i = i + 1;
    }
    assert(payload@.take(payload@.len() as int) =~= payload@);
    assert(writer@ =~= old(writer)@ + frame(payload@));
}

/// The length a frame header announces.
pub open spec fn header_len(b: Seq<u8>) -> nat {
    (b[0] as nat) * 16777216 + (b[1] as nat) * 65536 + (b[2] as nat) * 256 + (b[3] as nat)
}

/// What reading one frame from the start of `input` gives: nothing at end
/// of input, the payload and the bytes consumed, or an error.
pub open spec fn read_outcome(input: Seq<u8>) -> Result<Option<(Seq<u8>, nat)>, ErrorView> {
    if input.len() < 4 {
        Ok(None)
    } else {
        let n = header_len(input);
        if n > MAX_IPC_MESSAGE_SIZE {
            Err(ErrorView::Validation {
                field: "ipc_frame"@,
                message: "IPC message size "@ + crate::recovery_ticket::decimal(n) + " exceeds maximum "@
                    + crate::recovery_ticket::decimal(MAX_IPC_MESSAGE_SIZE as nat),
            })
        } else if input.len() < 4 + n {
            Err(ErrorView::Io { message: "failed to fill whole buffer"@, path: None, os_code: None })
        } else {
            Ok(Some((input.subrange(4, 4 + n as int), (4 + n) as nat)))
        }
    }
}

/// Read one frame from the start of `input`.
pub fn read_frame_blocking(input: &[u8]) -> (r: Result<Option<(Vec<u8>, usize)>, PumasError>)
    ensures
        match (r, read_outcome(input@)) {
            (Ok(None), Ok(None)) => true,
            (Ok(Some((p, used))), Ok(Some((q, n)))) => p@ == q && used == n,
            (Err(e), Err(v)) => e@ == v,
            _ => false,
        },
{
    if input.len() < 4 {
        return Ok(None);
    }
    let len: u64 = (input[0] as u64) * 16777216 + (input[1] as u64) * 65536 + (input[2] as u64) * 256 + (input[3] as u64);
    if len > MAX_IPC_MESSAGE_SIZE as u64 {
        proof {
            reveal_strlit("IPC message size ");
            reveal_strlit(" exceeds maximum ");
        }
        let mut message = "IPC message size ".to_owned();
        message.append(crate::recovery_ticket::decimal_text(len).as_str());
        message.append(" exceeds maximum ");
        message.append(crate::recovery_ticket::decimal_text(MAX_IPC_MESSAGE_SIZE as u64).as_str());
        return Err(PumasError::Validation { field: "ipc_frame".to_owned(), message });
    }
    let n = len as usize;
    if input.len() - 4 < n {
        return Err(
            PumasError::Io { message: "failed to fill whole buffer".to_owned(), path: None, os_code: None },
        );
    }
    let total = input.len();
    let mut payload: Vec<u8> = Vec::new();
    let mut i: usize = 0;
    while i < n
        invariant
            total == input@.len(),
            n <= total - 4,
            4 <= total,
            i <= n,
            payload@ == input@.subrange(4, 4 + i as int),
        decreases n - i,
    {
        payload.push(input[4 + i]);
        assert(payload@ =~= input@.subrange(4, 4 + i + 1));
        i = i + 1;
    }
    Ok(Some((payload, 4 + n)))
}

} // verus!
