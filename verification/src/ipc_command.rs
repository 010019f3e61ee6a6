//! Decoding the parameters of local IPC commands.

use crate::ipc_protocol::{is_invalid_params, is_invalid_request, is_method_not_found, lemma_wire_text_injective, wire_text, IpcError, LocalIpcOperation, RpcId};
use crate::recovery_meta::{trim, trim_text};
use crate::strings::clone_string;
use crate::text::{byte_len, byte_len_at_most, chars_of};
use vstd::prelude::*;

verus! {

/// Longest accepted string parameter, in UTF-8 bytes.
pub const MAX_LOCAL_STRING_BYTES: usize = 4096;

/// Most model ids in one batch.
pub const MAX_LOCAL_BATCH_ITEMS: usize = 512;

/// Largest accepted selector page size.
pub const MAX_SELECTOR_LIMIT: u64 = 1000;

/// A JSON number, as far as parameter checks look at it.
#[derive(Clone, Copy, Debug, PartialEq, Eq, Structural)]
pub enum JsonNumber {
    Unsigned(u64),
    Negative(i64),
    /// A number with a fraction or exponent.
    Fractional,
}

/// A JSON value; an object lists its members in order.
pub enum JsonValue {
    Null,
    Bool(bool),
    Number(JsonNumber),
    Text(String),
    Array(Vec<JsonValue>),
    Object(Vec<(String, JsonValue)>),
}

/// Index of the first member named `name`, or the member count.
pub open spec fn member_index(m: Seq<(String, JsonValue)>, name: Seq<char>) -> int
    decreases m.len(),
{
    if m.len() == 0 {
        0
    } else if m[0].0@ == name {
        0
    } else {
        1 + member_index(m.drop_first(), name)
    }
}

/// The member named `name`, if any.
pub open spec fn member(m: Seq<(String, JsonValue)>, name: Seq<char>) -> Option<JsonValue> {
    let i = member_index(m, name);
    if i < m.len() {
        Some(m[i].1)
    } else {
        None
    }
}

/// Every member is one of the allowed names.
pub open spec fn only_members(m: Seq<(String, JsonValue)>, allowed: Seq<Seq<char>>) -> bool {
    forall|i: int| 0 <= i < m.len() ==> allowed.contains(#[trigger] m[i].0@)
}

/// An object whose members are all allowed.
pub open spec fn exact_object(v: JsonValue, allowed: Seq<Seq<char>>) -> bool {
    v matches JsonValue::Object(m) && only_members(m@, allowed)
}

/// A non-blank string of at most the byte limit.
pub open spec fn bounded_text(v: Option<JsonValue>) -> Option<Seq<char>> {
    match v {
        Some(JsonValue::Text(s)) => if trim(s@).len() > 0 && byte_len(s@) <= MAX_LOCAL_STRING_BYTES {
            Some(s@)
        } else {
            None
        },
        _ => None,
    }
}

/// A non-empty, bounded list of bounded strings.
pub open spec fn bounded_ids(v: Option<JsonValue>) -> Option<Seq<Seq<char>>> {
    match v {
        Some(JsonValue::Array(items)) => if 0 < items@.len() <= MAX_LOCAL_BATCH_ITEMS && forall|i: int|
            0 <= i < items@.len() ==> bounded_text(Some(#[trigger] items@[i])) is Some {
            Some(Seq::new(items@.len(), |i: int| bounded_text(Some(items@[i])).unwrap()))
        } else {
            None
        },
        _ => None,
    }
}

pub open spec fn command_fields(op: LocalIpcOperation) -> Seq<Seq<char>> {
    match op {
        LocalIpcOperation::ModelLibrarySelectorSnapshot => seq!["request"@, "connection_token"@],
        LocalIpcOperation::ResolveModelArtifactLoadTarget => seq!["request"@, "connection_token"@],
        LocalIpcOperation::SubscribeModelLibraryUpdateStreamSince => seq!["cursor"@, "connection_token"@],
        _ => seq!["model_ids"@, "connection_token"@],
    }
}

pub open spec fn selector_fields() -> Seq<Seq<char>> {
    seq!["offset"@, "limit"@, "search"@, "model_type"@, "task_type_primary"@]
}

pub open spec fn artifact_fields() -> Seq<Seq<char>> {
    seq![
        "model_ref"@,
        "expected_artifact_kind"@,
        "caller_observed_entry_path"@,
        "caller_observed_package_facts_contract_version"@,
        "resolution_mode"@,
        "consumer"@,
    ]
}

pub open spec fn model_ref_fields() -> Seq<Seq<char>> {
    seq![
        "model_ref_contract_version"@,
        "model_id"@,
        "revision"@,
        "selected_artifact_id"@,
        "selected_artifact_path"@,
        "migration_diagnostics"@,
    ]
}

pub open spec fn consumer_fields() -> Seq<Seq<char>> {
    seq!["consumer_name"@, "task_kind"@, "runtime_family"@]
}

/// An optional count: absent, null, or an unsigned integer that fits `u32`.
pub open spec fn count_ok(v: Option<JsonValue>) -> bool {
    match v {
        None => true,
        Some(JsonValue::Null) => true,
        Some(JsonValue::Number(JsonNumber::Unsigned(n))) => n <= u32::MAX,
        _ => false,
    }
}

/// An optional filter: absent, null, or a string within the byte limit.
pub open spec fn filter_ok(v: Option<JsonValue>) -> bool {
    match v {
        None => true,
        Some(JsonValue::Null) => true,
        Some(JsonValue::Text(s)) => byte_len(s@) <= MAX_LOCAL_STRING_BYTES,
        _ => false,
    }
}

/// A selector request within the accepted shapes and page sizes.
pub open spec fn selector_ok(v: JsonValue) -> bool {
    &&& exact_object(v, selector_fields())
    &&& v matches JsonValue::Object(m) && {
        let m = m@;
        &&& count_ok(member(m, "offset"@))
        &&& count_ok(member(m, "limit"@))
        &&& filter_ok(member(m, "search"@))
        &&& filter_ok(member(m, "model_type"@))
        &&& filter_ok(member(m, "task_type_primary"@))
        &&& !(member(m, "limit"@) matches Some(JsonValue::Number(JsonNumber::Unsigned(n))) && (n == 0 || n
            > MAX_SELECTOR_LIMIT))
    }
}

/// The offset of a selector page is any count that fits `u32`, zero and
/// values above the page-size limit included: a selector request whose
/// members are known, whose filters are within bounds and whose limit, if
/// given, lies in `1..=MAX_SELECTOR_LIMIT` is accepted for every such
/// offset. Only the limit is bounded by the page size.
pub proof fn law_selector_offset_is_any_count(r: JsonValue, offset: u64)
    requires
        offset <= u32::MAX,
        exact_object(r, selector_fields()),
        r matches JsonValue::Object(m) && {
            let m = m@;
            &&& member(m, "offset"@) == Some(JsonValue::Number(JsonNumber::Unsigned(offset)))
            &&& match member(m, "limit"@) {
                None => true,
                Some(JsonValue::Null) => true,
                Some(JsonValue::Number(JsonNumber::Unsigned(n))) => 1 <= n <= MAX_SELECTOR_LIMIT,
                _ => false,
            }
            &&& filter_ok(member(m, "search"@))
            &&& filter_ok(member(m, "model_type"@))
            &&& filter_ok(member(m, "task_type_primary"@))
        },
    ensures
        selector_ok(r),
{
}

/// A selector snapshot whose parameters hold only a known request and a
/// bounded connection token decodes whatever its offset is, as long as the
/// offset fits `u32`.
pub proof fn law_selector_snapshot_decodes_for_any_offset(params: Option<JsonValue>, r: JsonValue, offset: u64)
    requires
        params matches Some(JsonValue::Object(m)) && {
            let m = m@;
            &&& only_members(m, command_fields(LocalIpcOperation::ModelLibrarySelectorSnapshot))
            &&& bounded_text(member(m, "connection_token"@)) is Some
            &&& member(m, "request"@) == Some(r)
        },
        offset <= u32::MAX,
        exact_object(r, selector_fields()),
        r matches JsonValue::Object(m) && {
            let m = m@;
            &&& member(m, "offset"@) == Some(JsonValue::Number(JsonNumber::Unsigned(offset)))
            &&& match member(m, "limit"@) {
                None => true,
                Some(JsonValue::Null) => true,
                Some(JsonValue::Number(JsonNumber::Unsigned(n))) => 1 <= n <= MAX_SELECTOR_LIMIT,
                _ => false,
            }
            &&& filter_ok(member(m, "search"@))
            &&& filter_ok(member(m, "model_type"@))
            &&& filter_ok(member(m, "task_type_primary"@))
        },
    ensures
        decodable(LocalIpcOperation::ModelLibrarySelectorSnapshot, params),
{
    law_selector_offset_is_any_count(r, offset);
}

/// An artifact request whose object members, and those of its model
/// reference and consumer, are all known.
pub open spec fn artifact_ok(v: JsonValue) -> bool {
    &&& exact_object(v, artifact_fields())
    &&& v matches JsonValue::Object(m) && {
        let m = m@;
        &&& member(m, "model_ref"@) matches Some(r) && exact_object(r, model_ref_fields())
        &&& member(m, "consumer"@) matches Some(c) && exact_object(c, consumer_fields())
    }
}

/// A decoded command.
pub enum LocalIpcCommand {
    ModelLibrarySelectorSnapshot { request: JsonValue, connection_token: String },
    ResolveModelArtifactLoadTarget { request: JsonValue, connection_token: String },
    ResolveModelPackageFactsSummaries { model_ids: Vec<String>, connection_token: String },
    ResolveModelExecutionDescriptorsBatch { model_ids: Vec<String>, connection_token: String },
    GetInferenceSettingsBatch { model_ids: Vec<String>, connection_token: String },
    SubscribeModelLibraryUpdateStreamSince { cursor: String, connection_token: String },
}

pub open spec fn command_operation(c: LocalIpcCommand) -> LocalIpcOperation {
    match c {
        LocalIpcCommand::ModelLibrarySelectorSnapshot { .. } => LocalIpcOperation::ModelLibrarySelectorSnapshot,
        LocalIpcCommand::ResolveModelArtifactLoadTarget { .. } => LocalIpcOperation::ResolveModelArtifactLoadTarget,
        LocalIpcCommand::ResolveModelPackageFactsSummaries { .. } => LocalIpcOperation::ResolveModelPackageFactsSummaries,
        LocalIpcCommand::ResolveModelExecutionDescriptorsBatch { .. } => LocalIpcOperation::ResolveModelExecutionDescriptorsBatch,
        LocalIpcCommand::GetInferenceSettingsBatch { .. } => LocalIpcOperation::GetInferenceSettingsBatch,
        LocalIpcCommand::SubscribeModelLibraryUpdateStreamSince { .. } => LocalIpcOperation::SubscribeModelLibraryUpdateStreamSince,
    }
}

pub open spec fn command_token(c: LocalIpcCommand) -> Seq<char> {
    match c {
        LocalIpcCommand::ModelLibrarySelectorSnapshot { connection_token, .. } => connection_token@,
        LocalIpcCommand::ResolveModelArtifactLoadTarget { connection_token, .. } => connection_token@,
        LocalIpcCommand::ResolveModelPackageFactsSummaries { connection_token, .. } => connection_token@,
        LocalIpcCommand::ResolveModelExecutionDescriptorsBatch { connection_token, .. } => connection_token@,
        LocalIpcCommand::GetInferenceSettingsBatch { connection_token, .. } => connection_token@,
        LocalIpcCommand::SubscribeModelLibraryUpdateStreamSince { connection_token, .. } => connection_token@,
    }
}

/// The parameters decode for the operation.
pub open spec fn decodable(op: LocalIpcOperation, params: Option<JsonValue>) -> bool {
    match params {
        Some(JsonValue::Object(m)) => {
            let m = m@;
            &&& only_members(m, command_fields(op))
            &&& bounded_text(member(m, "connection_token"@)) is Some
            &&& match op {
                LocalIpcOperation::ModelLibrarySelectorSnapshot => member(m, "request"@) matches Some(r) && selector_ok(r),
                LocalIpcOperation::ResolveModelArtifactLoadTarget => member(m, "request"@) matches Some(r) && artifact_ok(r),
                LocalIpcOperation::SubscribeModelLibraryUpdateStreamSince => bounded_text(member(m, "cursor"@)) is Some,
                _ => bounded_ids(member(m, "model_ids"@)) is Some,
            }
        },
        _ => false,
    }
}

/// The command carries what the parameters hold.
pub open spec fn decoded_as(op: LocalIpcOperation, params: Option<JsonValue>, c: LocalIpcCommand) -> bool {
    params matches Some(JsonValue::Object(m)) && {
        let m = m@;
        &&& command_operation(c) == op
        &&& Some(command_token(c)) == bounded_text(member(m, "connection_token"@))
        &&& match c {
            LocalIpcCommand::ModelLibrarySelectorSnapshot { request, .. } => member(m, "request"@) == Some(request),
            LocalIpcCommand::ResolveModelArtifactLoadTarget { request, .. } => member(m, "request"@) == Some(request),
            LocalIpcCommand::ResolveModelPackageFactsSummaries { model_ids, .. } => Some(model_ids.deep_view())
                == bounded_ids(member(m, "model_ids"@)),
            LocalIpcCommand::ResolveModelExecutionDescriptorsBatch { model_ids, .. } => Some(model_ids.deep_view())
                == bounded_ids(member(m, "model_ids"@)),
            LocalIpcCommand::GetInferenceSettingsBatch { model_ids, .. } => Some(model_ids.deep_view())
                == bounded_ids(member(m, "model_ids"@)),
            LocalIpcCommand::SubscribeModelLibraryUpdateStreamSince { cursor, .. } => Some(cursor@) == bounded_text(
                member(m, "cursor"@),
            ),
        }
    }
}

fn find_member(m: &Vec<(String, JsonValue)>, name: &str) -> (r: usize)
    ensures
        r == member_index(m@, name@),
        r <= m@.len(),
{
    let owned = name.to_owned();
    let mut i: usize = 0;
    assert(m@.skip(0) =~= m@);
    while i < m.len()
        invariant
            owned@ == name@,
            i <= m@.len(),
            member_index(m@, name@) == i + member_index(m@.skip(i as int), name@),
        decreases m.len() - i,
    {
        assert(m@.skip(i as int).drop_first() =~= m@.skip(i + 1));
        assert(m@.skip(i as int)[0] == m@[i as int]);
        if m[i].0 == owned {
            return i;
        }
        i = i + 1;
    }
    i
}

proof fn lemma_member_index_bound(m: Seq<(String, JsonValue)>, name: Seq<char>)
    ensures
        0 <= member_index(m, name) <= m.len(),
        member_index(m, name) < m.len() ==> m[member_index(m, name)].0@ == name,
    decreases m.len(),
{
    if m.len() > 0 && m[0].0@ != name {
        lemma_member_index_bound(m.drop_first(), name);
    }
}

fn only_allowed(m: &Vec<(String, JsonValue)>, allowed: &Vec<String>) -> (r: bool)
    ensures
        r == only_members(m@, allowed.deep_view()),
{
    let mut i: usize = 0;
    while i < m.len()
        invariant
            i <= m@.len(),
            forall|j: int| 0 <= j < i ==> allowed.deep_view().contains(#[trigger] m@[j].0@),
        decreases m.len() - i,
    {
        if !crate::strings::strings_contain(allowed, &m[i].0) {
            return false;
        }
        i = i + 1;
    }
    true
}

fn text_is_bounded(s: &String) -> (r: bool)
    ensures
        r == (trim(s@).len() > 0 && byte_len(s@) <= MAX_LOCAL_STRING_BYTES),
{
    let c = chars_of(s.as_str());
    assert(c@.subrange(0, c@.len() as int) =~= c@);
    trim_text(s.as_str()).unicode_len() > 0 && byte_len_at_most(c.as_slice(), 0, c.len(), MAX_LOCAL_STRING_BYTES)
}

fn bounded_member(m: &Vec<(String, JsonValue)>, name: &str) -> (r: Option<String>)
    ensures
        match r {
            Some(s) => bounded_text(member(m@, name@)) == Some(s@),
            None => bounded_text(member(m@, name@)) is None,
        },
{
    let i = find_member(m, name);
    if i >= m.len() {
        return None;
    }
    match &m[i].1 {
        JsonValue::Text(s) => if text_is_bounded(s) {
            Some(s.clone())
        } else {
            None
        },
        _ => None,
    }
}

fn bounded_model_ids(m: &Vec<(String, JsonValue)>) -> (r: Option<Vec<String>>)
    ensures
        match r {
            Some(ids) => bounded_ids(member(m@, "model_ids"@)) == Some(ids.deep_view()),
            None => bounded_ids(member(m@, "model_ids"@)) is None,
        },
{
    let i = find_member(m, "model_ids");
    if i >= m.len() {
        return None;
    }
    let items = match &m[i].1 {
        JsonValue::Array(items) => items,
        _ => {
            return None;
        },
    };
    if items.len() == 0 || items.len() > MAX_LOCAL_BATCH_ITEMS {
        return None;
    }
    let mut ids: Vec<String> = Vec::new();
    let mut k: usize = 0;
    while k < items.len()
        invariant
            member(m@, "model_ids"@) == Some(JsonValue::Array(*items)),
            0 < items@.len() <= MAX_LOCAL_BATCH_ITEMS,
            k <= items@.len(),
            ids@.len() == k,
            forall|j: int| 0 <= j < k ==> bounded_text(Some(#[trigger] items@[j])) == Some(ids@[j]@),
        decreases items.len() - k,
    {
        match &items[k] {
            JsonValue::Text(s) => {
                if !text_is_bounded(s) {
                    assert(bounded_text(Some(items@[k as int])) is None);
                    return None;
                }
                ids.push(s.clone());
            },
            _ => {
                assert(bounded_text(Some(items@[k as int])) is None);
                return None;
            },
        }
        k = k + 1;
    }
    assert(ids.deep_view() =~= Seq::new(items@.len(), |j: int| bounded_text(Some(items@[j])).unwrap()));
    Some(ids)
}

fn strings_of(names: &[&str]) -> (r: Vec<String>)
    ensures
        r.deep_view() == names@.map_values(|s: &str| s@),
{
    let mut out: Vec<String> = Vec::new();
    let mut i: usize = 0;
    while i < names.len()
        invariant
            i <= names@.len(),
            out@.len() == i,
            forall|j: int| 0 <= j < i ==> (#[trigger] out@[j])@ == names@[j]@,
        decreases names.len() - i,
    {
        out.push(names[i].to_owned());
        i = i + 1;
    }
    assert(out.deep_view() =~= names@.map_values(|s: &str| s@));
    out
}

fn is_exact_object(v: &JsonValue, allowed: &[&str]) -> (r: bool)
    ensures
        r == exact_object(*v, allowed@.map_values(|s: &str| s@)),
{
    match v {
        JsonValue::Object(m) => only_allowed(m, &strings_of(allowed)),
        _ => false,
    }
}

fn count_is_ok(m: &Vec<(String, JsonValue)>, name: &str) -> (r: bool)
    ensures
        r == count_ok(member(m@, name@)),
{
    let i = find_member(m, name);
    if i >= m.len() {
        return true;
    }
    match &m[i].1 {
        JsonValue::Null => true,
        JsonValue::Number(JsonNumber::Unsigned(n)) => *n <= 4294967295u64,
        _ => false,
    }
}

fn filter_is_ok(m: &Vec<(String, JsonValue)>, name: &str) -> (r: bool)
    ensures
        r == filter_ok(member(m@, name@)),
{
    let i = find_member(m, name);
    if i >= m.len() {
        return true;
    }
    match &m[i].1 {
        JsonValue::Null => true,
        JsonValue::Text(s) => {
            let c = chars_of(s.as_str());
            assert(c@.subrange(0, c@.len() as int) =~= c@);
            byte_len_at_most(c.as_slice(), 0, c.len(), MAX_LOCAL_STRING_BYTES)
        },
        _ => false,
    }
}

fn validate_selector_request(v: &JsonValue) -> (r: bool)
    ensures
        r == selector_ok(*v),
{
    proof {
        reveal_strlit("offset");
        reveal_strlit("limit");
        reveal_strlit("search");
        reveal_strlit("model_type");
        reveal_strlit("task_type_primary");
    }
    let fields = ["offset", "limit", "search", "model_type", "task_type_primary"];
    let ok = is_exact_object(v, &fields);
    assert(fields@.map_values(|s: &str| s@) =~= selector_fields());
    if !ok {
        return false;
    }
    match v {
        JsonValue::Object(m) => {
            if !count_is_ok(m, "offset") || !count_is_ok(m, "limit") || !filter_is_ok(m, "search")
                || !filter_is_ok(m, "model_type") || !filter_is_ok(m, "task_type_primary") {
                return false;
            }
            let i = find_member(m, "limit");
            if i < m.len() {
                match &m[i].1 {
                    JsonValue::Number(JsonNumber::Unsigned(n)) => {
                        if *n == 0 || *n > MAX_SELECTOR_LIMIT {
                            return false;
                        }
                    },
                    _ => {},
                }
            }
            true
        },
        _ => false,
    }
}

fn validate_artifact_request(v: &JsonValue) -> (r: bool)
    ensures
        r == artifact_ok(*v),
{
    let fields = [
        "model_ref",
        "expected_artifact_kind",
        "caller_observed_entry_path",
        "caller_observed_package_facts_contract_version",
        "resolution_mode",
        "consumer",
    ];
    let ref_fields = [
        "model_ref_contract_version",
        "model_id",
        "revision",
        "selected_artifact_id",
        "selected_artifact_path",
        "migration_diagnostics",
    ];
    let consumer_names = ["consumer_name", "task_kind", "runtime_family"];
    assert(fields@.map_values(|s: &str| s@) =~= artifact_fields());
    assert(ref_fields@.map_values(|s: &str| s@) =~= model_ref_fields());
    assert(consumer_names@.map_values(|s: &str| s@) =~= consumer_fields());
    if !is_exact_object(v, &fields) {
        return false;
    }
    match v {
        JsonValue::Object(m) => {
            let i = find_member(m, "model_ref");
            if i >= m.len() || !is_exact_object(&m[i].1, &ref_fields) {
                return false;
            }
            let j = find_member(m, "consumer");
            if j >= m.len() || !is_exact_object(&m[j].1, &consumer_names) {
                return false;
            }
            true
        },
        _ => false,
    }
}


/// `v` is the string `s`.
pub open spec fn text_is(v: JsonValue, s: Seq<char>) -> bool {
    v matches JsonValue::Text(t) && t@ == s
}

/// `v` is an array of exactly the strings `ids`.
pub open spec fn ids_array(v: JsonValue, ids: Seq<Seq<char>>) -> bool {
    v matches JsonValue::Array(items) && items@.len() == ids.len() && forall|i: int|
        0 <= i < ids.len() ==> text_is(#[trigger] items@[i], ids[i])
}

/// `v` is the parameter object a command is dispatched with: its operand
/// (`request`, `model_ids` or `cursor`) and then its `connection_token`.
pub open spec fn dispatch_params_of(c: LocalIpcCommand, v: JsonValue) -> bool {
    v matches JsonValue::Object(m) && {
        let m = m@;
        &&& m.len() == 2
        &&& m[1].0@ == "connection_token"@
        &&& text_is(m[1].1, command_token(c))
        &&& match c {
            LocalIpcCommand::ModelLibrarySelectorSnapshot { request, .. } => m[0].0@ == "request"@ && m[0].1
                == request,
            LocalIpcCommand::ResolveModelArtifactLoadTarget { request, .. } => m[0].0@ == "request"@ && m[0].1
                == request,
            LocalIpcCommand::ResolveModelPackageFactsSummaries { model_ids, .. } => m[0].0@ == "model_ids"@
                && ids_array(m[0].1, model_ids.deep_view()),
            LocalIpcCommand::ResolveModelExecutionDescriptorsBatch { model_ids, .. } => m[0].0@
                == "model_ids"@ && ids_array(m[0].1, model_ids.deep_view()),
            LocalIpcCommand::GetInferenceSettingsBatch { model_ids, .. } => m[0].0@ == "model_ids"@ && ids_array(
                m[0].1,
                model_ids.deep_view(),
            ),
            LocalIpcCommand::SubscribeModelLibraryUpdateStreamSince { cursor, .. } => m[0].0@ == "cursor"@
                && text_is(m[0].1, cursor@),
        }
    }
}

fn ids_value(ids: Vec<String>) -> (r: JsonValue)
    ensures
        ids_array(r, ids.deep_view()),
{
    let mut items: Vec<JsonValue> = Vec::new();
    let mut i: usize = 0;
    while i < ids.len()
        invariant
            i <= ids.len(),
            items@.len() == i,
            forall|k: int| 0 <= k < i ==> text_is(#[trigger] items@[k], ids.deep_view()[k]),
        decreases ids.len() - i,
    {
        items.push(JsonValue::Text(clone_string(&ids[i])));
        i = i + 1;
    }
    JsonValue::Array(items)
}

fn operand_object(name: &str, operand: JsonValue, connection_token: String) -> (r: JsonValue)
    ensures
        r matches JsonValue::Object(m) && m@.len() == 2 && m@[0].0@ == name@ && m@[0].1 == operand && m@[1].0@
            == "connection_token"@ && text_is(m@[1].1, connection_token@),
{
    let mut m: Vec<(String, JsonValue)> = Vec::new();
    m.push((name.to_owned(), operand));
    m.push(("connection_token".to_owned(), JsonValue::Text(connection_token)));
    JsonValue::Object(m)
}

impl LocalIpcCommand {
    /// Decode the parameters of an operation; any shape, bound or unknown
    /// member outside what the operation accepts is `invalid_params`.
    pub fn decode(operation: LocalIpcOperation, params: Option<JsonValue>) -> (r: Result<Self, IpcError>)
        ensures
            r is Ok <==> decodable(operation, params),
            r matches Ok(c) ==> decoded_as(operation, params, c),
            r matches Err(e) ==> is_invalid_params(e),
    {
        let ghost p = params;
        let mut m = match params {
            Some(JsonValue::Object(m)) => m,
            _ => {
                return Err(IpcError::invalid_params());
            },
        };
        let allowed: [&str; 2] = match operation {
            LocalIpcOperation::ModelLibrarySelectorSnapshot => ["request", "connection_token"],
            LocalIpcOperation::ResolveModelArtifactLoadTarget => ["request", "connection_token"],
            LocalIpcOperation::SubscribeModelLibraryUpdateStreamSince => ["cursor", "connection_token"],
            _ => ["model_ids", "connection_token"],
        };
        assert(allowed@.map_values(|s: &str| s@) =~= command_fields(operation));
        if !only_allowed(&m, &strings_of(&allowed)) {
            return Err(IpcError::invalid_params());
        }
        let connection_token = match bounded_member(&m, "connection_token") {
            Some(t) => t,
            None => {
                return Err(IpcError::invalid_params());
            },
        };
        match operation {
            LocalIpcOperation::ModelLibrarySelectorSnapshot | LocalIpcOperation::ResolveModelArtifactLoadTarget => {
                let i = find_member(&m, "request");
                proof {
                    lemma_member_index_bound(m@, "request"@);
                }
                if i >= m.len() {
                    return Err(IpcError::invalid_params());
                }
                let ok = match operation {
                    LocalIpcOperation::ModelLibrarySelectorSnapshot => validate_selector_request(&m[i].1),
                    _ => validate_artifact_request(&m[i].1),
                };
                if !ok {
                    return Err(IpcError::invalid_params());
                }
                let ghost m0 = m@;
                let (_, request) = m.remove(i);
                assert(request == m0[i as int].1);
                match operation {
                    LocalIpcOperation::ModelLibrarySelectorSnapshot => Ok(
                        LocalIpcCommand::ModelLibrarySelectorSnapshot { request, connection_token },
                    ),
                    _ => Ok(LocalIpcCommand::ResolveModelArtifactLoadTarget { request, connection_token }),
                }
            },
            LocalIpcOperation::SubscribeModelLibraryUpdateStreamSince => {
                match bounded_member(&m, "cursor") {
                    Some(cursor) => Ok(LocalIpcCommand::SubscribeModelLibraryUpdateStreamSince { cursor, connection_token }),
                    None => Err(IpcError::invalid_params()),
                }
            },
            LocalIpcOperation::ResolveModelPackageFactsSummaries => match bounded_model_ids(&m) {
                Some(model_ids) => Ok(LocalIpcCommand::ResolveModelPackageFactsSummaries { model_ids, connection_token }),
                None => Err(IpcError::invalid_params()),
            },
            LocalIpcOperation::ResolveModelExecutionDescriptorsBatch => match bounded_model_ids(&m) {
                Some(model_ids) => Ok(
                    LocalIpcCommand::ResolveModelExecutionDescriptorsBatch { model_ids, connection_token },
                ),
                None => Err(IpcError::invalid_params()),
            },
            LocalIpcOperation::GetInferenceSettingsBatch => match bounded_model_ids(&m) {
                Some(model_ids) => Ok(LocalIpcCommand::GetInferenceSettingsBatch { model_ids, connection_token }),
                None => Err(IpcError::invalid_params()),
            },
        }
    }

    /// The parameters the command is dispatched with to the API.
    pub fn into_dispatch_params(self) -> (r: JsonValue)
        ensures
            dispatch_params_of(self, r),
    {
        match self {
            LocalIpcCommand::ModelLibrarySelectorSnapshot { request, connection_token } => operand_object(
                "request",
                request,
                connection_token,
            ),
            LocalIpcCommand::ResolveModelArtifactLoadTarget { request, connection_token } => operand_object(
                "request",
                request,
                connection_token,
            ),
            LocalIpcCommand::ResolveModelPackageFactsSummaries { model_ids, connection_token } => operand_object(
                "model_ids",
                ids_value(model_ids),
                connection_token,
            ),
            LocalIpcCommand::ResolveModelExecutionDescriptorsBatch { model_ids, connection_token } => operand_object(
                "model_ids",
                ids_value(model_ids),
                connection_token,
            ),
            LocalIpcCommand::GetInferenceSettingsBatch { model_ids, connection_token } => operand_object(
                "model_ids",
                ids_value(model_ids),
                connection_token,
            ),
            LocalIpcCommand::SubscribeModelLibraryUpdateStreamSince { cursor, connection_token } => operand_object(
                "cursor",
                JsonValue::Text(cursor),
                connection_token,
            ),
        }
    }

    /// The operation of the command.
    pub fn operation(&self) -> (op: LocalIpcOperation)
        ensures
            op == command_operation(*self),
    {
        match self {
            LocalIpcCommand::ModelLibrarySelectorSnapshot { .. } => LocalIpcOperation::ModelLibrarySelectorSnapshot,
            LocalIpcCommand::ResolveModelArtifactLoadTarget { .. } => LocalIpcOperation::ResolveModelArtifactLoadTarget,
            LocalIpcCommand::ResolveModelPackageFactsSummaries { .. } => LocalIpcOperation::ResolveModelPackageFactsSummaries,
            LocalIpcCommand::ResolveModelExecutionDescriptorsBatch { .. } => LocalIpcOperation::ResolveModelExecutionDescriptorsBatch,
            LocalIpcCommand::GetInferenceSettingsBatch { .. } => LocalIpcOperation::GetInferenceSettingsBatch,
            LocalIpcCommand::SubscribeModelLibraryUpdateStreamSince { .. } => LocalIpcOperation::SubscribeModelLibraryUpdateStreamSince,
        }
    }
}

/// A version 2.0 envelope with an unsigned integer id.
pub open spec fn valid_envelope(jsonrpc: Seq<char>, id: RpcId) -> bool {
    jsonrpc == "2.0"@ && id is Unsigned
}

/// The command a request envelope asks for: an invalid envelope is
/// `invalid_request`, an unknown method `method_not_found`, and the
/// parameters of a known one are decoded for its operation.
pub fn decode_request(jsonrpc: &str, method: &str, id: RpcId, params: Option<JsonValue>) -> (r: Result<
    LocalIpcCommand,
    IpcError,
>)
    ensures
        !valid_envelope(jsonrpc@, id) ==> (r matches Err(e) && is_invalid_request(e)),
        valid_envelope(jsonrpc@, id) && (forall|op: LocalIpcOperation| wire_text(op) != method@) ==> (r matches Err(e)
            && is_method_not_found(e)),
        forall|op: LocalIpcOperation|
            valid_envelope(jsonrpc@, id) && #[trigger] wire_text(op) == method@ ==> {
                &&& r is Ok <==> decodable(op, params)
                &&& r matches Ok(c) ==> decoded_as(op, params, c)
                &&& r matches Err(e) ==> is_invalid_params(e)
            },
{
    proof {
        reveal_strlit("2.0");
    }
    let version = jsonrpc.to_owned();
    if version != "2.0".to_owned() || !matches!(id, RpcId::Unsigned(_)) {
        return Err(IpcError::invalid_request());
    }
    match LocalIpcOperation::from_wire_name(method) {
        None => Err(IpcError::method_not_found()),
        Some(operation) => {
            proof {
                assert forall|op: LocalIpcOperation| #[trigger] wire_text(op) == method@ implies op == operation by {
                    lemma_wire_text_injective(op, operation);
                }
            }
            LocalIpcCommand::decode(operation, params)
        },
    }
}

/// What the server does with one request.
pub enum IpcRequestPlan {
    /// Answer with this error and read the next request.
    Reject(IpcError),
    /// Serve the model-library update stream on this connection.
    Stream { cursor: String, connection_token: String },
    /// Dispatch the operation with these parameters and answer with its outcome.
    Dispatch { operation: LocalIpcOperation, params: JsonValue },
}

/// The plan for a request envelope: refused as `decode_request` refuses it;
/// a stream subscription is served on the connection; any other command is
/// dispatched with its parameter object.
pub fn plan_request(jsonrpc: &str, method: &str, id: RpcId, params: Option<JsonValue>) -> (r: IpcRequestPlan)
    ensures
        !valid_envelope(jsonrpc@, id) ==> (r matches IpcRequestPlan::Reject(e) && is_invalid_request(e)),
        valid_envelope(jsonrpc@, id) && (forall|op: LocalIpcOperation| wire_text(op) != method@) ==> (r matches IpcRequestPlan::Reject(e)
            && is_method_not_found(e)),
        forall|op: LocalIpcOperation|
            valid_envelope(jsonrpc@, id) && #[trigger] wire_text(op) == method@ ==> {
                &&& !decodable(op, params) ==> (r matches IpcRequestPlan::Reject(e) && is_invalid_params(e))
                &&& decodable(op, params) && op == LocalIpcOperation::SubscribeModelLibraryUpdateStreamSince ==> (
                r matches IpcRequestPlan::Stream { cursor, connection_token } && decoded_as(
                    op,
                    params,
                    LocalIpcCommand::SubscribeModelLibraryUpdateStreamSince { cursor, connection_token },
                ))
                &&& decodable(op, params) && op != LocalIpcOperation::SubscribeModelLibraryUpdateStreamSince ==> (
                r matches IpcRequestPlan::Dispatch { operation, params: v } && operation == op && exists|
                    c: LocalIpcCommand,
                | decoded_as(op, params, c) && #[trigger] dispatch_params_of(c, v))
            },
{
    match decode_request(jsonrpc, method, id, params) {
        Err(e) => IpcRequestPlan::Reject(e),
        Ok(LocalIpcCommand::SubscribeModelLibraryUpdateStreamSince { cursor, connection_token }) => {
            IpcRequestPlan::Stream { cursor, connection_token }
        },
        Ok(c) => {
            let operation = c.operation();
            let ghost c0 = c;
            let params = c.into_dispatch_params();
            assert(dispatch_params_of(c0, params));
            IpcRequestPlan::Dispatch { operation, params }
        },
    }
}

proof fn lemma_pair_members(m: Seq<(String, JsonValue)>, first: Seq<char>)
    requires
        m.len() == 2,
        m[0].0@ == first,
        m[1].0@ == "connection_token"@,
        first.len() != "connection_token"@.len(),
    ensures
        member(m, first) == Some(m[0].1),
        member(m, "connection_token"@) == Some(m[1].1),
{
    let t = m.drop_first();
    assert(t[0] == m[1]);
    assert(member_index(t, "connection_token"@) == 0);
    assert(m[0].0@ != "connection_token"@);
    assert(member_index(m, "connection_token"@) == 1);
}

proof fn lemma_text_bounded(v: JsonValue, s: Seq<char>, w: Option<JsonValue>)
    requires
        text_is(v, s),
        bounded_text(w) == Some(s),
    ensures
        bounded_text(Some(v)) == Some(s),
{
}

proof fn lemma_ids_bounded(v: JsonValue, ids: Seq<Seq<char>>, w: Option<JsonValue>)
    requires
        ids_array(v, ids),
        bounded_ids(w) == Some(ids),
    ensures
        bounded_ids(Some(v)) == Some(ids),
{
    let items = v->Array_0@;
    let old_items = w->0->Array_0@;
    assert forall|i: int| 0 <= i < items.len() implies bounded_text(Some(#[trigger] items[i])) == Some(ids[i]) by {
        assert(text_is(items[i], ids[i]));
        let o = old_items[i];
        assert(bounded_text(Some(o)) is Some);
        assert(Seq::new(old_items.len(), |k: int| bounded_text(Some(old_items[k])).unwrap())[i] == ids[i]);
    }
    assert(Seq::new(items.len(), |i: int| bounded_text(Some(items[i])).unwrap()) =~= ids);
}

/// Parameters that decode to a command, dispatched onwards as that
/// command's parameter object, decode to the same command again.
pub proof fn law_dispatched_params_decode_to_the_same_command(
    op: LocalIpcOperation,
    params: Option<JsonValue>,
    c: LocalIpcCommand,
    v: JsonValue,
)
    requires
        decodable(op, params),
        decoded_as(op, params, c),
        dispatch_params_of(c, v),
    ensures
        decodable(op, Some(v)),
        decoded_as(op, Some(v), c),
{
    reveal_strlit("request");
    reveal_strlit("connection_token");
    reveal_strlit("model_ids");
    reveal_strlit("cursor");
    let m = v->Object_0@;
    let old_m = params->0->Object_0@;
    let first = m[0].0@;
    lemma_pair_members(m, first);
    lemma_text_bounded(m[1].1, command_token(c), member(old_m, "connection_token"@));
    assert(command_fields(op)[1] == "connection_token"@);
    assert(command_fields(op)[0] == first);
    assert forall|i: int| 0 <= i < m.len() implies command_fields(op).contains(#[trigger] m[i].0@) by {
        if i == 0 {
            assert(command_fields(op)[0] == m[i].0@);
        } else {
            assert(command_fields(op)[1] == m[i].0@);
        }
    }
    match c {
        LocalIpcCommand::ResolveModelPackageFactsSummaries { model_ids, .. } => {
            lemma_ids_bounded(m[0].1, model_ids.deep_view(), member(old_m, "model_ids"@));
        },
        LocalIpcCommand::ResolveModelExecutionDescriptorsBatch { model_ids, .. } => {
            lemma_ids_bounded(m[0].1, model_ids.deep_view(), member(old_m, "model_ids"@));
        },
        LocalIpcCommand::GetInferenceSettingsBatch { model_ids, .. } => {
            lemma_ids_bounded(m[0].1, model_ids.deep_view(), member(old_m, "model_ids"@));
        },
        LocalIpcCommand::SubscribeModelLibraryUpdateStreamSince { cursor, .. } => {
            lemma_text_bounded(m[0].1, cursor@, member(old_m, "cursor"@));
        },
        _ => {},
    }
}

} // verus!
