//! Small service-level decisions: the Hugging Face client requirement, task
//! start states, and update-stream cursors.

use crate::error::PumasError;
use crate::recovery_meta::{trim, trim_text};
use vstd::prelude::*;
use vstd::string::StringExecFns;

verus! {

/// The error for an operation that needs the Hugging Face client when none
/// is configured.
pub fn hf_client_unavailable() -> (e: PumasError)
    ensures
        e matches PumasError::Config { message } && message@ == "HuggingFace client not initialized"@,
{
    PumasError::Config { message: "HuggingFace client not initialized".to_owned() }
}

/// The configured client, or the configuration error.
pub fn require_hf_client<T>(client: Option<&T>) -> (r: Result<&T, PumasError>)
    ensures
        match client {
            Some(c) => r == Ok::<&T, PumasError>(c),
            None => r matches Err(PumasError::Config { message }) && message@
                == "HuggingFace client not initialized"@,
        },
{
    match client {
        Some(c) => Ok(c),
        None => Err(hf_client_unavailable()),
    }
}

/// Index of the first `/` in `s`, or its length when there is none.
pub open spec fn first_slash(s: Seq<char>) -> int
    decreases s.len(),
{
    if s.len() == 0 {
        0
    } else if s[0] == '/' {
        0
    } else {
        1 + first_slash(s.drop_first())
    }
}

proof fn lemma_first_slash(s: Seq<char>)
    ensures
        0 <= first_slash(s) <= s.len(),
        first_slash(s) < s.len() ==> s[first_slash(s)] == '/',
        forall|k: int| 0 <= k < first_slash(s) ==> s[k] != '/',
    decreases s.len(),
{
    if s.len() > 0 && s[0] != '/' {
        let t = s.drop_first();
        lemma_first_slash(t);
        assert forall|k: int| 0 <= k < first_slash(s) implies s[k] != '/' by {
            if k > 0 {
                assert(s[k] == t[k - 1]);
            }
        }
    }
}

/// The repository named by a `{type}/{family}/{name}` model id: everything
/// after its first `/`, when the id holds at least two.
pub open spec fn path_repo_id(id: Seq<char>) -> Option<Seq<char>> {
    let rest = id.skip(first_slash(id) + 1);
    if first_slash(id) < id.len() && first_slash(rest) < rest.len() {
        Some(rest)
    } else {
        None
    }
}

/// The repository of a model id of the form `download:{repo_id}`, which
/// names a model not yet in the library.
pub fn download_repo_id(model_id: &str) -> (r: Option<String>)
    ensures
        r is Some <==> (model_id@.len() >= 9 && model_id@.take(9) == "download:"@),
        r matches Some(repo) ==> repo@ == model_id@.skip(9),
{
    proof {
        reveal_strlit("download:");
    }
    let n = model_id.unicode_len();
    if n < 9 {
        return None;
    }
    let head = model_id.substring_char(0, 9).to_owned();
    if head == "download:".to_owned() {
        proof {
            assert(head@ =~= model_id@.take(9));
            assert(model_id@.subrange(9, n as int) =~= model_id@.skip(9));
        }
        Some(model_id.substring_char(9, n).to_owned())
    } else {
        proof {
            assert(head@ =~= model_id@.take(9));
        }
        None
    }
}

/// The repository a library model's metadata is refreshed from: the one its
/// metadata records, or else the one its id names.
pub fn refetch_repo_id(model_id: &str, recorded: Option<String>) -> (r: Option<String>)
    ensures
        recorded is Some ==> r == recorded,
        recorded is None ==> match path_repo_id(model_id@) {
            Some(repo) => r matches Some(x) && x@ == repo,
            None => r is None,
        },
{
    if recorded.is_some() {
        return recorded;
    }
    let n = model_id.unicode_len();
    let ghost s = model_id@;
    let mut i: usize = 0;
    while i < n
        invariant
            n == s.len(),
            s == model_id@,
            i <= n,
            forall|k: int| 0 <= k < i ==> s[k] != '/',
        ensures
            i <= n,
            forall|k: int| 0 <= k < i ==> s[k] != '/',
            i < n ==> s[i as int] == '/',
        decreases n - i,
    {
        if model_id.get_char(i) == '/' {
            break;
        }
        i = i + 1;
    }
    proof {
        lemma_first_slash(s);
        if first_slash(s) < i {
            assert(s[first_slash(s)] == '/');
        }
        if i < first_slash(s) {
            assert(s[i as int] != '/');
        }
    }
    assert(i == first_slash(s));
    if i == n {
        return None;
    }
    let start = i + 1;
    let ghost rest = s.skip(start as int);
    let mut j: usize = start;
    while j < n
        invariant
            n == s.len(),
            s == model_id@,
            start <= j <= n,
            rest == s.skip(start as int),
            forall|k: int| start <= k < j ==> s[k] != '/',
        ensures
            start <= j <= n,
            forall|k: int| start <= k < j ==> s[k] != '/',
            j < n ==> s[j as int] == '/',
        decreases n - j,
    {
        if model_id.get_char(j) == '/' {
            break;
        }
        j = j + 1;
    }
    proof {
        lemma_first_slash(rest);
        let f = first_slash(rest);
        if f < j - start {
            assert(rest[f] == s[start + f]);
        }
        if j < n && j - start < f {
            assert(rest[j - start] == s[j as int]);
        }
        assert(j < n <==> f < rest.len());
    }
    if j == n {
        return None;
    }
    proof {
        assert(model_id@.subrange(start as int, n as int) =~= rest);
    }
    Some(model_id.substring_char(start, n).to_owned())
}

/// Whether a gated download task has been started or abandoned.
#[derive(Clone, Copy, Debug, PartialEq, Eq, Structural)]
pub enum TaskStartState {
    Gated,
    Running,
    Abandoned,
}

impl TaskStartState {
    /// The state stored as `raw`: 0 gated, 1 running, anything else abandoned.
    pub fn load(raw: u8) -> (s: Self)
        ensures
            raw == 0 ==> s == TaskStartState::Gated,
            raw == 1 ==> s == TaskStartState::Running,
            raw > 1 ==> s == TaskStartState::Abandoned,
    {
        match raw {
            0 => TaskStartState::Gated,
            1 => TaskStartState::Running,
            _ => TaskStartState::Abandoned,
        }
    }

    /// The stored value of the state.
    pub fn raw(self) -> (r: u8)
        ensures
            r == 0 <==> self == TaskStartState::Gated,
            r == 1 <==> self == TaskStartState::Running,
            r == 2 <==> self == TaskStartState::Abandoned,
    {
        match self {
            TaskStartState::Gated => 0,
            TaskStartState::Running => 1,
            TaskStartState::Abandoned => 2,
        }
    }
}

/// The cursor a stream resumes from: the given one unless it is missing or
/// blank, in which case the latest cursor must be looked up.
pub fn explicit_cursor(cursor: &Option<String>) -> (r: Option<String>)
    ensures
        match cursor {
            Some(c) => if trim(c@).len() > 0 {
                r matches Some(x) && x@ == c@
            } else {
                r is None
            },
            None => r is None,
        },
{
    match cursor {
        Some(c) => {
            if trim_text(c.as_str()).unicode_len() > 0 {
                Some(c.clone())
            } else {
                None
            }
        },
        None => None,
    }
}

/// Query of the model-library update stream.
pub struct ModelLibraryUpdateStreamQuery {
    pub cursor: Option<String>,
}

/// Query of the model-download update stream.
pub struct ModelDownloadUpdateStreamQuery {
    pub cursor: Option<String>,
}

/// Query of the runtime-profile update stream.
pub struct RuntimeProfileUpdateStreamQuery {
    pub cursor: Option<String>,
}

/// Query of the serving-status update stream.
pub struct ServingStatusUpdateStreamQuery {
    pub cursor: Option<String>,
}

/// Query of the status-telemetry update stream.
pub struct StatusTelemetryUpdateStreamQuery {
    pub cursor: Option<String>,
}

impl Default for ModelLibraryUpdateStreamQuery {
    fn default() -> (q: Self)
        ensures
            q.cursor is None,
    {
        ModelLibraryUpdateStreamQuery { cursor: None }
    }
}

impl Default for ModelDownloadUpdateStreamQuery {
    fn default() -> (q: Self)
        ensures
            q.cursor is None,
    {
        ModelDownloadUpdateStreamQuery { cursor: None }
    }
}

impl Default for RuntimeProfileUpdateStreamQuery {
    fn default() -> (q: Self)
        ensures
            q.cursor is None,
    {
        RuntimeProfileUpdateStreamQuery { cursor: None }
    }
}

impl Default for ServingStatusUpdateStreamQuery {
    fn default() -> (q: Self)
        ensures
            q.cursor is None,
    {
        ServingStatusUpdateStreamQuery { cursor: None }
    }
}

impl Default for StatusTelemetryUpdateStreamQuery {
    fn default() -> (q: Self)
        ensures
            q.cursor is None,
    {
        StatusTelemetryUpdateStreamQuery { cursor: None }
    }
}

} // verus!
