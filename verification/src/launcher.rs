//! Where an inference app's installed versions live, and the slug of a
//! release tag.

use crate::error::{is_other, PumasError};
use crate::partial_paths::{join_path, join_path_text};
use crate::recovery_meta::{trim, trim_text};
use crate::recovery_ticket::{decimal, decimal_text};
use vstd::prelude::*;
use vstd::string::{StrSliceExecFns, StringExecFns};

verus! {

/// Whether `char::is_alphanumeric` holds of the character.
pub uninterp spec fn alphanumeric(c: char) -> bool;

/// What `str::to_lowercase` gives for the text.
pub uninterp spec fn lowercase_text(s: Seq<char>) -> Seq<char>;

/// Calls `char::is_alphanumeric`; the contract names its answer.
#[verifier::external_body]
fn is_alphanumeric(c: char) -> (r: bool)
    ensures
        r == alphanumeric(c),
{
    c.is_alphanumeric()
}

/// Calls `str::to_lowercase`; the contract names the result.
#[verifier::external_body]
fn to_lowercase(s: &str) -> (r: String)
    ensures
        r@ == lowercase_text(s@),
{
    s.to_lowercase()
}

/// A character kept in a slug.
pub open spec fn slug_char(c: char) -> bool {
    alphanumeric(c) || c == '-' || c == '_'
}

/// The slug characters of `s`, in order.
pub open spec fn slug_chars(s: Seq<char>) -> Seq<char>
    decreases s.len(),
{
    if s.len() == 0 {
        s
    } else if slug_char(s.last()) {
        slug_chars(s.drop_last()).push(s.last())
    } else {
        slug_chars(s.drop_last())
    }
}

/// `s` without its leading `v`s.
pub open spec fn without_leading_v(s: Seq<char>) -> Seq<char>
    decreases s.len(),
{
    if s.len() > 0 && s[0] == 'v' {
        without_leading_v(s.drop_first())
    } else {
        s
    }
}

/// The slug of a tag: its slug characters, lowercased, without leading `v`s.
pub open spec fn slug_of(tag: Seq<char>) -> Seq<char> {
    without_leading_v(lowercase_text(slug_chars(tag)))
}

/// Launches and tracks the installed versions of one inference app.
pub struct VersionLauncher {
    launcher_root: String,
    versions_dir_name: String,
    logs_dir: String,
}

impl VersionLauncher {
    pub closed spec fn root(&self) -> Seq<char> {
        self.launcher_root@
    }

    pub closed spec fn versions_dir(&self) -> Seq<char> {
        self.versions_dir_name@
    }

    pub closed spec fn logs(&self) -> Seq<char> {
        self.logs_dir@
    }

    /// A launcher for the app whose versions live in `versions_dir_name`
    /// below the launcher root.
    pub fn new(launcher_root: String, versions_dir_name: String, logs_dir: String) -> (l: Self)
        ensures
            l.root() == launcher_root@,
            l.versions_dir() == versions_dir_name@,
            l.logs() == logs_dir@,
    {
        VersionLauncher { launcher_root, versions_dir_name, logs_dir }
    }

    /// The directory of an installed version.
    pub fn version_path(&self, tag: &str) -> (p: String)
        ensures
            p@ == join_path(join_path(self.root(), self.versions_dir()), tag@),
    {
        let dir = join_path_text(self.launcher_root.as_str(), self.versions_dir_name.as_str());
        join_path_text(dir.as_str(), tag)
    }

    /// The slug of a release tag.
    pub fn slugify_tag(&self, tag: &str) -> (r: String)
        ensures
            r@ == slug_of(tag@),
    {
        let n = tag.unicode_len();
        let mut kept = String::new();
        let mut i: usize = 0;
        while i < n
            invariant
                n == tag@.len(),
                i <= n,
                kept@ == slug_chars(tag@.take(i as int)),
            decreases n - i,
        {
            let c = tag.get_char(i);
            proof {
                assert(tag@.take(i + 1).drop_last() =~= tag@.take(i as int));
                assert(tag@.take(i + 1).last() == c);
            }
            if is_alphanumeric(c) || c == '-' || c == '_' {
                proof {
                    assert(tag@.subrange(i as int, i + 1) =~= seq![c]);
                }
                kept.append(tag.substring_char(i, i + 1));
            }
            i = i + 1;
        }
        proof {
            assert(tag@.take(n as int) =~= tag@);
        }
        let lower = to_lowercase(kept.as_str());
        strip_leading_v(lower.as_str())
    }

    /// The log file of a launch of `tag` started at `stamp` (the launch
    /// time as `%Y%m%d-%H%M%S`): `launch-{slug}-{stamp}.log` in the logs
    /// directory.
    pub fn launch_log_path(&self, tag: &str, stamp: &str) -> (p: String)
        ensures
            p@ == join_path(self.logs(), "launch-"@ + slug_of(tag@) + "-"@ + stamp@ + ".log"@),
    {
        proof {
            reveal_strlit("launch-");
            reveal_strlit("-");
            reveal_strlit(".log");
        }
        let mut name = "launch-".to_owned();
        let slug = self.slugify_tag(tag);
        name.append(slug.as_str());
        name.append("-");
        name.append(stamp);
        name.append(".log");
        join_path_text(self.logs_dir.as_str(), name.as_str())
    }
}

/// The arguments of a server launch: `serve`, then the extra ones.
pub fn serve_args(extra: Option<Vec<String>>) -> (r: Vec<String>)
    ensures
        r.deep_view() == seq!["serve"@] + match extra {
            Some(e) => e.deep_view(),
            None => Seq::empty(),
        },
{
    let mut args: Vec<String> = Vec::new();
    args.push("serve".to_owned());
    match extra {
        Some(mut e) => {
            let ghost e0 = e.deep_view();
            args.append(&mut e);
            assert(args.deep_view() =~= seq!["serve"@] + e0);
        },
        None => {
            assert(args.deep_view() =~= seq!["serve"@] + Seq::<Seq<char>>::empty());
        },
    }
    args
}

/// The text without its leading `v`s.
pub fn strip_leading_v(lower: &str) -> (r: String)
    ensures
        r@ == without_leading_v(lower@),
{
    let m = lower.unicode_len();
    let mut start: usize = 0;
    assert(lower@.skip(0) =~= lower@);
    while start < m && lower.get_char(start) == 'v'
        invariant
            m == lower@.len(),
            start <= m,
            without_leading_v(lower@) == without_leading_v(lower@.skip(start as int)),
        decreases m - start,
    {
        proof {
            assert(lower@.skip(start as int).drop_first() =~= lower@.skip(start + 1));
        }
        start = start + 1;
    }
    proof {
        let rest = lower@.skip(start as int);
        assert(rest.len() == 0 || rest[0] != 'v');
        assert(rest =~= lower@.subrange(start as int, m as int));
    }
    lower.substring_char(start, m).to_owned()
}

/// The pieces of `s` between newlines, in order (one more than there are
/// newlines).
pub open spec fn newline_pieces(s: Seq<char>) -> Seq<Seq<char>>
    decreases s.len(),
{
    if s.len() == 0 {
        seq![Seq::empty()]
    } else if s.last() == '\n' {
        newline_pieces(s.drop_last()).push(Seq::empty())
    } else {
        let p = newline_pieces(s.drop_last());
        p.update(p.len() - 1, p.last().push(s.last()))
    }
}

/// A line without the `\r` of a `\r\n` ending.
pub open spec fn without_cr(line: Seq<char>) -> Seq<char> {
    if line.len() > 0 && line.last() == '\r' {
        line.drop_last()
    } else {
        line
    }
}

/// The lines of a text as `str::lines` reads them: split at `\n` or
/// `\r\n`, without the terminators; a final line ending is optional.
pub open spec fn text_lines(s: Seq<char>) -> Seq<Seq<char>> {
    let p = newline_pieces(s);
    let ended = p.drop_last().map_values(|l: Seq<char>| without_cr(l));
    if p.last().len() > 0 {
        ended.push(p.last())
    } else {
        ended
    }
}

proof fn lemma_newline_pieces_len(s: Seq<char>)
    ensures
        newline_pieces(s).len() >= 1,
    decreases s.len(),
{
    if s.len() > 0 {
        lemma_newline_pieces_len(s.drop_last());
    }
}

/// The last `count` lines of a text (all of them when it has fewer).
pub fn last_lines(content: &str, count: usize) -> (r: Vec<String>)
    ensures
        r.deep_view() == text_lines(content@).skip(
            if text_lines(content@).len() > count {
                text_lines(content@).len() - count
            } else {
                0
            },
        ),
{
    let n = content.unicode_len();
    let mut lines: Vec<String> = Vec::new();
    let mut start: usize = 0;
    let mut i: usize = 0;
    proof {
        assert(content@.take(0) =~= Seq::<char>::empty());
    }
    while i < n
        invariant
            n == content@.len(),
            start <= i <= n,
            lines.deep_view() == newline_pieces(content@.take(i as int)).drop_last().map_values(
                |l: Seq<char>| without_cr(l),
            ),
            newline_pieces(content@.take(i as int)).last() == content@.subrange(start as int, i as int),
        decreases n - i,
    {
        let c = content.get_char(i);
        let ghost t = content@.take(i as int);
        proof {
            assert(content@.take(i + 1).drop_last() =~= t);
            assert(content@.take(i + 1).last() == c);
            lemma_newline_pieces_len(t);
        }
        if c == '\n' {
            let piece = content.substring_char(start, i);
            let line = if i > start && content.get_char(i - 1) == '\r' {
                content.substring_char(start, i - 1)
            } else {
                piece
            };
            proof {
                let p = newline_pieces(t);
                assert(piece@ == p.last());
                if i > start && content@[i - 1] == '\r' {
                    assert(p.last().last() == '\r');
                    assert(line@ =~= p.last().drop_last());
                }
                assert(line@ == without_cr(p.last()));
                let q = newline_pieces(content@.take(i + 1));
                assert(q == p.push(Seq::empty()));
                assert(q.drop_last() == p);
                assert(p =~= p.drop_last().push(p.last()));
            }
            let ghost before = lines.deep_view();
            lines.push(line.to_owned());
            proof {
                let p = newline_pieces(t);
                assert(lines.deep_view() =~= before.push(line@));
                assert(p.map_values(|l: Seq<char>| without_cr(l)) =~= p.drop_last().map_values(
                    |l: Seq<char>| without_cr(l),
                ).push(without_cr(p.last())));
                assert(lines.deep_view() =~= p.map_values(|l: Seq<char>| without_cr(l)));
                assert(content@.subrange(i + 1, i + 1) =~= Seq::<char>::empty());
            }
            start = i + 1;
        } else {
            proof {
                let p = newline_pieces(t);
                let q = newline_pieces(content@.take(i + 1));
                assert(q == p.update(p.len() - 1, p.last().push(c)));
                assert(q.drop_last() =~= p.drop_last());
                assert(q.last() =~= content@.subrange(start as int, i + 1));
            }
        }
        i = i + 1;
    }
    proof {
        assert(content@.take(n as int) =~= content@);
        lemma_newline_pieces_len(content@);
    }
    if start < n {
        lines.push(content.substring_char(start, n).to_owned());
    }
    proof {
        let p = newline_pieces(content@);
        assert(lines.deep_view() =~= text_lines(content@));
    }
    let total = lines.len();
    let skip = if total > count {
        total - count
    } else {
        0
    };
    let mut out: Vec<String> = Vec::new();
    let mut k: usize = skip;
    while k < total
        invariant
            skip <= k <= total,
            total == lines@.len(),
            lines.deep_view() == text_lines(content@),
            out.deep_view() == text_lines(content@).subrange(skip as int, k as int),
        decreases total - k,
    {
        let ghost before = out.deep_view();
        out.push(lines[k].as_str().to_owned());
        proof {
            assert(lines.deep_view()[k as int] == lines@[k as int]@);
            assert(out.deep_view() =~= before.push(lines@[k as int]@));
            assert(out.deep_view() =~= text_lines(content@).subrange(skip as int, k + 1));
        }
        k = k + 1;
    }
    proof {
        assert(text_lines(content@).subrange(skip as int, total as int) =~= text_lines(content@).skip(skip as int));
    }
    out
}

/// The value of a string of ASCII digits.
pub open spec fn digits_value(d: Seq<char>) -> int
    decreases d.len(),
{
    if d.len() == 0 {
        0
    } else {
        digits_value(d.drop_last()) * 10 + (d.last() as int - '0' as int)
    }
}

pub open spec fn all_digits(d: Seq<char>) -> bool {
    forall|i: int| 0 <= i < d.len() ==> '0' <= #[trigger] d[i] <= '9'
}

/// What `i32::from_str` accepts: an optional sign, then one or more ASCII
/// digits, of a value within `i32`.
pub open spec fn i32_text_value(s: Seq<char>) -> Option<int> {
    let signed = s.len() > 0 && (s[0] == '+' || s[0] == '-');
    let d = if signed { s.drop_first() } else { s };
    let v = if signed && s[0] == '-' { -digits_value(d) } else { digits_value(d) };
    if d.len() > 0 && all_digits(d) && i32::MIN <= v <= i32::MAX {
        Some(v)
    } else {
        None
    }
}

proof fn lemma_digits_value_nonneg(d: Seq<char>)
    requires
        all_digits(d),
    ensures
        digits_value(d) >= 0,
    decreases d.len(),
{
    if d.len() > 0 {
        assert(all_digits(d.drop_last()));
        lemma_digits_value_nonneg(d.drop_last());
    }
}

/// The process id recorded in a PID file: its trimmed text read as an
/// `i32`; any other text is `Invalid PID in file: {text}`.
pub fn parse_pid(pid_text: &str) -> (r: Result<i32, PumasError>)
    ensures
        match i32_text_value(trim(pid_text@)) {
            Some(v) => r == Ok::<i32, PumasError>(v as i32),
            None => r matches Err(e) && is_other(e, "Invalid PID in file: "@ + pid_text@),
        },
{
    let t = trim_text(pid_text);
    let n = t.unicode_len();
    let ghost s = t@;
    let signed = n > 0 && (t.get_char(0) == '+' || t.get_char(0) == '-');
    let negative = signed && t.get_char(0) == '-';
    let start: usize = if signed { 1 } else { 0 };
    let ghost d = if signed { s.drop_first() } else { s };
    assert(d =~= s.skip(start as int));
    let mut ok = start < n;
    let mut big = false;
    let mut v: u64 = 0;
    let mut i: usize = start;
    assert(d.take(0) =~= Seq::<char>::empty());
    while i < n
        invariant
            s == t@,
            n == s.len(),
            start <= i <= n,
            d == s.skip(start as int),
            ok ==> start < n,
            ok ==> all_digits(d.take(i - start)),
            !ok ==> (start == n || !all_digits(d)),
            ok && !big ==> v == digits_value(d.take(i - start)),
            ok && big ==> digits_value(d.take(i - start)) > 2147483648,
            !big ==> v <= 2147483648,
        decreases n - i,
    {
        let c = t.get_char(i);
        let ghost p = d.take(i - start);
        let ghost q = d.take(i + 1 - start);
        proof {
            assert(q.drop_last() =~= p);
            assert(q.last() == c);
            assert(d[i - start] == c);
        }
        if c < '0' || c > '9' {
            ok = false;
        } else if ok {
            proof {
                assert forall|k: int| 0 <= k < q.len() implies '0' <= #[trigger] q[k] <= '9' by {
                    if k < p.len() {
                        assert(q[k] == p[k]);
                    }
                }
                lemma_digits_value_nonneg(p);
            }
            if !big {
                v = v * 10 + ((c as u32) - ('0' as u32)) as u64;
                if v > 2147483648 {
                    big = true;
                }
            }
        }
        i = i + 1;
    }
    proof {
        assert(d.take(n - start) =~= d);
    }
    let value: Option<i32> = if !ok || big {
        None
    } else if negative {
        Some((0 - (v as i64)) as i32)
    } else if v <= 2147483647 {
        Some(v as i32)
    } else {
        None
    };
    match value {
        Some(pid) => Ok(pid),
        None => {
            proof {
                reveal_strlit("Invalid PID in file: ");
            }
            let mut message = "Invalid PID in file: ".to_owned();
            message.append(pid_text);
            Err(PumasError::Other(message))
        },
    }
}

/// First pause between readiness probes, in milliseconds.
pub const FIRST_PROBE_DELAY_MS: u64 = 500;

/// Longest pause between readiness probes, in milliseconds.
pub const MAX_PROBE_DELAY_MS: u64 = 5000;

/// What was observed in one round of waiting for a launched server.
pub enum ReadinessEvent {
    /// The wait has lasted its whole timeout.
    TimedOut,
    /// The process has exited; its exit status as text.
    ProcessExited(String),
    /// The process status could not be read; the error as text.
    ProcessCheckFailed(String),
    /// The server answered its health check with success.
    Healthy,
    /// The server is not answering with success yet.
    NotReady,
}

/// What the waiting side does next.
pub enum ReadinessAction {
    /// The server is ready.
    Ready,
    /// The launch failed with this message.
    Fail(String),
    /// Pause this many milliseconds, then observe again.
    Pause(u64),
}

/// The wait for a launched server to answer its health check: the pause
/// between probes starts at half a second and doubles after each failed
/// probe, up to five seconds.
pub struct ReadinessWait {
    delay_ms: u64,
}

impl ReadinessWait {
    #[verifier::type_invariant]
    spec fn bounded(self) -> bool {
        self.delay_ms <= MAX_PROBE_DELAY_MS
    }

    pub closed spec fn delay(&self) -> nat {
        self.delay_ms as nat
    }

    pub fn new() -> (w: Self)
        ensures
            w.delay() == FIRST_PROBE_DELAY_MS,
    {
        ReadinessWait { delay_ms: FIRST_PROBE_DELAY_MS }
    }

    /// The next action for what was observed, for a wait of `timeout_secs`.
    pub fn step(&mut self, event: ReadinessEvent, timeout_secs: u64) -> (a: ReadinessAction)
        ensures
            final(self).delay() <= MAX_PROBE_DELAY_MS,
            match event {
                ReadinessEvent::TimedOut => a matches ReadinessAction::Fail(m) && m@ == "Server did not become ready within "@
                    + decimal(timeout_secs as nat) + " seconds"@ && final(self).delay() == old(self).delay(),
                ReadinessEvent::ProcessExited(status) => a matches ReadinessAction::Fail(m) && m@
                    == "Process exited with status "@ + status@ && final(self).delay() == old(self).delay(),
                ReadinessEvent::ProcessCheckFailed(error) => a matches ReadinessAction::Fail(m) && m@
                    == "Failed to check process: "@ + error@ && final(self).delay() == old(self).delay(),
                ReadinessEvent::Healthy => a is Ready && final(self).delay() == old(self).delay(),
                ReadinessEvent::NotReady => a == ReadinessAction::Pause(old(self).delay() as u64)
                    && final(self).delay() == if 2 * old(self).delay() <= MAX_PROBE_DELAY_MS {
                    2 * old(self).delay()
                } else {
                    MAX_PROBE_DELAY_MS as nat
                },
            },
    {
        proof {
            use_type_invariant(&*self);
        }
        match event {
            ReadinessEvent::TimedOut => {
                proof {
                    reveal_strlit("Server did not become ready within ");
                    reveal_strlit(" seconds");
                }
                let mut m = "Server did not become ready within ".to_owned();
                m.append(decimal_text(timeout_secs).as_str());
                m.append(" seconds");
                ReadinessAction::Fail(m)
            },
            ReadinessEvent::ProcessExited(status) => {
                proof {
                    reveal_strlit("Process exited with status ");
                }
                let mut m = "Process exited with status ".to_owned();
                m.append(status.as_str());
                ReadinessAction::Fail(m)
            },
            ReadinessEvent::ProcessCheckFailed(error) => {
                proof {
                    reveal_strlit("Failed to check process: ");
                }
                let mut m = "Failed to check process: ".to_owned();
                m.append(error.as_str());
                ReadinessAction::Fail(m)
            },
            ReadinessEvent::Healthy => ReadinessAction::Ready,
            ReadinessEvent::NotReady => {
                let pause = self.delay_ms;
                let next = if pause * 2 <= MAX_PROBE_DELAY_MS {
                    pause * 2
                } else {
                    MAX_PROBE_DELAY_MS
                };
                *self = ReadinessWait { delay_ms: next };
                ReadinessAction::Pause(pause)
            },
        }
    }
}

} // verus!
