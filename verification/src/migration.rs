//! Migration execution reports and the location of report files.

use crate::error::PumasError;
use crate::partial_paths::{join_path, join_path_text, last_slash_before, lemma_last_slash_bound};
use crate::publication::ErrorView;
use crate::recovery_meta::{trim, trim_text};
use crate::strings::clone_string;
use crate::text::chars_of;
use vstd::prelude::*;
use vstd::string::StringExecFns;

verus! {

/// One row of a migration execution report.
pub struct MigrationExecutionItem {
    pub model_id: String,
    pub target_model_id: String,
    pub action: String,
    pub error: Option<String>,
}

pub struct ItemView {
    pub model_id: Seq<char>,
    pub target_model_id: Seq<char>,
    pub action: Seq<char>,
    pub error: Option<Seq<char>>,
}

impl View for MigrationExecutionItem {
    type V = ItemView;

    open spec fn view(&self) -> ItemView {
        ItemView {
            model_id: self.model_id@,
            target_model_id: self.target_model_id@,
            action: self.action@,
            error: self.error.deep_view(),
        }
    }
}

/// The counted outcome of a migration execution.
pub struct MigrationExecutionReport {
    pub results: Vec<MigrationExecutionItem>,
    pub completed_move_count: usize,
    pub skipped_move_count: usize,
    pub error_count: usize,
    pub referential_integrity_ok: bool,
    pub referential_integrity_errors: Vec<String>,
}

pub open spec fn rows_view(v: Seq<MigrationExecutionItem>) -> Seq<ItemView> {
    v.map_values(|r: MigrationExecutionItem| r@)
}

pub open spec fn partial_reason() -> Seq<char> {
    "Partial download retained: moving an admitted download destination is unsupported"@
}

/// A skipped partial download records why it was kept in place.
pub open spec fn marked_row(r: ItemView) -> ItemView {
    if r.action == "skipped_partial_download"@ {
        ItemView { error: Some(partial_reason()), ..r }
    } else {
        r
    }
}

pub open spec fn marked_rows(rows: Seq<ItemView>) -> Seq<ItemView> {
    rows.map_values(|r: ItemView| marked_row(r))
}

pub open spec fn needs_mark(r: ItemView) -> bool {
    r.action == "skipped_partial_download"@ && r.error != Some(partial_reason())
}

/// Record on every skipped partial download that moving it is unsupported;
/// true when some row changed.
pub fn mark_partial_download_moves_unsupported(report: &mut MigrationExecutionReport) -> (changed: bool)
    ensures
        rows_view(final(report).results@) == marked_rows(rows_view(old(report).results@)),
        changed == exists|i: int| 0 <= i < old(report).results@.len() && needs_mark(#[trigger] rows_view(old(report).results@)[i]),
        final(report).completed_move_count == old(report).completed_move_count,
        final(report).skipped_move_count == old(report).skipped_move_count,
        final(report).error_count == old(report).error_count,
        final(report).referential_integrity_ok == old(report).referential_integrity_ok,
        final(report).referential_integrity_errors@ == old(report).referential_integrity_errors@,
{
    let ghost before = rows_view(report.results@);
    let skipped = "skipped_partial_download".to_owned();
    let reason = "Partial download retained: moving an admitted download destination is unsupported".to_owned();
    let mut changed = false;
    let mut i: usize = 0;
    while i < report.results.len()
        invariant
            skipped@ == "skipped_partial_download"@,
            reason@ == partial_reason(),
            i <= report.results@.len(),
            report.results@.len() == before.len(),
            forall|j: int| 0 <= j < i ==> #[trigger] rows_view(report.results@)[j] == marked_row(before[j]),
            forall|j: int| i <= j < before.len() ==> #[trigger] rows_view(report.results@)[j] == before[j],
            changed == exists|j: int| 0 <= j < i && needs_mark(#[trigger] before[j]),
            report.completed_move_count == old(report).completed_move_count,
            report.skipped_move_count == old(report).skipped_move_count,
            report.error_count == old(report).error_count,
            report.referential_integrity_ok == old(report).referential_integrity_ok,
            report.referential_integrity_errors@ == old(report).referential_integrity_errors@,
            before == rows_view(old(report).results@),
        decreases report.results.len() - i,
    {
        let row = &report.results[i];
        assert(rows_view(report.results@)[i as int] == before[i as int]);
        if row.action == skipped {
            let already = match &row.error {
                Some(e) => *e == reason,
                None => false,
            };
            if !already {
                changed = true;
            }
            let updated = MigrationExecutionItem {
                model_id: clone_string(&row.model_id),
                target_model_id: clone_string(&row.target_model_id),
                action: clone_string(&row.action),
                error: Some(reason.clone()),
            };
            let ghost rows_before = rows_view(report.results@);
            report.results.set(i, updated);
            assert(rows_view(report.results@) =~= rows_before.update(i as int, marked_row(before[i as int])));
        }
        proof {
            assert(changed == exists|j: int| 0 <= j < i + 1 && needs_mark(#[trigger] before[j])) by {
                if needs_mark(before[i as int]) {
                    assert(changed);
                }
            }
        }
        i = i + 1;
    }
    assert(rows_view(report.results@) =~= marked_rows(before));
    changed
}

pub open spec fn is_completed(a: Seq<char>) -> bool {
    a == "moved"@ || a == "already_migrated"@ || a == "moved_partial"@
}

pub open spec fn is_skipped(a: Seq<char>) -> bool {
    a == "blocked_collision"@ || a == "missing_source"@ || a == "skipped_partial_download"@
}

pub open spec fn completed_rows(rows: Seq<ItemView>) -> nat
    decreases rows.len(),
{
    if rows.len() == 0 {
        0
    } else {
        completed_rows(rows.drop_last()) + if is_completed(rows.last().action) { 1nat } else { 0nat }
    }
}

pub open spec fn skipped_rows(rows: Seq<ItemView>) -> nat
    decreases rows.len(),
{
    if rows.len() == 0 {
        0
    } else {
        skipped_rows(rows.drop_last()) + if !is_completed(rows.last().action) && is_skipped(rows.last().action) {
            1nat
        } else {
            0nat
        }
    }
}

/// Rows that count as errors: a partial move that reported an error, and
/// any row whose action is neither a completed nor a skipped move.
pub open spec fn error_rows(rows: Seq<ItemView>) -> nat
    decreases rows.len(),
{
    if rows.len() == 0 {
        0
    } else {
        let r = rows.last();
        error_rows(rows.drop_last()) + (if r.action == "moved_partial"@ && r.error is Some { 1nat } else { 0nat }) + (
        if !is_completed(r.action) && !is_skipped(r.action) {
            1nat
        } else {
            0nat
        })
    }
}

proof fn lemma_counts_bounded(rows: Seq<ItemView>)
    ensures
        completed_rows(rows) <= rows.len(),
        skipped_rows(rows) <= rows.len(),
        error_rows(rows) <= rows.len(),
    decreases rows.len(),
{
    if rows.len() > 0 {
        lemma_counts_bounded(rows.drop_last());
    }
}

/// Recount a report from its rows and its referential-integrity errors.
pub fn recompute_execution_report_counts(report: &mut MigrationExecutionReport)
    requires
        old(report).results@.len() + old(report).referential_integrity_errors@.len() <= usize::MAX,
    ensures
        final(report).completed_move_count == completed_rows(rows_view(old(report).results@)),
        final(report).skipped_move_count == skipped_rows(rows_view(old(report).results@)),
        final(report).error_count == error_rows(rows_view(old(report).results@)) + if old(report).referential_integrity_ok {
            0
        } else {
            old(report).referential_integrity_errors@.len()
        },
        rows_view(final(report).results@) == rows_view(old(report).results@),
        final(report).referential_integrity_ok == old(report).referential_integrity_ok,
        final(report).referential_integrity_errors@ == old(report).referential_integrity_errors@,
{
    let ghost rows = rows_view(report.results@);
    let moved = "moved".to_owned();
    let already = "already_migrated".to_owned();
    let moved_partial = "moved_partial".to_owned();
    let blocked = "blocked_collision".to_owned();
    let missing = "missing_source".to_owned();
    let skipped = "skipped_partial_download".to_owned();
    let mut completed: usize = 0;
    let mut skipped_count: usize = 0;
    let mut errors: usize = 0;
    let mut i: usize = 0;
    while i < report.results.len()
        invariant
            rows == rows_view(report.results@),
            i <= rows.len(),
            rows.len() + report.referential_integrity_errors@.len() <= usize::MAX,
            moved@ == "moved"@,
            already@ == "already_migrated"@,
            moved_partial@ == "moved_partial"@,
            blocked@ == "blocked_collision"@,
            missing@ == "missing_source"@,
            skipped@ == "skipped_partial_download"@,
            completed == completed_rows(rows.take(i as int)),
            skipped_count == skipped_rows(rows.take(i as int)),
            errors == error_rows(rows.take(i as int)),
        decreases report.results.len() - i,
    {
        proof {
            assert(rows.take(i + 1).drop_last() =~= rows.take(i as int));
            assert(rows.take(i + 1).last() == rows[i as int]);
            lemma_counts_bounded(rows.take(i + 1));
        }
        let row = &report.results[i];
        if row.action == moved_partial && row.error.is_some() {
            errors = errors + 1;
        }
        if row.action == moved || row.action == already || row.action == moved_partial {
            completed = completed + 1;
        } else if row.action == blocked || row.action == missing || row.action == skipped {
            skipped_count = skipped_count + 1;
        } else {
            errors = errors + 1;
        }
        i = i + 1;
    }
    assert(rows.take(rows.len() as int) =~= rows);
    proof {
        lemma_counts_bounded(rows);
    }
    if !report.referential_integrity_ok {
        errors = errors + report.referential_integrity_errors.len();
    }
    report.completed_move_count = completed;
    report.skipped_move_count = skipped_count;
    report.error_count = errors;
}

/// The `/`-separated pieces of `s`.
pub open spec fn split_slash(s: Seq<char>) -> Seq<Seq<char>>
    decreases s.len(),
{
    let k = last_slash_before(s, s.len() as int);
    if k < 0 {
        seq![s]
    } else {
        proof {
            lemma_last_slash_bound(s, s.len() as int);
        }
        split_slash(s.take(k)).push(s.skip(k + 1))
    }
}

/// Apply one piece of a path to the components reached so far: empty and
/// `.` pieces change nothing, `..` drops the last component, and any other
/// piece is appended.
pub open spec fn apply_piece(parts: Seq<Seq<char>>, piece: Seq<char>) -> Seq<Seq<char>> {
    if piece.len() == 0 || piece == seq!['.'] {
        parts
    } else if piece == seq!['.', '.'] {
        if parts.len() > 0 {
            parts.drop_last()
        } else {
            parts
        }
    } else {
        parts.push(piece)
    }
}

pub open spec fn apply_pieces(parts: Seq<Seq<char>>, pieces: Seq<Seq<char>>) -> Seq<Seq<char>>
    decreases pieces.len(),
{
    if pieces.len() == 0 {
        parts
    } else {
        apply_piece(apply_pieces(parts, pieces.drop_last()), pieces.last())
    }
}

/// The components of `s` resolved lexically on top of `base`.
pub open spec fn resolve(base: Seq<Seq<char>>, s: Seq<char>) -> Seq<Seq<char>> {
    apply_pieces(base, split_slash(s))
}

/// Components of a path and whether it is rooted.
pub struct NormalPath {
    pub absolute: bool,
    pub parts: Vec<String>,
}

pub open spec fn parts_view(v: Seq<String>) -> Seq<Seq<char>> {
    v.map_values(|s: String| s@)
}

/// The path as text: components joined by `/`, with a leading `/` when rooted.
pub open spec fn path_text(absolute: bool, parts: Seq<Seq<char>>) -> Seq<char>
    decreases parts.len(),
{
    if parts.len() == 0 {
        if absolute { "/"@ } else { Seq::empty() }
    } else if parts.len() == 1 {
        if absolute { "/"@ + parts[0] } else { parts[0] }
    } else {
        path_text(absolute, parts.drop_last()) + "/"@ + parts.last()
    }
}

proof fn lemma_split_push(s: Seq<char>, c: char)
    ensures
        split_slash(s.push(c)) == if c == '/' {
            split_slash(s).push(Seq::empty())
        } else {
            split_slash(s).drop_last().push(split_slash(s).last().push(c))
        },
        split_slash(s).len() > 0,
    decreases s.len(),
{
    let t = s.push(c);
    lemma_last_slash_prefix(t, s.len() as int);
    assert(t.take(s.len() as int) =~= s);
    lemma_last_slash_bound(s, s.len() as int);
    if c == '/' {
        assert(t.take(s.len() as int) =~= s);
        assert(t.skip(s.len() as int + 1) =~= Seq::<char>::empty());
    } else {
        let k = last_slash_before(s, s.len() as int);
        assert(last_slash_before(t, t.len() as int) == k);
        if k < 0 {
            assert(t =~= s.push(c));
        } else {
            assert(t.take(k) =~= s.take(k));
            assert(t.skip(k + 1) =~= s.skip(k + 1).push(c));
        }
    }
}

/// The last `/` before `n` depends only on the first `n` characters.
proof fn lemma_last_slash_prefix(t: Seq<char>, n: int)
    requires
        0 <= n < t.len(),
    ensures
        t[n] != '/' ==> last_slash_before(t, n + 1) == last_slash_before(t.take(n), n),
        t[n] == '/' ==> last_slash_before(t, n + 1) == n,
        forall|m: int| 0 <= m <= n ==> last_slash_before(t, m) == last_slash_before(t.take(n), m),
    decreases n,
{
    assert forall|m: int| 0 <= m <= n implies last_slash_before(t, m) == last_slash_before(t.take(n), m) by {
        lemma_last_slash_same(t, t.take(n), m);
    }
    lemma_last_slash_same(t, t.take(n), n);
    assert(last_slash_before(t, n + 1) == if t[n] == '/' { n } else { last_slash_before(t, n) });
}

proof fn lemma_last_slash_same(a: Seq<char>, b: Seq<char>, m: int)
    requires
        0 <= m <= a.len(),
        m <= b.len(),
        forall|i: int| 0 <= i < m ==> a[i] == b[i],
    ensures
        last_slash_before(a, m) == last_slash_before(b, m),
    decreases m,
{
    if m > 0 {
        lemma_last_slash_same(a, b, m - 1);
    }
}

fn apply_piece_exec(parts: &mut Vec<String>, piece: &str)
    ensures
        parts_view(final(parts)@) == apply_piece(parts_view(old(parts)@), piece@),
{
    let c = chars_of(piece);
    let ghost p0 = parts_view(parts@);
    if c.len() == 0 || (c.len() == 1 && c[0] == '.') {
        proof {
            if c.len() == 1 {
                assert(piece@ =~= seq!['.']);
            }
        }
        return;
    }
    if c.len() == 2 && c[0] == '.' && c[1] == '.' {
        assert(piece@ =~= seq!['.', '.']);
        if parts.len() > 0 {
            let _ = parts.pop();
            assert(parts_view(parts@) =~= p0.drop_last());
        }
        return;
    }
    assert(piece@ != seq!['.']) by {
        if piece@ == seq!['.'] {
            assert(c@.len() == 1 && c@[0] == '.');
        }
    }
    assert(piece@ != seq!['.', '.']) by {
        if piece@ == seq!['.', '.'] {
            assert(c@.len() == 2 && c@[0] == '.' && c@[1] == '.');
        }
    }
    parts.push(piece.to_owned());
    assert(parts_view(parts@) =~= p0.push(piece@));
}

/// The components of `s` resolved on top of `base`.
pub fn resolve_onto(base: Vec<String>, s: &str) -> (r: Vec<String>)
    ensures
        parts_view(r@) == resolve(parts_view(base@), s@),
{
    let c = chars_of(s);
    let n = c.len();
    let ghost b = parts_view(base@);
    let mut parts = base;
    let mut start: usize = 0;
    let mut i: usize = 0;
    assert(s@.take(0) =~= Seq::<char>::empty());
    assert(split_slash(Seq::<char>::empty()) == seq![Seq::<char>::empty()]);
    assert(seq![Seq::<char>::empty()].drop_last() =~= Seq::<Seq<char>>::empty());
    while i < n
        invariant
            c@ == s@,
            n == s@.len(),
            0 <= start <= i <= n,
            split_slash(s@.take(i as int)).len() > 0,
            parts_view(parts@) == apply_pieces(b, split_slash(s@.take(i as int)).drop_last()),
            split_slash(s@.take(i as int)).last() == s@.subrange(start as int, i as int),
        decreases n - i,
    {
        proof {
            assert(s@.take(i + 1) =~= s@.take(i as int).push(c@[i as int]));
            lemma_split_push(s@.take(i as int), c@[i as int]);
        }
        let ghost sp = split_slash(s@.take(i as int));
        if c[i] == '/' {
            let piece = s.substring_char(start, i);
            apply_piece_exec(&mut parts, piece);
            proof {
                assert(split_slash(s@.take(i + 1)).drop_last() =~= sp);
                assert(sp =~= sp.drop_last().push(sp.last()));
            }
            start = i + 1;
            assert(s@.subrange(start as int, i + 1) =~= Seq::<char>::empty());
        } else {
            proof {
                assert(split_slash(s@.take(i + 1)).drop_last() =~= sp.drop_last());
                assert(s@.subrange(start as int, i + 1) =~= s@.subrange(start as int, i as int).push(c@[i as int]));
            }
        }
        i = i + 1;
    }
    assert(s@.take(n as int) =~= s@);
    let piece = s.substring_char(start, n);
    apply_piece_exec(&mut parts, piece);
    proof {
        let sp = split_slash(s@);
        assert(sp =~= sp.drop_last().push(sp.last()));
    }
    parts
}

/// Render a path.
pub fn path_display(path: &NormalPath) -> (r: String)
    ensures
        r@ == path_text(path.absolute, parts_view(path.parts@)),
{
    proof {
        reveal_strlit("/");
    }
    let ghost pv = parts_view(path.parts@);
    let mut r = if path.absolute {
        "/".to_owned()
    } else {
        String::new()
    };
    let mut i: usize = 0;
    while i < path.parts.len()
        invariant
            pv == parts_view(path.parts@),
            i <= pv.len(),
            r@ == if i == 0 {
                if path.absolute { "/"@ } else { Seq::empty() }
            } else {
                path_text(path.absolute, pv.take(i as int))
            },
        decreases path.parts.len() - i,
    {
        proof {
            assert(pv.take(i + 1).drop_last() =~= pv.take(i as int));
            assert(pv.take(i + 1).last() == pv[i as int]);
        }
        if i > 0 {
            r.append("/");
        }
        r.append(path.parts[i].as_str());
        proof {
            if i == 0 {
                assert(pv.take(1).len() == 1);
                assert(pv.take(1)[0] == pv[0]);
            }
        }
        i = i + 1;
    }
    proof {
        assert(pv.take(pv.len() as int) =~= pv);
        if pv.len() == 0 {
        }
    }
    r
}

pub open spec fn cwd_view(cwd: Result<String, String>) -> Result<Seq<char>, Seq<char>> {
    match cwd {
        Ok(c) => Ok(c@),
        Err(m) => Err(m@),
    }
}

/// The lexical normalization of a local path: the trimmed text resolved
/// from the root when it is absolute, else from the current directory.
pub open spec fn normalized_of(value: Seq<char>, field: Seq<char>, cwd: Result<Seq<char>, Seq<char>>) -> Result<
    (bool, Seq<Seq<char>>),
    ErrorView,
> {
    let t = trim(value);
    if t.len() == 0 {
        Err(ErrorView::InvalidParams { message: field + " is required"@ })
    } else if t[0] == '/' {
        Ok((true, resolve(Seq::empty(), t)))
    } else {
        match cwd {
            Err(m) => Err(ErrorView::Other("Failed to resolve current directory for "@ + field + ": "@ + m)),
            Ok(c) => Ok((c.len() > 0 && c[0] == '/', resolve(resolve(Seq::empty(), c), t))),
        }
    }
}

/// Normalize a local path lexically; `cwd` is the current directory, or
/// the message of its failed lookup.
pub fn normalize_absolute_local_path(value: &str, field: &str, cwd: &Result<String, String>) -> (r: Result<
    NormalPath,
    PumasError,
>)
    ensures
        match (r, normalized_of(value@, field@, cwd_view(*cwd))) {
            (Ok(p), Ok((a, ps))) => p.absolute == a && parts_view(p.parts@) == ps,
            (Err(e), Err(v)) => e@ == v,
            _ => false,
        },
{
    proof {
        reveal_strlit(" is required");
        reveal_strlit("Failed to resolve current directory for ");
        reveal_strlit(": ");
    }
    let ghost cv = cwd_view(*cwd);
    let trimmed = trim_text(value);
    let tc = chars_of(trimmed.as_str());
    if tc.len() == 0 {
        let mut message = field.to_owned();
        message.append(" is required");
        return Err(PumasError::InvalidParams { message });
    }
    if tc[0] == '/' {
        let empty: Vec<String> = Vec::new();
        assert(parts_view(empty@) =~= Seq::<Seq<char>>::empty());
        let parts = resolve_onto(empty, trimmed.as_str());
        return Ok(NormalPath { absolute: true, parts });
    }
    match cwd {
        Err(m) => {
            let mut message = "Failed to resolve current directory for ".to_owned();
            message.append(field);
            message.append(": ");
            message.append(m.as_str());
            Err(PumasError::Other(message))
        },
        Ok(c) => {
            let cc = chars_of(c.as_str());
            let absolute = cc.len() > 0 && cc[0] == '/';
            let empty: Vec<String> = Vec::new();
            assert(parts_view(empty@) =~= Seq::<Seq<char>>::empty());
            let base = resolve_onto(empty, c.as_str());
            let parts = resolve_onto(base, trimmed.as_str());
            Ok(NormalPath { absolute, parts })
        },
    }
}

/// `path` lies within `root`: same rootedness, and the root's components
/// begin the path's.
pub open spec fn within(path_abs: bool, path: Seq<Seq<char>>, root_abs: bool, root: Seq<Seq<char>>) -> bool {
    path_abs == root_abs && root.len() <= path.len() && path.take(root.len() as int) == root
}

fn starts_with(path: &NormalPath, root: &NormalPath) -> (r: bool)
    ensures
        r == within(path.absolute, parts_view(path.parts@), root.absolute, parts_view(root.parts@)),
{
    let ghost pv = parts_view(path.parts@);
    let ghost rv = parts_view(root.parts@);
    if path.absolute != root.absolute || root.parts.len() > path.parts.len() {
        return false;
    }
    let mut i: usize = 0;
    while i < root.parts.len()
        invariant
            pv == parts_view(path.parts@),
            rv == parts_view(root.parts@),
            rv.len() <= pv.len(),
            i <= rv.len(),
            forall|j: int| 0 <= j < i ==> pv[j] == rv[j],
        decreases root.parts.len() - i,
    {
        if path.parts[i] != root.parts[i] {
            assert(pv.take(rv.len() as int)[i as int] != rv[i as int]);
            return false;
        }
        i = i + 1;
    }
    assert(pv.take(rv.len() as int) =~= rv);
    true
}

/// The directory below the library root that holds migration reports.
pub open spec fn reports_dir(library_root: Seq<char>) -> Seq<char> {
    join_path(library_root, "migration-reports"@)
}

/// Where a report path resolves: a relative path is taken below the
/// reports directory, and the normalized path must lie within it.
pub open spec fn report_path_outcome(library_root: Seq<char>, report_path: Seq<char>, cwd: Result<Seq<char>, Seq<char>>) -> Result<
    Seq<char>,
    ErrorView,
> {
    let raw = trim(report_path);
    if raw.len() == 0 {
        Err(ErrorView::InvalidParams { message: "report_path is required"@ })
    } else {
        let target = if raw[0] == '/' { raw } else { join_path(reports_dir(library_root), raw) };
        match normalized_of(target, "report_path"@, cwd) {
            Err(e) => Err(e),
            Ok((abs, parts)) => match normalized_of(reports_dir(library_root), "report_path"@, cwd) {
                Err(e) => Err(e),
                Ok((root_abs, root_parts)) => if !within(abs, parts, root_abs, root_parts) {
                    Err(
                        ErrorView::InvalidParams {
                            message: "report_path must be within migration reports directory: "@ + path_text(
                                abs,
                                parts,
                            ),
                        },
                    )
                } else {
                    Ok(path_text(abs, parts))
                },
            },
        }
    }
}

/// A component that names an entry: neither empty, `.` nor `..`.
pub open spec fn plain_component(c: Seq<char>) -> bool {
    c.len() > 0 && c != seq!['.'] && c != seq!['.', '.']
}

/// Every component names an entry.
pub open spec fn plain_parts(parts: Seq<Seq<char>>) -> bool {
    forall|i: int| 0 <= i < parts.len() ==> plain_component(#[trigger] parts[i])
}

/// A normalized path (`abs`, `parts`) with only plain components that lies
/// within the normalized reports directory of `library_root`.
pub open spec fn inside_reports_dir(
    library_root: Seq<char>,
    cwd: Result<Seq<char>, Seq<char>>,
    abs: bool,
    parts: Seq<Seq<char>>,
) -> bool {
    &&& plain_parts(parts)
    &&& match normalized_of(reports_dir(library_root), "report_path"@, cwd) {
        Ok((root_abs, root_parts)) => within(abs, parts, root_abs, root_parts),
        Err(_) => false,
    }
}

proof fn lemma_apply_pieces_plain(parts: Seq<Seq<char>>, pieces: Seq<Seq<char>>)
    requires
        plain_parts(parts),
    ensures
        plain_parts(apply_pieces(parts, pieces)),
    decreases pieces.len(),
{
    if pieces.len() > 0 {
        lemma_apply_pieces_plain(parts, pieces.drop_last());
        let p = apply_pieces(parts, pieces.drop_last());
        let piece = pieces.last();
        if piece.len() == 0 || piece == seq!['.'] {
        } else if piece == seq!['.', '.'] {
            if p.len() > 0 {
                assert forall|i: int| 0 <= i < p.drop_last().len() implies plain_component(
                    #[trigger] p.drop_last()[i],
                ) by {
                    assert(p.drop_last()[i] == p[i]);
                }
            }
        } else {
            assert forall|i: int| 0 <= i < p.push(piece).len() implies plain_component(
                #[trigger] p.push(piece)[i],
            ) by {
                if i < p.len() {
                    assert(p.push(piece)[i] == p[i]);
                }
            }
        }
    }
}

/// Normalization yields only plain components.
proof fn lemma_normalized_plain(value: Seq<char>, field: Seq<char>, cwd: Result<Seq<char>, Seq<char>>)
    ensures
        normalized_of(value, field, cwd) matches Ok((a, ps)) ==> plain_parts(ps),
{
    let t = trim(value);
    assert(plain_parts(Seq::<Seq<char>>::empty()));
    lemma_apply_pieces_plain(Seq::empty(), split_slash(t));
    if let Ok(c) = cwd {
        lemma_apply_pieces_plain(Seq::empty(), split_slash(c));
        lemma_apply_pieces_plain(resolve(Seq::empty(), c), split_slash(t));
    }
}

/// Whatever report path is accepted lies inside the reports directory.
proof fn lemma_report_path_inside(library_root: Seq<char>, report_path: Seq<char>, cwd: Result<Seq<char>, Seq<char>>)
    ensures
        report_path_outcome(library_root, report_path, cwd) matches Ok(y) ==> exists|abs: bool, parts: Seq<Seq<char>>|
            #[trigger] inside_reports_dir(library_root, cwd, abs, parts) && y == path_text(abs, parts),
{
    let raw = trim(report_path);
    if raw.len() > 0 {
        let target = if raw[0] == '/' { raw } else { join_path(reports_dir(library_root), raw) };
        lemma_normalized_plain(target, "report_path"@, cwd);
        if let Ok((abs, parts)) = normalized_of(target, "report_path"@, cwd) {
            assert(plain_parts(parts));
            if report_path_outcome(library_root, report_path, cwd) is Ok {
                assert(inside_reports_dir(library_root, cwd, abs, parts));
            }
        }
    }
}

/// The normalized location of a migration report file.
pub fn normalize_migration_report_path(library_root: &str, report_path: &str, cwd: &Result<String, String>) -> (r:
    Result<String, PumasError>)
    ensures
        match (r, report_path_outcome(library_root@, report_path@, cwd_view(*cwd))) {
            (Ok(x), Ok(y)) => x@ == y,
            (Err(e), Err(v)) => e@ == v,
            _ => false,
        },
        trim(report_path@).len() == 0 ==> (r matches Err(e) && e@ == ErrorView::InvalidParams {
            message: "report_path is required"@,
        }),
        r matches Ok(x) ==> exists|abs: bool, parts: Seq<Seq<char>>|
            #[trigger] inside_reports_dir(library_root@, cwd_view(*cwd), abs, parts) && x@ == path_text(abs, parts),
{
    proof {
        lemma_report_path_inside(library_root@, report_path@, cwd_view(*cwd));
    }
    let raw = trim_text(report_path);
    let rc = chars_of(raw.as_str());
    if rc.len() == 0 {
        return Err(PumasError::InvalidParams { message: "report_path is required".to_owned() });
    }
    let reports_root = join_path_text(library_root, "migration-reports");
    let target = if rc[0] == '/' {
        raw
    } else {
        join_path_text(reports_root.as_str(), raw.as_str())
    };
    let normalized = normalize_absolute_local_path(target.as_str(), "report_path", cwd)?;
    let root = normalize_absolute_local_path(reports_root.as_str(), "report_path", cwd)?;
    if !starts_with(&normalized, &root) {
        proof {
            reveal_strlit("report_path must be within migration reports directory: ");
        }
        let mut message = "report_path must be within migration reports directory: ".to_owned();
        message.append(path_display(&normalized).as_str());
        return Err(PumasError::InvalidParams { message });
    }
    Ok(path_display(&normalized))
}

} // verus!
