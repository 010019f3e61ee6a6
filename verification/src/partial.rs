//! Recovery of downloads interrupted after their final byte arrived:
//! inferring the expected size of the one unfinished payload file, and
//! deciding which `.part` files to promote.

use crate::error::PumasError;
use crate::keyed::{find_key, keyed_map, keys_unique, Keyed};
use crate::partial_paths::{is_size_accounted_payload, size_accounted};
use crate::publication::ErrorView;
use crate::strings::clone_string;
use vstd::prelude::*;

verus! {

/// What the filesystem reported for one expected artifact: the size of its
/// final file and of its `.part` file, each when it is a regular file.
pub struct ArtifactObservation {
    pub file_len: Result<Option<u64>, PumasError>,
    pub part_len: Result<Option<u64>, PumasError>,
}

pub struct ObservationView {
    pub file_len: Result<Option<u64>, ErrorView>,
    pub part_len: Result<Option<u64>, ErrorView>,
}

pub open spec fn size_view(r: Result<Option<u64>, PumasError>) -> Result<Option<u64>, ErrorView> {
    match r {
        Ok(x) => Ok(x),
        Err(e) => Err(e@),
    }
}

impl View for ArtifactObservation {
    type V = ObservationView;

    open spec fn view(&self) -> ObservationView {
        ObservationView { file_len: size_view(self.file_len), part_len: size_view(self.part_len) }
    }
}

pub open spec fn observations_view(v: Seq<ArtifactObservation>) -> Seq<ObservationView> {
    v.map_values(|o: ArtifactObservation| o@)
}

fn observed(r: &Result<Option<u64>, PumasError>) -> (x: Result<Option<u64>, PumasError>)
    ensures
        size_view(x) == size_view(*r),
{
    match r {
        Ok(v) => Ok(*v),
        Err(e) => Err(e.duplicate()),
    }
}

/// `files[i]` did not occur earlier.
pub open spec fn first_occurrence(files: Seq<Seq<char>>, i: int) -> bool {
    !files.take(i).contains(files[i])
}

fn is_first_occurrence(files: &[String], i: usize) -> (r: bool)
    requires
        i < files@.len(),
    ensures
        r == first_occurrence(files.deep_view(), i as int),
{
    let ghost fv = files.deep_view();
    let mut j: usize = 0;
    while j < i
        invariant
            fv == files.deep_view(),
            i < fv.len(),
            j <= i,
            forall|k: int| 0 <= k < j ==> #[trigger] fv[k] != fv[i as int],
        decreases i - j,
    {
        if files[j] == files[i] {
            assert(fv.take(i as int)[j as int] == fv[i as int]);
            return false;
        }
        j = j + 1;
    }
    assert forall|k: int| 0 <= k < fv.take(i as int).len() implies fv.take(i as int)[k] != fv[i as int] by {
        assert(fv.take(i as int)[k] == fv[k]);
    }
    true
}

pub open spec fn saturating_add(a: u64, b: u64) -> u64 {
    if a + b > u64::MAX {
        u64::MAX
    } else {
        (a + b) as u64
    }
}

pub enum SizeScan {
    Failed(ErrorView),
    Missing,
    Done { completed: u64, unfinished: Seq<Seq<char>> },
}

/// Walk the distinct files in order: completed files add their size (capped
/// at `u64::MAX`), files with only a `.part` are unfinished, and a file with
/// neither ends the walk.
pub open spec fn size_scan(
    files: Seq<Seq<char>>,
    obs: Seq<ObservationView>,
    i: int,
    completed: u64,
    unfinished: Seq<Seq<char>>,
) -> SizeScan
    decreases files.len() - i,
{
    if i < 0 || i >= files.len() {
        SizeScan::Done { completed, unfinished }
    } else if !first_occurrence(files, i) {
        size_scan(files, obs, i + 1, completed, unfinished)
    } else {
        match obs[i].file_len {
            Err(e) => SizeScan::Failed(e),
            Ok(Some(size)) => size_scan(files, obs, i + 1, saturating_add(completed, size), unfinished),
            Ok(None) => match obs[i].part_len {
                Err(e) => SizeScan::Failed(e),
                Ok(Some(_)) => size_scan(files, obs, i + 1, completed, unfinished.push(files[i])),
                Ok(None) => SizeScan::Missing,
            },
        }
    }
}

/// The inferred expected size of the one unfinished file, if it can be known.
pub open spec fn inferred_size(files: Seq<Seq<char>>, obs: Seq<ObservationView>, total: Option<u64>) -> Result<
    Option<(Seq<char>, u64)>,
    ErrorView,
> {
    match total {
        None => Ok(None),
        Some(t) => if t == 0 {
            Ok(None)
        } else if files.len() == 1 {
            Ok(Some((files[0], t)))
        } else if files.len() == 0 || !(forall|i: int| 0 <= i < files.len() ==> size_accounted(#[trigger] files[i])) {
            Ok(None)
        } else {
            match size_scan(files, obs, 0, 0, Seq::empty()) {
                SizeScan::Failed(e) => Err(e),
                SizeScan::Missing => Ok(None),
                SizeScan::Done { completed, unfinished } => if unfinished.len() != 1 || completed >= t {
                    Ok(None)
                } else {
                    Ok(Some((unfinished[0], (t - completed) as u64)))
                },
            }
        },
    }
}

/// The file has no final copy, only a `.part`.
pub open spec fn only_part(o: ObservationView) -> bool {
    o.file_len == Ok::<Option<u64>, ErrorView>(None) && o.part_len matches Ok(Some(_))
}

proof fn lemma_scan_keeps(files: Seq<Seq<char>>, obs: Seq<ObservationView>, i: int, c: u64, u: Seq<Seq<char>>)
    requires
        0 <= i,
    ensures
        size_scan(files, obs, i, c, u) matches SizeScan::Done { unfinished, .. } ==> unfinished.len() >= u.len()
            && forall|x: int| 0 <= x < unfinished.len() ==> u.contains(#[trigger] unfinished[x]) || exists|k: int|
                i <= k < files.len() && first_occurrence(files, k) && only_part(obs[k]) && #[trigger] files[k]
                    == unfinished[x],
    decreases files.len() - i,
{
    if i < files.len() {
        if !first_occurrence(files, i) {
            lemma_scan_keeps(files, obs, i + 1, c, u);
        } else {
            match obs[i].file_len {
                Err(_) => {},
                Ok(Some(size)) => {
                    lemma_scan_keeps(files, obs, i + 1, saturating_add(c, size), u);
                },
                Ok(None) => match obs[i].part_len {
                    Err(_) => {},
                    Ok(Some(_)) => {
                        let u2 = u.push(files[i]);
                        lemma_scan_keeps(files, obs, i + 1, c, u2);
                        if let SizeScan::Done { unfinished, .. } = size_scan(files, obs, i + 1, c, u2) {
                            assert forall|x: int| 0 <= x < unfinished.len() implies u.contains(
                                #[trigger] unfinished[x],
                            ) || exists|k: int|
                                i <= k < files.len() && first_occurrence(files, k) && only_part(obs[k])
                                    && #[trigger] files[k] == unfinished[x] by {
                                if u2.contains(unfinished[x]) && !u.contains(unfinished[x]) {
                                    let y = choose|y: int| 0 <= y < u2.len() && u2[y] == unfinished[x];
                                    if y < u.len() {
                                        assert(u[y] == u2[y]);
                                    }
                                    assert(files[i] == unfinished[x]);
                                }
                            }
                        }
                    },
                    Ok(None) => {},
                },
            }
        }
    }
}

proof fn lemma_scan_counts(
    files: Seq<Seq<char>>,
    obs: Seq<ObservationView>,
    i: int,
    c: u64,
    u: Seq<Seq<char>>,
    a: int,
    b: int,
)
    requires
        0 <= i <= a,
        a < files.len(),
        first_occurrence(files, a),
        only_part(obs[a]),
        b == -1 || (a < b < files.len() && first_occurrence(files, b) && only_part(obs[b])),
    ensures
        size_scan(files, obs, i, c, u) matches SizeScan::Done { unfinished, .. } ==> unfinished.len() >= u.len() + if b
            == -1 {
            1int
        } else {
            2int
        },
    decreases files.len() - i,
{
    if i < a {
        if !first_occurrence(files, i) {
            lemma_scan_counts(files, obs, i + 1, c, u, a, b);
        } else {
            match obs[i].file_len {
                Err(_) => {},
                Ok(Some(size)) => {
                    lemma_scan_counts(files, obs, i + 1, saturating_add(c, size), u, a, b);
                },
                Ok(None) => match obs[i].part_len {
                    Err(_) => {},
                    Ok(Some(_)) => {
                        lemma_scan_counts(files, obs, i + 1, c, u.push(files[i]), a, b);
                    },
                    Ok(None) => {},
                },
            }
        }
    } else {
        let u2 = u.push(files[a]);
        if b == -1 {
            lemma_scan_keeps(files, obs, a + 1, c, u2);
        } else {
            lemma_scan_counts(files, obs, a + 1, c, u2, b, -1);
        }
    }
}

/// With several expected files, no expected size is inferred while two
/// distinct files have only a `.part`: the remaining total cannot be
/// attributed to either.
pub proof fn law_two_unfinished_files_infer_no_size(
    files: Seq<Seq<char>>,
    obs: Seq<ObservationView>,
    total: Option<u64>,
    a: int,
    b: int,
)
    requires
        files.len() == obs.len(),
        files.len() > 1,
        0 <= a < b < files.len(),
        first_occurrence(files, a),
        first_occurrence(files, b),
        only_part(obs[a]),
        only_part(obs[b]),
    ensures
        !(inferred_size(files, obs, total) matches Ok(Some(_))),
{
    lemma_scan_counts(files, obs, 0, 0, Seq::empty(), a, b);
}

/// The bytes of the distinct expected files from `i` on that are already
/// complete.
pub open spec fn completed_bytes(files: Seq<Seq<char>>, obs: Seq<ObservationView>, i: int) -> int
    decreases files.len() - i,
{
    if i < 0 || i >= files.len() {
        0
    } else if first_occurrence(files, i) && obs[i].file_len is Ok && obs[i].file_len->Ok_0 is Some {
        obs[i].file_len->Ok_0->Some_0 + completed_bytes(files, obs, i + 1)
    } else {
        completed_bytes(files, obs, i + 1)
    }
}

proof fn lemma_completed_bytes_nonneg(files: Seq<Seq<char>>, obs: Seq<ObservationView>, i: int)
    ensures
        completed_bytes(files, obs, i) >= 0,
    decreases files.len() - i,
{
    if 0 <= i < files.len() {
        lemma_completed_bytes_nonneg(files, obs, i + 1);
    }
}

proof fn lemma_scan_completed(files: Seq<Seq<char>>, obs: Seq<ObservationView>, i: int, c: u64, u: Seq<Seq<char>>)
    requires
        0 <= i,
    ensures
        size_scan(files, obs, i, c, u) matches SizeScan::Done { completed, .. } ==> completed as int == if c
            + completed_bytes(files, obs, i) > u64::MAX {
            u64::MAX as int
        } else {
            c + completed_bytes(files, obs, i)
        },
    decreases files.len() - i,
{
    if i < files.len() {
        lemma_completed_bytes_nonneg(files, obs, i + 1);
        if !first_occurrence(files, i) {
            lemma_scan_completed(files, obs, i + 1, c, u);
        } else {
            match obs[i].file_len {
                Err(_) => {},
                Ok(Some(size)) => {
                    lemma_scan_completed(files, obs, i + 1, saturating_add(c, size), u);
                },
                Ok(None) => match obs[i].part_len {
                    Err(_) => {},
                    Ok(Some(_)) => {
                        lemma_scan_completed(files, obs, i + 1, c, u.push(files[i]));
                    },
                    Ok(None) => {},
                },
            }
        }
    }
}

/// With several expected files, an inferred expected size is what the total
/// leaves after the bytes of the distinct files already complete.
pub proof fn law_inferred_size_is_the_remaining_total(
    files: Seq<Seq<char>>,
    obs: Seq<ObservationView>,
    total: Option<u64>,
)
    requires
        files.len() == obs.len(),
        files.len() > 1,
    ensures
        inferred_size(files, obs, total) matches Ok(Some((f, n))) ==> total matches Some(t) && completed_bytes(
            files,
            obs,
            0,
        ) < t && n == t - completed_bytes(files, obs, 0),
{
    lemma_scan_completed(files, obs, 0, 0, Seq::empty());
}

/// With several expected files, an inferred size belongs to an expected file
/// that has only a `.part`, and is a positive part of the total.
pub proof fn law_inferred_size_names_an_unfinished_file(
    files: Seq<Seq<char>>,
    obs: Seq<ObservationView>,
    total: Option<u64>,
)
    requires
        files.len() == obs.len(),
        files.len() > 1,
    ensures
        inferred_size(files, obs, total) matches Ok(Some((f, n))) ==> {
            &&& exists|k: int|
                0 <= k < files.len() && first_occurrence(files, k) && only_part(obs[k]) && #[trigger] files[k] == f
            &&& total matches Some(t) && 0 < n <= t
        },
{
    lemma_scan_keeps(files, obs, 0, 0, Seq::empty());
    if let Ok(Some((f, n))) = inferred_size(files, obs, total) {
        if let SizeScan::Done { unfinished, .. } = size_scan(files, obs, 0, 0, Seq::empty()) {
            assert(!Seq::<Seq<char>>::empty().contains(unfinished[0]));
        }
    }
}

fn all_size_accounted(files: &[String]) -> (r: bool)
    ensures
        r == forall|i: int| 0 <= i < files@.len() ==> size_accounted(#[trigger] files.deep_view()[i]),
{
    let mut i: usize = 0;
    while i < files.len()
        invariant
            i <= files@.len(),
            forall|k: int| 0 <= k < i ==> size_accounted(#[trigger] files.deep_view()[k]),
        decreases files.len() - i,
    {
        if !is_size_accounted_payload(files[i].as_str()) {
            assert(files.deep_view()[i as int] == files@[i as int]@);
            return false;
        }
        i = i + 1;
    }
    true
}

/// Infer one unfinished file's expected size from the selected artifact's
/// total. With several files, only payload formats whose bytes Hugging Face
/// counts in the total qualify. `observations[i]` is what the filesystem
/// reported for `expected_files[i]`; only the reports the inference needs
/// are consulted, in file order.
pub fn infer_expected_sizes_with_files(
    observations: &[ArtifactObservation],
    expected_files: &[String],
    total_size: Option<u64>,
) -> (r: Result<Option<(String, u64)>, PumasError>)
    requires
        observations@.len() == expected_files@.len(),
    ensures
        match (r, inferred_size(expected_files.deep_view(), observations_view(observations@), total_size)) {
            (Ok(Some((f, n))), Ok(Some((g, m)))) => f@ == g && n == m,
            (Ok(None), Ok(None)) => true,
            (Err(e), Err(v)) => e@ == v,
            _ => false,
        },
{
    let ghost fv = expected_files.deep_view();
    let ghost ov = observations_view(observations@);
    let total = match total_size {
        None => {
            return Ok(None);
        },
        Some(t) => t,
    };
    if total == 0 {
        return Ok(None);
    }
    if expected_files.len() == 1 {
        return Ok(Some((clone_string(&expected_files[0]), total)));
    }
    if expected_files.len() == 0 || !all_size_accounted(expected_files) {
        return Ok(None);
    }
    let mut completed: u64 = 0;
    let mut unfinished: Vec<String> = Vec::new();
    let mut i: usize = 0;
    assert(unfinished.deep_view() =~= Seq::<Seq<char>>::empty());
    while i < expected_files.len()
        invariant
            fv == expected_files.deep_view(),
            ov == observations_view(observations@),
            observations@.len() == fv.len(),
            i <= fv.len(),
            size_scan(fv, ov, 0, 0, Seq::empty()) == size_scan(fv, ov, i as int, completed, unfinished.deep_view()),
            total_size == Some(total),
            total > 0,
            fv.len() > 1,
            forall|k: int| 0 <= k < fv.len() ==> size_accounted(#[trigger] fv[k]),
        decreases expected_files.len() - i,
    {
        if is_first_occurrence(expected_files, i) {
            assert(ov[i as int] == observations@[i as int]@);
            match observed(&observations[i].file_len) {
                Err(e) => {
                    return Err(e);
                },
                Ok(Some(size)) => {
                    completed = if completed > u64::MAX - size {
                        u64::MAX
                    } else {
                        completed + size
                    };
                },
                Ok(None) => match observed(&observations[i].part_len) {
                    Err(e) => {
                        return Err(e);
                    },
                    Ok(Some(_)) => {
                        let ghost before = unfinished.deep_view();
                        unfinished.push(clone_string(&expected_files[i]));
                        assert(unfinished.deep_view() =~= before.push(fv[i as int]));
                    },
                    Ok(None) => {
                        return Ok(None);
                    },
                },
            }
        }
        i = i + 1;
    }
    if unfinished.len() != 1 || completed >= total {
        return Ok(None);
    }
    Ok(Some((clone_string(&unfinished[0]), total - completed)))
}

/// Result of finalizing a download artifact.
#[derive(Clone, Copy, Debug, PartialEq, Eq, Structural)]
pub struct PartialArtifactFinalization {
    pub complete: bool,
    pub promoted_files: usize,
}

/// What finalizing decided: nothing to do, or the `.part` files to rename
/// into place and the stale `.part` files beside complete ones to remove
/// (then the download marker).
pub enum FinalizationPlan {
    Incomplete,
    Complete { promotions: Vec<String>, stale_parts: Vec<String> },
}

pub enum FinalScan {
    Failed(ErrorView),
    Incomplete,
    Complete { promotions: Seq<Seq<char>>, stale_parts: Seq<Seq<char>> },
}

/// Walk the distinct files in order: a complete file with a leftover
/// `.part` makes that part stale; an unfinished file is promoted only when
/// its `.part` has exactly the expected size.
pub open spec fn final_scan(
    files: Seq<Seq<char>>,
    obs: Seq<ObservationView>,
    sizes: Map<Seq<char>, u64>,
    i: int,
    promotions: Seq<Seq<char>>,
    stale: Seq<Seq<char>>,
) -> FinalScan
    decreases files.len() - i,
{
    if i < 0 || i >= files.len() {
        FinalScan::Complete { promotions, stale_parts: stale }
    } else if !first_occurrence(files, i) {
        final_scan(files, obs, sizes, i + 1, promotions, stale)
    } else {
        match obs[i].file_len {
            Err(e) => FinalScan::Failed(e),
            Ok(Some(_)) => match obs[i].part_len {
                Err(e) => FinalScan::Failed(e),
                Ok(Some(_)) => final_scan(files, obs, sizes, i + 1, promotions, stale.push(files[i])),
                Ok(None) => final_scan(files, obs, sizes, i + 1, promotions, stale),
            },
            Ok(None) => match obs[i].part_len {
                Err(e) => FinalScan::Failed(e),
                Ok(None) => FinalScan::Incomplete,
                Ok(Some(part)) => if sizes.dom().contains(files[i]) && sizes[files[i]] == part {
                    final_scan(files, obs, sizes, i + 1, promotions.push(files[i]), stale)
                } else {
                    FinalScan::Incomplete
                },
            },
        }
    }
}

/// Decide how to finalize an artifact whose expected files are
/// `expected_files`, with the sizes expected for unfinished ones.
pub fn finalize_download_artifact_with_files(
    observations: &[ArtifactObservation],
    expected_files: &[String],
    expected_sizes: &Vec<Keyed<u64>>,
) -> (r: Result<FinalizationPlan, PumasError>)
    requires
        observations@.len() == expected_files@.len(),
        keys_unique(expected_sizes@),
    ensures
        expected_files@.len() == 0 ==> r matches Ok(FinalizationPlan::Incomplete),
        expected_files@.len() > 0 ==> match (
            r,
            final_scan(
                expected_files.deep_view(),
                observations_view(observations@),
                keyed_map(expected_sizes@),
                0,
                Seq::empty(),
                Seq::empty(),
            ),
        ) {
            (Err(e), FinalScan::Failed(v)) => e@ == v,
            (Ok(FinalizationPlan::Incomplete), FinalScan::Incomplete) => true,
            (
                Ok(FinalizationPlan::Complete { promotions, stale_parts }),
                FinalScan::Complete { promotions: p, stale_parts: s },
            ) => promotions.deep_view() == p && stale_parts.deep_view() == s,
            _ => false,
        },
{
    if expected_files.len() == 0 {
        return Ok(FinalizationPlan::Incomplete);
    }
    let ghost fv = expected_files.deep_view();
    let ghost ov = observations_view(observations@);
    let ghost sizes = keyed_map(expected_sizes@);
    let mut promotions: Vec<String> = Vec::new();
    let mut stale_parts: Vec<String> = Vec::new();
    let mut i: usize = 0;
    assert(promotions.deep_view() =~= Seq::<Seq<char>>::empty());
    assert(stale_parts.deep_view() =~= Seq::<Seq<char>>::empty());
    while i < expected_files.len()
        invariant
            fv == expected_files.deep_view(),
            ov == observations_view(observations@),
            sizes == keyed_map(expected_sizes@),
            keys_unique(expected_sizes@),
            observations@.len() == fv.len(),
            i <= fv.len(),
            final_scan(fv, ov, sizes, 0, Seq::empty(), Seq::empty()) == final_scan(
                fv,
                ov,
                sizes,
                i as int,
                promotions.deep_view(),
                stale_parts.deep_view(),
            ),
        decreases expected_files.len() - i,
    {
        if is_first_occurrence(expected_files, i) {
            assert(ov[i as int] == observations@[i as int]@);
            let name = &expected_files[i];
            match observed(&observations[i].file_len) {
                Err(e) => {
                    return Err(e);
                },
                Ok(Some(_)) => match observed(&observations[i].part_len) {
                    Err(e) => {
                        return Err(e);
                    },
                    Ok(Some(_)) => {
                        let ghost before = stale_parts.deep_view();
                        stale_parts.push(clone_string(name));
                        assert(stale_parts.deep_view() =~= before.push(fv[i as int]));
                    },
                    Ok(None) => {},
                },
                Ok(None) => match observed(&observations[i].part_len) {
                    Err(e) => {
                        return Err(e);
                    },
                    Ok(None) => {
                        return Ok(FinalizationPlan::Incomplete);
                    },
                    Ok(Some(part)) => {
                        match find_key(expected_sizes, name) {
                            None => {
                                return Ok(FinalizationPlan::Incomplete);
                            },
                            Some(j) => {
                                if expected_sizes[j].value != part {
                                    return Ok(FinalizationPlan::Incomplete);
                                }
                            },
                        }
                        let ghost before = promotions.deep_view();
                        promotions.push(clone_string(name));
                        assert(promotions.deep_view() =~= before.push(fv[i as int]));
                    },
                },
            }
        }
        i = i + 1;
    }
    Ok(FinalizationPlan::Complete { promotions, stale_parts })
}

/// What a carried-out plan reports.
pub fn finalization_outcome(plan: &FinalizationPlan) -> (r: PartialArtifactFinalization)
    ensures
        match plan {
            FinalizationPlan::Incomplete => !r.complete && r.promoted_files == 0,
            FinalizationPlan::Complete { promotions, .. } => r.complete && r.promoted_files == promotions@.len(),
        },
{
    match plan {
        FinalizationPlan::Incomplete => PartialArtifactFinalization { complete: false, promoted_files: 0 },
        FinalizationPlan::Complete { promotions, .. } => PartialArtifactFinalization {
            complete: true,
            promoted_files: promotions.len(),
        },
    }
}

} // verus!
