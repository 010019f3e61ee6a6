//! Paths of download artifacts and of their in-progress `.part` files.

use crate::recovery_ids::{ascii_lower_exec, chars_equal, lower};
use crate::text::chars_of;
use vstd::prelude::*;
use vstd::string::StringExecFns;

verus! {

/// `dir` joined with the relative path `rel`, as `Path::join` does.
pub open spec fn join_path(dir: Seq<char>, rel: Seq<char>) -> Seq<char> {
    if dir.len() == 0 {
        rel
    } else if dir.last() == '/' {
        dir + rel
    } else {
        dir + "/"@ + rel
    }
}

/// `dir` joined with `rel`.
pub fn join_path_text(dir: &str, rel: &str) -> (r: String)
    ensures
        r@ == join_path(dir@, rel@),
{
    proof {
        reveal_strlit("/");
    }
    let mut r = dir.to_owned();
    let n = dir.unicode_len();
    if n > 0 && dir.get_char(n - 1) != '/' {
        r.append("/");
    }
    r.append(rel);
    r
}

/// A `..` component of the `/`-separated path `s` starts at `k`.
pub open spec fn parent_at(s: Seq<char>, k: int) -> bool {
    &&& 0 <= k
    &&& k + 2 <= s.len()
    &&& s[k] == '.'
    &&& s[k + 1] == '.'
    &&& (k == 0 || s[k - 1] == '/')
    &&& (k + 2 == s.len() || s[k + 2] == '/')
}

/// A relative path that stays below its directory: non-empty, not
/// absolute, and without `..` components.
pub open spec fn contained_relative_path(s: Seq<char>) -> bool {
    &&& s.len() > 0
    &&& s[0] != '/'
    &&& forall|k: int| !#[trigger] parent_at(s, k)
}

/// The artifact's final path and its `.part` path below `model_dir`, when
/// `relative_path` stays below it.
pub fn download_artifact_paths(model_dir: &str, relative_path: &str) -> (r: Option<(String, String)>)
    ensures
        match r {
            Some((f, p)) => contained_relative_path(relative_path@) && f@ == join_path(model_dir@, relative_path@)
                && p@ == join_path(model_dir@, relative_path@) + ".part"@,
            None => !contained_relative_path(relative_path@),
        },
{
    let s = chars_of(relative_path);
    let n = s.len();
    if n == 0 || s[0] == '/' {
        return None;
    }
    let mut k: usize = 0;
    while k + 1 < n
        invariant
            s@ == relative_path@,
            n == s@.len(),
            n > 0,
            k < n,
            forall|j: int| 0 <= j < k ==> !#[trigger] parent_at(s@, j),
        decreases n - k,
    {
        if s[k] == '.' && s[k + 1] == '.' && (k == 0 || s[k - 1] == '/') && (k + 2 == n || s[k + 2] == '/') {
            assert(parent_at(s@, k as int));
            return None;
        }
        k = k + 1;
    }
    assert forall|j: int| !#[trigger] parent_at(s@, j) by {
        if j >= k {
            assert(!(j + 2 <= s@.len()));
        }
    }
    let final_path = join_path_text(model_dir, relative_path);
    let mut part_path = final_path.clone();
    proof {
        reveal_strlit(".part");
    }
    part_path.append(".part");
    Some((final_path, part_path))
}

/// Index of the last `/` before `end`, or -1.
pub open spec fn last_slash_before(s: Seq<char>, end: int) -> int
    decreases end,
{
    if end <= 0 {
        -1
    } else if s[end - 1] == '/' {
        end - 1
    } else {
        last_slash_before(s, end - 1)
    }
}

pub proof fn lemma_last_slash_bound(s: Seq<char>, end: int)
    ensures
        -1 <= last_slash_before(s, end) < if end <= 0 { 0 } else { end },
    decreases end,
{
    if end > 0 {
        lemma_last_slash_bound(s, end - 1);
    }
}

/// The final normal component of `s[..end]`, as `Path::file_name` finds it:
/// trailing separators and `.` components are skipped, and a final `..`
/// has no file name.
pub open spec fn file_name_in(s: Seq<char>, end: int) -> Option<Seq<char>>
    decreases end,
{
    if end <= 0 {
        None
    } else if s[end - 1] == '/' {
        file_name_in(s, end - 1)
    } else {
        let k = last_slash_before(s, end);
        let seg = s.subrange(k + 1, end);
        if seg == seq!['.'] {
            if k < 0 {
                None
            } else {
                proof {
                    lemma_last_slash_bound(s, end);
                }
                file_name_in(s, k)
            }
        } else if seg == seq!['.', '.'] {
            None
        } else {
            Some(seg)
        }
    }
}

/// Index of the last `.` of `name`, or -1.
pub open spec fn last_dot(name: Seq<char>) -> int
    decreases name.len(),
{
    if name.len() == 0 {
        -1
    } else if name.last() == '.' {
        name.len() - 1
    } else {
        last_dot(name.drop_last())
    }
}

/// The extension of a file name, as `Path::extension` finds it: the text
/// after the last `.`, unless there is none or the only one leads.
pub open spec fn extension_of(name: Seq<char>) -> Option<Seq<char>> {
    let k = last_dot(name);
    if k <= 0 {
        None
    } else {
        Some(name.subrange(k + 1, name.len() as int))
    }
}

pub open spec fn is_payload_extension(e: Seq<char>) -> bool {
    ||| e == seq!['g', 'g', 'u', 'f']
    ||| e == seq!['s', 'a', 'f', 'e', 't', 'e', 'n', 's', 'o', 'r', 's']
    ||| e == seq!['b', 'i', 'n']
    ||| e == seq!['p', 't']
    ||| e == seq!['p', 't', 'h']
    ||| e == seq!['c', 'k', 'p', 't']
    ||| e == seq!['o', 'n', 'n', 'x']
    ||| e == seq!['n', 'p', 'z']
}

/// Payload formats whose bytes Hugging Face counts in an artifact's total.
pub open spec fn size_accounted(path: Seq<char>) -> bool {
    match file_name_in(path, path.len() as int) {
        Some(name) => match extension_of(name) {
            Some(e) => is_payload_extension(lower(e)),
            None => false,
        },
        None => false,
    }
}

fn last_slash_exec(s: &Vec<char>, end: usize) -> (r: Option<usize>)
    requires
        end <= s@.len(),
    ensures
        -1 <= last_slash_before(s@, end as int) < end,
        match r {
            Some(k) => k == last_slash_before(s@, end as int),
            None => last_slash_before(s@, end as int) == -1,
        },
    decreases end,
{
    if end == 0 {
        None
    } else if s[end - 1] == '/' {
        Some(end - 1)
    } else {
        last_slash_exec(s, end - 1)
    }
}

fn file_name_exec(s: &Vec<char>, end: usize) -> (r: Option<(usize, usize)>)
    requires
        end <= s@.len(),
    ensures
        match r {
            Some((a, b)) => a <= b <= end && file_name_in(s@, end as int) == Some(s@.subrange(a as int, b as int)),
            None => file_name_in(s@, end as int) is None,
        },
    decreases end,
{
    if end == 0 {
        return None;
    }
    if s[end - 1] == '/' {
        return file_name_exec(s, end - 1);
    }
    let k = last_slash_exec(s, end);
    let start = match k {
        None => 0,
        Some(k) => k + 1,
    };
    let ghost seg = s@.subrange(start as int, end as int);
    assert(seg == s@.subrange(last_slash_before(s@, end as int) + 1, end as int));
    if end - start == 1 && s[start] == '.' {
        assert(seg =~= seq!['.']);
        match k {
            None => {
                return None;
            },
            Some(k) => {
                return file_name_exec(s, k);
            },
        }
    }
    if end - start == 2 && s[start] == '.' && s[start + 1] == '.' {
        assert(seg =~= seq!['.', '.']);
        return None;
    }
    assert(seg != seq!['.']) by {
        if seg == seq!['.'] {
            assert(seg.len() == 1 && seg[0] == '.');
        }
    }
    assert(seg != seq!['.', '.']) by {
        if seg == seq!['.', '.'] {
            assert(seg.len() == 2 && seg[0] == '.' && seg[1] == '.');
        }
    }
    Some((start, end))
}

/// Whether the artifact is a payload format counted in the selected total.
pub fn is_size_accounted_payload(relative_path: &str) -> (r: bool)
    ensures
        r == size_accounted(relative_path@),
{
    let s = chars_of(relative_path);
    match file_name_exec(&s, s.len()) {
        None => false,
        Some((a, b)) => {
            let ghost name = s@.subrange(a as int, b as int);
            // The last '.' of the name.
            let mut k: usize = b;
            assert(name.take(b - a) =~= name);
            while k > a && s[k - 1] != '.'
                invariant
                    a <= k <= b <= s@.len(),
                    name == s@.subrange(a as int, b as int),
                    last_dot(name) == last_dot(name.take(k - a)),
                decreases k - a,
            {
                assert(name.take(k - a).drop_last() =~= name.take(k - a - 1));
                k = k - 1;
            }
            if k == a {
                assert(name.take(0) =~= Seq::<char>::empty());
                return false;
            }
            assert(name.take(k - a).last() == '.');
            assert(last_dot(name) == k - a - 1);
            if k - 1 == a {
                return false;
            }
            let mut ext: Vec<char> = Vec::new();
            let mut j: usize = k;
            while j < b
                invariant
                    k <= j <= b <= s@.len(),
                    name == s@.subrange(a as int, b as int),
                    ext@ == lower(s@.subrange(k as int, j as int)),
                decreases b - j,
            {
                ext.push(ascii_lower_exec(s[j]));
                assert(ext@ =~= lower(s@.subrange(k as int, j + 1)));
                j = j + 1;
            }
            assert(name.subrange(k - a, name.len() as int) =~= s@.subrange(k as int, b as int));
            is_payload_extension_exec(&ext)
        },
    }
}

fn is_payload_extension_exec(e: &Vec<char>) -> (r: bool)
    ensures
        r == is_payload_extension(e@),
{
    let gguf = vec!['g', 'g', 'u', 'f'];
    let safetensors = vec!['s', 'a', 'f', 'e', 't', 'e', 'n', 's', 'o', 'r', 's'];
    let bin = vec!['b', 'i', 'n'];
    let pt = vec!['p', 't'];
    let pth = vec!['p', 't', 'h'];
    let ckpt = vec!['c', 'k', 'p', 't'];
    let onnx = vec!['o', 'n', 'n', 'x'];
    let npz = vec!['n', 'p', 'z'];
    assert(gguf@ =~= seq!['g', 'g', 'u', 'f']);
    assert(safetensors@ =~= seq!['s', 'a', 'f', 'e', 't', 'e', 'n', 's', 'o', 'r', 's']);
    assert(bin@ =~= seq!['b', 'i', 'n']);
    assert(pt@ =~= seq!['p', 't']);
    assert(pth@ =~= seq!['p', 't', 'h']);
    assert(ckpt@ =~= seq!['c', 'k', 'p', 't']);
    assert(onnx@ =~= seq!['o', 'n', 'n', 'x']);
    assert(npz@ =~= seq!['n', 'p', 'z']);
    chars_equal(e.as_slice(), gguf.as_slice()) || chars_equal(e.as_slice(), safetensors.as_slice())
        || chars_equal(e.as_slice(), bin.as_slice()) || chars_equal(e.as_slice(), pt.as_slice()) || chars_equal(
        e.as_slice(),
        pth.as_slice(),
    ) || chars_equal(e.as_slice(), ckpt.as_slice()) || chars_equal(e.as_slice(), onnx.as_slice())
        || chars_equal(e.as_slice(), npz.as_slice())
}

} // verus!
