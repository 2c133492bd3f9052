//! Candidate executable paths and the first-existing selection.
//!
//! The resolver builds an ordered, non-unique list of candidate paths for the
//! backend executable: packaged-resource locations first (when the host
//! supplies a resource directory), then fixed development-relative fallbacks;
//! and, immediately after every candidate that does not already end in the
//! platform executable suffix, its suffixed variant. The first candidate that
//! exists on disk wins. The filesystem existence checks are I/O and happen in
//! the host shell, which hands the results back as one boolean per candidate;
//! the ordering logic is verified here.

use vstd::prelude::*;
use vstd::string::StrSliceExecFns;
use vstd::string::StringExecFns;

verus! {

/// The platform-neutral base name of the backend executable.
pub open spec fn backend_name_spec() -> Seq<char> {
    "translate_backend"@
}

/// The Windows-suffixed base name of the backend executable, always tried in
/// a packaged-resource directory beside the platform-neutral name.
pub open spec fn backend_name_windows_spec() -> Seq<char> {
    "translate_backend.exe"@
}

/// The fixed development-relative fallback candidates, in priority order:
/// the current directory, the backend build output relative to the current
/// directory, and the backend build output one level up.
pub open spec fn fallback_candidates_spec() -> Seq<Seq<char>> {
    seq![
        "./translate_backend"@,
        "./backend/dist/translate_backend"@,
        "../backend/dist/translate_backend"@,
    ]
}

/// A directory joined with a file name by the path separator.
pub open spec fn join_path_spec(dir: Seq<char>, name: Seq<char>) -> Seq<char> {
    dir + "/"@ + name
}

/// Whether `s` ends with `suffix`.
pub open spec fn ends_with_spec(s: Seq<char>, suffix: Seq<char>) -> bool {
    suffix.len() <= s.len() && s.subrange(s.len() - suffix.len(), s.len() as int) == suffix
}

/// Whether `s` begins with `prefix`.
pub open spec fn starts_with_spec(s: Seq<char>, prefix: Seq<char>) -> bool {
    prefix.len() <= s.len() && s.subrange(0, prefix.len() as int) == prefix
}

/// The packaged-resource candidates for a supplied resource directory: one
/// per known base name, rooted at the directory.
pub open spec fn resource_candidates_spec(dir: Seq<char>) -> Seq<Seq<char>> {
    seq![
        join_path_spec(dir, backend_name_spec()),
        join_path_spec(dir, backend_name_windows_spec()),
    ]
}

/// The base candidate list, before suffix variants: one candidate per known
/// base name rooted at the resource directory (when one is supplied), then
/// the fixed fallbacks.
pub open spec fn base_candidates_spec(resource_dir: Option<Seq<char>>) -> Seq<Seq<char>> {
    match resource_dir {
        Some(dir) => resource_candidates_spec(dir) + fallback_candidates_spec(),
        None => fallback_candidates_spec(),
    }
}

/// Each candidate, followed immediately by its suffixed variant when it does
/// not already end in the platform executable suffix. With an empty suffix
/// every candidate already ends in it, so the list is unchanged.
pub open spec fn with_suffix_variants_spec(cands: Seq<Seq<char>>, suffix: Seq<char>) -> Seq<
    Seq<char>,
>
    decreases cands.len(),
{
    if cands.len() == 0 {
        Seq::empty()
    } else if ends_with_spec(cands[0], suffix) {
        seq![cands[0]] + with_suffix_variants_spec(cands.skip(1), suffix)
    } else {
        seq![cands[0], cands[0] + suffix] + with_suffix_variants_spec(cands.skip(1), suffix)
    }
}

/// The full ordered candidate list for a given optional resource directory
/// and platform executable suffix.
pub open spec fn candidates_spec(resource_dir: Option<Seq<char>>, suffix: Seq<char>) -> Seq<
    Seq<char>,
> {
    with_suffix_variants_spec(base_candidates_spec(resource_dir), suffix)
}

/// The views of a sequence of owned strings.
pub open spec fn views_of(strings: Seq<String>) -> Seq<Seq<char>> {
    strings.map_values(|s: String| s@)
}

/// Whether `s` ends with `suffix`, by characters.
pub fn ends_with(s: &str, suffix: &str) -> (r: bool)
    ensures
        r == ends_with_spec(s@, suffix@),
{
    let s_len = s.unicode_len();
    let suffix_len = suffix.unicode_len();
    if suffix_len > s_len {
        return false;
    }
    let base = s_len - suffix_len;
    let mut i: usize = 0;
    while i < suffix_len
        invariant
            suffix_len <= s_len,
            base == s_len - suffix_len,
            s_len == s@.len(),
            suffix_len == suffix@.len(),
            0 <= i <= suffix_len,
            forall|j: int| 0 <= j < i ==> s@[base + j] == suffix@[j],
        decreases suffix_len - i,
    {
        if s.get_char(base + i) != suffix.get_char(i) {
            proof {
                assert(s@.subrange(s@.len() - suffix@.len(), s@.len() as int)[i as int] == s@[base
                    + i]);
            }
            return false;
        }
        i += 1;
    }
    proof {
        assert(s@.subrange(s@.len() - suffix@.len(), s@.len() as int) =~= suffix@);
    }
    true
}

/// Suffix-variant expansion distributes over concatenation of candidate
/// lists.
pub proof fn lemma_with_suffix_variants_concat(
    a: Seq<Seq<char>>,
    b: Seq<Seq<char>>,
    suffix: Seq<char>,
)
    ensures
        with_suffix_variants_spec(a + b, suffix) == with_suffix_variants_spec(a, suffix)
            + with_suffix_variants_spec(b, suffix),
    decreases a.len(),
{
    if a.len() == 0 {
        assert(a + b =~= b);
        assert(with_suffix_variants_spec(a, suffix) + with_suffix_variants_spec(b, suffix)
            =~= with_suffix_variants_spec(b, suffix));
    } else {
        assert((a + b)[0] == a[0]);
        assert((a + b).skip(1) =~= a.skip(1) + b);
        lemma_with_suffix_variants_concat(a.skip(1), b, suffix);
        if ends_with_spec(a[0], suffix) {
            assert(seq![a[0]] + (with_suffix_variants_spec(a.skip(1), suffix)
                + with_suffix_variants_spec(b, suffix)) =~= (seq![a[0]]
                + with_suffix_variants_spec(a.skip(1), suffix)) + with_suffix_variants_spec(
                b,
                suffix,
            ));
        } else {
            assert(seq![a[0], a[0] + suffix] + (with_suffix_variants_spec(a.skip(1), suffix)
                + with_suffix_variants_spec(b, suffix)) =~= (seq![a[0], a[0] + suffix]
                + with_suffix_variants_spec(a.skip(1), suffix)) + with_suffix_variants_spec(
                b,
                suffix,
            ));
        }
    }
}

/// Suffix-variant expansion of a single candidate: the candidate itself,
/// followed by its suffixed variant when it does not already end in the
/// suffix.
pub proof fn lemma_with_suffix_variants_singleton(x: Seq<char>, suffix: Seq<char>)
    ensures
        with_suffix_variants_spec(seq![x], suffix) == (if ends_with_spec(x, suffix) {
            seq![x]
        } else {
            seq![x, x + suffix]
        }),
{
    reveal_with_fuel(with_suffix_variants_spec, 2);
    assert(seq![x].len() == 1);
    assert(seq![x][0] == x);
    assert(seq![x].skip(1) =~= Seq::<Seq<char>>::empty());
    if ends_with_spec(x, suffix) {
        assert(with_suffix_variants_spec(seq![x], suffix) =~= seq![x]);
    } else {
        assert(with_suffix_variants_spec(seq![x], suffix) =~= seq![x, x + suffix]);
    }
}

/// How many entries of the expanded candidate list come from the
/// packaged-resource directory: they form its prefix.
pub open spec fn resource_candidate_count(dir: Seq<char>, suffix: Seq<char>) -> int {
    with_suffix_variants_spec(resource_candidates_spec(dir), suffix).len() as int
}

/// With a resource directory supplied, the expanded candidate list is the
/// expanded resource candidates followed by the expanded fallbacks.
pub proof fn lemma_candidates_split(dir: Seq<char>, suffix: Seq<char>)
    ensures
        candidates_spec(Some(dir), suffix) == with_suffix_variants_spec(
            resource_candidates_spec(dir),
            suffix,
        ) + with_suffix_variants_spec(fallback_candidates_spec(), suffix),
{
    lemma_with_suffix_variants_concat(
        resource_candidates_spec(dir),
        fallback_candidates_spec(),
        suffix,
    );
}

/// Every packaged-resource entry of the expanded candidate list is rooted at
/// the resource directory: it begins with the directory and the path
/// separator.
pub proof fn lemma_resource_candidates_rooted(dir: Seq<char>, suffix: Seq<char>, i: int)
    requires
        0 <= i < resource_candidate_count(dir, suffix),
    ensures
        starts_with_spec(
            with_suffix_variants_spec(resource_candidates_spec(dir), suffix)[i],
            dir + "/"@,
        ),
{
    let c1 = join_path_spec(dir, backend_name_spec());
    let c2 = join_path_spec(dir, backend_name_windows_spec());
    let sep = dir + "/"@;
    assert(resource_candidates_spec(dir) =~= seq![c1] + seq![c2]);
    lemma_with_suffix_variants_concat(seq![c1], seq![c2], suffix);
    lemma_with_suffix_variants_singleton(c1, suffix);
    lemma_with_suffix_variants_singleton(c2, suffix);
    assert(starts_with_spec(c1, sep)) by {
        assert(c1.subrange(0, sep.len() as int) =~= sep);
    }
    assert(starts_with_spec(c2, sep)) by {
        assert(c2.subrange(0, sep.len() as int) =~= sep);
    }
    assert(starts_with_spec(c1 + suffix, sep)) by {
        assert((c1 + suffix).subrange(0, sep.len() as int) =~= sep);
    }
    assert(starts_with_spec(c2 + suffix, sep)) by {
        assert((c2 + suffix).subrange(0, sep.len() as int) =~= sep);
    }
    let expanded = with_suffix_variants_spec(resource_candidates_spec(dir), suffix);
    assert(expanded[i] == c1 || expanded[i] == c1 + suffix || expanded[i] == c2 || expanded[i] == c2
        + suffix);
}

/// Resolution order: packaged-resource candidates always win. When a
/// resource directory is supplied and some resource-rooted candidate exists
/// on disk, the first existing candidate (the one `select_first_existing`
/// returns) is itself resource-rooted — it begins with the resource
/// directory and the path separator — never a development fallback.
pub proof fn lemma_resource_dir_wins(
    dir: Seq<char>,
    suffix: Seq<char>,
    exists: Seq<bool>,
    i: int,
    k: int,
)
    requires
        exists.len() == candidates_spec(Some(dir), suffix).len(),
        0 <= k < resource_candidate_count(dir, suffix),
        exists[k],
        0 <= i < exists.len(),
        exists[i],
        forall|j: int| 0 <= j < i ==> !exists[j],
    ensures
        i < resource_candidate_count(dir, suffix),
        starts_with_spec(candidates_spec(Some(dir), suffix)[i], dir + "/"@),
{
    assert(i <= k);
    lemma_candidates_split(dir, suffix);
    assert(candidates_spec(Some(dir), suffix)[i] == with_suffix_variants_spec(
        resource_candidates_spec(dir),
        suffix,
    )[i]);
    lemma_resource_candidates_rooted(dir, suffix, i);
}

/// Suffix fallback: a candidate written without the platform suffix is
/// still covered — the expanded list holds the candidate and, immediately
/// after it, its suffixed variant, so a backend present on disk only under
/// the suffixed name is still found.
pub proof fn lemma_suffix_variant_follows(cands: Seq<Seq<char>>, suffix: Seq<char>, i: int)
    requires
        0 <= i < cands.len(),
        !ends_with_spec(cands[i], suffix),
    ensures
        exists|j: int|
            {
                &&& 0 <= j
                &&& j + 1 < with_suffix_variants_spec(cands, suffix).len()
                &&& #[trigger] with_suffix_variants_spec(cands, suffix)[j] == cands[i]
                &&& with_suffix_variants_spec(cands, suffix)[j + 1] == cands[i] + suffix
            },
    decreases cands.len(),
{
    let expanded = with_suffix_variants_spec(cands, suffix);
    if i == 0 {
        assert(expanded[0] == cands[0]);
        assert(expanded[1] == cands[0] + suffix);
        let j0: int = 0;
        assert({
            &&& 0 <= j0
            &&& j0 + 1 < expanded.len()
            &&& expanded[j0] == cands[i]
            &&& expanded[j0 + 1] == cands[i] + suffix
        });
    } else {
        let rest = cands.skip(1);
        assert(rest[i - 1] == cands[i]);
        lemma_suffix_variant_follows(rest, suffix, i - 1);
        let j0 = choose|j: int|
            {
                &&& 0 <= j
                &&& j + 1 < with_suffix_variants_spec(rest, suffix).len()
                &&& #[trigger] with_suffix_variants_spec(rest, suffix)[j] == rest[i - 1]
                &&& with_suffix_variants_spec(rest, suffix)[j + 1] == rest[i - 1] + suffix
            };
        let front: int = if ends_with_spec(cands[0], suffix) {
            1
        } else {
            2
        };
        assert(expanded[front + j0] == with_suffix_variants_spec(rest, suffix)[j0]);
        assert(expanded[front + j0 + 1] == with_suffix_variants_spec(rest, suffix)[j0 + 1]);
        assert({
            &&& 0 <= front + j0
            &&& front + j0 + 1 < expanded.len()
            &&& expanded[front + j0] == cands[i]
            &&& expanded[front + j0 + 1] == cands[i] + suffix
        });
    }
}

/// A directory joined with a file name by the path separator.
pub fn join_path(dir: &str, name: &str) -> (r: String)
    ensures
        r@ == join_path_spec(dir@, name@),
{
    let mut r = dir.to_owned();
    r.append("/");
    r.append(name);
    r
}

/// The full ordered candidate list for the backend executable: resource
/// directory candidates first (when one is supplied), then the fixed
/// fallbacks, each followed immediately by its platform-suffixed variant
/// when it does not already carry the suffix.
pub fn candidate_paths(resource_dir: Option<&str>, suffix: &str) -> (v: Vec<String>)
    ensures
        views_of(v@) == candidates_spec(
            match resource_dir {
                Some(dir) => Some(dir@),
                None => None,
            },
            suffix@,
        ),
{
    let ghost rd_view: Option<Seq<char>> = match resource_dir {
        Some(dir) => Some(dir@),
        None => None,
    };
    let mut base: Vec<String> = Vec::new();
    if let Some(dir) = resource_dir {
        base.push(join_path(dir, "translate_backend"));
        base.push(join_path(dir, "translate_backend.exe"));
    }
    base.push("./translate_backend".to_owned());
    base.push("./backend/dist/translate_backend".to_owned());
    base.push("../backend/dist/translate_backend".to_owned());
    proof {
        assert(views_of(base@) =~= base_candidates_spec(rd_view));
    }
    let mut out: Vec<String> = Vec::new();
    let mut i: usize = 0;
    while i < base.len()
        invariant
            views_of(base@) == base_candidates_spec(rd_view),
            0 <= i <= base@.len(),
            views_of(out@) == with_suffix_variants_spec(
                views_of(base@).take(i as int),
                suffix@,
            ),
        decreases base@.len() - i,
    {
        let ghost prefix = views_of(base@).take(i as int);
        let ghost head = base@[i as int]@;
        out.push(base[i].clone());
        if !ends_with(base[i].as_str(), suffix) {
            let mut variant = base[i].clone();
            variant.append(suffix);
            out.push(variant);
        }
        proof {
            lemma_with_suffix_variants_concat(prefix, seq![head], suffix@);
            lemma_with_suffix_variants_singleton(head, suffix@);
            assert(views_of(base@).take(i + 1 as int) =~= prefix + seq![head]);
            assert(views_of(out@) =~= with_suffix_variants_spec(
                views_of(base@).take(i + 1 as int),
                suffix@,
            ));
        }
        i += 1;
    }
    proof {
        assert(views_of(base@).take(base@.len() as int) =~= views_of(base@));
    }
    out
}

/// The index of the first candidate whose existence check succeeded, if any:
/// `paths` and `exists` run in parallel, and the first `true` wins. Returns
/// nothing exactly when no candidate exists.
pub fn select_first_existing(paths: &Vec<String>, exists: &Vec<bool>) -> (r: Option<usize>)
    requires
        paths@.len() == exists@.len(),
    ensures
        match r {
            Some(i) => {
                &&& i < paths@.len()
                &&& exists@[i as int]
                &&& forall|j: int| 0 <= j < i ==> !exists@[j]
            },
            None => forall|j: int| 0 <= j < exists@.len() ==> !exists@[j],
        },
{
    let mut i: usize = 0;
    while i < exists.len()
        invariant
            paths@.len() == exists@.len(),
            0 <= i <= exists@.len(),
            forall|j: int| 0 <= j < i ==> !exists@[j],
        decreases exists@.len() - i,
    {
        if exists[i] {
            return Some(i);
        }
        i += 1;
    }
    None
}

} // verus!
