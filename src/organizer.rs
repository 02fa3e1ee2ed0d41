use vstd::prelude::*;
use vstd::seq_lib::*;
use vstd::set_lib::*;
use crate::types::FileType;
use crate::text::{
    candidate, file_name, file_name_spec, join, join_spec, lemma_candidate_injective,
    make_copy_name,
};

verus! {

// ---------------------------------------------------------------------------
// Source and target directories
// ---------------------------------------------------------------------------

/// Why a source and a target directory cannot be used together.
#[derive(Debug, Clone, Copy, PartialEq, Eq, Structural)]
pub enum DirectoryError {
    SourceMissing,
    SameDirectory,
    TargetInsideSource,
    SourceInsideTarget,
}

/// The sentence that tells the user of a directory error.
pub open spec fn directory_message(e: DirectoryError) -> Seq<char> {
    match e {
        DirectoryError::SourceMissing => "Source directory does not exist"@,
        DirectoryError::SameDirectory => "Source and target cannot be the same directory"@,
        DirectoryError::TargetInsideSource => "Target cannot be inside source directory"@,
        DirectoryError::SourceInsideTarget => "Source cannot be inside target directory"@,
    }
}

impl DirectoryError {
    /// A sentence for the user.
    pub fn message(&self) -> (r: &'static str)
        ensures
            r@ == directory_message(*self),
    {
        match self {
            DirectoryError::SourceMissing => "Source directory does not exist",
            DirectoryError::SameDirectory => "Source and target cannot be the same directory",
            DirectoryError::TargetInsideSource => "Target cannot be inside source directory",
            DirectoryError::SourceInsideTarget => "Source cannot be inside target directory",
        }
    }
}

/// Whether path `p` lies at or below path `q`, comparing whole components of
/// canonical `/`-separated paths.
pub open spec fn path_within(p: Seq<char>, q: Seq<char>) -> bool {
    &&& q.len() <= p.len()
    &&& p.subrange(0, q.len() as int) == q
    &&& (p.len() == q.len() || (q.len() > 0 && q.last() == '/') || p[q.len() as int] == '/')
}

pub open spec fn validate_spec(source: Option<Seq<char>>, target: Seq<char>) -> Result<
    (),
    DirectoryError,
> {
    match source {
        None => Err(DirectoryError::SourceMissing),
        Some(s) => if s == target {
            Err(DirectoryError::SameDirectory)
        } else if path_within(target, s) {
            Err(DirectoryError::TargetInsideSource)
        } else if path_within(s, target) {
            Err(DirectoryError::SourceInsideTarget)
        } else {
            Ok(())
        },
    }
}

pub open spec fn opt_str(o: Option<&str>) -> Option<Seq<char>> {
    match o {
        Some(s) => Some(s@),
        None => None,
    }
}

fn is_within(p: &str, q: &str) -> (r: bool)
    ensures
        r == path_within(p@, q@),
{
    let np = p.unicode_len();
    let nq = q.unicode_len();
    if nq > np {
        return false;
    }
    let mut i: usize = 0;
    while i < nq
        invariant
            np == p@.len(),
            nq == q@.len(),
            nq <= np,
            i <= nq,
            forall|j: int| 0 <= j < i ==> p@[j] == q@[j],
        decreases nq - i,
    {
        if p.get_char(i) != q.get_char(i) {
            assert(p@.subrange(0, nq as int)[i as int] != q@[i as int]);
            return false;
        }
        i = i + 1;
    }
    assert(p@.subrange(0, nq as int) =~= q@);
    np == nq || (nq > 0 && q.get_char(nq - 1) == '/') || p.get_char(nq) == '/'
}

fn same_text(a: &str, b: &str) -> (r: bool)
    ensures
        r == (a@ == b@),
{
    let r = is_within(a, b) && a.unicode_len() == b.unicode_len();
    proof {
        if a@ == b@ {
            assert(a@.subrange(0, b@.len() as int) =~= a@);
        }
        if r {
            assert(a@ =~= a@.subrange(0, b@.len() as int));
        }
    }
    r
}

/// Checks that a source and a target directory can be used for one run.
/// `source` is the canonical path of the source directory, `None` where it does
/// not exist. `target` is the absolute, normalized path of the target, whether
/// or not it exists yet: the same path, a target inside the source and a source
/// inside the target are all refused.
pub fn validate_directories(source: Option<&str>, target: &str) -> (r: Result<
    (),
    DirectoryError,
>)
    ensures
        r == validate_spec(opt_str(source), target@),
        r is Ok <==> (source is Some && !path_within(target@, source->0@) && !path_within(
            source->0@,
            target@,
        )),
{
    match source {
        None => Err(DirectoryError::SourceMissing),
        Some(s) => {
            if same_text(s, target) {
                assert(target@.subrange(0, s@.len() as int) =~= target@);
                Err(DirectoryError::SameDirectory)
            } else if is_within(target, s) {
                Err(DirectoryError::TargetInsideSource)
            } else if is_within(s, target) {
                Err(DirectoryError::SourceInsideTarget)
            } else {
                Ok(())
            }
        },
    }
}

// ---------------------------------------------------------------------------
// Archive layout
// ---------------------------------------------------------------------------

/// The top-level directory of a media category.
pub open spec fn category_name(ft: FileType) -> Seq<char> {
    match ft {
        FileType::Photo => "Photos"@,
        FileType::Video => "Videos"@,
    }
}

/// The top-level directory of a media category.
pub fn category_folder(ft: FileType) -> (r: &'static str)
    ensures
        r@ == category_name(ft),
{
    match ft {
        FileType::Photo => "Photos",
        FileType::Video => "Videos",
    }
}

/// The three top-level directories that an archive holds: photos, videos and
/// duplicates.
pub fn target_structure(target: &str) -> (r: Vec<String>)
    ensures
        r@.len() == 3,
        r@[0]@ == join_spec(target@, "Photos"@),
        r@[1]@ == join_spec(target@, "Videos"@),
        r@[2]@ == join_spec(target@, "Duplicates"@),
{
    let mut dirs: Vec<String> = Vec::new();
    dirs.push(join(target, "Photos"));
    dirs.push(join(target, "Videos"));
    dirs.push(join(target, "Duplicates"));
    dirs
}

// ---------------------------------------------------------------------------
// Path allocation
// ---------------------------------------------------------------------------

pub open spec fn texts(v: Seq<String>) -> Seq<Seq<char>> {
    v.map_values(|s: String| s@)
}

/// The names present in a directory.
pub open spec fn name_set(v: Seq<String>) -> Set<Seq<char>> {
    texts(v).to_set()
}

/// `k` numbers the first variant of `name` that is not taken.
pub open spec fn is_free_index(name: Seq<char>, taken: Set<Seq<char>>, k: nat) -> bool {
    &&& !taken.contains(candidate(name, k))
    &&& forall|j: nat| j < k ==> taken.contains(#[trigger] candidate(name, j))
}

pub open spec fn free_index(name: Seq<char>, taken: Set<Seq<char>>) -> nat {
    choose|k: nat| is_free_index(name, taken, k)
}

/// The first of `name`, `name_copy_1`, `name_copy_2`, ... that is not taken.
pub open spec fn allocated_name(name: Seq<char>, taken: Set<Seq<char>>) -> Seq<char> {
    candidate(name, free_index(name, taken))
}

/// Where a file lands in `dir` when `taken` are the names already there.
pub open spec fn allocated_path(dir: Seq<char>, path: Seq<char>, taken: Set<Seq<char>>) -> Seq<
    char,
> {
    join_spec(dir, allocated_name(file_name_spec(path), taken))
}

/// At most one index is the first free one.
pub proof fn lemma_free_index_unique(name: Seq<char>, taken: Set<Seq<char>>, k: nat)
    requires
        is_free_index(name, taken, k),
    ensures
        free_index(name, taken) == k,
        allocated_name(name, taken) == candidate(name, k),
{
    let c = free_index(name, taken);
    assert(is_free_index(name, taken, c));
    if c < k {
        assert(taken.contains(candidate(name, c)));
    } else if k < c {
        assert(taken.contains(candidate(name, k)));
    }
}

/// A finite set holding the first `n` variants of a name has at least `n`
/// members.
proof fn lemma_taken_variants(name: Seq<char>, taken: Set<Seq<char>>, n: nat)
    requires
        taken.finite(),
        forall|j: nat| j < n ==> taken.contains(#[trigger] candidate(name, j)),
    ensures
        n <= taken.len(),
{
    let s = Seq::new(n, |j: int| candidate(name, j as nat));
    assert forall|a: int, b: int| 0 <= a < s.len() && 0 <= b < s.len() && a != b implies s[a]
        != s[b] by {
        if s[a] == s[b] {
            lemma_candidate_injective(name, a as nat, b as nat);
        }
    }
    assert(s.no_duplicates());
    s.unique_seq_to_set();
    assert forall|x: Seq<char>| s.to_set().contains(x) implies taken.contains(x) by {
        let i = choose|i: int| 0 <= i < s.len() && s[i] == x;
        assert(taken.contains(candidate(name, i as nat)));
    }
    lemma_len_subset(s.to_set(), taken);
}

fn contains_name(names: &Vec<String>, s: &String) -> (r: bool)
    ensures
        r == name_set(names@).contains(s@),
{
    let mut i: usize = 0;
    while i < names.len()
        invariant
            i <= names@.len(),
            forall|j: int| 0 <= j < i ==> names@[j]@ != s@,
        decreases names@.len() - i,
    {
        if names[i] == *s {
            assert(texts(names@)[i as int] == s@);
            return true;
        }
        i = i + 1;
    }
    assert(!texts(names@).contains(s@)) by {
        if texts(names@).contains(s@) {
            let j = choose|j: int| 0 <= j < texts(names@).len() && texts(names@)[j] == s@;
            assert(names@[j]@ == s@);
        }
    }
    false
}

/// A path for `original_path`'s file name inside `base_dir` that none of
/// `existing` (the names already in `base_dir`) takes: the name itself when it
/// is free, else the first free one of `<stem>_copy_1<.ext>`,
/// `<stem>_copy_2<.ext>`, ...
pub fn get_unique_target_path(base_dir: &str, original_path: &str, existing: &Vec<String>) -> (r:
    String)
    ensures
        r@ == allocated_path(base_dir@, original_path@, name_set(existing@)),
        is_free_index(
            file_name_spec(original_path@),
            name_set(existing@),
            free_index(file_name_spec(original_path@), name_set(existing@)),
        ),
{
    let name = file_name(original_path);
    let ghost taken = name_set(existing@);
    proof {
        texts(existing@).lemma_cardinality_of_set();
        seq_to_set_is_finite(texts(existing@));
    }
    let mut cand = name.clone();
    let mut k: usize = 0;
    while contains_name(existing, &cand)
        invariant
            taken == name_set(existing@),
            taken.finite(),
            taken.len() <= existing@.len(),
            k <= existing@.len(),
            cand@ == candidate(name@, k as nat),
            forall|j: nat| j < k ==> taken.contains(#[trigger] candidate(name@, j)),
        decreases existing@.len() - k,
    {
        proof {
            assert forall|j: nat| j < k + 1 implies taken.contains(
                #[trigger] candidate(name@, j),
            ) by {
                if j == k {
                    assert(candidate(name@, j) == cand@);
                }
            }
            lemma_taken_variants(name@, taken, (k + 1) as nat);
            assert(k + 1 <= existing.len());
        }
        k = k + 1;
        cand = make_copy_name(name.as_str(), k as u64);
    }
    proof {
        lemma_free_index_unique(name@, taken, k as nat);
    }
    join(base_dir, cand.as_str())
}

proof fn lemma_find_free(name: Seq<char>, taken: Set<Seq<char>>, i: nat) -> (k: nat)
    requires
        taken.finite(),
        i <= taken.len(),
        forall|j: nat| j < i ==> taken.contains(#[trigger] candidate(name, j)),
    ensures
        is_free_index(name, taken, k),
    decreases taken.len() - i,
{
    if !taken.contains(candidate(name, i)) {
        i
    } else {
        assert forall|j: nat| j < i + 1 implies taken.contains(#[trigger] candidate(name, j)) by {
            if j == i {
                assert(taken.contains(candidate(name, i)));
            }
        }
        lemma_taken_variants(name, taken, i + 1);
        lemma_find_free(name, taken, i + 1)
    }
}

/// Every finite set of taken names leaves a first free variant.
pub proof fn lemma_free_index_exists(name: Seq<char>, taken: Set<Seq<char>>)
    requires
        taken.finite(),
    ensures
        is_free_index(name, taken, free_index(name, taken)),
{
    let k = lemma_find_free(name, taken, 0);
    lemma_free_index_unique(name, taken, k);
}

/// Whatever finite set of names a directory already holds, the allocated name
/// is not one of them; and once it is taken too, the next allocation for the
/// same file name gets a strictly larger variant number.
pub proof fn lemma_allocation_fresh_and_increasing(path: Seq<char>, taken: Set<Seq<char>>)
    requires
        taken.finite(),
    ensures
        !taken.contains(allocated_name(file_name_spec(path), taken)),
        free_index(file_name_spec(path), taken.insert(allocated_name(file_name_spec(path), taken)))
            > free_index(file_name_spec(path), taken),
{
    let name = file_name_spec(path);
    lemma_free_index_exists(name, taken);
    let k = free_index(name, taken);
    let grown = taken.insert(candidate(name, k));
    lemma_free_index_exists(name, grown);
    let k2 = free_index(name, grown);
    if k2 <= k {
        if k2 < k {
            assert(taken.contains(candidate(name, k2)));
        }
        assert(grown.contains(candidate(name, k2)));
    }
}

} // verus!
