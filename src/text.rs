use vstd::prelude::*;

verus! {

/// The character of a decimal digit.
pub open spec fn digit_char(d: nat) -> char {
    ((d + 48) as u8) as char
}

/// Decimal notation of a natural number, most significant digit first.
pub open spec fn decimal(n: nat) -> Seq<char>
    decreases n,
{
    if n < 10 {
        seq![digit_char(n)]
    } else {
        decimal(n / 10) + seq![digit_char(n % 10)]
    }
}

/// Decimal notation of an integer, with a leading `-` when it is negative.
pub open spec fn signed_decimal(n: int) -> Seq<char> {
    if n < 0 {
        seq!['-'] + decimal((-n) as nat)
    } else {
        decimal(n as nat)
    }
}

/// Index of the last occurrence of `c` in `s`, or -1.
pub open spec fn last_index_of(s: Seq<char>, c: char) -> int
    decreases s.len(),
{
    if s.len() == 0 {
        -1
    } else if s.last() == c {
        s.len() - 1
    } else {
        last_index_of(s.drop_last(), c)
    }
}

/// `dir/name`: a `/` is put between them unless `dir` is empty or already
/// ends with one.
pub open spec fn join_spec(dir: Seq<char>, name: Seq<char>) -> Seq<char> {
    if dir.len() == 0 {
        name
    } else if dir.last() == '/' {
        dir + name
    } else {
        dir + seq!['/'] + name
    }
}

/// The last component of a `/`-separated path.
pub open spec fn file_name_spec(path: Seq<char>) -> Seq<char> {
    path.subrange(last_index_of(path, '/') + 1, path.len() as int)
}

/// Where a file name splits into stem and extension: the last `.`, unless
/// that is the first character (a hidden file) or the name is `..`; -1 where
/// the name has no extension.
pub open spec fn ext_dot(name: Seq<char>) -> int {
    if name == seq!['.', '.'] || last_index_of(name, '.') <= 0 {
        -1
    } else {
        last_index_of(name, '.')
    }
}

/// The file name without its extension.
pub open spec fn stem_spec(name: Seq<char>) -> Seq<char> {
    let k = ext_dot(name);
    if k < 0 {
        name
    } else {
        name.subrange(0, k)
    }
}

/// The extension of a file name, without its dot; empty where there is none.
pub open spec fn extension_spec(name: Seq<char>) -> Seq<char> {
    let k = ext_dot(name);
    if k < 0 {
        Seq::empty()
    } else {
        name.subrange(k + 1, name.len() as int)
    }
}

/// The numbered variant of a file name: `<stem>_copy_<n>.<ext>`, or
/// `<stem>_copy_<n>` where the extension is empty.
pub open spec fn copy_name(name: Seq<char>, n: nat) -> Seq<char> {
    let ext = extension_spec(name);
    let base = stem_spec(name) + "_copy_"@ + decimal(n);
    if ext.len() == 0 {
        base
    } else {
        base + seq!['.'] + ext
    }
}

proof fn lemma_last_index_bounds(s: Seq<char>, c: char)
    ensures
        -1 <= last_index_of(s, c) < s.len(),
        last_index_of(s, c) >= 0 ==> s[last_index_of(s, c)] == c,
        forall|j: int| last_index_of(s, c) < j < s.len() ==> s[j] != c,
    decreases s.len(),
{
    if s.len() > 0 && s.last() != c {
        let t = s.drop_last();
        lemma_last_index_bounds(t, c);
        assert forall|j: int| last_index_of(s, c) < j < s.len() implies s[j] != c by {
            if j < s.len() - 1 {
                assert(s[j] == t[j]);
            }
        }
    }
}

/// Index of the last `c` in `s`, if there is one.
fn find_last(s: &str, c: char) -> (r: Option<usize>)
    ensures
        match r {
            Some(i) => i == last_index_of(s@, c),
            None => last_index_of(s@, c) == -1,
        },
{
    let n = s.unicode_len();
    let mut i: usize = n;
    assert(s@.subrange(0, n as int) =~= s@);
    while i > 0
        invariant
            n == s@.len(),
            i <= n,
            last_index_of(s@, c) == last_index_of(s@.subrange(0, i as int), c),
        decreases i,
    {
        let ghost pre = s@.subrange(0, i as int);
        assert(pre.drop_last() =~= s@.subrange(0, i - 1));
        if s.get_char(i - 1) == c {
            assert(pre[i - 1] == s@[i - 1]);
            assert(last_index_of(pre, c) == i - 1);
            return Some(i - 1);
        }
        i = i - 1;
    }
    assert(s@.subrange(0, 0).len() == 0);
    None
}

/// Appends the decimal notation of `n`.
fn push_decimal(out: &mut String, n: u64)
    ensures
        final(out)@ == old(out)@ + decimal(n as nat),
    decreases n,
{
    if n >= 10 {
        push_decimal(out, n / 10);
    }
    let d = (n % 10) as usize;
    let digits = "0123456789";
    proof {
        reveal_strlit("0123456789");
    }
    let one = digits.substring_char(d, d + 1);
    assert(one@ =~= seq![digit_char(d as nat)]);
    out.append(one);
    assert(final(out)@ =~= old(out)@ + decimal(n as nat));
}

/// Decimal notation of an integer, as `to_string` writes it.
pub fn signed_to_string(n: i32) -> (r: String)
    ensures
        r@ == signed_decimal(n as int),
{
    let mut out = String::new();
    if n < 0 {
        out.append("-");
        proof {
            reveal_strlit("-");
        }
        let m: u64 = if n == i32::MIN { 2147483648u64 } else { (-n) as u64 };
        push_decimal(&mut out, m);
    } else {
        push_decimal(&mut out, n as u64);
    }
    out
}

/// `dir/name`.
pub fn join(dir: &str, name: &str) -> (r: String)
    ensures
        r@ == join_spec(dir@, name@),
{
    let n = dir.unicode_len();
    let mut out = String::from_str(dir);
    if n > 0 && dir.get_char(n - 1) != '/' {
        out.append("/");
        proof {
            reveal_strlit("/");
        }
    }
    out.append(name);
    out
}

/// The last component of a `/`-separated path.
pub fn file_name(path: &str) -> (r: String)
    ensures
        r@ == file_name_spec(path@),
        r@.len() <= path@.len(),
{
    let n = path.unicode_len();
    let k = find_last(path, '/');
    proof {
        lemma_last_index_bounds(path@, '/');
    }
    let start: usize = match k {
        Some(i) => i + 1,
        None => 0,
    };
    String::from_str(path.substring_char(start, n))
}

/// The stem and the extension of a file name.
pub fn split_name(name: &str) -> (r: (String, String))
    ensures
        r.0@ == stem_spec(name@),
        r.1@ == extension_spec(name@),
{
    let n = name.unicode_len();
    let k = find_last(name, '.');
    proof {
        lemma_last_index_bounds(name@, '.');
    }
    let dotdot = n == 2 && name.get_char(0) == '.' && name.get_char(1) == '.';
    assert(dotdot == (name@ == seq!['.', '.'])) by {
        if name@.len() == 2 {
            if name@[0] == '.' && name@[1] == '.' {
                assert(name@ =~= seq!['.', '.']);
            }
        }
    }
    let k: usize = match k {
        Some(i) => i,
        None => 0,
    };
    if dotdot || k == 0 {
        (String::from_str(name), String::new())
    } else {
        (String::from_str(name.substring_char(0, k)), String::from_str(name.substring_char(k + 1, n)))
    }
}

/// The numbered variant `<stem>_copy_<n>[.<ext>]` of a file name.
pub fn make_copy_name(name: &str, n: u64) -> (r: String)
    ensures
        r@ == copy_name(name@, n as nat),
{
    let (stem, ext) = split_name(name);
    let mut out = stem;
    out.append("_copy_");
    push_decimal(&mut out, n);
    if ext.unicode_len() > 0 {
        out.append(".");
        proof {
            reveal_strlit(".");
        }
        out.append(ext.as_str());
    }
    assert(out@ =~= copy_name(name@, n as nat));
    out
}

} // verus!

verus! {

/// A file name, then its numbered variants `_copy_1`, `_copy_2`, ...
pub open spec fn candidate(name: Seq<char>, k: nat) -> Seq<char> {
    if k == 0 {
        name
    } else {
        copy_name(name, k)
    }
}

proof fn lemma_decimal_len(n: nat)
    ensures
        decimal(n).len() >= 1,
        n < 10 <==> decimal(n).len() == 1,
    decreases n,
{
    if n >= 10 {
        lemma_decimal_len(n / 10);
    }
}

proof fn lemma_digit_char_injective(a: nat, b: nat)
    requires
        a < 10,
        b < 10,
        digit_char(a) == digit_char(b),
    ensures
        a == b,
{
    assert(((a + 48) as u8) as char == ((b + 48) as u8) as char);
    assert((((a + 48) as u8) as char) as u32 == (a + 48));
    assert((((b + 48) as u8) as char) as u32 == (b + 48));
}

/// Different numbers have different decimal notations.
pub proof fn lemma_decimal_injective(a: nat, b: nat)
    requires
        decimal(a) == decimal(b),
    ensures
        a == b,
    decreases a,
{
    lemma_decimal_len(a);
    lemma_decimal_len(b);
    if a < 10 {
        assert(decimal(a)[0] == digit_char(a));
        assert(decimal(b)[0] == digit_char(b));
        lemma_digit_char_injective(a, b);
    } else {
        let da = decimal(a);
        let db = decimal(b);
        assert(da.last() == digit_char(a % 10));
        assert(db.last() == digit_char(b % 10));
        lemma_digit_char_injective(a % 10, b % 10);
        assert(da.drop_last() =~= decimal(a / 10));
        assert(db.drop_last() =~= decimal(b / 10));
        lemma_decimal_injective(a / 10, b / 10);
    }
}

proof fn lemma_copy_name_shape(name: Seq<char>, k: nat)
    ensures
        copy_name(name, k).len() > name.len(),
        copy_name(name, k).subrange(0, stem_spec(name).len() + 6int) == stem_spec(name) + "_copy_"@,
{
    let k0 = ext_dot(name);
    lemma_decimal_len(k);
    lemma_last_index_bounds(name, '.');
    assert("_copy_"@.len() == 6) by {
        reveal_strlit("_copy_");
    }
    let c = copy_name(name, k);
    let pre = stem_spec(name) + "_copy_"@;
    assert(c.subrange(0, pre.len() as int) =~= pre);
}

/// The numbered variants of a name differ from the name and from each other.
pub proof fn lemma_candidate_injective(name: Seq<char>, a: nat, b: nat)
    requires
        candidate(name, a) == candidate(name, b),
    ensures
        a == b,
{
    if a == 0 && b != 0 {
        lemma_copy_name_shape(name, b);
    } else if a != 0 && b == 0 {
        lemma_copy_name_shape(name, a);
    } else if a != 0 && b != 0 {
        let ext = extension_spec(name);
        let pre = stem_spec(name) + "_copy_"@;
        let ca = copy_name(name, a);
        let cb = copy_name(name, b);
        let tail = if ext.len() == 0 { 0int } else { 1 + ext.len() as int };
        assert(ca.len() == pre.len() + decimal(a).len() + tail);
        assert(cb.len() == pre.len() + decimal(b).len() + tail);
        assert(ca.subrange(pre.len() as int, pre.len() + decimal(a).len() as int) =~= decimal(a));
        assert(cb.subrange(pre.len() as int, pre.len() + decimal(b).len() as int) =~= decimal(b));
        lemma_decimal_injective(a, b);
    }
}

} // verus!
