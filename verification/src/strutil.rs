//! Verified string helpers: equality, case-insensitive comparison,
//! substring search, suffix handling and character replacement.
//!
//! Paths, package names and checksums are all plain strings in this
//! library, so these helpers carry most of the string reasoning.

use vstd::prelude::*;

verus! {

/// The code point of `c`, with ASCII upper-case letters folded to lower case.
pub open spec fn lower_code(c: char) -> u32 {
    if 65 <= c as u32 && c as u32 <= 90 {
        (c as u32 + 32) as u32
    } else {
        c as u32
    }
}

/// Character-wise equality up to ASCII case.
pub open spec fn eq_ignore_ascii_case(a: Seq<char>, b: Seq<char>) -> bool {
    a.len() == b.len() && forall|i: int| 0 <= i < a.len() ==> lower_code(a[i]) == lower_code(b[i])
}

/// `c`, with an ASCII upper-case letter folded to its lower-case form.
pub open spec fn lower_char(c: char) -> char {
    lower_code(c) as char
}

/// `s` with every ASCII upper-case letter folded to lower case.
pub open spec fn lower_chars(s: Seq<char>) -> Seq<char> {
    s.map_values(|c: char| lower_char(c))
}

/// Whether `c` is ASCII whitespace.
pub open spec fn is_blank_char(c: char) -> bool {
    c == ' ' || c == '\t' || c == '\r' || c == '\n'
}

/// Every character of `s` is ASCII whitespace; true of the empty sequence.
pub open spec fn all_blank(s: Seq<char>) -> bool {
    forall|i: int| 0 <= i < s.len() ==> is_blank_char(s[i])
}

/// `pat` occurs in `s` starting at position `i`.
pub open spec fn matches_at(s: Seq<char>, pat: Seq<char>, i: int) -> bool {
    0 <= i && i + pat.len() <= s.len() && s.subrange(i, i + pat.len()) == pat
}

/// `pat` occurs somewhere in `s`.
pub open spec fn contains_seq(s: Seq<char>, pat: Seq<char>) -> bool {
    exists|i: int| matches_at(s, pat, i)
}

/// `s` ends with `suffix`.
pub open spec fn has_suffix(s: Seq<char>, suffix: Seq<char>) -> bool {
    suffix.len() <= s.len() && s.subrange(s.len() - suffix.len(), s.len() as int) == suffix
}

/// `s` with every occurrence of the character `from` replaced by `to`.
pub open spec fn replace_chars(s: Seq<char>, from: char, to: char) -> Seq<char> {
    s.map_values(|c: char| if c == from { to } else { c })
}

/// `s` with every newline character removed.
pub open spec fn strip_newlines(s: Seq<char>) -> Seq<char> {
    s.filter(|c: char| c != '\n')
}

/// Relies on String::push: appends the given character to the end of the string.
#[verifier::external_body]
pub fn string_push(s: &mut String, c: char)
    ensures
        final(s)@ == old(s)@ + seq![c],
{
    s.push(c);
}

/// Character-wise string equality.
pub fn str_eq(a: &str, b: &str) -> (r: bool)
    ensures
        r == (a@ == b@),
{
    let a_len = a.unicode_len();
    let b_len = b.unicode_len();
    if a_len != b_len {
        assert(a@ != b@) by {
            assert(a@.len() != b@.len());
        }
        return false;
    }
    let mut i: usize = 0;
    while i < a_len
        invariant
            a_len == a@.len(),
            b_len == b@.len(),
            a_len == b_len,
            0 <= i <= a_len,
            forall|j: int| 0 <= j < i ==> a@[j] == b@[j],
        decreases a_len - i,
    {
        if a.get_char(i) != b.get_char(i) {
            return false;
        }
        i += 1;
    }
    assert(a@ =~= b@);
    true
}

/// String equality up to ASCII case; used for comparing hex digests.
pub fn str_eq_ignore_ascii_case(a: &str, b: &str) -> (r: bool)
    ensures
        r == eq_ignore_ascii_case(a@, b@),
{
    let a_len = a.unicode_len();
    let b_len = b.unicode_len();
    if a_len != b_len {
        return false;
    }
    let mut i: usize = 0;
    while i < a_len
        invariant
            a_len == a@.len(),
            b_len == b@.len(),
            a_len == b_len,
            0 <= i <= a_len,
            forall|j: int| 0 <= j < i ==> lower_code(a@[j]) == lower_code(b@[j]),
        decreases a_len - i,
    {
        let ca = a.get_char(i) as u32;
        let cb = b.get_char(i) as u32;
        let la = if 65 <= ca && ca <= 90 {
            ca + 32
        } else {
            ca
        };
        let lb = if 65 <= cb && cb <= 90 {
            cb + 32
        } else {
            cb
        };
        if la != lb {
            return false;
        }
        i += 1;
    }
    true
}

/// Whether the whole string is ASCII whitespace; true of the empty string.
pub fn is_all_blank(s: &str) -> (r: bool)
    ensures
        r == all_blank(s@),
{
    let s_len = s.unicode_len();
    let mut i: usize = 0;
    while i < s_len
        invariant
            s_len == s@.len(),
            0 <= i <= s_len,
            forall|j: int| 0 <= j < i ==> is_blank_char(s@[j]),
        decreases s_len - i,
    {
        let c = s.get_char(i);
        if !(c == ' ' || c == '\t' || c == '\r' || c == '\n') {
            return false;
        }
        i += 1;
    }
    true
}

/// `s` with every ASCII upper-case letter folded to lower case.
pub fn to_ascii_lower(s: &str) -> (r: String)
    ensures
        r@ == lower_chars(s@),
{
    broadcast use vstd::utf8::char_u32_cast;

    let s_len = s.unicode_len();
    let mut out = String::new();
    let mut i: usize = 0;
    while i < s_len
        invariant
            s_len == s@.len(),
            0 <= i <= s_len,
            out@.len() == i,
            forall|j: int| 0 <= j < i ==> out@[j] == lower_char(s@[j]),
        decreases s_len - i,
    {
        let c = s.get_char(i);
        let code = c as u32;
        if 65 <= code && code <= 90 {
            let lowered = ((code + 32) as u8) as char;
            proof {
                assert(lowered as u32 == code + 32);
                assert(lowered == lower_char(c));
            }
            string_push(&mut out, lowered);
        } else {
            proof {
                assert(c == lower_char(c));
            }
            string_push(&mut out, c);
        }
        i += 1;
    }
    assert(out@ =~= lower_chars(s@));
    out
}

/// Strings equal up to ASCII case have the same lower-case form.
pub proof fn lemma_eq_ignore_case_lower_chars(a: Seq<char>, b: Seq<char>)
    requires
        eq_ignore_ascii_case(a, b),
    ensures
        lower_chars(a) == lower_chars(b),
{
    assert(lower_chars(a) =~= lower_chars(b));
}

/// Whether `pat` occurs in `s` at position `at`; `at + pat len` must be in range.
fn matches_at_exec(s: &str, pat: &str, at: usize, s_len: usize, pat_len: usize) -> (r: bool)
    requires
        s_len == s@.len(),
        pat_len == pat@.len(),
        at + pat_len <= s_len,
    ensures
        r == matches_at(s@, pat@, at as int),
{
    let mut j: usize = 0;
    while j < pat_len
        invariant
            s_len == s@.len(),
            pat_len == pat@.len(),
            at + pat_len <= s_len,
            0 <= j <= pat_len,
            forall|k: int| 0 <= k < j ==> s@[at + k] == pat@[k],
        decreases pat_len - j,
    {
        if s.get_char(at + j) != pat.get_char(j) {
            assert(s@[at + j] != pat@[j as int]);
            assert(!matches_at(s@, pat@, at as int)) by {
                if s@.subrange(at as int, at + pat@.len()) == pat@ {
                    assert(s@.subrange(at as int, at + pat@.len())[j as int] == pat@[j as int]);
                }
            }
            return false;
        }
        j += 1;
    }
    assert(s@.subrange(at as int, at + pat@.len()) =~= pat@);
    true
}

/// Position of the first occurrence of `pat` in `s`, if any.
pub fn find_substr(s: &str, pat: &str) -> (r: Option<usize>)
    ensures
        match r {
            Some(i) => matches_at(s@, pat@, i as int) && forall|j: int|
                0 <= j < i ==> !matches_at(s@, pat@, j),
            None => !contains_seq(s@, pat@),
        },
{
    let s_len = s.unicode_len();
    let pat_len = pat.unicode_len();
    if pat_len == 0 {
        assert(matches_at(s@, pat@, 0)) by {
            assert(s@.subrange(0, 0) =~= pat@);
        }
        return Some(0);
    }
    if pat_len > s_len {
        assert(!contains_seq(s@, pat@)) by {
            assert(forall|i: int| !matches_at(s@, pat@, i));
        }
        return None;
    }
    let mut i: usize = 0;
    while i <= s_len - pat_len
        invariant
            s_len == s@.len(),
            pat_len == pat@.len(),
            1 <= pat_len <= s_len,
            0 <= i <= s_len - pat_len + 1,
            forall|j: int| 0 <= j < i ==> !matches_at(s@, pat@, j),
        decreases s_len - pat_len + 1 - i,
    {
        if matches_at_exec(s, pat, i, s_len, pat_len) {
            return Some(i);
        }
        i += 1;
    }
    assert(!contains_seq(s@, pat@)) by {
        assert(forall|j: int| j > s@.len() - pat@.len() ==> !matches_at(s@, pat@, j));
    }
    None
}

/// Whether `pat` occurs somewhere in `s`.
pub fn contains_substr(s: &str, pat: &str) -> (r: bool)
    ensures
        r == contains_seq(s@, pat@),
{
    match find_substr(s, pat) {
        Some(_) => true,
        None => false,
    }
}

/// Whether `s` ends with `suffix`.
pub fn ends_with_str(s: &str, suffix: &str) -> (r: bool)
    ensures
        r == has_suffix(s@, suffix@),
{
    let s_len = s.unicode_len();
    let sfx_len = suffix.unicode_len();
    if sfx_len > s_len {
        return false;
    }
    matches_at_exec(s, suffix, s_len - sfx_len, s_len, sfx_len)
}

/// `s` without a final `suffix`, or `None` where `suffix` is not at the end.
pub fn strip_suffix_str(s: &str, suffix: &str) -> (r: Option<String>)
    ensures
        match r {
            Some(rest) => has_suffix(s@, suffix@) && rest@ == s@.subrange(
                0,
                s@.len() - suffix@.len(),
            ),
            None => !has_suffix(s@, suffix@),
        },
{
    if !ends_with_str(s, suffix) {
        return None;
    }
    let s_len = s.unicode_len();
    let sfx_len = suffix.unicode_len();
    let rest = s.substring_char(0, s_len - sfx_len);
    Some(rest.to_owned())
}

/// `s` with every occurrence of the character `from` replaced by `to`.
pub fn replace_char(s: &str, from: char, to: char) -> (r: String)
    ensures
        r@ == replace_chars(s@, from, to),
{
    let s_len = s.unicode_len();
    let mut out = String::new();
    let mut i: usize = 0;
    while i < s_len
        invariant
            s_len == s@.len(),
            0 <= i <= s_len,
            out@.len() == i,
            forall|j: int| 0 <= j < i ==> out@[j] == (if s@[j] == from {
                to
            } else {
                s@[j]
            }),
        decreases s_len - i,
    {
        let c = s.get_char(i);
        if c == from {
            string_push(&mut out, to);
        } else {
            string_push(&mut out, c);
        }
        i += 1;
    }
    assert(out@ =~= replace_chars(s@, from, to));
    out
}

/// `s` with every newline character removed.
pub fn remove_newlines(s: &str) -> (r: String)
    ensures
        r@ == strip_newlines(s@),
{
    let s_len = s.unicode_len();
    let mut out = String::new();
    let mut i: usize = 0;
    while i < s_len
        invariant
            s_len == s@.len(),
            0 <= i <= s_len,
            out@ == s@.subrange(0, i as int).filter(|c: char| c != '\n'),
        decreases s_len - i,
    {
        let c = s.get_char(i);
        proof {
            let pred = |c: char| c != '\n';
            let pre = s@.subrange(0, i as int);
            let one = seq![s@[i as int]];
            let ext = s@.subrange(0, i + 1);
            assert(ext =~= pre + one);
            Seq::<char>::filter_distributes_over_add(pre, one, pred);
            reveal_with_fuel(Seq::<_>::filter, 2);
            assert(one.drop_last() =~= Seq::<char>::empty());
            assert(one.filter(pred) == if pred(s@[i as int]) {
                one
            } else {
                Seq::<char>::empty()
            });
        }
        if c != '\n' {
            string_push(&mut out, c);
            assert(out@ =~= s@.subrange(0, i + 1).filter(|c: char| c != '\n'));
        } else {
            assert(out@ =~= s@.subrange(0, i + 1).filter(|c: char| c != '\n'));
        }
        i += 1;
    }
    assert(s@.subrange(0, s_len as int) =~= s@);
    out
}

/// Filtering keeps keys pairwise distinct: a subsequence of entries with
/// distinct keys still has distinct keys.
pub proof fn lemma_filter_keeps_distinct_keys<T>(
    s: Seq<T>,
    pred: spec_fn(T) -> bool,
    key: spec_fn(T) -> Seq<char>,
)
    requires
        forall|i: int, j: int| 0 <= i < j < s.len() ==> key(s[i]) != key(s[j]),
    ensures
        forall|i: int, j: int|
            0 <= i < j < s.filter(pred).len() ==> key(s.filter(pred)[i]) != key(s.filter(pred)[j]),
    decreases s.len(),
{
    reveal_with_fuel(Seq::<_>::filter, 1);
    if s.len() > 0 {
        let dl = s.drop_last();
        lemma_filter_keeps_distinct_keys(dl, pred, key);
        let f = s.filter(pred);
        let fdl = dl.filter(pred);
        if pred(s.last()) {
            assert(f == fdl.push(s.last()));
            assert forall|i: int, j: int| 0 <= i < j < f.len() implies key(f[i]) != key(f[j]) by {
                if j == f.len() - 1 {
                    assert(fdl.contains(f[i]));
                    dl.lemma_filter_contains_rev(pred, f[i]);
                    let w = choose|w: int| 0 <= w < dl.len() && dl[w] == f[i];
                    assert(key(s[w]) != key(s[s.len() - 1]));
                }
            }
        }
    }
}

/// After an upsert, keys stay pairwise distinct: replacing the entry for
/// one key by a fresh binding at the end cannot introduce a duplicate.
pub proof fn lemma_upsert_keeps_distinct<T>(
    old_s: Seq<T>,
    new_s: Seq<T>,
    pred: spec_fn(T) -> bool,
    key: spec_fn(T) -> Seq<char>,
    name: Seq<char>,
)
    requires
        forall|t: T| #[trigger] pred(t) == (key(t) != name),
        forall|i: int, j: int| 0 <= i < j < old_s.len() ==> key(old_s[i]) != key(old_s[j]),
        new_s.len() >= 1,
        key(new_s.last()) == name,
        new_s.drop_last() == old_s.filter(pred),
    ensures
        forall|i: int, j: int| 0 <= i < j < new_s.len() ==> key(new_s[i]) != key(new_s[j]),
{
    broadcast use vstd::seq_lib::group_filter_ensures;

    lemma_filter_keeps_distinct_keys(old_s, pred, key);
    let f = old_s.filter(pred);
    assert forall|i: int, j: int| 0 <= i < j < new_s.len() implies key(new_s[i]) != key(
        new_s[j],
    ) by {
        if j < new_s.len() - 1 {
            assert(new_s[i] == f[i] && new_s[j] == f[j]);
        } else {
            assert(new_s[i] == f[i]);
            assert(pred(f[i]));
        }
    }
}

/// After an upsert, the bound keys are the old ones plus the new binding's.
pub proof fn lemma_upsert_keys<T>(
    old_s: Seq<T>,
    new_s: Seq<T>,
    pred: spec_fn(T) -> bool,
    key: spec_fn(T) -> Seq<char>,
    name: Seq<char>,
    n: Seq<char>,
)
    requires
        forall|t: T| #[trigger] pred(t) == (key(t) != name),
        new_s.len() >= 1,
        key(new_s.last()) == name,
        new_s.drop_last() == old_s.filter(pred),
    ensures
        (exists|i: int| 0 <= i < new_s.len() && key(#[trigger] new_s[i]) == n) <==> (n == name
            || exists|i: int| 0 <= i < old_s.len() && key(#[trigger] old_s[i]) == n),
{
    broadcast use vstd::seq_lib::group_filter_ensures;

    let f = old_s.filter(pred);
    if exists|i: int| 0 <= i < new_s.len() && key(#[trigger] new_s[i]) == n {
        let i = choose|i: int| 0 <= i < new_s.len() && key(#[trigger] new_s[i]) == n;
        if i < new_s.len() - 1 {
            assert(new_s[i] == f[i]);
            assert(f.contains(f[i]));
            old_s.lemma_filter_contains_rev(pred, f[i]);
            let w = choose|w: int| 0 <= w < old_s.len() && old_s[w] == f[i];
            assert(key(old_s[w]) == n);
        }
    }
    if n == name {
        assert(key(new_s[new_s.len() - 1]) == n);
    } else if exists|i: int| 0 <= i < old_s.len() && key(#[trigger] old_s[i]) == n {
        let i = choose|i: int| 0 <= i < old_s.len() && key(#[trigger] old_s[i]) == n;
        assert(pred(old_s[i]));
        assert(f.contains(old_s[i]));
        let w = choose|w: int| 0 <= w < f.len() && f[w] == old_s[i];
        assert(new_s[w] == f[w]);
        assert(key(new_s[w]) == n);
    }
}

/// The strings among `files` that end with `suffix`, in input order.
pub fn filter_by_suffix(files: &Vec<String>, suffix: &str) -> (r: Vec<String>)
    ensures
        r.deep_view() == files.deep_view().filter(|s: Seq<char>| has_suffix(s, suffix@)),
{
    let n = files.len();
    let mut r: Vec<String> = Vec::new();
    let ghost pred = |s: Seq<char>| has_suffix(s, suffix@);
    let mut i: usize = 0;
    while i < n
        invariant
            n == files@.len(),
            0 <= i <= n,
            r.deep_view() == files.deep_view().subrange(0, i as int).filter(pred),
            pred == (|s: Seq<char>| has_suffix(s, suffix@)),
        decreases n - i,
    {
        proof {
            let pre = files.deep_view().subrange(0, i as int);
            let one = seq![files.deep_view()[i as int]];
            let ext = files.deep_view().subrange(0, i + 1);
            assert(ext =~= pre + one);
            Seq::<Seq<char>>::filter_distributes_over_add(pre, one, pred);
            reveal_with_fuel(Seq::<_>::filter, 2);
            assert(one.drop_last() =~= Seq::<Seq<char>>::empty());
        }
        if ends_with_str(files[i].as_str(), suffix) {
            r.push(files[i].clone());
            assert(r.deep_view() =~= files.deep_view().subrange(0, i + 1).filter(pred));
        } else {
            assert(r.deep_view() =~= files.deep_view().subrange(0, i + 1).filter(pred));
        }
        i += 1;
    }
    assert(files.deep_view().subrange(0, n as int) =~= files.deep_view());
    r
}

/// Position of the first occurrence of the character `c` in `s`, if any.
pub fn find_first_char(s: &str, c: char) -> (r: Option<usize>)
    ensures
        match r {
            Some(i) => i < s@.len() && s@[i as int] == c && forall|j: int| 0 <= j < i ==> s@[j]
                != c,
            None => forall|j: int| 0 <= j < s@.len() ==> s@[j] != c,
        },
{
    let s_len = s.unicode_len();
    let mut i: usize = 0;
    while i < s_len
        invariant
            s_len == s@.len(),
            0 <= i <= s_len,
            forall|j: int| 0 <= j < i ==> s@[j] != c,
        decreases s_len - i,
    {
        if s.get_char(i) == c {
            return Some(i);
        }
        i += 1;
    }
    None
}

/// Position of the last occurrence of the character `c` in `s`, if any.
pub fn find_last_char(s: &str, c: char) -> (r: Option<usize>)
    ensures
        match r {
            Some(i) => i < s@.len() && s@[i as int] == c && forall|j: int|
                i < j < s@.len() ==> s@[j] != c,
            None => forall|j: int| 0 <= j < s@.len() ==> s@[j] != c,
        },
{
    let s_len = s.unicode_len();
    let mut i: usize = s_len;
    while i > 0
        invariant
            s_len == s@.len(),
            0 <= i <= s_len,
            forall|j: int| i <= j < s_len ==> s@[j] != c,
        decreases i,
    {
        i -= 1;
        if s.get_char(i) == c {
            return Some(i);
        }
    }
    None
}

} // verus!
