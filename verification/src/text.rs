//! Verified text utilities over character vectors.
//!
//! Strings cross the library boundary as `String`/`&str`; internally the
//! engine works on `Vec<char>`, whose view is the same `Seq<char>` as the
//! string it came from, so every contract is stated over one model.

use vstd::prelude::*;
use vstd::string::StrSliceExecFns;

verus! {

/// Relies on `String::push`: appends the given character to the end.
#[verifier::external_body]
fn push_char(s: &mut String, c: char)
    ensures
        final(s)@ == old(s)@.push(c),
{
    s.push(c);
}

/// The characters of `s`, in order.
#[verifier::loop_isolation(false)]
pub fn str_to_chars(s: &str) -> (r: Vec<char>)
    ensures
        r@ == s@,
{
    let n = s.unicode_len();
    let mut r: Vec<char> = Vec::new();
    let mut i: usize = 0;
    while i < n
        invariant
            n == s@.len(),
            i <= n,
            r@.len() == i,
            forall|j: int| 0 <= j < i ==> r@[j] == s@[j],
        decreases n - i,
    {
        r.push(s.get_char(i));
        i += 1;
    }
    proof {
        assert(r@ =~= s@);
    }
    r
}

/// The string holding exactly the characters of `v`.
#[verifier::loop_isolation(false)]
pub fn chars_to_string(v: &Vec<char>) -> (r: String)
    ensures
        r@ == v@,
{
    let mut r = String::new();
    let mut i: usize = 0;
    while i < v.len()
        invariant
            i <= v@.len(),
            r@.len() == i,
            forall|j: int| 0 <= j < i ==> r@[j] == v@[j],
        decreases v@.len() - i,
    {
        push_char(&mut r, v[i]);
        i += 1;
    }
    proof {
        assert(r@ =~= v@);
    }
    r
}

/// `pat` occurs in `s` starting at position `i`.
pub open spec fn match_at(s: Seq<char>, pat: Seq<char>, i: int) -> bool {
    0 <= i && i + pat.len() <= s.len() && s.subrange(i, i + pat.len() as int) == pat
}

/// `pat` occurs somewhere in `s`.
pub open spec fn has_sub(s: Seq<char>, pat: Seq<char>) -> bool {
    exists|i: int| match_at(s, pat, i)
}

/// Whether `pat` occurs in `s` at position `i`.
#[verifier::loop_isolation(false)]
pub fn is_match_at(s: &Vec<char>, pat: &Vec<char>, i: usize) -> (r: bool)
    requires
        i <= s@.len(),
    ensures
        r == match_at(s@, pat@, i as int),
{
    if pat.len() > s.len() - i {
        return false;
    }
    let mut j: usize = 0;
    while j < pat.len()
        invariant
            i + pat@.len() <= s@.len(),
            j <= pat@.len(),
            forall|k: int| 0 <= k < j ==> s@[i + k] == pat@[k],
        decreases pat@.len() - j,
    {
        if s[i + j] != pat[j] {
            proof {
                assert(s@.subrange(i as int, i + pat@.len() as int)[j as int] != pat@[j as int]);
            }
            return false;
        }
        j += 1;
    }
    proof {
        assert(s@.subrange(i as int, i + pat@.len() as int) =~= pat@);
    }
    true
}

/// Position of the first occurrence of `pat` in `s`, if any.
#[verifier::loop_isolation(false)]
pub fn find_sub(s: &Vec<char>, pat: &Vec<char>) -> (r: Option<usize>)
    ensures
        match r {
            Some(i) => match_at(s@, pat@, i as int) && (forall|j: int|
                0 <= j < i ==> !match_at(s@, pat@, j)),
            None => forall|j: int| !match_at(s@, pat@, j),
        },
{
    if pat.len() == 0 {
        proof {
            assert(s@.subrange(0, 0) =~= pat@);
        }
        return Some(0);
    }
    if pat.len() > s.len() {
        return None;
    }
    let last = s.len() - pat.len();
    let mut i: usize = 0;
    while i <= last
        invariant
            1 <= pat@.len() <= s@.len(),
            last == s@.len() - pat@.len(),
            i <= last + 1,
            forall|j: int| 0 <= j < i ==> !match_at(s@, pat@, j),
        decreases last + 1 - i,
    {
        if is_match_at(s, pat, i) {
            return Some(i);
        }
        i += 1;
    }
    None
}

/// Whether `pat` occurs somewhere in `s`.
pub fn contains_sub(s: &Vec<char>, pat: &Vec<char>) -> (r: bool)
    ensures
        r == has_sub(s@, pat@),
{
    match find_sub(s, pat) {
        Some(_) => true,
        None => false,
    }
}

/// Whether `s` begins with `pat`.
pub fn starts_with_sub(s: &Vec<char>, pat: &Vec<char>) -> (r: bool)
    ensures
        r == match_at(s@, pat@, 0),
{
    is_match_at(s, pat, 0)
}

/// The characters of `s` from `from` (inclusive) to `to` (exclusive).
#[verifier::loop_isolation(false)]
pub fn sub_chars(s: &Vec<char>, from: usize, to: usize) -> (r: Vec<char>)
    requires
        from <= to <= s@.len(),
    ensures
        r@ == s@.subrange(from as int, to as int),
{
    let mut r: Vec<char> = Vec::new();
    let mut i: usize = from;
    while i < to
        invariant
            from <= i <= to <= s@.len(),
            r@.len() == i - from,
            forall|j: int| 0 <= j < r@.len() ==> r@[j] == s@[from + j],
        decreases to - i,
    {
        r.push(s[i]);
        i += 1;
    }
    proof {
        assert(r@ =~= s@.subrange(from as int, to as int));
    }
    r
}

/// The concatenation of `a` and `b`.
#[verifier::loop_isolation(false)]
pub fn concat_chars(a: &Vec<char>, b: &Vec<char>) -> (r: Vec<char>)
    ensures
        r@ == a@ + b@,
{
    let mut r: Vec<char> = Vec::new();
    let mut i: usize = 0;
    while i < a.len()
        invariant
            i <= a@.len(),
            r@.len() == i,
            forall|j: int| 0 <= j < i ==> r@[j] == a@[j],
        decreases a@.len() - i,
    {
        r.push(a[i]);
        i += 1;
    }
    let mut k: usize = 0;
    while k < b.len()
        invariant
            k <= b@.len(),
            r@.len() == a@.len() + k,
            forall|j: int| 0 <= j < a@.len() ==> r@[j] == a@[j],
            forall|j: int| 0 <= j < k ==> r@[a@.len() + j] == b@[j],
        decreases b@.len() - k,
    {
        r.push(b[k]);
        k += 1;
    }
    proof {
        assert(r@ =~= a@ + b@);
    }
    r
}

/// Appends all characters of `add` to `r`.
#[verifier::loop_isolation(false)]
pub fn push_all(r: &mut Vec<char>, add: &Vec<char>)
    ensures
        final(r)@ == old(r)@ + add@,
{
    let mut k: usize = 0;
    while k < add.len()
        invariant
            k <= add@.len(),
            r@.len() == old(r)@.len() + k,
            forall|j: int| 0 <= j < old(r)@.len() ==> r@[j] == old(r)@[j],
            forall|j: int| 0 <= j < k ==> r@[old(r)@.len() + j] == add@[j],
        decreases add@.len() - k,
    {
        r.push(add[k]);
        k += 1;
    }
    proof {
        assert(r@ =~= old(r)@ + add@);
    }
}

/// `s` with every occurrence of `pat` replaced by `sub`, scanning left to
/// right over non-overlapping occurrences; `s` itself when `pat` is empty.
pub open spec fn spec_replaced(s: Seq<char>, pat: Seq<char>, sub: Seq<char>) -> Seq<char>
    decreases s.len(),
{
    if pat.len() == 0 || s.len() < pat.len() {
        s
    } else if s.subrange(0, pat.len() as int) == pat {
        sub + spec_replaced(s.skip(pat.len() as int), pat, sub)
    } else {
        seq![s[0]] + spec_replaced(s.skip(1), pat, sub)
    }
}

/// Replaces every occurrence of `pat` in `s` by `sub`, scanning left to
/// right; returns `s` unchanged when `pat` is empty.
#[verifier::loop_isolation(false)]
pub fn replace_all(s: &Vec<char>, pat: &Vec<char>, sub: &Vec<char>) -> (r: Vec<char>)
    ensures
        r@ == spec_replaced(s@, pat@, sub@),
{
    if pat.len() == 0 {
        return sub_chars(s, 0, s.len());
    }
    let mut r: Vec<char> = Vec::new();
    let mut i: usize = 0;
    proof {
        assert(s@.skip(0) =~= s@);
    }
    while i < s.len()
        invariant
            i <= s@.len(),
            spec_replaced(s@, pat@, sub@) == r@ + spec_replaced(
                s@.skip(i as int),
                pat@,
                sub@,
            ),
        decreases s@.len() - i,
    {
        let ghost rest = s@.skip(i as int);
        if is_match_at(s, pat, i) {
            proof {
                assert(rest.subrange(0, pat@.len() as int) =~= s@.subrange(
                    i as int,
                    i + pat@.len() as int,
                ));
                assert(rest.skip(pat@.len() as int) =~= s@.skip(i + pat@.len()));
            }
            push_all(&mut r, sub);
            i += pat.len();
        } else {
            if pat.len() <= s.len() - i {
                proof {
                    assert(rest.subrange(0, pat@.len() as int) =~= s@.subrange(
                        i as int,
                        i + pat@.len() as int,
                    ));
                    assert(rest.subrange(0, pat@.len() as int) != pat@);
                    assert(rest.skip(1) =~= s@.skip(i + 1));
                }
            } else {
                proof {
                    assert(rest.len() < pat@.len());
                    assert(rest.skip(1) =~= s@.skip(i + 1));
                    assert(spec_replaced(rest, pat@, sub@) == rest);
                    assert(rest =~= seq![s@[i as int]] + rest.skip(1));
                }
            }
            r.push(s[i]);
            i += 1;
        }
    }
    proof {
        assert(s@.skip(s@.len() as int) =~= Seq::<char>::empty());
    }
    r
}

/// The ASCII lower-case counterpart of `c`; characters outside `A`..`Z`
/// are unchanged.
pub open spec fn lower_char(c: char) -> char {
    if c == 'A' {
        'a'
    } else if c == 'B' {
        'b'
    } else if c == 'C' {
        'c'
    } else if c == 'D' {
        'd'
    } else if c == 'E' {
        'e'
    } else if c == 'F' {
        'f'
    } else if c == 'G' {
        'g'
    } else if c == 'H' {
        'h'
    } else if c == 'I' {
        'i'
    } else if c == 'J' {
        'j'
    } else if c == 'K' {
        'k'
    } else if c == 'L' {
        'l'
    } else if c == 'M' {
        'm'
    } else if c == 'N' {
        'n'
    } else if c == 'O' {
        'o'
    } else if c == 'P' {
        'p'
    } else if c == 'Q' {
        'q'
    } else if c == 'R' {
        'r'
    } else if c == 'S' {
        's'
    } else if c == 'T' {
        't'
    } else if c == 'U' {
        'u'
    } else if c == 'V' {
        'v'
    } else if c == 'W' {
        'w'
    } else if c == 'X' {
        'x'
    } else if c == 'Y' {
        'y'
    } else if c == 'Z' {
        'z'
    } else {
        c
    }
}

/// `s` lower-cased character by character, ASCII letters only.
pub open spec fn lower_seq(s: Seq<char>) -> Seq<char> {
    Seq::new(s.len(), |i: int| lower_char(s[i]))
}

/// The ASCII lower-case counterpart of `c`.
pub fn lower_char_exec(c: char) -> (r: char)
    ensures
        r == lower_char(c),
{
    match c {
        'A' => 'a',
        'B' => 'b',
        'C' => 'c',
        'D' => 'd',
        'E' => 'e',
        'F' => 'f',
        'G' => 'g',
        'H' => 'h',
        'I' => 'i',
        'J' => 'j',
        'K' => 'k',
        'L' => 'l',
        'M' => 'm',
        'N' => 'n',
        'O' => 'o',
        'P' => 'p',
        'Q' => 'q',
        'R' => 'r',
        'S' => 's',
        'T' => 't',
        'U' => 'u',
        'V' => 'v',
        'W' => 'w',
        'X' => 'x',
        'Y' => 'y',
        'Z' => 'z',
        _ => c,
    }
}

/// Lower-cases `s` character by character, ASCII letters only.
#[verifier::loop_isolation(false)]
pub fn to_lower(s: &Vec<char>) -> (r: Vec<char>)
    ensures
        r@ == lower_seq(s@),
{
    let mut r: Vec<char> = Vec::new();
    let mut i: usize = 0;
    while i < s.len()
        invariant
            i <= s@.len(),
            r@.len() == i,
            forall|j: int| 0 <= j < i ==> r@[j] == lower_char(s@[j]),
        decreases s@.len() - i,
    {
        r.push(lower_char_exec(s[i]));
        i += 1;
    }
    proof {
        assert(r@ =~= lower_seq(s@));
    }
    r
}

/// A blank in the sense of header-value trimming: space or tab.
pub open spec fn is_space(c: char) -> bool {
    c == ' ' || c == '\t'
}

/// `s` without its leading spaces and tabs.
pub open spec fn trim_front(s: Seq<char>) -> Seq<char>
    decreases s.len(),
{
    if s.len() > 0 && is_space(s[0]) {
        trim_front(s.drop_first())
    } else {
        s
    }
}

/// `s` without its trailing spaces and tabs.
pub open spec fn trim_back(s: Seq<char>) -> Seq<char>
    decreases s.len(),
{
    if s.len() > 0 && is_space(s.last()) {
        trim_back(s.drop_last())
    } else {
        s
    }
}

/// `s` without leading and trailing spaces and tabs.
pub open spec fn trimmed(s: Seq<char>) -> Seq<char> {
    trim_back(trim_front(s))
}

/// Whether `c` counts as a blank for trimming.
pub fn is_space_exec(c: char) -> (r: bool)
    ensures
        r == is_space(c),
{
    c == ' ' || c == '\t'
}

/// Removes leading and trailing spaces and tabs from `s`.
#[verifier::loop_isolation(false)]
pub fn trim_chars(s: &Vec<char>) -> (r: Vec<char>)
    ensures
        r@ == trimmed(s@),
{
    let mut a: usize = 0;
    proof {
        assert(s@.skip(0) =~= s@);
    }
    while a < s.len() && is_space_exec(s[a])
        invariant
            a <= s@.len(),
            trim_front(s@.skip(a as int)) == trim_front(s@),
        decreases s@.len() - a,
    {
        proof {
            let rest = s@.skip(a as int);
            assert(rest[0] == s@[a as int]);
            assert(rest.drop_first() =~= s@.skip(a + 1));
        }
        a += 1;
    }
    proof {
        let rest = s@.skip(a as int);
        if a < s@.len() {
            assert(rest[0] == s@[a as int]);
        }
        assert(trim_front(rest) == rest);
        assert(trim_front(s@) == s@.skip(a as int));
    }
    let mut b: usize = s.len();
    while b > a && is_space_exec(s[b - 1])
        invariant
            a <= b <= s@.len(),
            trim_back(s@.subrange(a as int, b as int)) == trim_back(s@.skip(a as int)),
        decreases b,
    {
        proof {
            let part = s@.subrange(a as int, b as int);
            assert(part.last() == s@[b - 1]);
            assert(part.drop_last() =~= s@.subrange(a as int, b - 1));
        }
        b -= 1;
    }
    proof {
        let part = s@.subrange(a as int, b as int);
        if b > a {
            assert(part.last() == s@[b - 1]);
            assert(trim_back(part) == part);
        } else {
            assert(part =~= Seq::<char>::empty());
            assert(trim_back(part) == part);
        }
    }
    sub_chars(s, a, b)
}

/// Exactly one occurrence of `c` stands in `s`.
pub open spec fn sole_sep(s: Seq<char>, c: char) -> bool {
    exists|i: int|
        0 <= i < s.len() && s[i] == c && (forall|j: int| 0 <= j < s.len() && s[j] == c ==> j == i)
}

/// The parts of `s` before and after its single occurrence of `c`, when
/// that occurrence is unique; nothing otherwise.
pub open spec fn split_at_sole(s: Seq<char>, c: char) -> Option<(Seq<char>, Seq<char>)> {
    if sole_sep(s, c) {
        let i = choose|i: int|
            0 <= i < s.len() && s[i] == c && (forall|j: int|
                0 <= j < s.len() && s[j] == c ==> j == i);
        Some((s.subrange(0, i), s.subrange(i + 1, s.len() as int)))
    } else {
        None
    }
}

/// Splits `s` at its single occurrence of `sep`; `None` unless `sep`
/// occurs exactly once.
#[verifier::rlimit(30)]
#[verifier::loop_isolation(false)]
pub fn split_two(s: &Vec<char>, sep: char) -> (r: Option<(Vec<char>, Vec<char>)>)
    ensures
        match r {
            Some(parts) => split_at_sole(s@, sep) == Some((parts.0@, parts.1@)),
            None => split_at_sole(s@, sep) is None,
        },
{
    let mut i: usize = 0;
    let mut first: Option<usize> = None;
    while i < s.len()
        invariant
            i <= s@.len(),
            match first {
                Some(f) => f < i && s@[f as int] == sep && (forall|j: int|
                    0 <= j < i && s@[j] == sep ==> j == f),
                None => forall|j: int| 0 <= j < i ==> s@[j] != sep,
            },
        decreases s@.len() - i,
    {
        if s[i] == sep {
            match first {
                None => {
                    first = Some(i);
                },
                Some(f) => {
                    proof {
                        assert(!sole_sep(s@, sep)) by {
                            if sole_sep(s@, sep) {
                                let k = choose|k: int|
                                    0 <= k < s@.len() && s@[k] == sep && (forall|j: int|
                                        0 <= j < s@.len() && s@[j] == sep ==> j == k);
                                assert(f as int == k);
                                assert(i as int == k);
                            }
                        }
                    }
                    return None;
                },
            }
        }
        i += 1;
    }
    match first {
        Some(f) => {
            proof {
                assert(sole_sep(s@, sep));
                let w = choose|w: int|
                    0 <= w < s@.len() && s@[w] == sep && (forall|j: int|
                        0 <= j < s@.len() && s@[j] == sep ==> j == w);
                assert(w == f);
            }
            let before = sub_chars(s, 0, f);
            let after = sub_chars(s, f + 1, s.len());
            Some((before, after))
        },
        None => {
            proof {
                assert(!sole_sep(s@, sep)) by {
                    if sole_sep(s@, sep) {
                        let k = choose|k: int|
                            0 <= k < s@.len() && s@[k] == sep && (forall|j: int|
                                0 <= j < s@.len() && s@[j] == sep ==> j == k);
                        assert(s@[k] != sep);
                    }
                }
            }
            None
        },
    }
}

/// Position of the first occurrence of `pat` in `s`, if any; 0 for an
/// empty `pat`.
pub open spec fn spec_find(s: Seq<char>, pat: Seq<char>) -> Option<int>
    decreases s.len(),
{
    if pat.len() == 0 {
        Some(0)
    } else if s.len() < pat.len() {
        None
    } else if s.subrange(0, pat.len() as int) == pat {
        Some(0)
    } else {
        match spec_find(s.skip(1), pat) {
            Some(i) => Some(i + 1),
            None => None,
        }
    }
}

proof fn lemma_spec_find_some(s: Seq<char>, pat: Seq<char>, i: int)
    requires
        pat.len() > 0,
        match_at(s, pat, i),
        forall|j: int| 0 <= j < i ==> !match_at(s, pat, j),
    ensures
        spec_find(s, pat) == Some(i),
    decreases i,
{
    if i == 0 {
        assert(s.subrange(0, pat.len() as int) == pat);
    } else {
        assert(!match_at(s, pat, 0));
        assert(s.subrange(0, pat.len() as int) != pat);
        let t = s.skip(1);
        assert(t.subrange(i - 1, i - 1 + pat.len() as int) =~= s.subrange(i, i + pat.len() as int));
        assert(match_at(t, pat, i - 1));
        assert forall|j: int| 0 <= j < i - 1 implies !match_at(t, pat, j) by {
            if j + pat.len() <= t.len() {
                assert(t.subrange(j, j + pat.len() as int) =~= s.subrange(
                    j + 1,
                    j + 1 + pat.len() as int,
                ));
                assert(!match_at(s, pat, j + 1));
            }
        }
        lemma_spec_find_some(t, pat, i - 1);
    }
}

proof fn lemma_spec_find_none(s: Seq<char>, pat: Seq<char>)
    requires
        pat.len() > 0,
        forall|j: int| !match_at(s, pat, j),
    ensures
        spec_find(s, pat) is None,
    decreases s.len(),
{
    if s.len() >= pat.len() {
        assert(!match_at(s, pat, 0));
        assert(s.subrange(0, pat.len() as int) != pat);
        let t = s.skip(1);
        assert forall|j: int| !match_at(t, pat, j) by {
            if 0 <= j && j + pat.len() <= t.len() {
                assert(t.subrange(j, j + pat.len() as int) =~= s.subrange(
                    j + 1,
                    j + 1 + pat.len() as int,
                ));
                assert(!match_at(s, pat, j + 1));
            }
        }
        lemma_spec_find_none(t, pat);
    }
}

/// Position of the first occurrence of `pat` in `s`, tied to the
/// specification-level `spec_find`.
pub fn find_first(s: &Vec<char>, pat: &Vec<char>) -> (r: Option<usize>)
    ensures
        match r {
            Some(i) => spec_find(s@, pat@) == Some(i as int) && match_at(s@, pat@, i as int),
            None => spec_find(s@, pat@) is None,
        },
{
    let r = find_sub(s, pat);
    proof {
        match r {
            Some(i) => {
                if pat@.len() > 0 {
                    lemma_spec_find_some(s@, pat@, i as int);
                } else {
                    assert(s@.subrange(0, 0) =~= pat@);
                    assert(match_at(s@, pat@, 0));
                    assert(i == 0);
                    assert(spec_find(s@, pat@) == Some(0int));
                }
            },
            None => {
                if pat@.len() == 0 {
                    assert(s@.subrange(0, 0) =~= pat@);
                    assert(match_at(s@, pat@, 0));
                    assert(false);
                } else {
                    lemma_spec_find_none(s@, pat@);
                }
            },
        }
    }
    r
}

/// Whether `a` and `b` hold the same characters.
pub fn eq_chars(a: &Vec<char>, b: &Vec<char>) -> (r: bool)
    ensures
        r == (a@ == b@),
{
    if a.len() != b.len() {
        return false;
    }
    let same = is_match_at(a, b, 0);
    proof {
        if same {
            assert(a@.subrange(0, b@.len() as int) =~= a@);
        } else {
            assert(a@.subrange(0, b@.len() as int) =~= a@);
        }
    }
    same
}

/// Whether two strings hold the same characters.
pub fn str_eq(a: &str, b: &str) -> (r: bool)
    ensures
        r == (a@ == b@),
{
    let av = str_to_chars(a);
    let bv = str_to_chars(b);
    eq_chars(&av, &bv)
}

/// A found position lies in bounds and marks a real occurrence.
pub proof fn lemma_spec_find_bound(s: Seq<char>, pat: Seq<char>, k: int)
    requires
        spec_find(s, pat) == Some(k),
    ensures
        0 <= k,
        k + pat.len() <= s.len(),
        match_at(s, pat, k),
    decreases s.len(),
{
    if pat.len() == 0 {
        assert(k == 0);
        assert(s.subrange(0, 0) =~= pat);
    } else if s.len() < pat.len() {
        assert(false);
    } else if s.subrange(0, pat.len() as int) == pat {
        assert(k == 0);
    } else {
        let t = s.skip(1);
        assert(spec_find(t, pat) == Some(k - 1));
        lemma_spec_find_bound(t, pat, k - 1);
        assert(s.subrange(k, k + pat.len() as int) =~= t.subrange(k - 1, k - 1 + pat.len() as int));
    }
}

} // verus!
