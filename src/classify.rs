use vstd::prelude::*;
use vstd::string::StrSliceExecFns;

verus! {

pub open spec fn is_digit(c: char) -> bool {
    '0' <= c && c <= '9'
}

pub open spec fn is_alnum(c: char) -> bool {
    is_digit(c) || ('a' <= c && c <= 'z') || ('A' <= c && c <= 'Z')
}

/// Characters that may stand between "season" and its number.
pub open spec fn is_separator(c: char) -> bool {
    c == ' ' || c == '.' || c == '_' || c == '-'
}

/// `c` is the lower-case letter `t`, in either case.
pub open spec fn same_letter(c: char, t: char) -> bool {
    c == t || (c as u32) + 32 == (t as u32)
}

/// The end of the run of digits that starts at `k`.
pub open spec fn digits_end(s: Seq<char>, k: int) -> int
    decreases s.len() - k,
{
    if 0 <= k < s.len() && is_digit(s[k]) {
        digits_end(s, k + 1)
    } else {
        k
    }
}

/// The end of the run of separators that starts at `k`.
pub open spec fn separators_end(s: Seq<char>, k: int) -> int
    decreases s.len() - k,
{
    if 0 <= k < s.len() && is_separator(s[k]) {
        separators_end(s, k + 1)
    } else {
        k
    }
}

/// No letter or digit stands right after position `k`.
pub open spec fn ends_word(s: Seq<char>, k: int) -> bool {
    k >= s.len() || !is_alnum(s[k])
}

/// No letter or digit stands right before position `i`.
pub open spec fn starts_word(s: Seq<char>, i: int) -> bool {
    i == 0 || !is_alnum(s[i - 1])
}

/// The lower-case word `w` stands at `i`, in any case.
pub open spec fn word_at(s: Seq<char>, i: int, w: Seq<char>) -> bool {
    &&& 0 <= i
    &&& i + w.len() <= s.len()
    &&& forall|j: int| 0 <= j < w.len() ==> same_letter(#[trigger] s[i + j], w[j])
}

pub open spec fn season_word() -> Seq<char> {
    seq!['s', 'e', 'a', 's', 'o', 'n']
}

pub open spec fn complete_word() -> Seq<char> {
    seq!['c', 'o', 'm', 'p', 'l', 'e', 't', 'e']
}

/// A token of the shape `S05E01` starts at `i`.
pub open spec fn episode_at(s: Seq<char>, i: int) -> bool {
    let d1 = digits_end(s, i + 1);
    let d2 = digits_end(s, d1 + 1);
    &&& 0 <= i < s.len()
    &&& same_letter(s[i], 's')
    &&& d1 > i + 1
    &&& d1 < s.len()
    &&& same_letter(s[d1], 'e')
    &&& d2 > d1 + 1
    &&& ends_word(s, d2)
}

/// A token of the shape `S01` starts at `i`.
pub open spec fn season_at(s: Seq<char>, i: int) -> bool {
    let d = digits_end(s, i + 1);
    &&& 0 <= i < s.len()
    &&& same_letter(s[i], 's')
    &&& d > i + 1
    &&& ends_word(s, d)
}

/// A phrase of the shape `season 1` starts at `i`.
pub open spec fn season_phrase_at(s: Seq<char>, i: int) -> bool {
    let k = separators_end(s, i + 6);
    let d = digits_end(s, k);
    &&& word_at(s, i, season_word())
    &&& k > i + 6
    &&& d > k
    &&& ends_word(s, d)
}

/// The word `complete` starts at `i`.
pub open spec fn complete_at(s: Seq<char>, i: int) -> bool {
    &&& word_at(s, i, complete_word())
    &&& ends_word(s, i + 8)
}

/// A series marker starts at `i`, at the start of a word.
pub open spec fn marker_at(s: Seq<char>, i: int) -> bool {
    &&& 0 <= i < s.len()
    &&& starts_word(s, i)
    &&& {
        ||| episode_at(s, i)
        ||| season_at(s, i)
        ||| season_phrase_at(s, i)
        ||| complete_at(s, i)
    }
}

/// The name carries a series marker somewhere.
pub open spec fn is_series(s: Seq<char>) -> bool {
    exists|i: int| marker_at(s, i)
}

/// The destination that a top-level entry goes to.
#[derive(Clone, Copy, Debug, PartialEq, Eq, Structural)]
pub enum Category {
    Series,
    Other,
}

fn digit(c: char) -> (r: bool)
    ensures
        r == is_digit(c),
{
    '0' <= c && c <= '9'
}

fn alnum(c: char) -> (r: bool)
    ensures
        r == is_alnum(c),
{
    digit(c) || ('a' <= c && c <= 'z') || ('A' <= c && c <= 'Z')
}

fn letter_is(c: char, t: char) -> (r: bool)
    ensures
        r == same_letter(c, t),
{
    c == t || (c as u32) + 32 == (t as u32)
}

fn digits_end_at(s: &Vec<char>, k: usize) -> (r: usize)
    requires
        k <= s.len(),
    ensures
        r as int == digits_end(s@, k as int),
        k <= r <= s.len(),
{
    let mut j = k;
    while j < s.len() && digit(s[j])
        invariant
            k <= j <= s.len(),
            digits_end(s@, j as int) == digits_end(s@, k as int),
        decreases s.len() - j,
    {
        j = j + 1;
    }
    j
}

fn separators_end_at(s: &Vec<char>, k: usize) -> (r: usize)
    requires
        k <= s.len(),
    ensures
        r as int == separators_end(s@, k as int),
        k <= r <= s.len(),
{
    let mut j = k;
    while j < s.len() && (s[j] == ' ' || s[j] == '.' || s[j] == '_' || s[j] == '-')
        invariant
            k <= j <= s.len(),
            separators_end(s@, j as int) == separators_end(s@, k as int),
        decreases s.len() - j,
    {
        j = j + 1;
    }
    j
}

fn ends_word_at(s: &Vec<char>, k: usize) -> (r: bool)
    ensures
        r == ends_word(s@, k as int),
{
    k >= s.len() || !alnum(s[k])
}

fn word_at_exec(s: &Vec<char>, i: usize, w: &Vec<char>) -> (r: bool)
    ensures
        r == word_at(s@, i as int, w@),
{
    if i > s.len() || w.len() > s.len() - i {
        return false;
    }
    let mut j: usize = 0;
    while j < w.len()
        invariant
            i + w.len() <= s.len(),
            j <= w.len(),
            forall|m: int| 0 <= m < j ==> same_letter(#[trigger] s@[i + m], w@[m]),
        decreases w.len() - j,
    {
        if !letter_is(s[i + j], w[j]) {
            assert(!same_letter(s@[i + j as int], w@[j as int]));
            return false;
        }
        j = j + 1;
    }
    true
}

fn marker_at_exec(s: &Vec<char>, i: usize, season: &Vec<char>, complete: &Vec<char>) -> (r: bool)
    requires
        i < s.len(),
        season@ == season_word(),
        complete@ == complete_word(),
    ensures
        r == marker_at(s@, i as int),
{
    if i > 0 && alnum(s[i - 1]) {
        return false;
    }
    let n = s.len();
    if letter_is(s[i], 's') {
        let d1 = digits_end_at(s, i + 1);
        if d1 > i + 1 {
            if ends_word_at(s, d1) {
                return true;
            }
            if d1 < n && letter_is(s[d1], 'e') {
                let d2 = digits_end_at(s, d1 + 1);
                if d2 > d1 + 1 && ends_word_at(s, d2) {
                    return true;
                }
            }
        }
    }
    if word_at_exec(s, i, season) {
        let k = separators_end_at(s, i + 6);
        let d = digits_end_at(s, k);
        if k > i + 6 && d > k && ends_word_at(s, d) {
            return true;
        }
    }
    if word_at_exec(s, i, complete) && ends_word_at(s, i + 8) {
        return true;
    }
    false
}

/// Whether the entry name carries a series marker: an `S01E07` token, an
/// `S01` token, a `season 1` phrase or the word `complete`, in any case, each
/// standing as a word of its own.
pub fn is_series_name(name: &str) -> (r: bool)
    ensures
        r == is_series(name@),
{
    let len = name.unicode_len();
    let mut s: Vec<char> = Vec::new();
    let mut k: usize = 0;
    while k < len
        invariant
            len == name@.len(),
            k <= len,
            s@ == name@.subrange(0, k as int),
        decreases len - k,
    {
        s.push(name.get_char(k));
        k = k + 1;
        assert(s@ =~= name@.subrange(0, k as int));
    }
    assert(s@ =~= name@);
    let season = vec!['s', 'e', 'a', 's', 'o', 'n'];
    let complete = vec!['c', 'o', 'm', 'p', 'l', 'e', 't', 'e'];
    assert(season@ =~= season_word());
    assert(complete@ =~= complete_word());
    let mut i: usize = 0;
    while i < s.len()
        invariant
            s@ == name@,
            season@ == season_word(),
            complete@ == complete_word(),
            i <= s.len(),
            forall|m: int| 0 <= m < i ==> !#[trigger] marker_at(s@, m),
        decreases s.len() - i,
    {
        if marker_at_exec(&s, i, &season, &complete) {
            return true;
        }
        i = i + 1;
    }
    assert forall|m: int| !#[trigger] marker_at(name@, m) by {
        if 0 <= m < i {
        }
    }
    false
}

/// The category of the top-level entry named `name`.
pub fn classify(name: &str) -> (r: Category)
    ensures
        r == (if is_series(name@) {
            Category::Series
        } else {
            Category::Other
        }),
{
    if is_series_name(name) {
        Category::Series
    } else {
        Category::Other
    }
}

} // verus!
