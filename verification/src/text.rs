//! Character classes and text scanning used by the location classifier.
//!
//! The classifier works over the characters of the input string, so the
//! grammar predicates are stated over `Seq<char>` and each executable
//! scan is proved equal to the predicate it decides.

use vstd::prelude::*;
use vstd::string::StrSliceExecFns;

verus! {

/// An ASCII decimal digit.
pub open spec fn is_digit(c: char) -> bool {
    48 <= c as u32 && c as u32 <= 57
}

/// An ASCII letter.
pub open spec fn is_letter(c: char) -> bool {
    (65 <= c as u32 && c as u32 <= 90) || (97 <= c as u32 && c as u32 <= 122)
}

/// A character allowed in a city name: a letter, a space, or a period.
pub open spec fn is_city_char(c: char) -> bool {
    is_letter(c) || c == ' ' || c == '.'
}

/// Every character of `s` is an ASCII digit.
pub open spec fn all_digits(s: Seq<char>) -> bool {
    forall|i: int| 0 <= i < s.len() ==> is_digit(#[trigger] s[i])
}

/// Every character of `s` may appear in a city name.
pub open spec fn all_city_chars(s: Seq<char>) -> bool {
    forall|i: int| 0 <= i < s.len() ==> is_city_char(#[trigger] s[i])
}

/// Some character of `s` is not a space.
pub open spec fn has_non_space(s: Seq<char>) -> bool {
    exists|i: int| 0 <= i < s.len() && s[i] != ' '
}

/// Index of the first non-space character at or after `i`, or the length
/// of `s` when spaces run to the end.
pub open spec fn trim_start_idx(s: Seq<char>, i: int) -> int
    decreases s.len() - i,
{
    if !(0 <= i < s.len()) {
        s.len() as int
    } else if s[i] == ' ' {
        trim_start_idx(s, i + 1)
    } else {
        i
    }
}

/// One past the last non-space character strictly before `i`, or 0 when
/// spaces run back to the start.
pub open spec fn trim_end_idx(s: Seq<char>, i: int) -> int
    decreases i,
{
    if !(0 < i <= s.len()) {
        0
    } else if s[i - 1] == ' ' {
        trim_end_idx(s, i - 1)
    } else {
        i
    }
}

/// `s` with leading and trailing spaces removed.
pub open spec fn trim_spec(s: Seq<char>) -> Seq<char> {
    let lo = trim_start_idx(s, 0);
    let hi = trim_end_idx(s, s.len() as int);
    if lo <= hi {
        s.subrange(lo, hi)
    } else {
        Seq::empty()
    }
}

/// Index of the first comma at or after `i`, if any.
pub open spec fn first_comma_from(s: Seq<char>, i: int) -> Option<int>
    decreases s.len() - i,
{
    if !(0 <= i < s.len()) {
        None
    } else if s[i] == ',' {
        Some(i)
    } else {
        first_comma_from(s, i + 1)
    }
}

pub fn is_digit_char(c: char) -> (b: bool)
    ensures
        b == is_digit(c),
{
    let u = c as u32;
    48 <= u && u <= 57
}

pub fn is_letter_char(c: char) -> (b: bool)
    ensures
        b == is_letter(c),
{
    let u = c as u32;
    (65 <= u && u <= 90) || (97 <= u && u <= 122)
}

pub fn is_city_char_exec(c: char) -> (b: bool)
    ensures
        b == is_city_char(c),
{
    is_letter_char(c) || c == ' ' || c == '.'
}

/// Decides `all_digits` on the character range `[from, to)` of `s`.
pub fn all_digits_range(s: &str, from: usize, to: usize) -> (b: bool)
    requires
        from <= to <= s@.len(),
    ensures
        b == all_digits(s@.subrange(from as int, to as int)),
{
    let ghost sub = s@.subrange(from as int, to as int);
    let mut i = from;
    while i < to
        invariant
            from <= i <= to <= s@.len(),
            sub == s@.subrange(from as int, to as int),
            forall|j: int| from <= j < i ==> is_digit(#[trigger] s@[j]),
        decreases to - i,
    {
        let c = s.get_char(i);
        if !is_digit_char(c) {
            proof {
                assert(sub[i - from] == s@[i as int]);
                assert(!all_digits(sub));
            }
            return false;
        }
        i += 1;
    }
    proof {
        assert forall|j: int| 0 <= j < sub.len() implies is_digit(#[trigger] sub[j]) by {
            assert(sub[j] == s@[from + j]);
        }
    }
    true
}

/// Decides `all_city_chars` on the character range `[from, to)` of `s`.
pub fn city_chars_range(s: &str, from: usize, to: usize) -> (b: bool)
    requires
        from <= to <= s@.len(),
    ensures
        b == all_city_chars(s@.subrange(from as int, to as int)),
{
    let ghost sub = s@.subrange(from as int, to as int);
    let mut i = from;
    while i < to
        invariant
            from <= i <= to <= s@.len(),
            sub == s@.subrange(from as int, to as int),
            forall|j: int| from <= j < i ==> is_city_char(#[trigger] s@[j]),
        decreases to - i,
    {
        let c = s.get_char(i);
        if !is_city_char_exec(c) {
            proof {
                assert(sub[i - from] == s@[i as int]);
                assert(!all_city_chars(sub));
            }
            return false;
        }
        i += 1;
    }
    proof {
        assert forall|j: int| 0 <= j < sub.len() implies is_city_char(#[trigger] sub[j]) by {
            assert(sub[j] == s@[from + j]);
        }
    }
    true
}

/// Decides `has_non_space` on the character range `[from, to)` of `s`.
pub fn non_space_in_range(s: &str, from: usize, to: usize) -> (b: bool)
    requires
        from <= to <= s@.len(),
    ensures
        b == has_non_space(s@.subrange(from as int, to as int)),
{
    let ghost sub = s@.subrange(from as int, to as int);
    let mut i = from;
    while i < to
        invariant
            from <= i <= to <= s@.len(),
            sub == s@.subrange(from as int, to as int),
            forall|j: int| from <= j < i ==> #[trigger] s@[j] == ' ',
        decreases to - i,
    {
        let c = s.get_char(i);
        if c != ' ' {
            proof {
                assert(sub[i - from] == s@[i as int]);
            }
            return true;
        }
        i += 1;
    }
    proof {
        assert forall|j: int| 0 <= j < sub.len() implies #[trigger] sub[j] == ' ' by {
            assert(sub[j] == s@[from + j]);
        }
    }
    false
}

/// What a `first_comma_from` result means: a found index is in range,
/// holds a comma, and nothing before it does; otherwise there is no comma.
pub proof fn lemma_first_comma_props(s: Seq<char>, i: int)
    requires
        0 <= i <= s.len(),
    ensures
        match first_comma_from(s, i) {
            Some(k) => i <= k < s.len() && s[k] == ',' && (forall|j: int|
                i <= j < k ==> #[trigger] s[j] != ','),
            None => forall|j: int| i <= j < s.len() ==> #[trigger] s[j] != ',',
        },
    decreases s.len() - i,
{
    if i < s.len() && s[i] != ',' {
        lemma_first_comma_props(s, i + 1);
    }
}

proof fn lemma_first_comma_some(s: Seq<char>, i: int, k: int)
    requires
        0 <= i <= k < s.len(),
        s[k] == ',',
        forall|j: int| i <= j < k ==> #[trigger] s[j] != ',',
    ensures
        first_comma_from(s, i) == Some(k),
    decreases k - i,
{
    if i < k {
        lemma_first_comma_some(s, i + 1, k);
    }
}

proof fn lemma_first_comma_none(s: Seq<char>, i: int)
    requires
        0 <= i <= s.len(),
        forall|j: int| i <= j < s.len() ==> #[trigger] s[j] != ',',
    ensures
        first_comma_from(s, i) is None,
    decreases s.len() - i,
{
    if i < s.len() {
        lemma_first_comma_none(s, i + 1);
    }
}

proof fn lemma_trim_start(s: Seq<char>, i: int, k: int)
    requires
        0 <= i <= k <= s.len(),
        forall|j: int| i <= j < k ==> #[trigger] s[j] == ' ',
        k == s.len() || s[k] != ' ',
    ensures
        trim_start_idx(s, i) == k,
    decreases k - i,
{
    if i < k {
        lemma_trim_start(s, i + 1, k);
    }
}

proof fn lemma_trim_end(s: Seq<char>, i: int, k: int)
    requires
        0 <= k <= i <= s.len(),
        forall|j: int| k <= j < i ==> #[trigger] s[j] == ' ',
        k == 0 || s[k - 1] != ' ',
    ensures
        trim_end_idx(s, i) == k,
    decreases i - k,
{
    if k < i {
        lemma_trim_end(s, i - 1, k);
    }
}

/// Finds the first comma of `s`, scanning the characters in order.
pub fn find_comma(s: &str) -> (r: Option<usize>)
    ensures
        match r {
            Some(k) => first_comma_from(s@, 0) == Some(k as int),
            None => first_comma_from(s@, 0) is None,
        },
{
    let n = s.unicode_len();
    let mut i: usize = 0;
    while i < n
        invariant
            0 <= i <= n == s@.len(),
            forall|j: int| 0 <= j < i ==> #[trigger] s@[j] != ',',
        decreases n - i,
    {
        if s.get_char(i) == ',' {
            proof {
                lemma_first_comma_some(s@, 0, i as int);
            }
            return Some(i);
        }
        i += 1;
    }
    proof {
        lemma_first_comma_none(s@, 0);
    }
    None
}

/// Copies the character range `[from, to)` of `s` into an owned string.
pub fn substring_string(s: &str, from: usize, to: usize) -> (r: String)
    requires
        from <= to <= s@.len(),
    ensures
        r@ == s@.subrange(from as int, to as int),
{
    let sub = s.substring_char(from, to);
    sub.to_owned()
}

/// Copies the character range `[from, to)` of `s` with leading and
/// trailing spaces removed.
pub fn trim_range(s: &str, from: usize, to: usize) -> (r: String)
    requires
        from <= to <= s@.len(),
    ensures
        r@ == trim_spec(s@.subrange(from as int, to as int)),
{
    let ghost sub = s@.subrange(from as int, to as int);
    let mut lo = from;
    while lo < to && s.get_char(lo) == ' '
        invariant
            from <= lo <= to <= s@.len(),
            forall|j: int| from <= j < lo ==> #[trigger] s@[j] == ' ',
        decreases to - lo,
    {
        lo += 1;
    }
    let mut hi = to;
    while hi > lo && s.get_char(hi - 1) == ' '
        invariant
            from <= lo <= hi <= to <= s@.len(),
            forall|j: int| hi <= j < to ==> #[trigger] s@[j] == ' ',
        decreases hi - lo,
    {
        hi -= 1;
    }
    proof {
        assert forall|j: int| 0 <= j < lo - from implies #[trigger] sub[j] == ' ' by {
            assert(sub[j] == s@[from + j]);
        }
        assert forall|j: int| hi - from <= j < sub.len() implies #[trigger] sub[j] == ' ' by {
            assert(sub[j] == s@[from + j]);
        }
        if lo == to {
            // the whole range is spaces
            assert(hi == lo);
            lemma_trim_start(sub, 0, sub.len() as int);
            if sub.len() > 0 {
                lemma_trim_end(sub, sub.len() as int, 0);
            }
        } else {
            assert(s@[lo as int] != ' ');
            assert(sub[lo - from] == s@[lo as int]);
            lemma_trim_start(sub, 0, lo - from);
            assert(hi > lo);
            assert(s@[hi - 1] != ' ');
            assert(sub[hi - from - 1] == s@[hi - 1]);
            lemma_trim_end(sub, sub.len() as int, hi - from);
            assert(trim_spec(sub) =~= s@.subrange(lo as int, hi as int));
        }
    }
    let res = substring_string(s, lo, hi);
    proof {
        if lo == to {
            assert(res@ =~= trim_spec(sub));
        }
    }
    res
}

} // verus!
