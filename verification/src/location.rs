//! Location classification.
//!
//! Free-form location text is classified into one of four structured
//! variants, or rejected. The grammars, tried in this fixed priority
//! order, are:
//!
//! 1. exactly five ASCII digits: a postal code;
//! 2. five digits, a hyphen, four digits: a postal code with extension;
//! 3. one or more of letters, spaces and periods, not all spaces: a city;
//! 4. a city as above, a comma, optional spaces, then exactly two
//!    letters: a city with a state abbreviation.
//!
//! City and state tokens are stored with surrounding spaces trimmed and
//! letter casing preserved. Anything else is rejected.

use vstd::prelude::*;
use vstd::string::StrSliceExecFns;

use crate::text::{
    all_city_chars, all_digits, all_digits_range, city_chars_range, find_comma, first_comma_from,
    has_non_space, is_city_char, is_digit, is_letter, is_letter_char, non_space_in_range,
    substring_string, trim_range, trim_spec,
};

verus! {

/// A structured location request, as the classifier produced it.
#[derive(Debug)]
pub enum LocationInput {
    PostalCode(String),
    PostalCodePlusFour(String, String),
    City(String),
    CityWithState(String, String),
}

/// The mathematical model of a `LocationInput`: the same four variants
/// over character sequences.
pub enum LocationQuery {
    PostalCode { code: Seq<char> },
    PostalCodePlusFour { code: Seq<char>, plus_four: Seq<char> },
    City { name: Seq<char> },
    CityWithState { name: Seq<char>, state: Seq<char> },
}

impl View for LocationInput {
    type V = LocationQuery;

    open spec fn view(&self) -> LocationQuery {
        match self {
            LocationInput::PostalCode(code) => LocationQuery::PostalCode { code: code@ },
            LocationInput::PostalCodePlusFour(code, plus_four) => {
                LocationQuery::PostalCodePlusFour { code: code@, plus_four: plus_four@ }
            },
            LocationInput::City(name) => LocationQuery::City { name: name@ },
            LocationInput::CityWithState(name, state) => {
                LocationQuery::CityWithState { name: name@, state: state@ }
            },
        }
    }
}

/// Exactly five ASCII digits.
pub open spec fn is_postal_code(s: Seq<char>) -> bool {
    s.len() == 5 && all_digits(s)
}

/// Five digits, a hyphen, four digits.
pub open spec fn is_postal_plus_four(s: Seq<char>) -> bool {
    s.len() == 10 && all_digits(s.subrange(0, 5)) && s[5] == '-' && all_digits(
        s.subrange(6, 10),
    )
}

/// One or more city characters, at least one of which is not a space.
pub open spec fn is_city_text(s: Seq<char>) -> bool {
    s.len() > 0 && all_city_chars(s) && has_non_space(s)
}

/// Optional spaces followed by exactly two letters.
pub open spec fn region_ok(t: Seq<char>) -> bool {
    &&& t.len() >= 2
    &&& forall|i: int| 0 <= i < t.len() - 2 ==> #[trigger] t[i] == ' '
    &&& is_letter(t[t.len() - 2])
    &&& is_letter(t[t.len() - 1])
}

/// City text, a comma, then a region token.
pub open spec fn is_city_with_state_text(s: Seq<char>) -> bool {
    match first_comma_from(s, 0) {
        Some(k) => is_city_text(s.subrange(0, k)) && region_ok(
            s.subrange(k + 1, s.len() as int),
        ),
        None => false,
    }
}

/// What classification returns on the characters of the input: the first
/// grammar that matches, in priority order, or `None` for rejection.
pub open spec fn classify_spec(s: Seq<char>) -> Option<LocationQuery> {
    if is_postal_code(s) {
        Some(LocationQuery::PostalCode { code: s })
    } else if is_postal_plus_four(s) {
        Some(
            LocationQuery::PostalCodePlusFour {
                code: s.subrange(0, 5),
                plus_four: s.subrange(6, 10),
            },
        )
    } else if is_city_text(s) {
        Some(LocationQuery::City { name: trim_spec(s) })
    } else if is_city_with_state_text(s) {
        Some(
            LocationQuery::CityWithState {
                name: trim_spec(s.subrange(0, first_comma_from(s, 0).unwrap())),
                state: s.subrange(s.len() - 2, s.len() as int),
            },
        )
    } else {
        None
    }
}

/// Law: the four grammars are mutually exclusive, so every input matches
/// at most one of them and classification is deterministic.
pub proof fn lemma_grammars_mutually_exclusive(s: Seq<char>)
    ensures
        is_postal_code(s) ==> !is_postal_plus_four(s) && !is_city_text(s)
            && !is_city_with_state_text(s),
        is_postal_plus_four(s) ==> !is_city_text(s) && !is_city_with_state_text(s),
        is_city_text(s) ==> !is_city_with_state_text(s),
{
    crate::text::lemma_first_comma_props(s, 0);
    if is_postal_code(s) {
        assert(is_digit(s[0]));
        assert(!is_city_char(s[0]));
        if is_city_with_state_text(s) {
            let k = first_comma_from(s, 0).unwrap();
            assert(s[k] == ',');
            assert(is_digit(s[k]));
        }
    }
    if is_postal_plus_four(s) {
        assert(s.subrange(0, 5)[0] == s[0]);
        assert(is_digit(s[0]));
        assert(!is_city_char(s[0]));
        if is_city_with_state_text(s) {
            let k = first_comma_from(s, 0).unwrap();
            assert(s[k] == ',');
            if k < 5 {
                assert(s.subrange(0, 5)[k] == s[k]);
                assert(is_digit(s[k]));
            } else if k > 5 {
                assert(s.subrange(6, 10)[k - 6] == s[k]);
                assert(is_digit(s[k]));
            }
        }
    }
    if is_city_text(s) && is_city_with_state_text(s) {
        let k = first_comma_from(s, 0).unwrap();
        assert(s[k] == ',');
        assert(is_city_char(s[k]));
    }
}

/// Law: every string of exactly five ASCII digits is classified as a
/// postal code carrying the text unchanged.
pub proof fn lemma_postal_code_classified(s: Seq<char>)
    requires
        is_postal_code(s),
    ensures
        classify_spec(s) == Some(LocationQuery::PostalCode { code: s }),
{
}

/// Law: every string of five digits, a hyphen, and four digits is
/// classified as a postal code with extension, split exactly at the
/// hyphen.
pub proof fn lemma_postal_plus_four_classified(s: Seq<char>)
    requires
        is_postal_plus_four(s),
    ensures
        classify_spec(s) == Some(
            LocationQuery::PostalCodePlusFour {
                code: s.subrange(0, 5),
                plus_four: s.subrange(6, 10),
            },
        ),
{
}

/// Law: an all-digit string whose length is not five is rejected.
pub proof fn lemma_wrong_length_digits_rejected(s: Seq<char>)
    requires
        all_digits(s),
        s.len() != 5,
    ensures
        classify_spec(s) is None,
{
    crate::text::lemma_first_comma_props(s, 0);
    if s.len() == 10 {
        assert(is_digit(s[5]));
    }
    if is_city_text(s) {
        assert(is_digit(s[0]));
        assert(!is_city_char(s[0]));
    }
    if is_city_with_state_text(s) {
        let k = first_comma_from(s, 0).unwrap();
        assert(s[k] == ',');
        assert(is_digit(s[k]));
    }
}

/// Law: five digits, a hyphen, and an all-digit tail whose length is not
/// four are rejected.
pub proof fn lemma_bad_plus_four_rejected(s: Seq<char>)
    requires
        s.len() >= 6,
        all_digits(s.subrange(0, 5)),
        s[5] == '-',
        all_digits(s.subrange(6, s.len() as int)),
        s.len() != 10,
    ensures
        classify_spec(s) is None,
{
    assert(s.subrange(0, 5)[0] == s[0]);
    assert(is_digit(s[0]));
    assert(!is_city_char(s[0]));
    assert(!is_city_char(s[5]));
    crate::text::lemma_first_comma_props(s, 0);
    if is_city_with_state_text(s) {
        let k = first_comma_from(s, 0).unwrap();
        assert(s[k] == ',');
        if k < 5 {
            assert(s.subrange(0, 5)[k] == s[k]);
            assert(is_digit(s[k]));
        } else if k > 5 {
            assert(s.subrange(6, s.len() as int)[k - 6] == s[k]);
            assert(is_digit(s[k]));
        }
    }
}

/// Decides `region_ok` on the character range `[from, to)` of `s`.
fn region_suffix_ok(s: &str, from: usize, to: usize) -> (b: bool)
    requires
        from <= to <= s@.len(),
    ensures
        b == region_ok(s@.subrange(from as int, to as int)),
{
    let ghost sub = s@.subrange(from as int, to as int);
    if to - from < 2 {
        return false;
    }
    if !is_letter_char(s.get_char(to - 2)) || !is_letter_char(s.get_char(to - 1)) {
        proof {
            assert(sub[sub.len() - 2] == s@[to - 2]);
            assert(sub[sub.len() - 1] == s@[to - 1]);
        }
        return false;
    }
    let mut i = from;
    while i < to - 2
        invariant
            from + 2 <= to <= s@.len(),
            from <= i <= to - 2,
            sub == s@.subrange(from as int, to as int),
            forall|j: int| from <= j < i ==> #[trigger] s@[j] == ' ',
        decreases to - i,
    {
        if s.get_char(i) != ' ' {
            proof {
                assert(sub[i - from] == s@[i as int]);
            }
            return false;
        }
        i += 1;
    }
    proof {
        assert forall|j: int| 0 <= j < sub.len() - 2 implies #[trigger] sub[j] == ' ' by {
            assert(sub[j] == s@[from + j]);
        }
        assert(sub[sub.len() - 2] == s@[to - 2]);
        assert(sub[sub.len() - 1] == s@[to - 1]);
    }
    true
}

/// Classifies location text into a structured variant, or rejects it.
///
/// The result is exactly what `classify_spec` says on the characters of
/// `text`: the first matching grammar wins, and rejection is `None`.
pub fn classify(text: &str) -> (r: Option<LocationInput>)
    ensures
        match r {
            Some(q) => classify_spec(text@) == Some(q@),
            None => classify_spec(text@) is None,
        },
{
    let n = text.unicode_len();

    let postal = n == 5 && all_digits_range(text, 0, n);
    proof {
        if n == 5 {
            assert(text@.subrange(0, 5) =~= text@);
        }
        assert(postal == is_postal_code(text@));
    }
    if postal {
        return Some(LocationInput::PostalCode(text.to_owned()));
    }

    let plus_four = n == 10 && text.get_char(5) == '-' && all_digits_range(text, 0, 5)
        && all_digits_range(text, 6, 10);
    proof {
        assert(plus_four == is_postal_plus_four(text@));
    }
    if plus_four {
        return Some(
            LocationInput::PostalCodePlusFour(
                substring_string(text, 0, 5),
                substring_string(text, 6, 10),
            ),
        );
    }

    match find_comma(text) {
        None => {
            let city = n > 0 && city_chars_range(text, 0, n) && non_space_in_range(text, 0, n);
            proof {
                assert(text@.subrange(0, n as int) =~= text@);
                assert(city == is_city_text(text@));
            }
            if city {
                Some(LocationInput::City(trim_range(text, 0, n)))
            } else {
                None
            }
        },
        Some(k) => {
            proof {
                crate::text::lemma_first_comma_props(text@, 0);
                // the comma makes the whole text invalid as a bare city name
                assert(text@[k as int] == ',');
                assert(!is_city_char(text@[k as int]));
                assert(!is_city_text(text@));
            }
            let with_state = k > 0 && city_chars_range(text, 0, k) && non_space_in_range(
                text,
                0,
                k,
            ) && region_suffix_ok(text, k + 1, n);
            proof {
                assert(with_state == is_city_with_state_text(text@));
            }
            if with_state {
                proof {
                    // the region token ends the text, so the state is its last two characters
                    assert(region_ok(text@.subrange(k + 1, n as int)));
                    assert(n >= k + 3);
                    assert(text@.subrange(k + 1, n as int).subrange(n - k - 3, n - k - 1)
                        =~= text@.subrange(n - 2, n as int));
                }
                let name = trim_range(text, 0, k);
                let state = substring_string(text, n - 2, n);
                Some(LocationInput::CityWithState(name, state))
            } else {
                None
            }
        },
    }
}

} // verus!
