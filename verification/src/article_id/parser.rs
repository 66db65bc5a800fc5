//! The parser of article identifiers: it tells the two schemes apart by the
//! character after the prefix and reads each by its own grammar.

use vstd::prelude::*;
use vstd::string::*;
use crate::article_id::v1::{ArticleIdV1, ArticleIdV1View};
use crate::article_id::v2::{ArticleIdV2, ArticleIdV2View};
use crate::article_id::{
    outcome_view, ArticleId, ArticleIdError, ArticleIdErrorKind, ArticleIdScheme, ArticleIdView,
};
use crate::article_version::ArticleVersion;
use crate::category_id::{CategoryId, CategoryIdView};
use crate::text::{
    all_digits, chars_of, digit_of, digit_value, digits_between, find_from, first_index,
    is_alpha, is_ascii_alphabetic, is_ascii_digit, is_digit,
};

verus! {

/// `s` starts with `arXiv:`.
pub open spec fn has_prefix(s: Seq<char>) -> bool {
    s.len() >= 6 && s[0] == 'a' && s[1] == 'r' && s[2] == 'X' && s[3] == 'i' && s[4] == 'v' && s[5]
        == ':'
}

/// The text after the prefix starts with a letter, as a category does.
pub open spec fn looks_old(rest: Seq<char>) -> bool {
    rest.len() > 0 && is_alpha(rest[0])
}

/// The number written by the two digits of `s` at `at`, if two digits stand
/// there.
pub open spec fn two_digit_value(s: Seq<char>, at: int) -> Option<int> {
    if at + 2 <= s.len() && is_digit(s[at]) && is_digit(s[at + 1]) {
        Some(10 * digit_value(s[at]) + digit_value(s[at + 1]))
    } else {
        None
    }
}

/// The year that the two digits `year` stand for. In the old scheme 91 to 99
/// belong to the twentieth century and the rest to the twenty-first; in the new
/// scheme all belong to the twenty-first.
pub open spec fn full_year_of(scheme: ArticleIdScheme, year: int) -> int {
    match scheme {
        ArticleIdScheme::V1 => if 91 <= year <= 99 {
            1900 + year
        } else {
            2000 + year
        },
        ArticleIdScheme::V2 => 2000 + year,
    }
}

/// The full year ends in the two digits it was made from. In the old scheme the
/// digits that give a year of the scheme, 1991 to 2007, are 91 to 99 and 00 to
/// 07; in the new scheme those that give one, 2007 to 2099, are 07 to 99.
pub proof fn lemma_full_year(scheme: ArticleIdScheme, year: int)
    requires
        0 <= year <= 99,
    ensures
        full_year_of(scheme, year) % 100 == year,
        scheme is V1 ==> (1991 <= full_year_of(scheme, year) <= 2007 <==> 91 <= year || year
            <= 7),
        scheme is V2 ==> (2007 <= full_year_of(scheme, year) <= 2099 <==> 7 <= year),
{
}

/// The number at the start of `t`, with the text that follows it, or the reason
/// why no number stands there. The old scheme wants three digits. The new one
/// wants a dot and four digits, and takes a fifth digit where one follows.
pub open spec fn parsed_number(scheme: ArticleIdScheme, t: Seq<char>) -> Result<
    (Seq<char>, Seq<char>),
    ArticleIdError,
> {
    match scheme {
        ArticleIdScheme::V1 => if t.len() >= 3 && all_digits(t.subrange(0, 3)) {
            Ok((t.subrange(0, 3), t.subrange(3, t.len() as int)))
        } else {
            Err(ArticleIdError(ArticleIdErrorKind::ExpectedNumberV1))
        },
        ArticleIdScheme::V2 => if t.len() == 0 {
            Err(ArticleIdError(ArticleIdErrorKind::ExpectedNumberV2))
        } else if t[0] != '.' {
            Err(ArticleIdError(ArticleIdErrorKind::ExpectedDot))
        } else if !(t.len() >= 5 && all_digits(t.subrange(1, 5))) {
            Err(ArticleIdError(ArticleIdErrorKind::ExpectedNumberV2))
        } else if t.len() >= 6 && is_digit(t[5]) {
            Ok((t.subrange(1, 6), t.subrange(6, t.len() as int)))
        } else {
            Ok((t.subrange(1, 5), t.subrange(5, t.len() as int)))
        },
    }
}

/// The identifier that the text `t` after the category stands for: year and
/// month in two digits each, the number, the version. With a category it is
/// read by the old scheme, without one by the new. What was read is then
/// validated as a whole.
pub open spec fn parsed_tail(category: Option<CategoryIdView>, t: Seq<char>) -> Result<
    ArticleIdView,
    ArticleIdError,
> {
    let scheme = if category is Some {
        ArticleIdScheme::V1
    } else {
        ArticleIdScheme::V2
    };
    match two_digit_value(t, 0) {
        None => Err(ArticleIdError(ArticleIdErrorKind::InvalidYear)),
        Some(year) => match two_digit_value(t, 2) {
            None => Err(ArticleIdError(ArticleIdErrorKind::InvalidMonth)),
            Some(month) => match parsed_number(scheme, t.subrange(4, t.len() as int)) {
                Err(e) => Err(e),
                Ok((number, rest)) => match ArticleVersion::parsed(rest) {
                    None => Err(ArticleIdError(ArticleIdErrorKind::InvalidVersion)),
                    Some(version) => match category {
                        Some(c) => match ArticleIdV1View::made(
                            c,
                            full_year_of(scheme, year) as i16,
                            month as i8,
                            number,
                            version,
                        ) {
                            Ok(id) => Ok(ArticleIdView::V1(id)),
                            Err(e) => Err(e),
                        },
                        None => match ArticleIdV2View::made(
                            full_year_of(scheme, year) as i16,
                            month as i8,
                            number,
                            version,
                        ) {
                            Ok(id) => Ok(ArticleIdView::V2(id)),
                            Err(e) => Err(e),
                        },
                    },
                },
            },
        },
    }
}

/// The identifier that `s` stands for under `scheme`, or the reason why it
/// stands for none. Without a scheme the character after `arXiv:` decides: a
/// letter starts a category and so an old-scheme identifier, anything else a
/// new-scheme one. With a scheme, a text of the other one is refused.
pub open spec fn parsed_as(scheme: Option<ArticleIdScheme>, s: Seq<char>) -> Result<
    ArticleIdView,
    ArticleIdError,
> {
    let rest = s.subrange(6, s.len() as int);
    let slash = first_index(rest, '/');
    if !has_prefix(s) {
        Err(ArticleIdError(ArticleIdErrorKind::ExpectedPrefix))
    } else if looks_old(rest) {
        if scheme == Some(ArticleIdScheme::V2) {
            Err(ArticleIdError(ArticleIdErrorKind::ExpectedCategory))
        } else if slash >= rest.len() {
            Err(ArticleIdError(ArticleIdErrorKind::ExpectedSlash))
        } else {
            match CategoryIdView::parsed(rest.subrange(0, slash)) {
                Err(_) => Err(ArticleIdError(ArticleIdErrorKind::ExpectedCategory)),
                Ok(c) => parsed_tail(Some(c), rest.subrange(slash + 1, rest.len() as int)),
            }
        }
    } else if scheme == Some(ArticleIdScheme::V1) {
        Err(ArticleIdError(ArticleIdErrorKind::ExpectedCategory))
    } else {
        parsed_tail(None, rest)
    }
}

/// The number and the version that `s` writes one behind the other, as they
/// stand behind the dot of a new-scheme identifier, if it writes both.
pub open spec fn parsed_numbervv(s: Seq<char>) -> Option<(Seq<char>, ArticleVersion)> {
    match parsed_number(ArticleIdScheme::V2, seq!['.'] + s) {
        Err(_) => None,
        Ok((number, rest)) => match ArticleVersion::parsed(rest) {
            None => None,
            Some(version) => Some((number, version)),
        },
    }
}

/// A component that was read from the front of a text, with the text that
/// follows it.
pub struct ParseOk<'a, T> {
    pub value: T,
    pub rest_str: &'a str,
}

impl<'a, T> ParseOk<'a, T> {
    /// The component `value`, followed by `rest_str`.
    pub fn new(value: T, rest_str: &'a str) -> (r: Self)
        ensures
            r.value == value,
            r.rest_str == rest_str,
    {
        ParseOk { value, rest_str }
    }
}

/// A parser that can parse an article identifier even if the identifier's
/// scheme is unknown.
pub struct ArticleIdParser {
    pub scheme: Option<ArticleIdScheme>,
}

/// Reads the two digits of `chars` at `at`.
fn two_digit_number(chars: &Vec<char>, at: usize) -> (r: Option<u8>)
    requires
        at + 2 <= usize::MAX,
    ensures
        r matches Some(n) ==> n <= 99,
        match r {
            Some(n) => two_digit_value(chars@, at as int) == Some(n as int),
            None => two_digit_value(chars@, at as int) is None,
        },
{
    if at + 2 <= chars.len() && is_ascii_digit(chars[at]) && is_ascii_digit(chars[at + 1]) {
        Some(10 * digit_of(chars[at]) + digit_of(chars[at + 1]))
    } else {
        None
    }
}

impl ArticleIdParser {
    /// A parser for the given scheme, or for both where none is given.
    pub fn new(scheme: Option<ArticleIdScheme>) -> (r: Self)
        ensures
            r.scheme == scheme,
    {
        ArticleIdParser { scheme }
    }

    /// A parser for the old scheme alone.
    pub fn new_v1() -> (r: Self)
        ensures
            r.scheme == Some(ArticleIdScheme::V1),
    {
        ArticleIdParser::new(Some(ArticleIdScheme::V1))
    }

    /// A parser for the new scheme alone.
    pub fn new_v2() -> (r: Self)
        ensures
            r.scheme == Some(ArticleIdScheme::V2),
    {
        ArticleIdParser::new(Some(ArticleIdScheme::V2))
    }

    /// Reads an article identifier.
    pub fn parse<'a>(&self, id: &'a str) -> (r: Result<ArticleId<'a>, ArticleIdError>)
        ensures
            outcome_view(r) == parsed_as(self.scheme, id@),
            r matches Ok(a) ==> a@.deep_wf(),
    {
        let chars = chars_of(id);
        let n = chars.len();
        if !(n >= 6 && chars[0] == 'a' && chars[1] == 'r' && chars[2] == 'X' && chars[3] == 'i'
            && chars[4] == 'v' && chars[5] == ':') {
            return Err(ArticleIdError(ArticleIdErrorKind::ExpectedPrefix));
        }
        let after_prefix = id.substring_char(6, n);
        let rest = chars_of(after_prefix);
        let is_likely_category = rest.len() > 0 && is_ascii_alphabetic(rest[0]);
        if is_likely_category {
            match self.scheme {
                Some(ArticleIdScheme::V2) => {
                    return Err(ArticleIdError(ArticleIdErrorKind::ExpectedCategory));
                },
                _ => {},
            }
            let slash = find_from(&rest, '/', 0);
            if slash >= rest.len() {
                return Err(ArticleIdError(ArticleIdErrorKind::ExpectedSlash));
            }
            let category = match CategoryId::parse(after_prefix.substring_char(0, slash)) {
                Ok(c) => c,
                Err(_) => {
                    return Err(ArticleIdError(ArticleIdErrorKind::ExpectedCategory));
                },
            };
            let tail = after_prefix.substring_char(slash + 1, rest.len());
            ArticleIdParser::parse_tail(Some(category), tail)
        } else {
            match self.scheme {
                Some(ArticleIdScheme::V1) => {
                    return Err(ArticleIdError(ArticleIdErrorKind::ExpectedCategory));
                },
                _ => {},
            }
            ArticleIdParser::parse_tail(None, after_prefix)
        }
    }

    /// Reads what follows the category: the date, the number and the version,
    /// and validates the identifier as a whole.
    pub fn parse_tail<'a>(category: Option<CategoryId<'a>>, tail: &'a str) -> (r: Result<
        ArticleId<'a>,
        ArticleIdError,
    >)
        ensures
            outcome_view(r) == parsed_tail(
                match category {
                    Some(c) => Some(c@),
                    None => None,
                },
                tail@,
            ),
            r matches Ok(a) ==> a@.wf(),
            r matches Ok(a) ==> (category matches Some(c) && c@.wf() ==> a@.deep_wf()),
            r matches Ok(a) ==> (category is None ==> a@.deep_wf()),
    {
        let scheme = match category {
            Some(_) => ArticleIdScheme::V1,
            None => ArticleIdScheme::V2,
        };
        let chars = chars_of(tail);
        let year2 = match two_digit_number(&chars, 0) {
            Some(y) => y,
            None => {
                return Err(ArticleIdError(ArticleIdErrorKind::InvalidYear));
            },
        };
        let year4 = ArticleIdParser::full_year(scheme, year2 as i16);
        let month = match two_digit_number(&chars, 2) {
            Some(m) => m,
            None => {
                return Err(ArticleIdError(ArticleIdErrorKind::InvalidMonth));
            },
        };
        let after_date = tail.substring_char(4, chars.len());
        let number = ArticleIdParser::parse_number(scheme, after_date)?;
        let version = match ArticleVersion::parse(number.rest_str) {
            Ok(v) => v,
            Err(_) => {
                return Err(ArticleIdError(ArticleIdErrorKind::InvalidVersion));
            },
        };
        match category {
            Some(c) => {
                match ArticleIdV1::try_new(c, year4, month as i8, number.value, version) {
                    Ok(id) => Ok(ArticleId::V1(id)),
                    Err(e) => Err(e),
                }
            },
            None => {
                match ArticleIdV2::try_new(year4, month as i8, number.value, version) {
                    Ok(id) => Ok(ArticleId::V2(id)),
                    Err(e) => Err(e),
                }
            },
        }
    }

    /// The year that a two-digit year stands for under `scheme`.
    pub fn full_year(scheme: ArticleIdScheme, year: i16) -> (r: i16)
        requires
            0 <= year <= 99,
        ensures
            r == full_year_of(scheme, year as int),
    {
        match scheme {
            ArticleIdScheme::V1 => {
                if 91 <= year && year <= 99 {
                    1900 + year
                } else {
                    2000 + year
                }
            },
            ArticleIdScheme::V2 => 2000 + year,
        }
    }

    /// Reads the number at the start of `s` by the grammar of `scheme`.
    pub fn parse_number<'a>(scheme: ArticleIdScheme, s: &'a str) -> (r: Result<
        ParseOk<'a, &'a str>,
        ArticleIdError,
    >)
        ensures
            match r {
                Ok(p) => parsed_number(scheme, s@) == Ok::<(Seq<char>, Seq<char>), ArticleIdError>(
                    (p.value@, p.rest_str@),
                ),
                Err(e) => parsed_number(scheme, s@) == Err::<(Seq<char>, Seq<char>), ArticleIdError>(
                    e,
                ),
            },
    {
        let chars = chars_of(s);
        let n = chars.len();
        match scheme {
            ArticleIdScheme::V1 => {
                if n < 3 || !digits_between(&chars, 0, 3) {
                    return Err(ArticleIdError(ArticleIdErrorKind::ExpectedNumberV1));
                }
                Ok(ParseOk::new(s.substring_char(0, 3), s.substring_char(3, n)))
            },
            ArticleIdScheme::V2 => {
                if n == 0 {
                    return Err(ArticleIdError(ArticleIdErrorKind::ExpectedNumberV2));
                }
                if chars[0] != '.' {
                    return Err(ArticleIdError(ArticleIdErrorKind::ExpectedDot));
                }
                if n < 5 || !digits_between(&chars, 1, 5) {
                    return Err(ArticleIdError(ArticleIdErrorKind::ExpectedNumberV2));
                }
                if n >= 6 && is_ascii_digit(chars[5]) {
                    Ok(ParseOk::new(s.substring_char(1, 6), s.substring_char(6, n)))
                } else {
                    Ok(ParseOk::new(s.substring_char(1, 5), s.substring_char(5, n)))
                }
            },
        }
    }
}

/// Parses a text in the format of `number{vV}`, where `number` is made of four
/// or five digits and `{vV}`, which may be missing, is a `v` followed by one or
/// more digits.
pub fn parse_numbervv<'a>(s: &'a str) -> (r: Option<(&'a str, ArticleVersion)>)
    ensures
        match r {
            Some((number, version)) => parsed_numbervv(s@) == Some((number@, version)),
            None => parsed_numbervv(s@) is None,
        },
{
    let chars = chars_of(s);
    let n = chars.len();
    let ghost dotted = seq!['.'] + s@;
    if n < 4 || !digits_between(&chars, 0, 4) {
        proof {
            if n >= 4 {
                assert(dotted.subrange(1, 5) =~= s@.subrange(0, 4));
            }
        }
        return None;
    }
    let end: usize = if n >= 5 && is_ascii_digit(chars[4]) {
        5
    } else {
        4
    };
    let number = s.substring_char(0, end);
    let rest = s.substring_char(end, n);
    proof {
        assert(dotted.subrange(1, 5) =~= s@.subrange(0, 4));
        if n >= 5 {
            assert(dotted[5] == s@[4]);
        }
        assert(dotted.subrange(1, end + 1) =~= number@);
        assert(dotted.subrange(end + 1, dotted.len() as int) =~= rest@);
    }
    match ArticleVersion::parse(rest) {
        Ok(version) => Some((number, version)),
        Err(_) => None,
    }
}

} // verus!
