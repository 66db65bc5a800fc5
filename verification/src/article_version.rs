//! The version suffix of an article identifier.

use vstd::prelude::*;
use vstd::string::*;
use crate::text::{
    all_digits, chars_of, decimal_string, decimal_text, decimal_value, digits_between, is_digit,
    lemma_decimal_text_value, small_number, without,
};

verus! {

/// The version of an article as declared in an arXiv identifier.
#[derive(Debug, Clone, Copy, PartialEq, Eq, Hash, PartialOrd, Ord, Structural)]
pub enum ArticleVersion {
    /// No version is given: the most recent one is meant.
    Latest,
    /// The version with this number.
    Num(u8),
}

impl Default for ArticleVersion {
    fn default() -> (r: ArticleVersion)
        ensures
            r == ArticleVersion::Latest,
    {
        ArticleVersion::Latest
    }
}

impl From<u8> for ArticleVersion {
    fn from(val: u8) -> (r: ArticleVersion) {
        ArticleVersion::Num(val)
    }
}

impl vstd::std_specs::convert::FromSpecImpl<u8> for ArticleVersion {
    open spec fn obeys_from_spec() -> bool {
        true
    }

    open spec fn from_spec(val: u8) -> ArticleVersion {
        ArticleVersion::Num(val)
    }
}

impl ArticleVersion {
    /// The suffix that stands for the version: nothing for the latest, else `v`
    /// and the number in decimal.
    pub open spec fn text(self) -> Seq<char> {
        match self {
            ArticleVersion::Latest => Seq::empty(),
            ArticleVersion::Num(n) => seq!['v'] + decimal_text(n as int),
        }
    }

    /// The version that the suffix `s` stands for. The empty suffix is the latest
    /// version; any other must be `v` and then one or more decimal digits whose
    /// value is at most 255.
    pub open spec fn parsed(s: Seq<char>) -> Option<ArticleVersion> {
        if s.len() == 0 {
            Some(ArticleVersion::Latest)
        } else if s[0] == 'v' && s.len() >= 2 && all_digits(s.subrange(1, s.len() as int))
            && decimal_value(s.subrange(1, s.len() as int)) <= 255 {
            Some(ArticleVersion::Num(decimal_value(s.subrange(1, s.len() as int)) as u8))
        } else {
            None
        }
    }

    /// Tells whether no version number is given.
    pub fn is_latest(&self) -> (r: bool)
        ensures
            r == (*self is Latest),
    {
        match self {
            ArticleVersion::Latest => true,
            ArticleVersion::Num(_) => false,
        }
    }

    /// Tells whether this is the version with the number `v`.
    pub fn is_version(&self, v: u8) -> (r: bool)
        ensures
            r == (*self == ArticleVersion::Num(v)),
    {
        match self {
            ArticleVersion::Latest => false,
            ArticleVersion::Num(n) => *n == v,
        }
    }

    /// Reads a version suffix that has already been split into characters, in
    /// `from..` of `v`.
    pub fn parse_chars(v: &Vec<char>, from: usize) -> (r: Result<ArticleVersion, ()>)
        requires
            from <= v.len(),
        ensures
            r == match ArticleVersion::parsed(v@.subrange(from as int, v@.len() as int)) {
                Some(version) => Ok::<ArticleVersion, ()>(version),
                None => Err(()),
            },
    {
        let n = v.len();
        let ghost s = v@.subrange(from as int, n as int);
        if from == n {
            return Ok(ArticleVersion::Latest);
        }
        assert(s[0] == v@[from as int]);
        if v[from] != 'v' || n - from < 2 {
            return Err(());
        }
        assert(s.subrange(1, s.len() as int) =~= v@.subrange(from + 1, n as int));
        if !digits_between(v, from + 1, n) {
            return Err(());
        }
        match small_number(v, from + 1, n) {
            Some(number) => Ok(ArticleVersion::Num(number)),
            None => Err(()),
        }
    }

    /// Reads a version suffix.
    pub fn parse(s: &str) -> (r: Result<ArticleVersion, ()>)
        ensures
            r == match ArticleVersion::parsed(s@) {
                Some(version) => Ok::<ArticleVersion, ()>(version),
                None => Err(()),
            },
    {
        let v = chars_of(s);
        assert(v@.subrange(0, v@.len() as int) =~= s@);
        ArticleVersion::parse_chars(&v, 0)
    }

    /// The suffix that stands for the version.
    pub fn to_string(&self) -> (r: String)
        ensures
            r@ == self.text(),
    {
        match self {
            ArticleVersion::Latest => {
                let out = String::new();
                assert(out@ =~= self.text());
                out
            },
            ArticleVersion::Num(n) => {
                let mut out = String::from_str("v");
                let digits = decimal_string(*n);
                out.append(digits.as_str());
                proof {
                    reveal_strlit("v");
                    assert("v"@ =~= seq!['v']);
                }
                out
            },
        }
    }

    /// The suffix of a version holds no space.
    pub proof fn lemma_text_without_space(self)
        ensures
            without(self.text(), ' '),
    {
        match self {
            ArticleVersion::Latest => {},
            ArticleVersion::Num(n) => {
                lemma_decimal_text_value(n as int);
                let digits = decimal_text(n as int);
                assert forall|i: int| 0 <= i < self.text().len() implies #[trigger] self.text()[i]
                    != ' ' by {
                    if i > 0 {
                        assert(self.text()[i] == digits[i - 1]);
                        assert(is_digit(digits[i - 1]));
                    }
                }
            },
        }
    }

    /// Reading the suffix that a version is written with gives the version back.
    pub proof fn lemma_parsed_text(self)
        ensures
            ArticleVersion::parsed(self.text()) == Some(self),
    {
        match self {
            ArticleVersion::Latest => {},
            ArticleVersion::Num(n) => {
                let s = self.text();
                lemma_decimal_text_value(n as int);
                assert(s.subrange(1, s.len() as int) =~= decimal_text(n as int));
            },
        }
    }
}

} // verus!
