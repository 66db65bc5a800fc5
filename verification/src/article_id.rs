//! Article identifiers of both schemes, and what the two have in common.

pub mod parser;
pub mod v1;
pub mod v2;

use vstd::pervasive::unreached;
use vstd::prelude::*;
use vstd::string::*;
use crate::article_id::parser::{parsed_as, ArticleIdParser};
use crate::article_id::v1::{ArticleIdV1, ArticleIdV1View};
use crate::article_id::v2::{ArticleIdV2, ArticleIdV2View};
use crate::article_version::ArticleVersion;
use crate::category_id::CategoryId;
use crate::text::{two_digit_string, two_digits, without};

verus! {

/// Represents the versioned grammar that defines an arXiv identifier.
#[derive(Debug, Clone, Copy, PartialEq, Eq, Structural)]
pub enum ArticleIdScheme {
    /// Identifier scheme up to March 2007: a category, a slash, then the year,
    /// month and a number of three digits.
    V1,
    /// Identifier scheme since April 2007: the year and month, a dot and a number
    /// of four or five digits.
    V2,
}

/// The ways in which an article identifier can be wrong.
#[derive(Debug, Clone, Copy, PartialEq, Eq, Structural)]
pub enum ArticleIdErrorKind {
    /// Expected the identifier to start with the string literal "arXiv:"
    ExpectedPrefix,
    /// Expected a category identifier, or found one where none belongs
    ExpectedCategory,
    /// Expected a slash after the category
    ExpectedSlash,
    /// Expected a dot between the date and the number
    ExpectedDot,
    /// Expected to find a number that is 3 digits long
    ExpectedNumberV1,
    /// Expected to find a number that is 4 to 5 digits long
    ExpectedNumberV2,
    /// The text after the number is no version
    InvalidVersion,
    /// An invalid month outside of the inclusive [1, 12] interval
    InvalidMonth,
    /// An invalid year outside of the interval of the scheme
    InvalidYear,
    /// An invalid number: not made of 4 to 5 digits
    InvalidId,
}

/// An error that can occur when parsing and validating arXiv identifiers.
#[derive(Debug, Clone, Copy, PartialEq, Eq, Structural)]
pub struct ArticleIdError(pub ArticleIdErrorKind);

impl From<ArticleIdErrorKind> for ArticleIdError {
    fn from(kind: ArticleIdErrorKind) -> (r: ArticleIdError) {
        ArticleIdError(kind)
    }
}

impl vstd::std_specs::convert::FromSpecImpl<ArticleIdErrorKind> for ArticleIdError {
    open spec fn obeys_from_spec() -> bool {
        true
    }

    open spec fn from_spec(kind: ArticleIdErrorKind) -> ArticleIdError {
        ArticleIdError(kind)
    }
}

impl ArticleIdError {
    /// The sentence that tells a reader what is wrong.
    pub open spec fn text(self) -> Seq<char> {
        match self.0 {
            ArticleIdErrorKind::ExpectedPrefix => {
                "Expected the identifier to start with \"arXiv\"."@
            },
            ArticleIdErrorKind::ExpectedCategory => {
                "Expected a category identifier in the version 1 article identifier"@
            },
            ArticleIdErrorKind::ExpectedSlash => {
                "Expected a slash delimiter in the version 1 article identifier"@
            },
            ArticleIdErrorKind::ExpectedDot => {
                "Expected a dot delimiter in the version 2 article identifier"@
            },
            ArticleIdErrorKind::ExpectedNumberV1 => {
                "Expected a 3-digit identifier (for a version 1 article identifier)"@
            },
            ArticleIdErrorKind::ExpectedNumberV2 => {
                "Expected a 4 to 5 digit identifier (for a version 2 article identifier)"@
            },
            ArticleIdErrorKind::InvalidVersion => {
                "Found a version, but the version was not of the format \"v{number}\"."@
            },
            ArticleIdErrorKind::InvalidMonth => "A valid month must be between 1 and 12."@,
            ArticleIdErrorKind::InvalidYear => "A valid year must be be between 2007 and 2099."@,
            ArticleIdErrorKind::InvalidId => "A valid identifier must be between 1 and 99999"@,
        }
    }

    /// The sentence that tells a reader what is wrong.
    pub fn as_str(&self) -> (r: &'static str)
        ensures
            r@ == self.text(),
    {
        match self.0 {
            ArticleIdErrorKind::ExpectedPrefix => {
                "Expected the identifier to start with \"arXiv\"."
            },
            ArticleIdErrorKind::ExpectedCategory => {
                "Expected a category identifier in the version 1 article identifier"
            },
            ArticleIdErrorKind::ExpectedSlash => {
                "Expected a slash delimiter in the version 1 article identifier"
            },
            ArticleIdErrorKind::ExpectedDot => {
                "Expected a dot delimiter in the version 2 article identifier"
            },
            ArticleIdErrorKind::ExpectedNumberV1 => {
                "Expected a 3-digit identifier (for a version 1 article identifier)"
            },
            ArticleIdErrorKind::ExpectedNumberV2 => {
                "Expected a 4 to 5 digit identifier (for a version 2 article identifier)"
            },
            ArticleIdErrorKind::InvalidVersion => {
                "Found a version, but the version was not of the format \"v{number}\"."
            },
            ArticleIdErrorKind::InvalidMonth => "A valid month must be between 1 and 12.",
            ArticleIdErrorKind::InvalidYear => "A valid year must be be between 2007 and 2099.",
            ArticleIdErrorKind::InvalidId => "A valid identifier must be between 1 and 99999",
        }
    }

    /// The sentence that tells a reader what is wrong, as an owned text.
    pub fn to_string(&self) -> (r: String)
        ensures
            r@ == self.text(),
    {
        String::from_str(self.as_str())
    }
}

/// `month` is a month of the year.
pub open spec fn valid_month(month: i8) -> bool {
    ArticleId::MIN_MONTH <= month <= ArticleId::MAX_MONTH
}

/// The part of an identifier that is unique to the article: the last two digits
/// of the year, the month in two digits, a dot where the scheme has one, and
/// the number.
pub open spec fn unique_ident(year: i16, month: i8, number: Seq<char>, has_period: bool) -> Seq<
    char,
> {
    two_digits(year as int % 100) + two_digits(month as int) + (if has_period {
        seq!['.']
    } else {
        Seq::<char>::empty()
    }) + number
}

/// Writes the part of an identifier that is unique to the article.
pub fn as_unique_ident(year: i16, month: i8, number: &str, has_period: bool) -> (r: String)
    requires
        1000 <= year <= 9999,
        0 <= month <= 99,
    ensures
        r@ == unique_ident(year, month, number@, has_period),
{
    let half_year: u8 = (year % 100) as u8;
    let mut out = two_digit_string(half_year);
    let month_text = two_digit_string(month as u8);
    out.append(month_text.as_str());
    if has_period {
        out.append(".");
    }
    out.append(number);
    proof {
        reveal_strlit(".");
        assert("."@ =~= seq!['.']);
        assert(out@ =~= unique_ident(year, month, number@, has_period));
    }
    out
}

/// Represents an arXiv article identifier.
#[derive(Debug, Clone, Copy, PartialEq, Eq, PartialOrd, Ord, Hash)]
pub enum ArticleId<'a> {
    /// An identifier that follows the old scheme (up to March 2007).
    V1(ArticleIdV1<'a>),
    /// An identifier that follows the new scheme (since April 2007).
    V2(ArticleIdV2<'a>),
}

/// What an `ArticleId` holds, with its texts as character sequences.
pub enum ArticleIdView {
    V1(ArticleIdV1View),
    V2(ArticleIdV2View),
}

impl<'a> View for ArticleId<'a> {
    type V = ArticleIdView;

    open spec fn view(&self) -> ArticleIdView {
        match *self {
            ArticleId::V1(id) => ArticleIdView::V1(id@),
            ArticleId::V2(id) => ArticleIdView::V2(id@),
        }
    }
}

impl ArticleIdView {
    /// The identifier is one that validation lets through.
    pub open spec fn wf(self) -> bool {
        match self {
            ArticleIdView::V1(id) => id.wf(),
            ArticleIdView::V2(id) => id.wf(),
        }
    }

    /// The identifier is valid, and so is the category of an old-scheme one:
    /// what holds of every identifier that was read from a text.
    pub open spec fn deep_wf(self) -> bool {
        match self {
            ArticleIdView::V1(id) => id.wf() && id.category.wf(),
            ArticleIdView::V2(id) => id.wf(),
        }
    }

    /// Reading the text that a valid identifier is written with gives the
    /// identifier back.
    pub proof fn lemma_parsed_text(self)
        requires
            self.deep_wf(),
        ensures
            Self::parsed(self.text()) == Ok::<ArticleIdView, ArticleIdError>(self),
    {
        match self {
            ArticleIdView::V1(id) => id.lemma_parsed_full_text(),
            ArticleIdView::V2(id) => id.lemma_parsed_text(),
        }
    }

    /// The text of a valid identifier holds no space.
    pub proof fn lemma_text_without_space(self)
        requires
            self.deep_wf(),
        ensures
            without(self.text(), ' '),
    {
        match self {
            ArticleIdView::V1(id) => id.lemma_full_text_without_space(),
            ArticleIdView::V2(id) => id.lemma_text_without_space(),
        }
    }

    /// The year of the identifier.
    pub open spec fn year(self) -> i16 {
        match self {
            ArticleIdView::V1(id) => id.year,
            ArticleIdView::V2(id) => id.year,
        }
    }

    /// The month of the identifier.
    pub open spec fn month(self) -> i8 {
        match self {
            ArticleIdView::V1(id) => id.month,
            ArticleIdView::V2(id) => id.month,
        }
    }

    /// The number of the identifier.
    pub open spec fn number(self) -> Seq<char> {
        match self {
            ArticleIdView::V1(id) => id.number,
            ArticleIdView::V2(id) => id.number,
        }
    }

    /// The version of the identifier.
    pub open spec fn version(self) -> ArticleVersion {
        match self {
            ArticleIdView::V1(id) => id.version,
            ArticleIdView::V2(id) => id.version,
        }
    }

    /// The same identifier with another version.
    pub open spec fn with_version(self, version: ArticleVersion) -> ArticleIdView {
        match self {
            ArticleIdView::V1(id) => ArticleIdView::V1(ArticleIdV1View { version, ..id }),
            ArticleIdView::V2(id) => ArticleIdView::V2(ArticleIdV2View { version, ..id }),
        }
    }

    /// The part that is unique to the article.
    pub open spec fn unique_ident(self) -> Seq<char> {
        match self {
            ArticleIdView::V1(id) => id.unique_ident(),
            ArticleIdView::V2(id) => id.unique_ident(),
        }
    }

    /// The text that the identifier is written with and read from: for the old
    /// scheme `arXiv:`, the category, a slash, the unique part and the version;
    /// for the new scheme `arXiv:`, the unique part and the version.
    pub open spec fn text(self) -> Seq<char> {
        match self {
            ArticleIdView::V1(id) => id.full_text(),
            ArticleIdView::V2(id) => id.text(),
        }
    }

    /// The new-scheme identifier made of the given parts, or the reason why
    /// there is none.
    pub open spec fn made(year: i16, month: i8, number: Seq<char>, version: ArticleVersion) -> Result<
        ArticleIdView,
        ArticleIdError,
    > {
        match ArticleIdV2View::made(year, month, number, version) {
            Ok(id) => Ok(ArticleIdView::V2(id)),
            Err(e) => Err(e),
        }
    }

    /// The identifier that `s` stands for, or the reason why it stands for none.
    /// A letter right after `arXiv:` selects the old scheme, anything else the
    /// new one.
    pub open spec fn parsed(s: Seq<char>) -> Result<ArticleIdView, ArticleIdError> {
        parsed_as(None, s)
    }
}

/// The outcome of making or reading an identifier, seen through the view.
pub open spec fn outcome_view<'a>(r: Result<ArticleId<'a>, ArticleIdError>) -> Result<
    ArticleIdView,
    ArticleIdError,
> {
    match r {
        Ok(id) => Ok(id@),
        Err(e) => Err(e),
    }
}

impl<'a> ArticleId<'a> {
    /// The least month of a year.
    pub const MIN_MONTH: i8 = 1i8;

    /// The greatest month of a year.
    pub const MAX_MONTH: i8 = 12i8;

    /// A new-scheme identifier of the given parts, taken as they are.
    pub fn new(year: i16, month: i8, number: &'a str, version: ArticleVersion) -> (r: Self)
        ensures
            r@ == ArticleIdView::V2(ArticleIdV2View { year, month, number: number@, version }),
    {
        ArticleId::V2(ArticleIdV2::new(year, month, number, version))
    }

    /// A new-scheme identifier without a version, of parts taken as they are.
    pub fn new_latest(year: i16, month: i8, id: &'a str) -> (r: Self)
        ensures
            r@ == ArticleIdView::V2(
                ArticleIdV2View { year, month, number: id@, version: ArticleVersion::Latest },
            ),
    {
        ArticleId::V2(ArticleIdV2::new_latest(year, month, id))
    }

    /// A new-scheme identifier with a version, of parts taken as they are.
    pub fn new_versioned(year: i16, month: i8, id: &'a str, version: u8) -> (r: Self)
        ensures
            r@ == ArticleIdView::V2(
                ArticleIdV2View { year, month, number: id@, version: ArticleVersion::Num(version) },
            ),
    {
        ArticleId::V2(ArticleIdV2::new_versioned(year, month, id, version))
    }

    /// A new-scheme identifier of the given parts, each of them checked.
    pub fn try_new(year: i16, month: i8, number: &'a str, version: ArticleVersion) -> (r: Result<
        Self,
        ArticleIdError,
    >)
        ensures
            outcome_view(r) == ArticleIdView::made(year, month, number@, version),
            r matches Ok(id) ==> id@.wf(),
    {
        match ArticleIdV2::try_new(year, month, number, version) {
            Ok(id) => Ok(ArticleId::V2(id)),
            Err(e) => Err(e),
        }
    }

    /// A new-scheme identifier without a version, each part checked.
    pub fn try_latest(year: i16, month: i8, number: &'a str) -> (r: Result<Self, ArticleIdError>)
        ensures
            outcome_view(r) == ArticleIdView::made(year, month, number@, ArticleVersion::Latest),
            r matches Ok(id) ==> id@.wf(),
    {
        ArticleId::try_new(year, month, number, ArticleVersion::Latest)
    }

    /// Reads an identifier of either scheme. The character after `arXiv:` tells
    /// which scheme it is.
    pub fn parse(s: &'a str) -> (r: Result<Self, ArticleIdError>)
        ensures
            outcome_view(r) == ArticleIdView::parsed(s@),
            r matches Ok(id) ==> id@.deep_wf(),
    {
        let parser = ArticleIdParser::new(None);
        parser.parse(s)
    }

    /// Tells whether the identifier is valid, and with it the category of an
    /// old-scheme one. An identifier that was read from a text always is.
    pub fn is_valid(&self) -> (r: bool)
        ensures
            r == self@.deep_wf(),
    {
        match self {
            ArticleId::V1(v1) => v1.is_valid() && v1.category().is_valid(),
            ArticleId::V2(v2) => v2.is_valid(),
        }
    }

    /// The category of an old-scheme identifier.
    pub fn category(&self) -> (r: Option<CategoryId<'a>>)
        ensures
            match r {
                Some(c) => self@ matches ArticleIdView::V1(id) && id.category == c@,
                None => self@ is V2,
            },
    {
        match self {
            ArticleId::V1(v1) => Some(v1.category()),
            ArticleId::V2(_) => None,
        }
    }

    /// The old-scheme identifier that this is.
    pub fn as_v1(self) -> (r: ArticleIdV1<'a>)
        requires
            self is V1,
        ensures
            self == ArticleId::V1(r),
    {
        match self {
            ArticleId::V1(id) => id,
            ArticleId::V2(_) => unreached(),
        }
    }

    /// The new-scheme identifier that this is.
    pub fn as_v2(self) -> (r: ArticleIdV2<'a>)
        requires
            self is V2,
        ensures
            self == ArticleId::V2(r),
    {
        match self {
            ArticleId::V2(id) => id,
            ArticleId::V1(_) => unreached(),
        }
    }

    /// The year the article was published in.
    pub fn year(&self) -> (r: i16)
        ensures
            r == self@.year(),
    {
        match self {
            ArticleId::V1(v1) => v1.year(),
            ArticleId::V2(v2) => v2.year(),
        }
    }

    /// The month the article was published in.
    pub fn month(&self) -> (r: i8)
        ensures
            r == self@.month(),
    {
        match self {
            ArticleId::V1(v1) => v1.month(),
            ArticleId::V2(v2) => v2.month(),
        }
    }

    /// The number assigned to the article within its month.
    pub fn number(&self) -> (r: &'a str)
        ensures
            r@ == self@.number(),
    {
        match self {
            ArticleId::V1(v1) => v1.number(),
            ArticleId::V2(v2) => v2.number(),
        }
    }

    /// The version of the article that is meant.
    pub fn version(&self) -> (r: ArticleVersion)
        ensures
            r == self@.version(),
    {
        match self {
            ArticleId::V1(v1) => v1.version(),
            ArticleId::V2(v2) => v2.version(),
        }
    }

    /// Whether the identifier refers to the most recent version of the article.
    pub fn is_latest(&self) -> (r: bool)
        ensures
            r == (self@.version() is Latest),
    {
        self.version().is_latest()
    }

    /// Sets the version of the article and leaves the rest as it is.
    pub fn set_version(&mut self, version: u8)
        ensures
            final(self)@ == old(self)@.with_version(ArticleVersion::Num(version)),
    {
        match self {
            ArticleId::V1(v1) => v1.set_version(version),
            ArticleId::V2(v2) => v2.set_version(version),
        }
    }

    /// Sets the version of the article to the latest and leaves the rest as it
    /// is.
    pub fn set_latest(&mut self)
        ensures
            final(self)@ == old(self)@.with_version(ArticleVersion::Latest),
    {
        match self {
            ArticleId::V1(v1) => v1.set_latest(),
            ArticleId::V2(v2) => v2.set_latest(),
        }
    }

    /// The part of the identifier that is unique to the article.
    pub fn as_unique_ident(&self) -> (r: String)
        requires
            self@.wf(),
        ensures
            r@ == self@.unique_ident(),
    {
        match self {
            ArticleId::V1(v1) => v1.as_unique_ident(),
            ArticleId::V2(v2) => v2.as_unique_ident(),
        }
    }

    /// The text that the identifier is written with, in the form that `parse`
    /// reads.
    pub fn to_string(&self) -> (r: String)
        requires
            self@.wf(),
        ensures
            r@ == self@.text(),
    {
        match self {
            ArticleId::V1(v1) => v1.to_full_string(),
            ArticleId::V2(v2) => v2.to_string(),
        }
    }
}

} // verus!
