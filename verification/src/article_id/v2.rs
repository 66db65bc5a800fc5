//! Identifiers of the scheme in use since April 2007.

use vstd::prelude::*;
use vstd::string::*;
use crate::article_id::parser::{full_year_of, parsed_as, two_digit_value, ArticleIdParser};
use crate::article_id::{
    as_unique_ident, unique_ident, valid_month, ArticleId, ArticleIdError, ArticleIdErrorKind,
    ArticleIdScheme, ArticleIdView,
};
use crate::article_version::ArticleVersion;
use crate::link::{is_absolute_url, parse_url};
use crate::text::{all_digits, chars_of, digit_char, digits_between, is_digit, without};

verus! {

/// A unique identifier for articles published on arXiv.org since April 2007.
#[derive(Debug, Clone, Copy, PartialEq, Eq, PartialOrd, Ord, Hash)]
pub struct ArticleIdV2<'a> {
    year: i16,
    month: i8,
    number: &'a str,
    version: ArticleVersion,
}

/// What an `ArticleIdV2` holds, with the number as a character sequence.
pub struct ArticleIdV2View {
    pub year: i16,
    pub month: i8,
    pub number: Seq<char>,
    pub version: ArticleVersion,
}

impl<'a> View for ArticleIdV2<'a> {
    type V = ArticleIdV2View;

    closed spec fn view(&self) -> ArticleIdV2View {
        ArticleIdV2View {
            year: self.year,
            month: self.month,
            number: self.number@,
            version: self.version,
        }
    }
}

/// `number` is made of four or five decimal digits.
pub open spec fn valid_number(number: Seq<char>) -> bool {
    ArticleIdV2::MIN_NUM_DIGITS <= number.len() <= ArticleIdV2::MAX_NUM_DIGITS && all_digits(
        number,
    )
}

/// The outcome of making or reading an identifier, seen through the view.
pub open spec fn outcome_view<'a>(r: Result<ArticleIdV2<'a>, ArticleIdError>) -> Result<
    ArticleIdV2View,
    ArticleIdError,
> {
    match r {
        Ok(id) => Ok(id@),
        Err(e) => Err(e),
    }
}

impl ArticleIdV2View {
    /// The identifier is one that validation lets through: the year lies in
    /// [2007, 2099], the month in [1, 12], and the number is made of four or five
    /// digits.
    pub open spec fn wf(self) -> bool {
        &&& ArticleIdV2::MIN_YEAR <= self.year <= ArticleIdV2::MAX_YEAR
        &&& valid_month(self.month)
        &&& valid_number(self.number)
    }

    /// The identifier made of the given parts, or the first fault among them:
    /// the year is looked at first, then the month, then the number.
    pub open spec fn made(year: i16, month: i8, number: Seq<char>, version: ArticleVersion) -> Result<
        ArticleIdV2View,
        ArticleIdError,
    > {
        if !(ArticleIdV2::MIN_YEAR <= year <= ArticleIdV2::MAX_YEAR) {
            Err(ArticleIdError(ArticleIdErrorKind::InvalidYear))
        } else if !valid_month(month) {
            Err(ArticleIdError(ArticleIdErrorKind::InvalidMonth))
        } else if !valid_number(number) {
            Err(ArticleIdError(ArticleIdErrorKind::InvalidId))
        } else {
            Ok(ArticleIdV2View { year, month, number, version })
        }
    }

    /// The part that is unique to the article: `YYMM.NNNN` or `YYMM.NNNNN`.
    pub open spec fn unique_ident(self) -> Seq<char> {
        unique_ident(self.year, self.month, self.number, true)
    }

    /// The text that the identifier is written with: `arXiv:`, the unique part
    /// and the version.
    pub open spec fn text(self) -> Seq<char> {
        seq!['a', 'r', 'X', 'i', 'v', ':'] + self.unique_ident() + self.version.text()
    }

    /// The address of the abstract page of the article on arxiv.org.
    pub open spec fn url_text(self) -> Seq<char> {
        "https://arxiv.org/abs/"@ + self.unique_ident() + self.version.text()
    }

    /// The new-scheme identifier that `s` stands for, or the reason why it
    /// stands for none. A letter right after `arXiv:` is refused.
    pub open spec fn parsed(s: Seq<char>) -> Result<ArticleIdV2View, ArticleIdError> {
        match parsed_as(Some(ArticleIdScheme::V2), s) {
            Ok(ArticleIdView::V2(id)) => Ok(id),
            Ok(ArticleIdView::V1(_)) => Err(ArticleIdError(ArticleIdErrorKind::ExpectedCategory)),
            Err(e) => Err(e),
        }
    }
}

impl ArticleIdV2View {
    /// Validation lets through exactly the identifiers whose year lies in
    /// [2007, 2099], whose month lies in [1, 12] and whose number is made of four
    /// or five digits, and it keeps each part as it was given.
    pub proof fn lemma_made_ok(year: i16, month: i8, number: Seq<char>, version: ArticleVersion)
        ensures
            Self::made(year, month, number, version) is Ok <==> (ArticleIdV2View {
                year,
                month,
                number,
                version,
            }).wf(),
            Self::made(year, month, number, version) matches Ok(id) ==> id == (ArticleIdV2View {
                year,
                month,
                number,
                version,
            }),
    {
    }

    /// Reading the text that a valid identifier is written with gives the
    /// identifier back, whether the reader is told the scheme or finds it out.
    pub proof fn lemma_parsed_text(self)
        requires
            self.wf(),
        ensures
            ArticleIdView::parsed(self.text()) == Ok::<ArticleIdView, ArticleIdError>(
                ArticleIdView::V2(self),
            ),
            Self::parsed(self.text()) == Ok::<ArticleIdV2View, ArticleIdError>(self),
    {
        let s = self.text();
        let rest = s.subrange(6, s.len() as int);
        let yy = self.year as int % 100;
        let mm = self.month as int;
        let ident = self.unique_ident();
        let version_text = self.version.text();
        assert(rest =~= ident + version_text);
        assert(rest[0] == digit_char(yy / 10));
        assert(rest[1] == digit_char(yy % 10));
        assert(rest[2] == digit_char(mm / 10));
        assert(rest[3] == digit_char(mm % 10));
        assert(two_digit_value(rest, 0) == Some(yy));
        assert(two_digit_value(rest, 2) == Some(mm));
        let t = rest.subrange(4, rest.len() as int);
        assert(t =~= seq!['.'] + self.number + version_text);
        assert(t[0] == '.');
        assert(t.subrange(1, 5) =~= self.number.subrange(0, 4));
        assert(all_digits(t.subrange(1, 5))) by {
            assert forall|i: int| 0 <= i < 4 implies is_digit(#[trigger] t.subrange(1, 5)[i]) by {
                assert(t.subrange(1, 5)[i] == self.number[i]);
            }
        }
        self.version.lemma_parsed_text();
        if self.number.len() == 5 {
            assert(t[5] == self.number[4]);
            assert(t.subrange(1, 6) =~= self.number);
            assert(t.subrange(6, t.len() as int) =~= version_text);
        } else {
            if t.len() >= 6 {
                assert(t[5] == version_text[0]);
                assert(version_text[0] == 'v');
            }
            assert(t.subrange(1, 5) =~= self.number);
            assert(t.subrange(5, t.len() as int) =~= version_text);
        }
        assert(full_year_of(ArticleIdScheme::V2, yy) == self.year);
    }

    /// The text of a valid identifier holds no space.
    pub proof fn lemma_text_without_space(self)
        requires
            self.wf(),
        ensures
            without(self.text(), ' '),
    {
        let head = seq!['a', 'r', 'X', 'i', 'v', ':'] + self.unique_ident();
        let version_text = self.version.text();
        self.version.lemma_text_without_space();
        assert(head.len() == 11 + self.number.len());
        assert forall|i: int| 0 <= i < head.len() implies #[trigger] head[i] != ' ' by {
            if i >= 11 {
                assert(head[i] == self.number[i - 11]);
                assert(is_digit(self.number[i - 11]));
            }
        }
        assert forall|i: int| 0 <= i < self.text().len() implies #[trigger] self.text()[i]
            != ' ' by {
            if i < head.len() {
                assert(self.text()[i] == head[i]);
            } else {
                assert(self.text()[i] == version_text[i - head.len()]);
            }
        }
    }
}

impl<'a> ArticleIdV2<'a> {
    /// The first year of the scheme.
    pub const MIN_YEAR: i16 = 2007i16;

    /// The last year that the scheme can write.
    pub const MAX_YEAR: i16 = 2099i16;

    /// The least count of digits in a number.
    pub const MIN_NUM_DIGITS: usize = 4usize;

    /// The greatest count of digits in a number.
    pub const MAX_NUM_DIGITS: usize = 5usize;

    /// An identifier of the given parts, taken as they are. Nothing is checked:
    /// whether the value is a valid identifier is `wf` of its view.
    pub fn new(year: i16, month: i8, number: &'a str, version: ArticleVersion) -> (r: Self)
        ensures
            r@ == (ArticleIdV2View { year, month, number: number@, version }),
    {
        ArticleIdV2 { year, month, number, version }
    }

    /// An identifier without a version, of parts taken as they are.
    pub fn new_latest(year: i16, month: i8, id: &'a str) -> (r: Self)
        ensures
            r@ == (ArticleIdV2View { year, month, number: id@, version: ArticleVersion::Latest }),
    {
        ArticleIdV2::new(year, month, id, ArticleVersion::Latest)
    }

    /// An identifier with a version, of parts taken as they are.
    pub fn new_versioned(year: i16, month: i8, id: &'a str, version: u8) -> (r: Self)
        ensures
            r@ == (ArticleIdV2View {
                year,
                month,
                number: id@,
                version: ArticleVersion::Num(version),
            }),
    {
        ArticleIdV2::new(year, month, id, ArticleVersion::Num(version))
    }

    /// An identifier of the given parts, each of them checked.
    pub fn try_new(year: i16, month: i8, number: &'a str, version: ArticleVersion) -> (r: Result<
        Self,
        ArticleIdError,
    >)
        ensures
            outcome_view(r) == ArticleIdV2View::made(year, month, number@, version),
            r matches Ok(id) ==> id@.wf(),
    {
        if year < ArticleIdV2::MIN_YEAR || year > ArticleIdV2::MAX_YEAR {
            return Err(ArticleIdError(ArticleIdErrorKind::InvalidYear));
        }
        if month < ArticleId::MIN_MONTH || month > ArticleId::MAX_MONTH {
            return Err(ArticleIdError(ArticleIdErrorKind::InvalidMonth));
        }
        let digits = chars_of(number);
        let length_check = ArticleIdV2::MIN_NUM_DIGITS <= digits.len() && digits.len()
            <= ArticleIdV2::MAX_NUM_DIGITS;
        assert(digits@.subrange(0, digits@.len() as int) =~= number@);
        if !length_check || !digits_between(&digits, 0, digits.len()) {
            return Err(ArticleIdError(ArticleIdErrorKind::InvalidId));
        }
        Ok(ArticleIdV2::new(year, month, number, version))
    }

    /// An identifier without a version, each part checked.
    pub fn try_latest(year: i16, month: i8, number: &'a str) -> (r: Result<Self, ArticleIdError>)
        ensures
            outcome_view(r) == ArticleIdV2View::made(year, month, number@, ArticleVersion::Latest),
            r matches Ok(id) ==> id@.wf(),
    {
        ArticleIdV2::try_new(year, month, number, ArticleVersion::Latest)
    }

    /// Reads a new-scheme identifier.
    pub fn parse(s: &'a str) -> (r: Result<Self, ArticleIdError>)
        ensures
            outcome_view(r) == ArticleIdV2View::parsed(s@),
            r matches Ok(id) ==> id@.wf(),
    {
        let parser = ArticleIdParser::new_v2();
        match parser.parse(s) {
            Ok(ArticleId::V2(id)) => Ok(id),
            Ok(ArticleId::V1(_)) => Err(ArticleIdError(ArticleIdErrorKind::ExpectedCategory)),
            Err(e) => Err(e),
        }
    }

    /// Whether the identifier refers to the most recent version of the article.
    pub fn is_latest(&self) -> (r: bool)
        ensures
            r == (self@.version is Latest),
    {
        self.version.is_latest()
    }

    /// Tells whether the identifier is one that validation lets through. An
    /// identifier that was made by `try_new` or read from a text always is.
    pub fn is_valid(&self) -> (r: bool)
        ensures
            r == self@.wf(),
    {
        ArticleIdV2::try_new(self.year, self.month, self.number, self.version).is_ok()
    }

    /// The year the article was published in.
    pub fn year(&self) -> (r: i16)
        ensures
            r == self@.year,
    {
        self.year
    }

    /// The month the article was published in.
    pub fn month(&self) -> (r: i8)
        ensures
            r == self@.month,
    {
        self.month
    }

    /// The number assigned to the article within its month.
    pub fn number(&self) -> (r: &'a str)
        ensures
            r@ == self@.number,
    {
        self.number
    }

    /// The version of the article that is meant.
    pub fn version(&self) -> (r: ArticleVersion)
        ensures
            r == self@.version,
    {
        self.version
    }

    /// Sets the version of the article and leaves the rest as it is.
    pub fn set_version(&mut self, version: u8)
        ensures
            final(self)@ == (ArticleIdV2View { version: ArticleVersion::Num(version), ..old(self)@ }),
    {
        self.version = ArticleVersion::Num(version)
    }

    /// Sets the version of the article to the latest and leaves the rest as it
    /// is.
    pub fn set_latest(&mut self)
        ensures
            final(self)@ == (ArticleIdV2View { version: ArticleVersion::Latest, ..old(self)@ }),
    {
        self.version = ArticleVersion::Latest;
    }

    /// The part of the identifier that is unique to the article, such as
    /// `2010.14462`.
    pub fn as_unique_ident(&self) -> (r: String)
        requires
            self@.wf(),
        ensures
            r@ == self@.unique_ident(),
    {
        as_unique_ident(self.year, self.month, self.number, true)
    }

    /// The address of the abstract page of the article, as a text.
    pub fn url_string(&self) -> (r: String)
        requires
            self@.wf(),
        ensures
            r@ == self@.url_text(),
    {
        let mut out = String::from_str("https://arxiv.org/abs/");
        let ident = self.as_unique_ident();
        out.append(ident.as_str());
        let version = self.version.to_string();
        out.append(version.as_str());
        out
    }

    /// The address of the abstract page of the article, as a URL: `None` where
    /// the `url` crate does not take the text of the address for one.
    pub fn as_url(&self) -> (r: Option<url::Url>)
        requires
            self@.wf(),
        ensures
            r is Some <==> is_absolute_url(self@.url_text()),
    {
        let text = self.url_string();
        parse_url(text.as_str())
    }

    /// The text that the identifier is written with, such as
    /// `arXiv:2010.14462v2`.
    pub fn to_string(&self) -> (r: String)
        requires
            self@.wf(),
        ensures
            r@ == self@.text(),
    {
        let mut out = String::from_str("arXiv:");
        let ident = self.as_unique_ident();
        out.append(ident.as_str());
        let version = self.version.to_string();
        out.append(version.as_str());
        proof {
            reveal_strlit("arXiv:");
            assert("arXiv:"@ =~= seq!['a', 'r', 'X', 'i', 'v', ':']);
        }
        out
    }
}

} // verus!
