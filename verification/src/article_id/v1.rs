//! Identifiers of the scheme in use up to March 2007.

use vstd::prelude::*;
use vstd::string::*;
use crate::article_id::parser::{
    full_year_of, has_prefix, looks_old, parsed_as, parsed_tail, two_digit_value, ArticleIdParser,
};
use crate::article_id::{
    as_unique_ident, unique_ident, valid_month, ArticleId, ArticleIdError, ArticleIdErrorKind,
    ArticleIdScheme, ArticleIdView,
};
use crate::article_version::ArticleVersion;
use crate::category_id::{CategoryId, CategoryIdErrorView, CategoryIdView};
use crate::text::{
    all_digits, chars_of, digit_char, digits_between, first_index, is_digit, lemma_index_from,
    without,
};

verus! {

/// A unique identifier for articles published on arXiv.org up to March 2007.
#[derive(Debug, Clone, Copy, PartialEq, Eq, PartialOrd, Ord, Hash)]
pub struct ArticleIdV1<'a> {
    category: CategoryId<'a>,
    year: i16,
    month: i8,
    number: &'a str,
    version: ArticleVersion,
}

/// What an `ArticleIdV1` holds, with its texts as character sequences.
pub struct ArticleIdV1View {
    pub category: CategoryIdView,
    pub year: i16,
    pub month: i8,
    pub number: Seq<char>,
    pub version: ArticleVersion,
}

impl<'a> View for ArticleIdV1<'a> {
    type V = ArticleIdV1View;

    closed spec fn view(&self) -> ArticleIdV1View {
        ArticleIdV1View {
            category: self.category@,
            year: self.year,
            month: self.month,
            number: self.number@,
            version: self.version,
        }
    }
}

/// `number` is made of exactly three decimal digits.
pub open spec fn valid_number(number: Seq<char>) -> bool {
    number.len() == ArticleIdV1::DIGITS && all_digits(number)
}

/// The outcome of making or reading an identifier, seen through the view.
pub open spec fn outcome_view<'a>(r: Result<ArticleIdV1<'a>, ArticleIdError>) -> Result<
    ArticleIdV1View,
    ArticleIdError,
> {
    match r {
        Ok(id) => Ok(id@),
        Err(e) => Err(e),
    }
}

impl ArticleIdV1View {
    /// The identifier is one that validation lets through: the year lies in
    /// [1991, 2007], the month in [1, 12], and the number is made of three
    /// digits.
    pub open spec fn wf(self) -> bool {
        &&& ArticleIdV1::MIN_YEAR <= self.year <= ArticleIdV1::MAX_YEAR
        &&& valid_month(self.month)
        &&& valid_number(self.number)
    }

    /// The identifier made of the given parts, or the first fault among them:
    /// the year is looked at first, then the month, then the number.
    pub open spec fn made(
        category: CategoryIdView,
        year: i16,
        month: i8,
        number: Seq<char>,
        version: ArticleVersion,
    ) -> Result<ArticleIdV1View, ArticleIdError> {
        if !(ArticleIdV1::MIN_YEAR <= year <= ArticleIdV1::MAX_YEAR) {
            Err(ArticleIdError(ArticleIdErrorKind::InvalidYear))
        } else if !valid_month(month) {
            Err(ArticleIdError(ArticleIdErrorKind::InvalidMonth))
        } else if !valid_number(number) {
            Err(ArticleIdError(ArticleIdErrorKind::ExpectedNumberV1))
        } else {
            Ok(ArticleIdV1View { category, year, month, number, version })
        }
    }

    /// The part that is unique to the article within its category: `YYMMNNN`.
    pub open spec fn unique_ident(self) -> Seq<char> {
        unique_ident(self.year, self.month, self.number, false)
    }

    /// The bare form of the identifier: the archive, the subject right behind
    /// it, a slash and the unique part. It has no `arXiv:` and no version.
    pub open spec fn text(self) -> Seq<char> {
        self.category.archive.name() + (match self.category.subject {
            Some(s) => s,
            None => Seq::<char>::empty(),
        }) + seq!['/'] + self.unique_ident()
    }

    /// The full form of the identifier, which is the one that is read: `arXiv:`,
    /// the category, a slash, the unique part and the version.
    pub open spec fn full_text(self) -> Seq<char> {
        seq!['a', 'r', 'X', 'i', 'v', ':'] + self.category.text() + seq!['/']
            + self.unique_ident() + self.version.text()
    }

    /// The old-scheme identifier that `s` stands for, or the reason why it
    /// stands for none. Anything but a letter right after `arXiv:` is refused.
    pub open spec fn parsed(s: Seq<char>) -> Result<ArticleIdV1View, ArticleIdError> {
        match parsed_as(Some(ArticleIdScheme::V1), s) {
            Ok(ArticleIdView::V1(id)) => Ok(id),
            Ok(ArticleIdView::V2(_)) => Err(ArticleIdError(ArticleIdErrorKind::ExpectedCategory)),
            Err(e) => Err(e),
        }
    }
}

impl ArticleIdV1View {
    /// Validation lets through exactly the identifiers whose year lies in
    /// [1991, 2007], whose month lies in [1, 12] and whose number is made of
    /// three digits, and it keeps each part as it was given.
    pub proof fn lemma_made_ok(
        category: CategoryIdView,
        year: i16,
        month: i8,
        number: Seq<char>,
        version: ArticleVersion,
    )
        ensures
            Self::made(category, year, month, number, version) is Ok <==> (ArticleIdV1View {
                category,
                year,
                month,
                number,
                version,
            }).wf(),
            Self::made(category, year, month, number, version) matches Ok(id) ==> id == (
            ArticleIdV1View { category, year, month, number, version }),
    {
    }

    /// Reading the date, number and version that a valid identifier is written
    /// with, under its category, gives the identifier back.
    pub proof fn lemma_parsed_tail(self)
        requires
            self.wf(),
        ensures
            parsed_tail(Some(self.category), self.unique_ident() + self.version.text()) == Ok::<
                ArticleIdView,
                ArticleIdError,
            >(ArticleIdView::V1(self)),
    {
        let yy = self.year as int % 100;
        let mm = self.month as int;
        let version_text = self.version.text();
        let tail = self.unique_ident() + version_text;
        self.version.lemma_parsed_text();
        assert(tail[0] == digit_char(yy / 10));
        assert(tail[1] == digit_char(yy % 10));
        assert(tail[2] == digit_char(mm / 10));
        assert(tail[3] == digit_char(mm % 10));
        assert(two_digit_value(tail, 0) == Some(yy));
        assert(two_digit_value(tail, 2) == Some(mm));
        let t = tail.subrange(4, tail.len() as int);
        assert(t =~= self.number + version_text);
        assert(t.subrange(0, 3) =~= self.number);
        assert(t.subrange(3, t.len() as int) =~= version_text);
        assert(full_year_of(ArticleIdScheme::V1, yy) == self.year);
    }

    /// Reading the full text that a valid identifier of a valid category is
    /// written with gives the identifier back, whether the reader is told the
    /// scheme or finds it out.
    pub proof fn lemma_parsed_full_text(self)
        requires
            self.wf(),
            self.category.wf(),
        ensures
            ArticleIdView::parsed(self.full_text()) == Ok::<ArticleIdView, ArticleIdError>(
                ArticleIdView::V1(self),
            ),
            Self::parsed(self.full_text()) == Ok::<ArticleIdV1View, ArticleIdError>(self),
    {
        let s = self.full_text();
        let c = self.category.text();
        let tail = self.unique_ident() + self.version.text();
        let rest = s.subrange(6, s.len() as int);
        let slash = c.len() as int;
        assert(has_prefix(s));
        assert(rest =~= c + seq!['/'] + tail);
        assert(looks_old(rest) && first_index(rest, '/') == slash) by {
            self.category.lemma_text_chars();
            assert(rest[0] == c[0]);
            assert forall|j: int| 0 <= j < slash implies rest[j] != '/' by {
                assert(rest[j] == c[j]);
            }
            assert(rest[slash] == '/');
            lemma_index_from(rest, '/', 0, slash);
        }
        assert(rest.subrange(0, slash) =~= c);
        assert(rest.subrange(slash + 1, rest.len() as int) =~= tail);
        assert(CategoryIdView::parsed(c) == Ok::<CategoryIdView, CategoryIdErrorView>(
            self.category,
        )) by {
            self.category.lemma_parsed_text();
        }
        self.lemma_parsed_tail();
    }

    /// The full text of a valid identifier of a valid category holds no space.
    pub proof fn lemma_full_text_without_space(self)
        requires
            self.wf(),
            self.category.wf(),
        ensures
            without(self.full_text(), ' '),
    {
        let c = self.category.text();
        let front = seq!['a', 'r', 'X', 'i', 'v', ':'] + c + seq!['/'];
        let ident = self.unique_ident();
        let version_text = self.version.text();
        self.category.lemma_text_chars();
        self.version.lemma_text_without_space();
        assert forall|i: int| 0 <= i < front.len() implies #[trigger] front[i] != ' ' by {
            if 6 <= i < 6 + c.len() {
                assert(front[i] == c[i - 6]);
            }
        }
        assert(ident.len() == 7);
        assert forall|i: int| 0 <= i < ident.len() implies #[trigger] ident[i] != ' ' by {
            if i >= 4 {
                assert(ident[i] == self.number[i - 4]);
                assert(is_digit(self.number[i - 4]));
            }
        }
        assert(self.full_text() =~= front + ident + version_text);
        assert forall|i: int| 0 <= i < self.full_text().len() implies #[trigger] self.full_text()[i]
            != ' ' by {
            if i < front.len() {
                assert(self.full_text()[i] == front[i]);
            } else if i < front.len() + 7 {
                assert(self.full_text()[i] == ident[i - front.len()]);
            } else {
                assert(self.full_text()[i] == version_text[i - front.len() - 7]);
            }
        }
    }
}

impl<'a> ArticleIdV1<'a> {
    /// The last year of the scheme.
    pub const MAX_YEAR: i16 = 2007i16;

    /// The first year of the scheme.
    pub const MIN_YEAR: i16 = 1991i16;

    /// The count of digits in a number.
    pub const DIGITS: usize = 3;

    /// An identifier of the given parts, taken as they are. Nothing is checked:
    /// whether the value is a valid identifier is `wf` of its view.
    pub fn new(
        category: CategoryId<'a>,
        year: i16,
        month: i8,
        number: &'a str,
        version: ArticleVersion,
    ) -> (r: Self)
        ensures
            r@ == (ArticleIdV1View { category: category@, year, month, number: number@, version }),
    {
        ArticleIdV1 { category, year, month, number, version }
    }

    /// An identifier of the given parts, each of them checked but the category,
    /// which was checked when it was made.
    pub fn try_new(
        category: CategoryId<'a>,
        year: i16,
        month: i8,
        number: &'a str,
        version: ArticleVersion,
    ) -> (r: Result<Self, ArticleIdError>)
        ensures
            outcome_view(r) == ArticleIdV1View::made(category@, year, month, number@, version),
            r matches Ok(id) ==> id@.wf(),
    {
        if year < ArticleIdV1::MIN_YEAR || year > ArticleIdV1::MAX_YEAR {
            return Err(ArticleIdError(ArticleIdErrorKind::InvalidYear));
        }
        if month < ArticleId::MIN_MONTH || month > ArticleId::MAX_MONTH {
            return Err(ArticleIdError(ArticleIdErrorKind::InvalidMonth));
        }
        let digits = chars_of(number);
        let length_check = digits.len() == ArticleIdV1::DIGITS;
        assert(digits@.subrange(0, digits@.len() as int) =~= number@);
        if !length_check || !digits_between(&digits, 0, digits.len()) {
            return Err(ArticleIdError(ArticleIdErrorKind::ExpectedNumberV1));
        }
        Ok(ArticleIdV1::new(category, year, month, number, version))
    }

    /// Reads an old-scheme identifier.
    pub fn parse(s: &'a str) -> (r: Result<Self, ArticleIdError>)
        ensures
            outcome_view(r) == ArticleIdV1View::parsed(s@),
            r matches Ok(id) ==> id@.wf() && id@.category.wf(),
    {
        let parser = ArticleIdParser::new_v1();
        match parser.parse(s) {
            Ok(ArticleId::V1(id)) => Ok(id),
            Ok(ArticleId::V2(_)) => Err(ArticleIdError(ArticleIdErrorKind::ExpectedCategory)),
            Err(e) => Err(e),
        }
    }

    /// The category that the article was filed under.
    pub fn category(&self) -> (r: CategoryId<'a>)
        ensures
            r@ == self@.category,
    {
        self.category
    }

    /// Tells whether the identifier is one that validation lets through. An
    /// identifier that was made by `try_new` or read from a text always is.
    pub fn is_valid(&self) -> (r: bool)
        ensures
            r == self@.wf(),
    {
        ArticleIdV1::try_new(self.category, self.year, self.month, self.number, self.version).is_ok()
    }

    /// The year the article was published in.
    pub fn year(&self) -> (r: i16)
        ensures
            r == self@.year,
    {
        self.year
    }

    /// The month the article was published in.
    pub fn month(&self) -> (r: i8)
        ensures
            r == self@.month,
    {
        self.month
    }

    /// The number assigned to the article within its month.
    pub fn number(&self) -> (r: &'a str)
        ensures
            r@ == self@.number,
    {
        self.number
    }

    /// The version of the article that is meant.
    pub fn version(&self) -> (r: ArticleVersion)
        ensures
            r == self@.version,
    {
        self.version
    }

    /// Sets the version of the article and leaves the rest as it is.
    pub fn set_version(&mut self, version: u8)
        ensures
            final(self)@ == (ArticleIdV1View { version: ArticleVersion::Num(version), ..old(self)@ }),
    {
        self.version = ArticleVersion::Num(version)
    }

    /// Sets the version of the article to the latest and leaves the rest as it
    /// is.
    pub fn set_latest(&mut self)
        ensures
            final(self)@ == (ArticleIdV1View { version: ArticleVersion::Latest, ..old(self)@ }),
    {
        self.version = ArticleVersion::Latest;
    }

    /// The part of the identifier that is unique to the article within its
    /// category, such as `0001448`.
    pub fn as_unique_ident(&self) -> (r: String)
        requires
            self@.wf(),
        ensures
            r@ == self@.unique_ident(),
    {
        as_unique_ident(self.year, self.month, self.number, false)
    }

    /// The bare form of the identifier, such as `cond-mat/0001448`.
    pub fn to_string(&self) -> (r: String)
        requires
            self@.wf(),
        ensures
            r@ == self@.text(),
    {
        let mut out = self.category.archive().to_string();
        match self.category.subject() {
            Some(s) => {
                out.append(s);
            },
            None => {
                assert(out@ + Seq::<char>::empty() =~= out@);
            },
        }
        out.append("/");
        let ident = self.as_unique_ident();
        out.append(ident.as_str());
        proof {
            reveal_strlit("/");
            assert("/"@ =~= seq!['/']);
        }
        out
    }

    /// The full form of the identifier, such as `arXiv:cond-mat/0001448v1`.
    pub fn to_full_string(&self) -> (r: String)
        requires
            self@.wf(),
        ensures
            r@ == self@.full_text(),
    {
        let mut out = String::from_str("arXiv:");
        let category = self.category.to_string();
        out.append(category.as_str());
        out.append("/");
        let ident = self.as_unique_ident();
        out.append(ident.as_str());
        let version = self.version.to_string();
        out.append(version.as_str());
        proof {
            reveal_strlit("arXiv:");
            reveal_strlit("/");
            assert("arXiv:"@ =~= seq!['a', 'r', 'X', 'i', 'v', ':']);
            assert("/"@ =~= seq!['/']);
        }
        out
    }
}

} // verus!
