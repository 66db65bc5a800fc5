//! The stamp printed on the side of the PDF of an arXiv article: an identifier,
//! a category in brackets and the date of submission.

use vstd::prelude::*;
use vstd::string::*;
use crate::article_id::{ArticleId, ArticleIdError, ArticleIdView};
use crate::category_id::{CategoryId, CategoryIdView};
use crate::date::{parse_date, Date, DateView};
use crate::text::{chars_of, find_from, first_index, index_from, lemma_index_from};

verus! {

/// An error that can occur when parsing and validating arXiv stamps.
#[non_exhaustive]
#[derive(Debug, Clone, Copy, PartialEq, Eq, Structural)]
pub enum StampError {
    /// The first component is no article identifier.
    InvalidArxivId(ArticleIdError),
    /// The third component is no date.
    InvalidDate,
    /// The second component is no category in brackets.
    InvalidCategory,
    /// The text has fewer than two spaces.
    NotEnoughComponents,
}

impl StampError {
    /// The sentence that tells a reader what is wrong.
    pub open spec fn text(self) -> Seq<char> {
        match self {
            StampError::InvalidArxivId(e) => "Invalid arXiv ID: "@ + e.text(),
            StampError::InvalidDate => "Invalid date"@,
            StampError::InvalidCategory => "Invalid category"@,
            StampError::NotEnoughComponents => "Not enough components"@,
        }
    }

    /// The sentence that tells a reader what is wrong.
    pub fn to_string(&self) -> (r: String)
        ensures
            r@ == self.text(),
    {
        match self {
            StampError::InvalidArxivId(e) => {
                let mut out = String::from_str("Invalid arXiv ID: ");
                out.append(e.as_str());
                out
            },
            StampError::InvalidDate => String::from_str("Invalid date"),
            StampError::InvalidCategory => String::from_str("Invalid category"),
            StampError::NotEnoughComponents => String::from_str("Not enough components"),
        }
    }
}

/// A stamp that is added onto the side of PDF version of arXiv articles.
#[derive(Debug, Clone, Copy, PartialEq, Eq)]
pub struct Stamp<'a> {
    pub id: ArticleId<'a>,
    pub category: CategoryId<'a>,
    pub submitted: Date,
}

/// What a `Stamp` holds, with its texts as character sequences.
pub struct StampView {
    pub id: ArticleIdView,
    pub category: CategoryIdView,
    pub submitted: DateView,
}

impl<'a> View for Stamp<'a> {
    type V = StampView;

    open spec fn view(&self) -> StampView {
        StampView { id: self.id@, category: self.category@, submitted: self.submitted@ }
    }
}

/// The outcome of reading a stamp, seen through the view.
pub open spec fn outcome_view<'a>(r: Result<Stamp<'a>, StampError>) -> Result<
    StampView,
    StampError,
> {
    match r {
        Ok(stamp) => Ok(stamp@),
        Err(e) => Err(e),
    }
}

impl StampView {
    /// Each part of the stamp is valid, and the year of the date is not
    /// negative, so that four digits write it.
    pub open spec fn wf(self) -> bool {
        &&& self.id.deep_wf()
        &&& self.category.wf()
        &&& self.submitted.wf()
        &&& 0 <= self.submitted.year
    }

    /// The place of the first space of `s`.
    pub open spec fn first_space(s: Seq<char>) -> int {
        first_index(s, ' ')
    }

    /// The place of the second space of `s`.
    pub open spec fn second_space(s: Seq<char>) -> int {
        index_from(s, ' ', Self::first_space(s) + 1)
    }

    /// The stamp that `s` stands for, or the reason why it stands for none. The
    /// first two spaces part the text in three. A text with fewer spaces is
    /// refused before anything else is looked at; then the identifier is read,
    /// then the category in its brackets, then the date.
    pub open spec fn parsed(s: Seq<char>) -> Result<StampView, StampError> {
        let space1 = Self::first_space(s);
        let space2 = Self::second_space(s);
        if space1 >= s.len() || space2 >= s.len() {
            Err(StampError::NotEnoughComponents)
        } else {
            match ArticleIdView::parsed(s.subrange(0, space1)) {
                Err(e) => Err(StampError::InvalidArxivId(e)),
                Ok(id) => match CategoryIdView::parsed_bracketed(s.subrange(space1 + 1, space2)) {
                    None => Err(StampError::InvalidCategory),
                    Some(category) => match DateView::parsed(
                        s.subrange(space2 + 1, s.len() as int),
                    ) {
                        None => Err(StampError::InvalidDate),
                        Some(submitted) => Ok(StampView { id, category, submitted }),
                    },
                },
            }
        }
    }

    /// The text that the stamp is written with: the identifier, the category in
    /// brackets and the date, with one space between them.
    pub open spec fn text(self) -> Seq<char> {
        self.id.text() + seq![' ', '['] + self.category.text() + seq![']', ' ']
            + self.submitted.text()
    }

    /// Reading the text that a valid stamp is written with gives the stamp
    /// back.
    pub proof fn lemma_parsed_text(self)
        requires
            self.wf(),
        ensures
            Self::parsed(self.text()) == Ok::<StampView, StampError>(self),
    {
        let id_text = self.id.text();
        let category_text = self.category.text();
        let date_text = self.submitted.text();
        let bracketed = seq!['['] + category_text + seq![']'];
        let t = self.text();
        let space1 = id_text.len() as int;
        let space2 = space1 + 1 + bracketed.len();
        assert(t =~= id_text + seq![' '] + bracketed + seq![' '] + date_text);
        assert(Self::first_space(t) == space1) by {
            self.id.lemma_text_without_space();
            assert forall|j: int| 0 <= j < space1 implies t[j] != ' ' by {
                assert(t[j] == id_text[j]);
            }
            assert(t[space1] == ' ');
            lemma_index_from(t, ' ', 0, space1);
        }
        assert(Self::second_space(t) == space2) by {
            self.category.lemma_text_chars();
            assert forall|j: int| space1 + 1 <= j < space2 implies t[j] != ' ' by {
                assert(t[j] == bracketed[j - space1 - 1]);
                if space1 + 1 < j < space2 - 1 {
                    assert(bracketed[j - space1 - 1] == category_text[j - space1 - 2]);
                }
            }
            assert(t[space2] == ' ');
            lemma_index_from(t, ' ', space1 + 1, space2);
        }
        assert(t.subrange(0, space1) =~= id_text);
        assert(t.subrange(space1 + 1, space2) =~= bracketed);
        assert(t.subrange(space2 + 1, t.len() as int) =~= date_text);
        assert(ArticleIdView::parsed(id_text) == Ok::<ArticleIdView, ArticleIdError>(self.id)) by {
            self.id.lemma_parsed_text();
        }
        assert(CategoryIdView::parsed_bracketed(bracketed) == Some(self.category)) by {
            assert(bracketed.subrange(1, bracketed.len() - 1) =~= category_text);
            self.category.lemma_parsed_text();
        }
        assert(DateView::parsed(date_text) == Some(self.submitted)) by {
            self.submitted.lemma_parsed_text();
        }
    }
}

impl<'a> Stamp<'a> {
    /// A stamp of the given parts.
    pub fn new(id: ArticleId<'a>, category: CategoryId<'a>, submitted: Date) -> (r: Self)
        ensures
            r.id == id,
            r.category == category,
            r.submitted == submitted,
    {
        Stamp { id, category, submitted }
    }

    /// Tells whether each part of the stamp is valid and the year of its date
    /// is not negative. A stamp that was read from a text always is.
    pub fn is_valid(&self) -> (r: bool)
        ensures
            r == self@.wf(),
    {
        self.id.is_valid() && self.category.is_valid() && self.submitted.is_valid()
            && self.submitted.year() >= 0
    }

    /// Reads a stamp such as `arXiv:0706.0001v1 [q-bio.CB] 1 Jun 2007`.
    pub fn parse(s: &'a str) -> (r: Result<Self, StampError>)
        ensures
            outcome_view(r) == StampView::parsed(s@),
            r matches Ok(stamp) ==> stamp@.wf(),
    {
        let chars = chars_of(s);
        let n = chars.len();
        let space1 = find_from(&chars, ' ', 0);
        if space1 >= n {
            return Err(StampError::NotEnoughComponents);
        }
        let space2 = find_from(&chars, ' ', space1 + 1);
        if space2 >= n {
            return Err(StampError::NotEnoughComponents);
        }
        let id = match ArticleId::parse(s.substring_char(0, space1)) {
            Ok(id) => id,
            Err(e) => {
                return Err(StampError::InvalidArxivId(e));
            },
        };
        let cat_str = s.substring_char(space1 + 1, space2);
        let category = match CategoryId::parse_bracketed(cat_str) {
            Some(c) => c,
            None => {
                return Err(StampError::InvalidCategory);
            },
        };
        let date_str = s.substring_char(space2 + 1, n);
        let date = match parse_date(date_str) {
            Some(d) => d,
            None => {
                return Err(StampError::InvalidDate);
            },
        };
        Ok(Stamp::new(id, category, date))
    }

    /// The text that the stamp is written with.
    pub fn to_string(&self) -> (r: String)
        requires
            self@.wf(),
        ensures
            r@ == self@.text(),
    {
        let mut out = self.id.to_string();
        out.append(" [");
        let category = self.category.to_string();
        out.append(category.as_str());
        out.append("] ");
        let date = self.submitted.to_string();
        out.append(date.as_str());
        proof {
            reveal_strlit(" [");
            reveal_strlit("] ");
            assert(" ["@ =~= seq![' ', '[']);
            assert("] "@ =~= seq![']', ' ']);
        }
        out
    }
}

} // verus!
