//! Category identifiers: an archive and, where the archive has them, a subject.

use vstd::prelude::*;
use vstd::string::*;
use crate::archive::Archive;
use crate::group::{group_of, Group};
use crate::text::{
    chars_of, find_from, first_index, is_alpha, lemma_index_from, lemma_index_from_bounds,
};

verus! {

/// An error that can occur when parsing and validating arXiv category
/// identifiers.
#[derive(Debug, Clone, Copy, PartialEq, Eq)]
pub enum CategoryIdError<'a> {
    /// The archive needs a subject and none was given.
    ExpectedSubject,
    /// The archive has no subjects and one was given.
    ExpectedNoSubject,
    /// The text before the dot names no archive.
    InvalidArchive(&'a str),
    /// The text after the dot is no subject of the archive.
    InvalidArchiveSubject(Archive, &'a str),
}

/// What a `CategoryIdError` holds, with its texts as character sequences.
pub enum CategoryIdErrorView {
    ExpectedSubject,
    ExpectedNoSubject,
    InvalidArchive(Seq<char>),
    InvalidArchiveSubject(Archive, Seq<char>),
}

impl<'a> View for CategoryIdError<'a> {
    type V = CategoryIdErrorView;

    open spec fn view(&self) -> CategoryIdErrorView {
        match *self {
            CategoryIdError::ExpectedSubject => CategoryIdErrorView::ExpectedSubject,
            CategoryIdError::ExpectedNoSubject => CategoryIdErrorView::ExpectedNoSubject,
            CategoryIdError::InvalidArchive(s) => CategoryIdErrorView::InvalidArchive(s@),
            CategoryIdError::InvalidArchiveSubject(a, s) => {
                CategoryIdErrorView::InvalidArchiveSubject(a, s@)
            },
        }
    }
}

impl CategoryIdErrorView {
    /// The sentence that tells a reader what is wrong.
    pub open spec fn text(self) -> Seq<char> {
        match self {
            CategoryIdErrorView::ExpectedSubject => {
                "Expected a subject identifier, but found none"@
            },
            CategoryIdErrorView::ExpectedNoSubject => {
                "Expected no subject identifier, but found one"@
            },
            CategoryIdErrorView::InvalidArchive(s) => "Invalid arXiv archive identifier: "@ + s,
            CategoryIdErrorView::InvalidArchiveSubject(archive, s) => {
                "The arXiv subject \""@ + archive.name()
                    + "\" does not fall under the archive \""@ + s + "\""@
            },
        }
    }
}

impl<'a> CategoryIdError<'a> {
    /// The sentence that tells a reader what is wrong.
    pub fn to_string(&self) -> (r: String)
        ensures
            r@ == self@.text(),
    {
        match self {
            CategoryIdError::ExpectedSubject => {
                String::from_str("Expected a subject identifier, but found none")
            },
            CategoryIdError::ExpectedNoSubject => {
                String::from_str("Expected no subject identifier, but found one")
            },
            CategoryIdError::InvalidArchive(s) => {
                let mut out = String::from_str("Invalid arXiv archive identifier: ");
                out.append(s);
                out
            },
            CategoryIdError::InvalidArchiveSubject(archive, s) => {
                let mut out = String::from_str("The arXiv subject \"");
                out.append(archive.as_str());
                out.append("\" does not fall under the archive \"");
                out.append(s);
                out.append("\"");
                out
            },
        }
    }
}

/// An identifier for arXiv categories, which are composed of an archive and
/// optionally a subject.
#[derive(Debug, Clone, Copy, PartialEq, Eq, PartialOrd, Ord, Hash)]
pub struct CategoryId<'a> {
    group: Group,
    archive: Archive,
    subject: Option<&'a str>,
}

/// What a `CategoryId` holds, with the subject as a character sequence.
pub struct CategoryIdView {
    pub group: Group,
    pub archive: Archive,
    pub subject: Option<Seq<char>>,
}

impl<'a> View for CategoryId<'a> {
    type V = CategoryIdView;

    closed spec fn view(&self) -> CategoryIdView {
        CategoryIdView {
            group: self.group,
            archive: self.archive,
            subject: text_of(self.subject),
        }
    }
}

/// The characters of an optional text.
pub open spec fn text_of(subject: Option<&str>) -> Option<Seq<char>> {
    match subject {
        Some(s) => Some(s@),
        None => None,
    }
}

/// The outcome of making or reading a category, seen through the views.
pub open spec fn outcome_view<'a>(r: Result<CategoryId<'a>, CategoryIdError<'a>>) -> Result<
    CategoryIdView,
    CategoryIdErrorView,
> {
    match r {
        Ok(c) => Ok(c@),
        Err(e) => Err(e@),
    }
}

impl CategoryIdView {
    /// The category is one that validation lets through: the group is that of
    /// the archive; a subject, where there is one, is not empty and is a subject
    /// of the archive; and where there is none, the archive has no subjects or
    /// may go without one.
    pub open spec fn wf(self) -> bool {
        &&& self.group == group_of(self.archive)
        &&& match self.subject {
            Some(s) => s.len() > 0 && !self.archive.takes_only_empty_subject()
                && self.archive.valid_subject(s),
            None => self.archive.takes_only_empty_subject() || self.archive.may_omit_subject(),
        }
    }

    /// The category made of `archive` and `subject`, or the reason why there is
    /// none. An empty subject stands for no subject.
    pub open spec fn made(archive: Archive, subject: Seq<char>) -> Result<
        CategoryIdView,
        CategoryIdErrorView,
    > {
        if subject.len() == 0 {
            if archive.takes_only_empty_subject() || archive.may_omit_subject() {
                Ok(CategoryIdView { group: group_of(archive), archive, subject: None })
            } else {
                Err(CategoryIdErrorView::ExpectedSubject)
            }
        } else if archive.takes_only_empty_subject() {
            Err(CategoryIdErrorView::ExpectedNoSubject)
        } else if archive.valid_subject(subject) {
            Ok(CategoryIdView { group: group_of(archive), archive, subject: Some(subject) })
        } else {
            Err(CategoryIdErrorView::InvalidArchiveSubject(archive, subject))
        }
    }

    /// The text before the first dot of `s`: all of `s` where it has no dot.
    pub open spec fn archive_part(s: Seq<char>) -> Seq<char> {
        s.subrange(0, first_index(s, '.'))
    }

    /// The text after the first dot of `s`: empty where `s` has no dot.
    pub open spec fn subject_part(s: Seq<char>) -> Seq<char> {
        if first_index(s, '.') < s.len() {
            s.subrange(first_index(s, '.') + 1, s.len() as int)
        } else {
            Seq::empty()
        }
    }

    /// The category that the text `archive.subject` or `archive` stands for, or
    /// the reason why it stands for none.
    pub open spec fn parsed(s: Seq<char>) -> Result<CategoryIdView, CategoryIdErrorView> {
        match Archive::named(Self::archive_part(s)) {
            None => Err(CategoryIdErrorView::InvalidArchive(Self::archive_part(s))),
            Some(archive) => Self::made(archive, Self::subject_part(s)),
        }
    }

    /// The category that the bracketed text `[archive.subject]` stands for, if
    /// any.
    pub open spec fn parsed_bracketed(s: Seq<char>) -> Option<CategoryIdView> {
        if s.len() >= 2 && s[0] == '[' && s[s.len() - 1] == ']' {
            match Self::parsed(s.subrange(1, s.len() - 1)) {
                Ok(c) => Some(c),
                Err(_) => None,
            }
        } else {
            None
        }
    }

    /// The text that the category is written with: the archive alone, or the
    /// archive, a dot and the subject.
    pub open spec fn text(self) -> Seq<char> {
        match self.subject {
            Some(s) => self.archive.name() + seq!['.'] + s,
            None => self.archive.name(),
        }
    }

    /// What validation lets through is well formed.
    pub proof fn lemma_made_wf(archive: Archive, subject: Seq<char>)
        ensures
            Self::made(archive, subject) matches Ok(c) ==> c.wf() && c.archive == archive,
    {
    }

    /// The text of a well-formed category starts with a letter and is made of
    /// letters, hyphens and dots.
    pub proof fn lemma_text_chars(self)
        requires
            self.wf(),
        ensures
            self.text().len() > 0,
            is_alpha(self.text()[0]),
            forall|i: int|
                0 <= i < self.text().len() ==> is_alpha(#[trigger] self.text()[i])
                    || self.text()[i] == '-' || self.text()[i] == '.',
    {
        let name = self.archive.name();
        let t = self.text();
        self.archive.lemma_name_is_word();
        match self.subject {
            Some(s) => {
                self.archive.lemma_subject_is_word(s);
                assert(t[0] == name[0]);
                assert forall|i: int| 0 <= i < t.len() implies is_alpha(#[trigger] t[i]) || t[i]
                    == '-' || t[i] == '.' by {
                    if i < name.len() {
                        assert(t[i] == name[i]);
                    } else if i > name.len() {
                        assert(t[i] == s[i - name.len() - 1]);
                    }
                }
            },
            None => {},
        }
    }

    /// Reading the text that a well-formed category is written with gives the
    /// category back.
    pub proof fn lemma_parsed_text(self)
        requires
            self.wf(),
        ensures
            Self::parsed(self.text()) == Ok::<CategoryIdView, CategoryIdErrorView>(self),
    {
        let name = self.archive.name();
        let t = self.text();
        self.archive.lemma_name_without_dot();
        self.archive.lemma_named_name();
        lemma_index_from_bounds(name, '.', 0);
        match self.subject {
            Some(s) => {
                assert forall|j: int| 0 <= j < name.len() implies t[j] != '.' by {
                    assert(t[j] == name[j]);
                }
                assert(t[name.len() as int] == '.');
                lemma_index_from(t, '.', 0, name.len() as int);
                assert(Self::archive_part(t) =~= name);
                assert(Self::subject_part(t) =~= s);
            },
            None => {
                assert(Self::archive_part(t) =~= name);
            },
        }
    }
}

impl<'a> CategoryId<'a> {
    /// A category of the given parts, taken as they are.
    pub fn new(group: Group, archive: Archive, subject: Option<&'a str>) -> (r: Self)
        ensures
            r@ == (CategoryIdView { group, archive, subject: text_of(subject) }),
    {
        CategoryId { group, archive, subject }
    }

    /// The category of `archive` and `subject`, if the archive takes the subject.
    /// An empty `subject` stands for none.
    pub fn try_new(archive: Archive, subject: &'a str) -> (r: Result<Self, CategoryIdError<'a>>)
        ensures
            outcome_view(r) == CategoryIdView::made(archive, subject@),
            r matches Ok(c) ==> c@.wf(),
    {
        let group = Group::from(archive);
        if subject.unicode_len() == 0 {
            if archive.has_no_subjects() || archive.can_omit_subjects() {
                Ok(CategoryId { group, archive, subject: None })
            } else {
                Err(CategoryIdError::ExpectedSubject)
            }
        } else if archive.has_no_subjects() {
            Err(CategoryIdError::ExpectedNoSubject)
        } else if archive.is_valid_subject(subject) {
            Ok(CategoryId { group, archive, subject: Some(subject) })
        } else {
            Err(CategoryIdError::InvalidArchiveSubject(archive, subject))
        }
    }

    /// Reads a category from `archive.subject` or `archive`. The text is split at
    /// its first dot.
    pub fn parse(s: &'a str) -> (r: Result<Self, CategoryIdError<'a>>)
        ensures
            outcome_view(r) == CategoryIdView::parsed(s@),
            r matches Ok(c) ==> c@.wf(),
    {
        let chars = chars_of(s);
        let n = chars.len();
        let dot = find_from(&chars, '.', 0);
        let archive_text = s.substring_char(0, dot);
        let subject_text = if dot < n {
            s.substring_char(dot + 1, n)
        } else {
            s.substring_char(n, n)
        };
        assert(subject_text@ =~= CategoryIdView::subject_part(s@));
        match Archive::parse(archive_text) {
            Ok(archive) => CategoryId::try_new(archive, subject_text),
            Err(_) => Err(CategoryIdError::InvalidArchive(archive_text)),
        }
    }

    /// Reads a category from a bracketed text like `[astro-ph.HE]`. Whatever is
    /// wrong with the text, the answer is `None`.
    pub fn parse_bracketed(s: &'a str) -> (r: Option<Self>)
        ensures
            match r {
                Some(c) => CategoryIdView::parsed_bracketed(s@) == Some(c@) && c@.wf(),
                None => CategoryIdView::parsed_bracketed(s@) is None,
            },
    {
        let n = s.unicode_len();
        if n >= 2 && s.get_char(0) == '[' && s.get_char(n - 1) == ']' {
            match CategoryId::parse(s.substring_char(1, n - 1)) {
                Ok(c) => Some(c),
                Err(_) => None,
            }
        } else {
            None
        }
    }

    /// Tells whether the category is one that validation lets through. A
    /// category that was made by `try_new` or read from a text always is.
    pub fn is_valid(&self) -> (r: bool)
        ensures
            r == self@.wf(),
    {
        if self.group != Group::from(self.archive) {
            return false;
        }
        match self.subject {
            Some(s) => {
                s.unicode_len() > 0 && !self.archive.has_no_subjects()
                    && self.archive.is_valid_subject(s)
            },
            None => self.archive.has_no_subjects() || self.archive.can_omit_subjects(),
        }
    }

    /// The group, which contains one or more archives.
    pub fn group(&self) -> (r: Group)
        ensures
            r == self@.group,
    {
        self.group
    }

    /// The archive, a collection of publications of one field of study.
    pub fn archive(&self) -> (r: Archive)
        ensures
            r == self@.archive,
    {
        self.archive
    }

    /// The subject class of the category, if it has one.
    pub fn subject(&self) -> (r: Option<&'a str>)
        ensures
            text_of(r) == self@.subject,
    {
        self.subject
    }

    /// The text that the category is written with.
    pub fn to_string(&self) -> (r: String)
        ensures
            r@ == self@.text(),
    {
        let mut out = self.archive.to_string();
        match self.subject {
            Some(s) => {
                out.append(".");
                out.append(s);
                proof {
                    reveal_strlit(".");
                    assert("."@ =~= seq!['.']);
                }
            },
            None => {},
        }
        out
    }
}

} // verus!
