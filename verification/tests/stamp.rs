use arxiv::{
    Archive, ArticleId, ArticleIdError, ArticleIdErrorKind, CategoryId, Date, Stamp, StampError,
};

fn date(year: i16, month: i8, day: i8) -> Date {
    Date::new(year, month, day).unwrap()
}

#[test]
fn display_stamp() {
    let stamp = Stamp::new(
        ArticleId::parse("arXiv:2011.00001").unwrap(),
        CategoryId::try_new(Archive::Cs, "LG").unwrap(),
        date(2011, 1, 1),
    );
    assert_eq!(stamp.to_string(), "arXiv:2011.00001 [cs.LG] 1 Jan 2011");
}

#[test]
fn parse_stamp() {
    let stamp = "arXiv:2001.00001 [cs.LG] 1 Jan 2000";
    let parsed = Stamp::parse(stamp);
    assert_eq!(
        parsed,
        Ok(Stamp::new(
            ArticleId::parse("arXiv:2001.00001").unwrap(),
            CategoryId::try_new(Archive::Cs, "LG").unwrap(),
            date(2000, 1, 1)
        ))
    );
}

#[test]
fn parse_stamp_readme() {
    let stamp = "arXiv:0706.0001v1 [q-bio.CB] 1 Jun 2007";
    let parsed = Stamp::parse(stamp);

    assert_eq!(
        parsed,
        Ok(Stamp::new(
            ArticleId::parse("arXiv:0706.0001v1").unwrap(),
            CategoryId::try_new(Archive::QBio, "CB").unwrap(),
            date(2007, 6, 1)
        ))
    )
}

#[test]
fn parse_stamp_empty() {
    let stamp = "";
    let parsed = Stamp::parse(stamp);
    assert_eq!(parsed, Err(StampError::NotEnoughComponents));
}

#[test]
fn parse_stamp_not_enough_components() {
    let stamp = "arXiv:2001.00001";
    let parsed = Stamp::parse(stamp);
    assert_eq!(parsed, Err(StampError::NotEnoughComponents));
}

#[test]
fn parse_stamp_invalid_category() {
    let stamp = "arXiv:2001.00001 [cs.LG 1 Jan 2000";
    let parsed = Stamp::parse(stamp);
    assert_eq!(parsed, Err(StampError::InvalidCategory));
}

#[test]
fn parse_stamp_invalid_date_day() {
    let stamp = "arXiv:2001.00001 [cs.LG] 32 Jan 2000";
    let parsed = Stamp::parse(stamp);
    assert_eq!(parsed, Err(StampError::InvalidDate));
}

#[test]
fn parse_stamp_invalid_date_month() {
    let stamp = "arXiv:2001.00001 [cs.LG] 1 Zan 2000";
    let parsed = Stamp::parse(stamp);
    assert_eq!(parsed, Err(StampError::InvalidDate));
}

#[test]
fn stamp_readme_parts_and_round_trip() {
    let text = "arXiv:0706.0001v1 [q-bio.CB] 1 Jun 2007";
    let stamp = Stamp::parse(text).unwrap();
    assert_eq!(stamp.id, ArticleId::new_versioned(2007, 6, "0001", 1));
    assert_eq!(stamp.category, CategoryId::try_new(Archive::QBio, "CB").unwrap());
    assert_eq!(stamp.submitted.year(), 2007);
    assert_eq!(stamp.submitted.month(), 6);
    assert_eq!(stamp.submitted.day(), 1);
    assert_eq!(stamp.to_string(), text);
}

#[test]
fn stamp_with_old_identifier_round_trips() {
    let text = "arXiv:cond-mat/0001448v1 [cond-mat.str-el] 31 Jan 2000";
    let stamp = Stamp::parse(text).unwrap();
    assert_eq!(stamp.to_string(), text);
    assert_eq!(Stamp::parse(&stamp.to_string()), Ok(stamp.clone()));
}

#[test]
fn stamp_error_precedence() {
    assert_eq!(Stamp::parse("x y"), Err(StampError::NotEnoughComponents));
    assert_eq!(Stamp::parse("bad [bad]"), Err(StampError::NotEnoughComponents));
    assert_eq!(
        Stamp::parse("bad [bad] bad"),
        Err(StampError::InvalidArxivId(ArticleIdError(ArticleIdErrorKind::ExpectedPrefix)))
    );
    assert_eq!(
        Stamp::parse("arXiv:1501 [bad] bad"),
        Err(StampError::InvalidArxivId(ArticleIdError(ArticleIdErrorKind::ExpectedNumberV2)))
    );
    assert_eq!(Stamp::parse("arXiv:2001.00001 [bad] bad"), Err(StampError::InvalidCategory));
    assert_eq!(Stamp::parse("arXiv:2001.00001 cs.LG 1 Jan 2000"), Err(StampError::InvalidCategory));
    assert_eq!(Stamp::parse("arXiv:2001.00001  [cs.LG] 1 Jan 2000"), Err(StampError::InvalidCategory));
    assert_eq!(Stamp::parse("arXiv:2001.00001 [cs.LG] bad"), Err(StampError::InvalidDate));
    assert_eq!(Stamp::parse("arXiv:2001.00001 [cs.LG] "), Err(StampError::InvalidDate));
}

#[test]
fn stamp_date_grammar() {
    let with_date = |d: &str| Stamp::parse(&format!("arXiv:2001.00001 [cs.LG] {d}")).map(|_| ());
    assert_eq!(with_date("1 Jan 2000"), Ok(()));
    assert_eq!(with_date("31 Dec 1999"), Ok(()));
    assert_eq!(with_date("29 Feb 2000"), Ok(()));
    assert_eq!(with_date("29 Feb 2004"), Ok(()));
    assert_eq!(with_date("29 Feb 1900"), Err(StampError::InvalidDate));
    assert_eq!(with_date("29 Feb 2001"), Err(StampError::InvalidDate));
    assert_eq!(with_date("30 Feb 2000"), Err(StampError::InvalidDate));
    assert_eq!(with_date("31 Apr 2000"), Err(StampError::InvalidDate));
    assert_eq!(with_date("0 Jan 2000"), Err(StampError::InvalidDate));
    assert_eq!(with_date("01 Jan 2000"), Err(StampError::InvalidDate));
    assert_eq!(with_date("1 jan 2000"), Err(StampError::InvalidDate));
    assert_eq!(with_date("1 JAN 2000"), Err(StampError::InvalidDate));
    assert_eq!(with_date("1 January 2000"), Err(StampError::InvalidDate));
    assert_eq!(with_date("1 Jan 200"), Err(StampError::InvalidDate));
    assert_eq!(with_date("1 Jan 20000"), Err(StampError::InvalidDate));
    assert_eq!(with_date("1 Jan 2000 "), Err(StampError::InvalidDate));
    assert_eq!(with_date("1  Jan 2000"), Err(StampError::InvalidDate));
    assert_eq!(with_date("100 Jan 2000"), Err(StampError::InvalidDate));
    assert_eq!(with_date("1 Jan"), Err(StampError::InvalidDate));
}

#[test]
fn dates_of_the_calendar() {
    assert!(Date::new(2024, 2, 29).is_some());
    assert!(Date::new(2023, 2, 29).is_none());
    assert!(Date::new(2000, 12, 31).is_some());
    assert!(Date::new(2000, 11, 31).is_none());
    assert!(Date::new(2000, 13, 1).is_none());
    assert!(Date::new(2000, 0, 1).is_none());
    assert!(Date::new(2000, 1, 0).is_none());
    assert!(Date::new(2000, 1, 32).is_none());
    assert!(Date::new(9999, 12, 31).is_some());
    assert!(Date::new(10000, 1, 1).is_none());
    assert!(Date::new(-9999, 1, 1).is_some());
    assert!(Date::new(-10000, 1, 1).is_none());
    let d = date(2007, 6, 1);
    assert_eq!((d.year(), d.month(), d.day()), (2007, 6, 1));
}

#[test]
fn dates_are_written_without_padding() {
    assert_eq!(date(2007, 6, 1).to_string(), "1 Jun 2007");
    assert_eq!(date(2011, 12, 25).to_string(), "25 Dec 2011");
    assert_eq!(date(987, 3, 9).to_string(), "9 Mar 0987");
    assert_eq!(arxiv::date::parse_date("9 Mar 0987"), Some(date(987, 3, 9)));
    for month in 1..=12i8 {
        let d = date(2001, month, 28);
        assert_eq!(arxiv::date::parse_date(&d.to_string()), Some(d));
    }
}

#[test]
fn stamp_error_messages() {
    assert_eq!(StampError::InvalidDate.to_string(), "Invalid date");
    assert_eq!(StampError::InvalidCategory.to_string(), "Invalid category");
    assert_eq!(StampError::NotEnoughComponents.to_string(), "Not enough components");
    assert_eq!(
        StampError::InvalidArxivId(ArticleIdError(ArticleIdErrorKind::InvalidYear)).to_string(),
        "Invalid arXiv ID: A valid year must be be between 2007 and 2099."
    );
}

#[test]
fn validity_of_stamps() {
    let stamp = Stamp::parse("arXiv:0706.0001v1 [q-bio.CB] 1 Jun 2007").unwrap();
    assert!(stamp.is_valid());
    let before_year_zero = Stamp::new(stamp.id, stamp.category, date(-1, 6, 1));
    assert!(!before_year_zero.is_valid());
    let unchecked_id = Stamp::new(
        ArticleId::new_latest(2006, 1, "0001"),
        stamp.category,
        stamp.submitted,
    );
    assert!(!unchecked_id.is_valid());
}
