use arxiv::{ArticleIdError, ArticleIdErrorKind, ArticleIdV2, ArticleVersion};

#[test]
fn v2_with_version() {
    let id = ArticleIdV2::new_versioned(2007, 1, "0001", 1);
    assert_eq!(id.to_string(), "arXiv:0701.0001v1");
}

#[test]
fn with_version() {
    let id = ArticleIdV2::parse("arXiv:9912.12345v2");
    assert_eq!(id, Ok(ArticleIdV2::new(2099, 12, "12345", ArticleVersion::Num(2))))
}

#[test]
fn v2_without_version() {
    let id = ArticleIdV2::new_latest(2007, 1, "0001");
    assert_eq!(id.to_string(), "arXiv:0701.0001");
}

#[test]
fn without_version() {
    let id = ArticleIdV2::parse("arXiv:1501.00001");
    assert_eq!(id, Ok(ArticleIdV2::new_latest(2015, 1, "00001")));
}

#[test]
fn v2_from_readme() {
    let id = ArticleIdV2::parse("arXiv:0706.0001v1");
    assert_eq!(id, Ok(ArticleIdV2::new_versioned(2007, 6, "0001", 1)));
}

#[test]
fn v2_with_number_4_digits() {
    let id1 = ArticleIdV2::new_latest(2014, 1, "7878");
    assert_eq!(id1.to_string(), String::from("arXiv:1401.7878"));

    let id2 = ArticleIdV2::new_latest(2014, 12, "7878");
    assert_eq!(id2.to_string(), String::from("arXiv:1412.7878"));
}

#[test]
fn v2_with_number_5_digits() {
    let id1 = ArticleIdV2::new_latest(2014, 1, "00008");
    assert_eq!(id1.to_string(), String::from("arXiv:1401.00008"));

    let id2 = ArticleIdV2::new_latest(2014, 12, "00008");
    assert_eq!(id2.to_string(), String::from("arXiv:1412.00008"));
}

#[test]
fn v2_empty_string() {
    let id = ArticleIdV2::parse("");
    assert_eq!(id, Err(ArticleIdError(ArticleIdErrorKind::ExpectedPrefix)));
}

#[test]
fn no_number() {
    let id = ArticleIdV2::parse("arXiv:1501");
    assert_eq!(id, Err(ArticleIdError(ArticleIdErrorKind::ExpectedNumberV2)));
}

#[test]
fn v2_invalid_year() {
    let maybe_id = ArticleIdV2::try_latest(2006, 1, "00001");
    assert_eq!(maybe_id, Err(ArticleIdError(ArticleIdErrorKind::InvalidYear)));
}

#[test]
fn v2_invalid_month() {
    let maybe_id = ArticleIdV2::try_latest(2007, i8::MAX, "00001");
    assert_eq!(maybe_id, Err(ArticleIdError(ArticleIdErrorKind::InvalidMonth)));
}

#[test]
fn v2_invalid_id() {
    let maybe_id = ArticleIdV2::try_latest(2007, 11, "");

    assert_eq!(maybe_id, Err(ArticleIdError(ArticleIdErrorKind::InvalidId)));
}

#[test]
fn v2_url_from_id() {
    let id = ArticleIdV2::try_new(2007, 1, "00001", ArticleVersion::Latest).unwrap();
    let url = id.as_url().unwrap();

    assert_eq!(url.scheme(), "https");
    assert_eq!(url.domain(), Some("arxiv.org"));
    assert_eq!(url.path(), "/abs/0701.00001");
    assert_eq!(url.to_string(), "https://arxiv.org/abs/0701.00001");
}

#[test]
fn v2_url_with_version() {
    let id = ArticleIdV2::new_versioned(2020, 10, "14462", 2);
    assert_eq!(id.url_string(), "https://arxiv.org/abs/2010.14462v2");
    assert_eq!(id.as_url().unwrap().to_string(), "https://arxiv.org/abs/2010.14462v2");
}

#[test]
fn v2_parts() {
    let id = ArticleIdV2::parse("arXiv:2304.11188v1").unwrap();
    assert_eq!(id.year(), 2023);
    assert_eq!(id.month(), 4);
    assert_eq!(id.number(), "11188");
    assert_eq!(id.version(), ArticleVersion::Num(1));
    assert!(!id.is_latest());
    assert_eq!(id.as_unique_ident(), "2304.11188");
}

#[test]
fn v2_unique_ident() {
    let id = ArticleIdV2::new_versioned(2020, 10, "14462", 2);
    assert_eq!(id.as_unique_ident(), "2010.14462");
    let id = ArticleIdV2::new_latest(2007, 6, "0001");
    assert_eq!(id.as_unique_ident(), "0706.0001");
}

#[test]
fn v2_set_version() {
    let mut id = ArticleIdV2::parse("arXiv:2001.00001").unwrap();
    assert_eq!(id.version(), ArticleVersion::Latest);
    assert!(id.is_latest());

    id.set_version(1);
    assert_eq!(id.version(), ArticleVersion::Num(1));
    assert_eq!(id, ArticleIdV2::new_versioned(2020, 1, "00001", 1));

    id.set_latest();
    assert_eq!(id.version(), ArticleVersion::Latest);
    assert_eq!(id, ArticleIdV2::new_latest(2020, 1, "00001"));
}

#[test]
fn v2_year_bounds() {
    assert!(ArticleIdV2::try_latest(2007, 1, "0001").is_ok());
    assert!(ArticleIdV2::try_latest(2099, 1, "0001").is_ok());
    assert_eq!(
        ArticleIdV2::try_latest(2100, 1, "0001"),
        Err(ArticleIdError(ArticleIdErrorKind::InvalidYear))
    );
    assert_eq!(
        ArticleIdV2::parse("arXiv:0612.0001"),
        Err(ArticleIdError(ArticleIdErrorKind::InvalidYear))
    );
    assert_eq!(ArticleIdV2::parse("arXiv:0701.0001").unwrap().year(), 2007);
    assert_eq!(ArticleIdV2::parse("arXiv:9901.0001").unwrap().year(), 2099);
}

#[test]
fn v2_month_bounds() {
    assert!(ArticleIdV2::try_latest(2007, 1, "0001").is_ok());
    assert!(ArticleIdV2::try_latest(2007, 12, "0001").is_ok());
    for month in [0, 13, -1, i8::MIN] {
        assert_eq!(
            ArticleIdV2::try_latest(2007, month, "0001"),
            Err(ArticleIdError(ArticleIdErrorKind::InvalidMonth))
        );
    }
    assert_eq!(
        ArticleIdV2::parse("arXiv:0700.0001"),
        Err(ArticleIdError(ArticleIdErrorKind::InvalidMonth))
    );
    assert_eq!(
        ArticleIdV2::parse("arXiv:0713.0001"),
        Err(ArticleIdError(ArticleIdErrorKind::InvalidMonth))
    );
}

#[test]
fn v2_number_bounds() {
    for number in ["", "1", "123", "123456", "12a4", "1234x", " 1234", "１２３４"] {
        assert_eq!(
            ArticleIdV2::try_latest(2007, 1, number),
            Err(ArticleIdError(ArticleIdErrorKind::InvalidId))
        );
    }
    assert!(ArticleIdV2::try_latest(2007, 1, "1234").is_ok());
    assert!(ArticleIdV2::try_latest(2007, 1, "12345").is_ok());
}

#[test]
fn v2_year_is_checked_before_month_and_number() {
    assert_eq!(
        ArticleIdV2::try_latest(2006, 13, "x"),
        Err(ArticleIdError(ArticleIdErrorKind::InvalidYear))
    );
    assert_eq!(
        ArticleIdV2::try_latest(2007, 13, "x"),
        Err(ArticleIdError(ArticleIdErrorKind::InvalidMonth))
    );
}

#[test]
fn v2_parse_errors() {
    let err = |kind| Err(ArticleIdError(kind));
    assert_eq!(ArticleIdV2::parse("arxiv:1501.00001"), err(ArticleIdErrorKind::ExpectedPrefix));
    assert_eq!(ArticleIdV2::parse("arXiv1501.00001"), err(ArticleIdErrorKind::ExpectedPrefix));
    assert_eq!(ArticleIdV2::parse("1501.00001"), err(ArticleIdErrorKind::ExpectedPrefix));
    assert_eq!(
        ArticleIdV2::parse("arXiv:cond-mat/0001448v1"),
        err(ArticleIdErrorKind::ExpectedCategory)
    );
    assert_eq!(ArticleIdV2::parse("arXiv:"), err(ArticleIdErrorKind::InvalidYear));
    assert_eq!(ArticleIdV2::parse("arXiv:1"), err(ArticleIdErrorKind::InvalidYear));
    assert_eq!(ArticleIdV2::parse("arXiv:+501.00001"), err(ArticleIdErrorKind::InvalidYear));
    assert_eq!(ArticleIdV2::parse("arXiv:15"), err(ArticleIdErrorKind::InvalidMonth));
    assert_eq!(ArticleIdV2::parse("arXiv:15x1.00001"), err(ArticleIdErrorKind::InvalidMonth));
    assert_eq!(ArticleIdV2::parse("arXiv:150100001"), err(ArticleIdErrorKind::ExpectedDot));
    assert_eq!(ArticleIdV2::parse("arXiv:1501/00001"), err(ArticleIdErrorKind::ExpectedDot));
    assert_eq!(ArticleIdV2::parse("arXiv:1501."), err(ArticleIdErrorKind::ExpectedNumberV2));
    assert_eq!(ArticleIdV2::parse("arXiv:1501.123"), err(ArticleIdErrorKind::ExpectedNumberV2));
    assert_eq!(ArticleIdV2::parse("arXiv:1501.12a4"), err(ArticleIdErrorKind::ExpectedNumberV2));
    assert_eq!(ArticleIdV2::parse("arXiv:1501.123456"), err(ArticleIdErrorKind::InvalidVersion));
    assert_eq!(ArticleIdV2::parse("arXiv:1501.00001v"), err(ArticleIdErrorKind::InvalidVersion));
    assert_eq!(ArticleIdV2::parse("arXiv:1501.00001x"), err(ArticleIdErrorKind::InvalidVersion));
    assert_eq!(ArticleIdV2::parse("arXiv:1501.00001v256"), err(ArticleIdErrorKind::InvalidVersion));
}

#[test]
fn v2_fifth_digit_belongs_to_the_number() {
    let id = ArticleIdV2::parse("arXiv:1501.12345").unwrap();
    assert_eq!(id.number(), "12345");
    let id = ArticleIdV2::parse("arXiv:1501.1234v5").unwrap();
    assert_eq!(id.number(), "1234");
    assert_eq!(id.version(), ArticleVersion::Num(5));
}

#[test]
fn v2_round_trip() {
    for text in ["arXiv:0706.0001v1", "arXiv:1501.00001", "arXiv:9912.12345v255", "arXiv:2010.1446v0"] {
        let id = ArticleIdV2::parse(text).unwrap();
        assert_eq!(id.to_string(), text);
        assert_eq!(ArticleIdV2::parse(&id.to_string()), Ok(id));
    }
    for year in [2007i16, 2010, 2099] {
        for month in 1..=12i8 {
            for version in [ArticleVersion::Latest, ArticleVersion::Num(0), ArticleVersion::Num(12)] {
                for number in ["0000", "9999", "00000", "54321"] {
                    let id = ArticleIdV2::try_new(year, month, number, version).unwrap();
                    assert_eq!(ArticleIdV2::parse(&id.to_string()), Ok(id));
                }
            }
        }
    }
}
