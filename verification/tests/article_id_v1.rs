use arxiv::{
    Archive, ArticleIdError, ArticleIdErrorKind, ArticleIdV1, ArticleVersion, CategoryId, Group,
};

#[test]
fn from_gh_issue() {
    let s = "arXiv:cond-mat/0001448v1";
    assert_eq!(
        ArticleIdV1::parse(s),
        Ok(ArticleIdV1::new(
            CategoryId::new(Group::Physics, Archive::CondMat, None),
            2000,
            1,
            "448",
            ArticleVersion::Num(1u8),
        ))
    );
}

#[test]
fn v1_parts() {
    let id = ArticleIdV1::parse("arXiv:cond-mat/0001448v1").unwrap();
    assert_eq!(id.category(), CategoryId::try_new(Archive::CondMat, "").unwrap());
    assert_eq!(id.category().archive(), Archive::CondMat);
    assert_eq!(id.category().subject(), None);
    assert_eq!(id.year(), 2000);
    assert_eq!(id.month(), 1);
    assert_eq!(id.number(), "448");
    assert_eq!(id.version(), ArticleVersion::Num(1));
    assert_eq!(id.as_unique_ident(), "0001448");
}

#[test]
fn v1_with_subject() {
    let id = ArticleIdV1::parse("arXiv:math.GT/0309136").unwrap();
    assert_eq!(id.category(), CategoryId::try_new(Archive::Math, "GT").unwrap());
    assert_eq!(id.year(), 2003);
    assert_eq!(id.month(), 9);
    assert_eq!(id.number(), "136");
    assert_eq!(id.version(), ArticleVersion::Latest);
}

#[test]
fn v1_display_forms() {
    let id = ArticleIdV1::parse("arXiv:cond-mat/0001448v1").unwrap();
    assert_eq!(id.to_string(), "cond-mat/0001448");
    assert_eq!(id.to_full_string(), "arXiv:cond-mat/0001448v1");

    let id = ArticleIdV1::parse("arXiv:math.GT/0309136").unwrap();
    assert_eq!(id.to_string(), "mathGT/0309136");
    assert_eq!(id.to_full_string(), "arXiv:math.GT/0309136");
}

#[test]
fn v1_year_rollover() {
    assert_eq!(ArticleIdV1::parse("arXiv:hep-th/9108001").unwrap().year(), 1991);
    assert_eq!(ArticleIdV1::parse("arXiv:hep-th/9912001").unwrap().year(), 1999);
    assert_eq!(ArticleIdV1::parse("arXiv:hep-th/0001001").unwrap().year(), 2000);
    assert_eq!(ArticleIdV1::parse("arXiv:hep-th/0703001").unwrap().year(), 2007);
}

#[test]
fn v1_year_bounds() {
    let category = CategoryId::try_new(Archive::HepTh, "").unwrap();
    let err = |kind| Err(ArticleIdError(kind));
    assert!(ArticleIdV1::try_new(category, 1991, 1, "001", ArticleVersion::Latest).is_ok());
    assert!(ArticleIdV1::try_new(category, 2007, 1, "001", ArticleVersion::Latest).is_ok());
    assert_eq!(
        ArticleIdV1::try_new(category, 2008, 1, "001", ArticleVersion::Latest),
        err(ArticleIdErrorKind::InvalidYear)
    );
    assert_eq!(
        ArticleIdV1::try_new(category, 1990, 1, "001", ArticleVersion::Latest),
        err(ArticleIdErrorKind::InvalidYear)
    );
    assert_eq!(
        ArticleIdV1::parse("arXiv:hep-th/0801001"),
        err(ArticleIdErrorKind::InvalidYear)
    );
    assert_eq!(
        ArticleIdV1::parse("arXiv:hep-th/9001001"),
        err(ArticleIdErrorKind::InvalidYear)
    );
}

#[test]
fn v1_month_and_number_bounds() {
    let category = CategoryId::try_new(Archive::HepTh, "").unwrap();
    let err = |kind| Err(ArticleIdError(kind));
    for month in [0, 13] {
        assert_eq!(
            ArticleIdV1::try_new(category, 2000, month, "001", ArticleVersion::Latest),
            err(ArticleIdErrorKind::InvalidMonth)
        );
    }
    for number in ["", "01", "0001", "0a1", "   "] {
        assert_eq!(
            ArticleIdV1::try_new(category, 2000, 1, number, ArticleVersion::Latest),
            err(ArticleIdErrorKind::ExpectedNumberV1)
        );
    }
}

#[test]
fn v1_parse_errors() {
    let err = |kind| Err(ArticleIdError(kind));
    assert_eq!(ArticleIdV1::parse(""), err(ArticleIdErrorKind::ExpectedPrefix));
    assert_eq!(ArticleIdV1::parse("cond-mat/0001448"), err(ArticleIdErrorKind::ExpectedPrefix));
    assert_eq!(ArticleIdV1::parse("arXiv:0706.0001"), err(ArticleIdErrorKind::ExpectedCategory));
    assert_eq!(ArticleIdV1::parse("arXiv:"), err(ArticleIdErrorKind::ExpectedCategory));
    assert_eq!(ArticleIdV1::parse("arXiv:cond-mat"), err(ArticleIdErrorKind::ExpectedSlash));
    assert_eq!(ArticleIdV1::parse("arXiv:cond/0001448"), err(ArticleIdErrorKind::ExpectedCategory));
    assert_eq!(ArticleIdV1::parse("arXiv:cs/0001448"), err(ArticleIdErrorKind::ExpectedCategory));
    assert_eq!(ArticleIdV1::parse("arXiv:cond-mat/"), err(ArticleIdErrorKind::InvalidYear));
    assert_eq!(ArticleIdV1::parse("arXiv:cond-mat/x001448"), err(ArticleIdErrorKind::InvalidYear));
    assert_eq!(ArticleIdV1::parse("arXiv:cond-mat/00"), err(ArticleIdErrorKind::InvalidMonth));
    assert_eq!(ArticleIdV1::parse("arXiv:cond-mat/0001"), err(ArticleIdErrorKind::ExpectedNumberV1));
    assert_eq!(
        ArticleIdV1::parse("arXiv:cond-mat/000144"),
        err(ArticleIdErrorKind::ExpectedNumberV1)
    );
    assert_eq!(
        ArticleIdV1::parse("arXiv:cond-mat/0001.448"),
        err(ArticleIdErrorKind::ExpectedNumberV1)
    );
    assert_eq!(
        ArticleIdV1::parse("arXiv:cond-mat/00014489"),
        err(ArticleIdErrorKind::InvalidVersion)
    );
    assert_eq!(
        ArticleIdV1::parse("arXiv:cond-mat/0013448"),
        err(ArticleIdErrorKind::InvalidMonth)
    );
}

#[test]
fn v1_set_version() {
    let mut id = ArticleIdV1::parse("arXiv:cond-mat/0001448").unwrap();
    assert_eq!(id.version(), ArticleVersion::Latest);
    id.set_version(3);
    assert_eq!(id.version(), ArticleVersion::Num(3));
    assert_eq!(id.to_full_string(), "arXiv:cond-mat/0001448v3");
    id.set_latest();
    assert_eq!(id.version(), ArticleVersion::Latest);
}
