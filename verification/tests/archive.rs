use arxiv::archive::{COMPSCI_TABLE, MATH_TABLE, PHYSICS_TABLE};
use arxiv::{Archive, Group};

const ALL: [Archive; 20] = [
    Archive::AstroPh,
    Archive::CondMat,
    Archive::Cs,
    Archive::Econ,
    Archive::Eess,
    Archive::GrQc,
    Archive::HepEx,
    Archive::HepLat,
    Archive::HepPh,
    Archive::HepTh,
    Archive::MathPh,
    Archive::Math,
    Archive::Nlin,
    Archive::NuclEx,
    Archive::NuclTh,
    Archive::Physics,
    Archive::QBio,
    Archive::QFin,
    Archive::QuantPh,
    Archive::Stat,
];

#[test]
fn test_contains_subject() {
    assert!(Archive::HepEx.contains_subjects());
    assert!(Archive::HepLat.contains_subjects());
    assert!(Archive::HepPh.contains_subjects());
    assert!(Archive::HepTh.contains_subjects());
    assert!(Archive::MathPh.contains_subjects());
    assert!(Archive::NuclEx.contains_subjects());
    assert!(Archive::NuclTh.contains_subjects());
    assert!(Archive::QuantPh.contains_subjects());
}

#[test]
fn archive_parse_archive() {
    let archive = Archive::parse("astro-ph");
    assert_eq!(archive, Ok(Archive::AstroPh));
}

#[test]
fn archive_url_from_id() {
    let id = Archive::AstroPh;
    let url = id.as_url().unwrap();

    assert_eq!(url.scheme(), "https");
    assert_eq!(url.domain(), Some("arxiv.org"));
    assert_eq!(url.path(), "/archive/astro-ph");
    assert_eq!(url.to_string(), "https://arxiv.org/archive/astro-ph");
}

#[test]
fn archive_url_string() {
    assert_eq!(Archive::QBio.url_string(), "https://arxiv.org/archive/q-bio");
    assert_eq!(Archive::Cs.as_url().unwrap().path(), "/archive/cs");
}

#[test]
fn archive_names_round_trip() {
    for archive in ALL {
        assert_eq!(Archive::parse(&archive.to_string()), Ok(archive));
        assert_eq!(Archive::parse(archive.as_str()), Ok(archive));
    }
}

#[test]
fn archive_names_are_exact() {
    assert_eq!(Archive::HepPh.to_string(), "hep-ph");
    assert_eq!(Archive::QuantPh.to_string(), "quant-ph");
    assert_eq!(Archive::parse("Astro-ph"), Err(()));
    assert_eq!(Archive::parse("astro-ph "), Err(()));
    assert_eq!(Archive::parse("astro"), Err(()));
    assert_eq!(Archive::parse("mathph"), Err(()));
    assert_eq!(Archive::parse(""), Err(()));
}

#[test]
fn archive_can_omit_subjects() {
    for archive in ALL {
        let may_omit = matches!(archive, Archive::Physics | Archive::CondMat);
        assert_eq!(archive.can_omit_subjects(), may_omit);
        assert_eq!(archive.contains_subjects(), !may_omit);
    }
}

#[test]
fn archive_has_no_subjects() {
    assert!(Archive::GrQc.has_no_subjects());
    assert!(Archive::QuantPh.has_no_subjects());
    assert!(!Archive::Cs.has_no_subjects());
    assert!(!Archive::CondMat.has_no_subjects());
}

#[test]
fn tables_are_sorted() {
    assert!(COMPSCI_TABLE.windows(2).all(|w| w[0] < w[1]));
    assert!(MATH_TABLE.windows(2).all(|w| w[0] < w[1]));
    assert!(PHYSICS_TABLE.windows(2).all(|w| w[0] < w[1]));
}

#[test]
fn search_agrees_with_scan() {
    for entry in COMPSCI_TABLE {
        assert!(Archive::Cs.is_valid_subject(entry));
    }
    for entry in MATH_TABLE {
        assert!(Archive::Math.is_valid_subject(entry));
    }
    for entry in PHYSICS_TABLE {
        assert!(Archive::Physics.is_valid_subject(entry));
    }
    for absent in ["", "A", "AA", "ZZ", "LGX", "lg", "optic", "opticss", "space-pi"] {
        assert_eq!(Archive::Cs.is_valid_subject(absent), COMPSCI_TABLE.contains(&absent));
        assert_eq!(Archive::Math.is_valid_subject(absent), MATH_TABLE.contains(&absent));
        assert_eq!(Archive::Physics.is_valid_subject(absent), PHYSICS_TABLE.contains(&absent));
        assert!(!Archive::Cs.is_valid_subject(absent));
        assert!(!Archive::Math.is_valid_subject(absent));
        assert!(!Archive::Physics.is_valid_subject(absent));
    }
    assert!(!Archive::Cs.is_valid_subject("optics"));
    assert!(!Archive::Physics.is_valid_subject("LG"));
}

#[test]
fn short_lists_of_subjects() {
    assert!(Archive::AstroPh.is_valid_subject("HE"));
    assert!(!Archive::AstroPh.is_valid_subject("LG"));
    assert!(Archive::CondMat.is_valid_subject("supr-con"));
    assert!(!Archive::CondMat.is_valid_subject(""));
    assert!(Archive::Econ.is_valid_subject("TH"));
    assert!(Archive::Eess.is_valid_subject("SY"));
    assert!(Archive::Nlin.is_valid_subject("PS"));
    assert!(Archive::QBio.is_valid_subject("CB"));
    assert!(Archive::QFin.is_valid_subject("SR"));
    assert!(Archive::Stat.is_valid_subject("ML"));
    assert!(!Archive::Stat.is_valid_subject("ml"));
}

#[test]
fn archives_without_subjects_take_the_empty_one() {
    for archive in ALL {
        if archive.has_no_subjects() {
            assert!(archive.is_valid_subject(""));
            assert!(!archive.is_valid_subject("th"));
        } else {
            assert!(!archive.is_valid_subject(""));
        }
    }
}

#[test]
fn group_group_from_archive() {
    let cat_id = Group::from(Archive::AstroPh);
    assert_eq!(cat_id, Group::Physics);
}

#[test]
fn category_group_from_archive() {
    let cat_id = Group::from(Archive::AstroPh);
    assert_eq!(cat_id, Group::Physics);
}

#[test]
fn category_parse_archive() {
    let archive = Archive::parse("astro-ph");
    assert_eq!(archive, Ok(Archive::AstroPh));
}

#[test]
fn category_url_from_id() {
    let id = Archive::AstroPh;
    let url = id.as_url().unwrap();
    assert_eq!(url.scheme(), "https");
    assert_eq!(url.domain(), Some("arxiv.org"));
    assert_eq!(url.path(), "/archive/astro-ph");
    assert_eq!(url.to_string(), "https://arxiv.org/archive/astro-ph");
}

#[test]
fn groups_of_all_archives() {
    assert_eq!(Group::from(Archive::Cs), Group::Cs);
    assert_eq!(Group::from(Archive::Econ), Group::Econ);
    assert_eq!(Group::from(Archive::Eess), Group::Eess);
    assert_eq!(Group::from(Archive::Math), Group::Math);
    assert_eq!(Group::from(Archive::QBio), Group::QBio);
    assert_eq!(Group::from(Archive::QFin), Group::QFin);
    assert_eq!(Group::from(Archive::Stat), Group::Stat);
    for archive in [
        Archive::AstroPh,
        Archive::CondMat,
        Archive::GrQc,
        Archive::HepEx,
        Archive::HepLat,
        Archive::HepPh,
        Archive::HepTh,
        Archive::MathPh,
        Archive::Nlin,
        Archive::NuclEx,
        Archive::NuclTh,
        Archive::Physics,
        Archive::QuantPh,
    ] {
        assert_eq!(Group::from(archive), Group::Physics);
    }
}
