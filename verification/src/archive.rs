//! The archives of arXiv, their names and the subjects each of them holds.

use vstd::prelude::*;
use vstd::string::*;
use crate::link::{is_absolute_url, parse_url};
use crate::order::{
    ascending, holds, lemma_stepwise_ascending, precedes_from, search, stepwise_ascending,
};
use crate::text::{chars_of, first_index, index_from, is_alpha, same_text};

verus! {

/// A collection of publications that relate under the same field of study.
#[derive(Debug, Clone, Copy, PartialEq, Eq, PartialOrd, Ord, Hash, Structural)]
pub enum Archive {
    /// Astrophysics (`astro-ph`)
    AstroPh,
    /// Condensed Matter (`cond-mat`)
    CondMat,
    /// Computer Science (`cs`)
    Cs,
    /// Economics (`econ`)
    Econ,
    /// Electrical Engineering and Systems Science (`eess`)
    Eess,
    /// General Relativity and Quantum Cosmology (`gr-qc`)
    GrQc,
    /// High Energy Physics - Experiment (`hep-ex`)
    HepEx,
    /// High Energy Physics - Lattice (`hep-lat`)
    HepLat,
    /// High Energy Physics - Phenomenology (`hep-ph`)
    HepPh,
    /// High Energy Physics - Theory (`hep-th`)
    HepTh,
    /// Mathematical Physics (`math-ph`)
    MathPh,
    /// Mathematics (`math`)
    Math,
    /// Nonlinear Sciences (`nlin`)
    Nlin,
    /// Nuclear Experiment (`nucl-ex`)
    NuclEx,
    /// Nuclear Theory (`nucl-th`)
    NuclTh,
    /// Physics (`physics`)
    Physics,
    /// Quantitative Biology (`q-bio`)
    QBio,
    /// Quantitative Finance (`q-fin`)
    QFin,
    /// Quantum Physics (`quant-ph`)
    QuantPh,
    /// Statistics (`stat`)
    Stat,
}

/// The subjects of computer science, in ascending order.
pub const COMPSCI_TABLE: [&'static str; 39] = [
    "AI", "AR", "CC", "CE", "CG", "CL", "CR", "CV", "CY", "DB", "DC", "DL", "DM", "DS", "ET",
    "FL", "GL", "GR", "GT", "HC", "IR", "IT", "LG", "LO", "MA", "MM", "MS", "NA", "NI", "OH",
    "OS", "PF", "PL", "RO", "SC", "SD", "SE", "SI", "SY",
];

/// The subjects of mathematics, in ascending order.
pub const MATH_TABLE: [&'static str; 32] = [
    "AC", "AG", "AP", "AT", "CA", "CO", "CT", "CV", "DG", "DS", "FA", "GM", "GN", "GR", "GT",
    "HO", "IT", "KT", "LO", "MG", "MP", "NA", "NT", "OA", "OC", "PR", "QA", "RA", "RT", "SG",
    "SP", "ST",
];

/// The subjects of physics, in ascending order.
pub const PHYSICS_TABLE: [&'static str; 22] = [
    "acc-ph", "ao-ph", "app-ph", "atm-clus", "atom-ph", "bio-ph", "chem-ph", "class-ph",
    "comp-ph", "data-an", "ed-pn", "flu-dyn", "gen-ph", "geo-ph", "hist-ph", "ins-det",
    "med-ph", "optics", "plasm-ph", "pop-ph", "soc-ph", "space-ph",
];

/// Every character of `s` is an ASCII letter or a hyphen.
pub open spec fn is_word(s: Seq<char>) -> bool {
    forall|i: int| 0 <= i < s.len() ==> is_alpha(#[trigger] s[i]) || s[i] == '-'
}

/// Every entry of `table` is made of letters and hyphens.
pub open spec fn words(table: Seq<&'static str>) -> bool {
    forall|i: int| 0 <= i < table.len() ==> is_word((#[trigger] table[i])@)
}

/// The table of computer science subjects is sorted, each entry coming strictly
/// before every later one, and its entries are made of letters and hyphens.
pub proof fn lemma_compsci_table()
    ensures
        ascending(COMPSCI_TABLE@),
        words(COMPSCI_TABLE@),
{
    reveal_strlit("AI");
    reveal_strlit("AR");
    reveal_strlit("CC");
    reveal_strlit("CE");
    reveal_strlit("CG");
    reveal_strlit("CL");
    reveal_strlit("CR");
    reveal_strlit("CV");
    reveal_strlit("CY");
    reveal_strlit("DB");
    reveal_strlit("DC");
    reveal_strlit("DL");
    reveal_strlit("DM");
    reveal_strlit("DS");
    reveal_strlit("ET");
    reveal_strlit("FL");
    reveal_strlit("GL");
    reveal_strlit("GR");
    reveal_strlit("GT");
    reveal_strlit("HC");
    reveal_strlit("IR");
    reveal_strlit("IT");
    reveal_strlit("LG");
    reveal_strlit("LO");
    reveal_strlit("MA");
    reveal_strlit("MM");
    reveal_strlit("MS");
    reveal_strlit("NA");
    reveal_strlit("NI");
    reveal_strlit("OH");
    reveal_strlit("OS");
    reveal_strlit("PF");
    reveal_strlit("PL");
    reveal_strlit("RO");
    reveal_strlit("SC");
    reveal_strlit("SD");
    reveal_strlit("SE");
    reveal_strlit("SI");
    reveal_strlit("SY");
    reveal_with_fuel(precedes_from, 3);
    assert(stepwise_ascending(COMPSCI_TABLE@));
    lemma_stepwise_ascending(COMPSCI_TABLE@);
}

/// The table of mathematics subjects is sorted, each entry coming strictly
/// before every later one, and its entries are made of letters and hyphens.
pub proof fn lemma_math_table()
    ensures
        ascending(MATH_TABLE@),
        words(MATH_TABLE@),
{
    reveal_strlit("AC");
    reveal_strlit("AG");
    reveal_strlit("AP");
    reveal_strlit("AT");
    reveal_strlit("CA");
    reveal_strlit("CO");
    reveal_strlit("CT");
    reveal_strlit("CV");
    reveal_strlit("DG");
    reveal_strlit("DS");
    reveal_strlit("FA");
    reveal_strlit("GM");
    reveal_strlit("GN");
    reveal_strlit("GR");
    reveal_strlit("GT");
    reveal_strlit("HO");
    reveal_strlit("IT");
    reveal_strlit("KT");
    reveal_strlit("LO");
    reveal_strlit("MG");
    reveal_strlit("MP");
    reveal_strlit("NA");
    reveal_strlit("NT");
    reveal_strlit("OA");
    reveal_strlit("OC");
    reveal_strlit("PR");
    reveal_strlit("QA");
    reveal_strlit("RA");
    reveal_strlit("RT");
    reveal_strlit("SG");
    reveal_strlit("SP");
    reveal_strlit("ST");
    reveal_with_fuel(precedes_from, 3);
    assert(stepwise_ascending(MATH_TABLE@));
    lemma_stepwise_ascending(MATH_TABLE@);
}

/// The table of physics subjects is sorted, each entry coming strictly
/// before every later one, and its entries are made of letters and hyphens.
pub proof fn lemma_physics_table()
    ensures
        ascending(PHYSICS_TABLE@),
        words(PHYSICS_TABLE@),
{
    reveal_strlit("acc-ph");
    reveal_strlit("ao-ph");
    reveal_strlit("app-ph");
    reveal_strlit("atm-clus");
    reveal_strlit("atom-ph");
    reveal_strlit("bio-ph");
    reveal_strlit("chem-ph");
    reveal_strlit("class-ph");
    reveal_strlit("comp-ph");
    reveal_strlit("data-an");
    reveal_strlit("ed-pn");
    reveal_strlit("flu-dyn");
    reveal_strlit("gen-ph");
    reveal_strlit("geo-ph");
    reveal_strlit("hist-ph");
    reveal_strlit("ins-det");
    reveal_strlit("med-ph");
    reveal_strlit("optics");
    reveal_strlit("plasm-ph");
    reveal_strlit("pop-ph");
    reveal_strlit("soc-ph");
    reveal_strlit("space-ph");
    reveal_with_fuel(precedes_from, 4);
    assert(stepwise_ascending(PHYSICS_TABLE@));
    lemma_stepwise_ascending(PHYSICS_TABLE@);
}

impl Archive {
    /// The name of the archive as arXiv writes it: lower case, with hyphens.
    pub open spec fn name(self) -> Seq<char> {
        match self {
            Archive::AstroPh => "astro-ph"@,
            Archive::CondMat => "cond-mat"@,
            Archive::Cs => "cs"@,
            Archive::Econ => "econ"@,
            Archive::Eess => "eess"@,
            Archive::GrQc => "gr-qc"@,
            Archive::HepEx => "hep-ex"@,
            Archive::HepLat => "hep-lat"@,
            Archive::HepPh => "hep-ph"@,
            Archive::HepTh => "hep-th"@,
            Archive::MathPh => "math-ph"@,
            Archive::Math => "math"@,
            Archive::Nlin => "nlin"@,
            Archive::NuclEx => "nucl-ex"@,
            Archive::NuclTh => "nucl-th"@,
            Archive::Physics => "physics"@,
            Archive::QBio => "q-bio"@,
            Archive::QFin => "q-fin"@,
            Archive::QuantPh => "quant-ph"@,
            Archive::Stat => "stat"@,
        }
    }

    /// The archive that `s` names, if it is exactly the name of one. Case counts
    /// and nothing is trimmed.
    pub open spec fn named(s: Seq<char>) -> Option<Archive> {
        if s == "astro-ph"@ {
            Some(Archive::AstroPh)
        } else if s == "cond-mat"@ {
            Some(Archive::CondMat)
        } else if s == "cs"@ {
            Some(Archive::Cs)
        } else if s == "econ"@ {
            Some(Archive::Econ)
        } else if s == "eess"@ {
            Some(Archive::Eess)
        } else if s == "gr-qc"@ {
            Some(Archive::GrQc)
        } else if s == "hep-ex"@ {
            Some(Archive::HepEx)
        } else if s == "hep-lat"@ {
            Some(Archive::HepLat)
        } else if s == "hep-ph"@ {
            Some(Archive::HepPh)
        } else if s == "hep-th"@ {
            Some(Archive::HepTh)
        } else if s == "math-ph"@ {
            Some(Archive::MathPh)
        } else if s == "math"@ {
            Some(Archive::Math)
        } else if s == "nlin"@ {
            Some(Archive::Nlin)
        } else if s == "nucl-ex"@ {
            Some(Archive::NuclEx)
        } else if s == "nucl-th"@ {
            Some(Archive::NuclTh)
        } else if s == "physics"@ {
            Some(Archive::Physics)
        } else if s == "q-bio"@ {
            Some(Archive::QBio)
        } else if s == "q-fin"@ {
            Some(Archive::QFin)
        } else if s == "quant-ph"@ {
            Some(Archive::QuantPh)
        } else if s == "stat"@ {
            Some(Archive::Stat)
        } else {
            None
        }
    }

    /// The archive has no subjects of its own: the only subject it takes is the
    /// empty one.
    pub open spec fn takes_only_empty_subject(self) -> bool {
        self is GrQc || self is HepEx || self is HepLat || self is HepPh || self is HepTh
            || self is MathPh || self is NuclEx || self is NuclTh || self is QuantPh
    }

    /// The archive has subjects, and a category in it may still go without one.
    pub open spec fn may_omit_subject(self) -> bool {
        self is Physics || self is CondMat
    }

    /// `s` is a subject of this archive. For the archives without subjects that
    /// is the empty text alone; for the others, one of the codes of their list.
    pub open spec fn valid_subject(self, s: Seq<char>) -> bool {
        match self {
            Archive::AstroPh => {
                s == "CO"@ || s == "EP"@ || s == "GA"@ || s == "HE"@ || s == "IM"@
                    || s == "SR"@
            },
            Archive::CondMat => {
                s == "dis-nn"@ || s == "mes-hall"@ || s == "mtrl-sci"@ || s == "other"@
                    || s == "quant-gas"@ || s == "soft"@ || s == "stat-mech"@ || s == "str-el"@
                    || s == "supr-con"@
            },
            Archive::Cs => holds(COMPSCI_TABLE@, s),
            Archive::Econ => {
                s == "EM"@ || s == "GN"@ || s == "TH"@
            },
            Archive::Eess => {
                s == "AS"@ || s == "IV"@ || s == "SP"@ || s == "SY"@
            },
            Archive::GrQc => s.len() == 0,
            Archive::HepEx => s.len() == 0,
            Archive::HepLat => s.len() == 0,
            Archive::HepPh => s.len() == 0,
            Archive::HepTh => s.len() == 0,
            Archive::MathPh => s.len() == 0,
            Archive::Math => holds(MATH_TABLE@, s),
            Archive::Nlin => {
                s == "AO"@ || s == "CD"@ || s == "CG"@ || s == "PS"@ || s == "SI"@
            },
            Archive::NuclEx => s.len() == 0,
            Archive::NuclTh => s.len() == 0,
            Archive::Physics => holds(PHYSICS_TABLE@, s),
            Archive::QBio => {
                s == "BM"@ || s == "CB"@ || s == "GN"@ || s == "MN"@ || s == "NC"@
                    || s == "OT"@ || s == "PE"@ || s == "QM"@ || s == "SC"@ || s == "TO"@
            },
            Archive::QFin => {
                s == "CP"@ || s == "EC"@ || s == "GN"@ || s == "MF"@ || s == "PM"@
                    || s == "PR"@ || s == "RM"@ || s == "ST"@ || s == "SR"@
            },
            Archive::QuantPh => s.len() == 0,
            Archive::Stat => {
                s == "AP"@ || s == "CO"@ || s == "ME"@ || s == "ML"@ || s == "OT"@
                    || s == "TH"@
            },
        }
    }

    /// Tells whether `subject` is a subject of this archive. The three long lists
    /// are searched by bisection; that they are sorted is proved, so the search
    /// finds exactly what a scan would.
    pub fn is_valid_subject(&self, subject: &str) -> (r: bool)
        ensures
            r == self.valid_subject(subject@),
    {
        let word = chars_of(subject);
        match self {
            Archive::AstroPh => {
                same_text(&word, "CO") || same_text(&word, "EP") || same_text(&word, "GA")
                    || same_text(&word, "HE") || same_text(&word, "IM")
                    || same_text(&word, "SR")
            },
            Archive::CondMat => {
                same_text(&word, "dis-nn") || same_text(&word, "mes-hall")
                    || same_text(&word, "mtrl-sci") || same_text(&word, "other")
                    || same_text(&word, "quant-gas") || same_text(&word, "soft")
                    || same_text(&word, "stat-mech") || same_text(&word, "str-el")
                    || same_text(&word, "supr-con")
            },
            Archive::Cs => {
                proof {
                    lemma_compsci_table();
                }
                search(&COMPSCI_TABLE, &word)
            },
            Archive::Econ => {
                same_text(&word, "EM") || same_text(&word, "GN") || same_text(&word, "TH")
            },
            Archive::Eess => {
                same_text(&word, "AS") || same_text(&word, "IV") || same_text(&word, "SP")
                    || same_text(&word, "SY")
            },
            Archive::GrQc => word.len() == 0,
            Archive::HepEx => word.len() == 0,
            Archive::HepLat => word.len() == 0,
            Archive::HepPh => word.len() == 0,
            Archive::HepTh => word.len() == 0,
            Archive::MathPh => word.len() == 0,
            Archive::Math => {
                proof {
                    lemma_math_table();
                }
                search(&MATH_TABLE, &word)
            },
            Archive::Nlin => {
                same_text(&word, "AO") || same_text(&word, "CD") || same_text(&word, "CG")
                    || same_text(&word, "PS") || same_text(&word, "SI")
            },
            Archive::NuclEx => word.len() == 0,
            Archive::NuclTh => word.len() == 0,
            Archive::Physics => {
                proof {
                    lemma_physics_table();
                }
                search(&PHYSICS_TABLE, &word)
            },
            Archive::QBio => {
                same_text(&word, "BM") || same_text(&word, "CB") || same_text(&word, "GN")
                    || same_text(&word, "MN") || same_text(&word, "NC")
                    || same_text(&word, "OT") || same_text(&word, "PE")
                    || same_text(&word, "QM") || same_text(&word, "SC")
                    || same_text(&word, "TO")
            },
            Archive::QFin => {
                same_text(&word, "CP") || same_text(&word, "EC") || same_text(&word, "GN")
                    || same_text(&word, "MF") || same_text(&word, "PM")
                    || same_text(&word, "PR") || same_text(&word, "RM")
                    || same_text(&word, "ST") || same_text(&word, "SR")
            },
            Archive::QuantPh => word.len() == 0,
            Archive::Stat => {
                same_text(&word, "AP") || same_text(&word, "CO") || same_text(&word, "ME")
                    || same_text(&word, "ML") || same_text(&word, "OT")
                    || same_text(&word, "TH")
            },
        }
    }

    /// Tells whether a category of this archive always passes a subject check that
    /// cannot be skipped: true of every archive but the two that may omit the
    /// subject.
    pub fn contains_subjects(&self) -> (r: bool)
        ensures
            r == !self.may_omit_subject(),
    {
        match self {
            Archive::Physics | Archive::CondMat => false,
            _ => true,
        }
    }

    /// Tells whether a category of this archive may go without a subject although
    /// the archive has subjects.
    pub fn can_omit_subjects(&self) -> (r: bool)
        ensures
            r == self.may_omit_subject(),
    {
        match self {
            Archive::Physics | Archive::CondMat => true,
            _ => false,
        }
    }

    /// Tells whether the archive takes the empty subject and no other.
    pub fn has_no_subjects(&self) -> (r: bool)
        ensures
            r == self.takes_only_empty_subject(),
    {
        match self {
            Archive::GrQc
            | Archive::HepEx
            | Archive::HepLat
            | Archive::HepPh
            | Archive::HepTh
            | Archive::MathPh
            | Archive::NuclEx
            | Archive::NuclTh
            | Archive::QuantPh => true,
            _ => false,
        }
    }

    /// The name of the archive.
    pub fn as_str(&self) -> (r: &'static str)
        ensures
            r@ == self.name(),
    {
        match self {
            Archive::AstroPh => "astro-ph",
            Archive::CondMat => "cond-mat",
            Archive::Cs => "cs",
            Archive::Econ => "econ",
            Archive::Eess => "eess",
            Archive::GrQc => "gr-qc",
            Archive::HepEx => "hep-ex",
            Archive::HepLat => "hep-lat",
            Archive::HepPh => "hep-ph",
            Archive::HepTh => "hep-th",
            Archive::MathPh => "math-ph",
            Archive::Math => "math",
            Archive::Nlin => "nlin",
            Archive::NuclEx => "nucl-ex",
            Archive::NuclTh => "nucl-th",
            Archive::Physics => "physics",
            Archive::QBio => "q-bio",
            Archive::QFin => "q-fin",
            Archive::QuantPh => "quant-ph",
            Archive::Stat => "stat",
        }
    }

    /// The name of the archive, as an owned text.
    pub fn to_string(&self) -> (r: String)
        ensures
            r@ == self.name(),
    {
        String::from_str(self.as_str())
    }

    /// The address of the page of the archive on arxiv.org.
    pub open spec fn url_text(self) -> Seq<char> {
        "https://arxiv.org/archive/"@ + self.name()
    }

    /// The address of the page of the archive on arxiv.org, as a text.
    pub fn url_string(&self) -> (r: String)
        ensures
            r@ == self.url_text(),
    {
        let mut out = String::from_str("https://arxiv.org/archive/");
        out.append(self.as_str());
        out
    }

    /// The address of the page of the archive on arxiv.org, as a URL: `None`
    /// where the `url` crate does not take the text of the address for one.
    pub fn as_url(&self) -> (r: Option<url::Url>)
        ensures
            r is Some <==> is_absolute_url(self.url_text()),
    {
        let text = self.url_string();
        parse_url(text.as_str())
    }

    /// Reads the name of an archive. The text must be the name exactly.
    pub fn parse(s: &str) -> (r: Result<Archive, ()>)
        ensures
            r == match Archive::named(s@) {
                Some(a) => Ok::<Archive, ()>(a),
                None => Err(()),
            },
    {
        let word = chars_of(s);
        if same_text(&word, "astro-ph") {
            Ok(Archive::AstroPh)
        } else if same_text(&word, "cond-mat") {
            Ok(Archive::CondMat)
        } else if same_text(&word, "cs") {
            Ok(Archive::Cs)
        } else if same_text(&word, "econ") {
            Ok(Archive::Econ)
        } else if same_text(&word, "eess") {
            Ok(Archive::Eess)
        } else if same_text(&word, "gr-qc") {
            Ok(Archive::GrQc)
        } else if same_text(&word, "hep-ex") {
            Ok(Archive::HepEx)
        } else if same_text(&word, "hep-lat") {
            Ok(Archive::HepLat)
        } else if same_text(&word, "hep-ph") {
            Ok(Archive::HepPh)
        } else if same_text(&word, "hep-th") {
            Ok(Archive::HepTh)
        } else if same_text(&word, "math-ph") {
            Ok(Archive::MathPh)
        } else if same_text(&word, "math") {
            Ok(Archive::Math)
        } else if same_text(&word, "nlin") {
            Ok(Archive::Nlin)
        } else if same_text(&word, "nucl-ex") {
            Ok(Archive::NuclEx)
        } else if same_text(&word, "nucl-th") {
            Ok(Archive::NuclTh)
        } else if same_text(&word, "physics") {
            Ok(Archive::Physics)
        } else if same_text(&word, "q-bio") {
            Ok(Archive::QBio)
        } else if same_text(&word, "q-fin") {
            Ok(Archive::QFin)
        } else if same_text(&word, "quant-ph") {
            Ok(Archive::QuantPh)
        } else if same_text(&word, "stat") {
            Ok(Archive::Stat)
        } else {
            Err(())
        }
    }

    /// Reading the name that an archive is written with gives the archive back.
    pub proof fn lemma_named_name(self)
        ensures
            Archive::named(self.name()) == Some(self),
    {
        Archive::lemma_names();
    }

    /// No name of an archive is empty or holds a dot.
    pub proof fn lemma_name_without_dot(self)
        ensures
            first_index(self.name(), '.') == self.name().len(),
            self.name().len() > 0,
    {
        Archive::lemma_names();
        reveal_with_fuel(index_from, 10);
    }

    /// The name of an archive is made of letters and hyphens and starts with a
    /// letter.
    pub proof fn lemma_name_is_word(self)
        ensures
            is_word(self.name()),
            self.name().len() > 0,
            is_alpha(self.name()[0]),
    {
        Archive::lemma_names();
    }

    /// A subject of an archive is made of letters and hyphens.
    pub proof fn lemma_subject_is_word(self, s: Seq<char>)
        requires
            self.valid_subject(s),
        ensures
            is_word(s),
    {
        match self {
            Archive::Cs => {
                lemma_compsci_table();
            },
            Archive::Math => {
                lemma_math_table();
            },
            Archive::Physics => {
                lemma_physics_table();
            },
            _ => {
                reveal_strlit("CO");
                reveal_strlit("EP");
                reveal_strlit("GA");
                reveal_strlit("HE");
                reveal_strlit("IM");
                reveal_strlit("SR");
                reveal_strlit("dis-nn");
                reveal_strlit("mes-hall");
                reveal_strlit("mtrl-sci");
                reveal_strlit("other");
                reveal_strlit("quant-gas");
                reveal_strlit("soft");
                reveal_strlit("stat-mech");
                reveal_strlit("str-el");
                reveal_strlit("supr-con");
                reveal_strlit("EM");
                reveal_strlit("GN");
                reveal_strlit("TH");
                reveal_strlit("AS");
                reveal_strlit("IV");
                reveal_strlit("SP");
                reveal_strlit("SY");
                reveal_strlit("AO");
                reveal_strlit("CD");
                reveal_strlit("CG");
                reveal_strlit("PS");
                reveal_strlit("SI");
                reveal_strlit("BM");
                reveal_strlit("CB");
                reveal_strlit("MN");
                reveal_strlit("NC");
                reveal_strlit("OT");
                reveal_strlit("PE");
                reveal_strlit("QM");
                reveal_strlit("SC");
                reveal_strlit("TO");
                reveal_strlit("CP");
                reveal_strlit("EC");
                reveal_strlit("MF");
                reveal_strlit("PM");
                reveal_strlit("PR");
                reveal_strlit("RM");
                reveal_strlit("ST");
                reveal_strlit("AP");
                reveal_strlit("ME");
                reveal_strlit("ML");
            },
        }
    }

    /// The length and the characters of each of the twenty names.
    pub proof fn lemma_names()
        ensures
            "astro-ph"@.len() == 8 && "astro-ph"@[0] == 'a' && "astro-ph"@[1] == 's'
                && "astro-ph"@[2] == 't' && "astro-ph"@[3] == 'r' && "astro-ph"@[4] == 'o'
                && "astro-ph"@[5] == '-' && "astro-ph"@[6] == 'p' && "astro-ph"@[7] == 'h',
            "cond-mat"@.len() == 8 && "cond-mat"@[0] == 'c' && "cond-mat"@[1] == 'o'
                && "cond-mat"@[2] == 'n' && "cond-mat"@[3] == 'd' && "cond-mat"@[4] == '-'
                && "cond-mat"@[5] == 'm' && "cond-mat"@[6] == 'a' && "cond-mat"@[7] == 't',
            "cs"@.len() == 2 && "cs"@[0] == 'c' && "cs"@[1] == 's',
            "econ"@.len() == 4 && "econ"@[0] == 'e' && "econ"@[1] == 'c' && "econ"@[2] == 'o'
                && "econ"@[3] == 'n',
            "eess"@.len() == 4 && "eess"@[0] == 'e' && "eess"@[1] == 'e' && "eess"@[2] == 's'
                && "eess"@[3] == 's',
            "gr-qc"@.len() == 5 && "gr-qc"@[0] == 'g' && "gr-qc"@[1] == 'r'
                && "gr-qc"@[2] == '-' && "gr-qc"@[3] == 'q' && "gr-qc"@[4] == 'c',
            "hep-ex"@.len() == 6 && "hep-ex"@[0] == 'h' && "hep-ex"@[1] == 'e'
                && "hep-ex"@[2] == 'p' && "hep-ex"@[3] == '-' && "hep-ex"@[4] == 'e'
                && "hep-ex"@[5] == 'x',
            "hep-lat"@.len() == 7 && "hep-lat"@[0] == 'h' && "hep-lat"@[1] == 'e'
                && "hep-lat"@[2] == 'p' && "hep-lat"@[3] == '-' && "hep-lat"@[4] == 'l'
                && "hep-lat"@[5] == 'a' && "hep-lat"@[6] == 't',
            "hep-ph"@.len() == 6 && "hep-ph"@[0] == 'h' && "hep-ph"@[1] == 'e'
                && "hep-ph"@[2] == 'p' && "hep-ph"@[3] == '-' && "hep-ph"@[4] == 'p'
                && "hep-ph"@[5] == 'h',
            "hep-th"@.len() == 6 && "hep-th"@[0] == 'h' && "hep-th"@[1] == 'e'
                && "hep-th"@[2] == 'p' && "hep-th"@[3] == '-' && "hep-th"@[4] == 't'
                && "hep-th"@[5] == 'h',
            "math-ph"@.len() == 7 && "math-ph"@[0] == 'm' && "math-ph"@[1] == 'a'
                && "math-ph"@[2] == 't' && "math-ph"@[3] == 'h' && "math-ph"@[4] == '-'
                && "math-ph"@[5] == 'p' && "math-ph"@[6] == 'h',
            "math"@.len() == 4 && "math"@[0] == 'm' && "math"@[1] == 'a' && "math"@[2] == 't'
                && "math"@[3] == 'h',
            "nlin"@.len() == 4 && "nlin"@[0] == 'n' && "nlin"@[1] == 'l' && "nlin"@[2] == 'i'
                && "nlin"@[3] == 'n',
            "nucl-ex"@.len() == 7 && "nucl-ex"@[0] == 'n' && "nucl-ex"@[1] == 'u'
                && "nucl-ex"@[2] == 'c' && "nucl-ex"@[3] == 'l' && "nucl-ex"@[4] == '-'
                && "nucl-ex"@[5] == 'e' && "nucl-ex"@[6] == 'x',
            "nucl-th"@.len() == 7 && "nucl-th"@[0] == 'n' && "nucl-th"@[1] == 'u'
                && "nucl-th"@[2] == 'c' && "nucl-th"@[3] == 'l' && "nucl-th"@[4] == '-'
                && "nucl-th"@[5] == 't' && "nucl-th"@[6] == 'h',
            "physics"@.len() == 7 && "physics"@[0] == 'p' && "physics"@[1] == 'h'
                && "physics"@[2] == 'y' && "physics"@[3] == 's' && "physics"@[4] == 'i'
                && "physics"@[5] == 'c' && "physics"@[6] == 's',
            "q-bio"@.len() == 5 && "q-bio"@[0] == 'q' && "q-bio"@[1] == '-'
                && "q-bio"@[2] == 'b' && "q-bio"@[3] == 'i' && "q-bio"@[4] == 'o',
            "q-fin"@.len() == 5 && "q-fin"@[0] == 'q' && "q-fin"@[1] == '-'
                && "q-fin"@[2] == 'f' && "q-fin"@[3] == 'i' && "q-fin"@[4] == 'n',
            "quant-ph"@.len() == 8 && "quant-ph"@[0] == 'q' && "quant-ph"@[1] == 'u'
                && "quant-ph"@[2] == 'a' && "quant-ph"@[3] == 'n' && "quant-ph"@[4] == 't'
                && "quant-ph"@[5] == '-' && "quant-ph"@[6] == 'p' && "quant-ph"@[7] == 'h',
            "stat"@.len() == 4 && "stat"@[0] == 's' && "stat"@[1] == 't' && "stat"@[2] == 'a'
                && "stat"@[3] == 't',
    {
        reveal_strlit("astro-ph");
        reveal_strlit("cond-mat");
        reveal_strlit("cs");
        reveal_strlit("econ");
        reveal_strlit("eess");
        reveal_strlit("gr-qc");
        reveal_strlit("hep-ex");
        reveal_strlit("hep-lat");
        reveal_strlit("hep-ph");
        reveal_strlit("hep-th");
        reveal_strlit("math-ph");
        reveal_strlit("math");
        reveal_strlit("nlin");
        reveal_strlit("nucl-ex");
        reveal_strlit("nucl-th");
        reveal_strlit("physics");
        reveal_strlit("q-bio");
        reveal_strlit("q-fin");
        reveal_strlit("quant-ph");
        reveal_strlit("stat");
    }
}

} // verus!
