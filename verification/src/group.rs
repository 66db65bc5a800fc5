//! The groups under which arXiv files its archives.

use vstd::prelude::*;
use crate::archive::Archive;

verus! {

/// A type of classification for arXiv publications, coarser than the archive.
#[derive(Debug, Clone, Copy, PartialEq, Eq, PartialOrd, Ord, Hash, Structural)]
pub enum Group {
    /// Computer Science
    Cs,
    /// Economics
    Econ,
    /// Electrical Engineering and Systems Science
    Eess,
    /// Mathematics
    Math,
    /// Physics
    Physics,
    /// Quantitative Biology
    QBio,
    /// Quantitative Finance
    QFin,
    /// Statistics
    Stat,
}

/// The group that an archive belongs to. Every archive of the physical sciences
/// falls under `Physics`.
pub open spec fn group_of(archive: Archive) -> Group {
    match archive {
        Archive::Cs => Group::Cs,
        Archive::Econ => Group::Econ,
        Archive::Eess => Group::Eess,
        Archive::Math => Group::Math,
        Archive::QBio => Group::QBio,
        Archive::QFin => Group::QFin,
        Archive::Stat => Group::Stat,
        _ => Group::Physics,
    }
}

impl From<Archive> for Group {
    fn from(archive: Archive) -> (r: Group) {
        match archive {
            Archive::Cs => Group::Cs,
            Archive::Econ => Group::Econ,
            Archive::Eess => Group::Eess,
            Archive::Math => Group::Math,
            Archive::AstroPh
            | Archive::CondMat
            | Archive::GrQc
            | Archive::HepEx
            | Archive::HepLat
            | Archive::HepPh
            | Archive::HepTh
            | Archive::MathPh
            | Archive::Nlin
            | Archive::NuclEx
            | Archive::NuclTh
            | Archive::Physics
            | Archive::QuantPh => Group::Physics,
            Archive::QBio => Group::QBio,
            Archive::QFin => Group::QFin,
            Archive::Stat => Group::Stat,
        }
    }
}

impl vstd::std_specs::convert::FromSpecImpl<Archive> for Group {
    open spec fn obeys_from_spec() -> bool {
        true
    }

    open spec fn from_spec(archive: Archive) -> Group {
        group_of(archive)
    }
}

} // verus!
