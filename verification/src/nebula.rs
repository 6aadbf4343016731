//! Nebulae: the kinds of static deep-space terrain and their names.

use vstd::prelude::*;

verus! {

/// One of each is generated per galaxy; the order is stable generation order.
#[derive(Debug, Clone, Copy, PartialEq, Eq, PartialOrd, Ord, Structural)]
pub enum NebulaKind {
    MolecularCloud,
    IonNebula,
    DustCloud,
    SupernovaRemnant,
    PrecursorCloud,
}

impl NebulaKind {
    /// Every nebula kind, in generation order.
    pub const ALL: [NebulaKind; 5] = [
        NebulaKind::MolecularCloud,
        NebulaKind::IonNebula,
        NebulaKind::DustCloud,
        NebulaKind::SupernovaRemnant,
        NebulaKind::PrecursorCloud,
    ];

    /// The region's proper name.
    pub fn title(self) -> (s: &'static str)
        ensures
            s@ == match self {
                NebulaKind::MolecularCloud => "Nacre Molecular Cloud"@,
                NebulaKind::IonNebula => "Vesper Ion Nebula"@,
                NebulaKind::DustCloud => "Obsidian Dust Cloud"@,
                NebulaKind::SupernovaRemnant => "Cinderwake Remnant"@,
                NebulaKind::PrecursorCloud => "Orison Precursor Cloud"@,
            },
    {
        match self {
            NebulaKind::MolecularCloud => "Nacre Molecular Cloud",
            NebulaKind::IonNebula => "Vesper Ion Nebula",
            NebulaKind::DustCloud => "Obsidian Dust Cloud",
            NebulaKind::SupernovaRemnant => "Cinderwake Remnant",
            NebulaKind::PrecursorCloud => "Orison Precursor Cloud",
        }
    }
}

} // verus!
