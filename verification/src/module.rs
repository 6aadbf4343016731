//! Ship modules: the equipment catalog, its one-to-one counter matrix, and the
//! canonical loadout a hull carries, with its `+`-joined wire key.
//!
//! A loadout is stored in canonical form (sorted by module order, duplicates
//! kept), so two fits with the same modules are the same value whatever order
//! they were listed in, and the key of a loadout parses back to it.

use vstd::prelude::*;

use crate::ship::{ShipKind, spec_fitting_points, spec_module_slots};
use crate::text::str_eq;
use vstd::string::StrSliceExecFns;

verus! {

/// Sol sells module crates in convoy batches of this many.
pub const MODULE_CONVOY_BERTHS: u32 = 12;

/// The three damage types a weapon deals. Each has exactly one counter.
#[derive(Debug, Clone, Copy, PartialEq, Eq, Hash, Structural)]
pub enum DamageType {
    /// Laser clusters, countered by Reflective Plating.
    Beam,
    /// Mass-driver slugs, countered by Whipple Armor.
    Driver,
    /// Torpedoes, countered by point-defense interception.
    Torpedo,
}

/// One equipment module.
#[derive(Debug, Clone, Copy, PartialEq, Eq, PartialOrd, Ord, Hash, Structural)]
pub enum ModuleKind {
    MassDriver,
    TorpedoRack,
    PointDefenseScreen,
    ReflectivePlating,
    WhippleArmor,
}

/// Every module kind, in a fixed deterministic order.
pub const MODULE_KINDS: [ModuleKind; 5] = [
    ModuleKind::MassDriver,
    ModuleKind::TorpedoRack,
    ModuleKind::PointDefenseScreen,
    ModuleKind::ReflectivePlating,
    ModuleKind::WhippleArmor,
];

/// Module families: the axes hull affinities scale.
#[derive(Debug, Clone, Copy, PartialEq, Eq, Structural)]
pub enum Family {
    Beam,
    Driver,
    Torpedo,
    Interception,
    Protection,
}

/// A module's position in the canonical (declaration) order.
pub open spec fn rank(k: ModuleKind) -> nat {
    match k {
        ModuleKind::MassDriver => 0,
        ModuleKind::TorpedoRack => 1,
        ModuleKind::PointDefenseScreen => 2,
        ModuleKind::ReflectivePlating => 3,
        ModuleKind::WhippleArmor => 4,
    }
}

/// A module's stable wire slug.
pub open spec fn slug_text(k: ModuleKind) -> Seq<char> {
    match k {
        ModuleKind::MassDriver => "mass_driver"@,
        ModuleKind::TorpedoRack => "torpedo_rack"@,
        ModuleKind::PointDefenseScreen => "point_defense_screen"@,
        ModuleKind::ReflectivePlating => "reflective_plating"@,
        ModuleKind::WhippleArmor => "whipple_armor"@,
    }
}

/// The module a slug names, if any.
pub open spec fn slug_module(t: Seq<char>) -> Option<ModuleKind> {
    if t == slug_text(ModuleKind::MassDriver) {
        Some(ModuleKind::MassDriver)
    } else if t == slug_text(ModuleKind::TorpedoRack) {
        Some(ModuleKind::TorpedoRack)
    } else if t == slug_text(ModuleKind::PointDefenseScreen) {
        Some(ModuleKind::PointDefenseScreen)
    } else if t == slug_text(ModuleKind::ReflectivePlating) {
        Some(ModuleKind::ReflectivePlating)
    } else if t == slug_text(ModuleKind::WhippleArmor) {
        Some(ModuleKind::WhippleArmor)
    } else {
        None
    }
}

/// A module's fitting-point cost.
pub open spec fn spec_fitting_cost(k: ModuleKind) -> u32 {
    match k {
        ModuleKind::MassDriver => 2,
        ModuleKind::TorpedoRack => 3,
        ModuleKind::PointDefenseScreen => 2,
        ModuleKind::ReflectivePlating => 2,
        ModuleKind::WhippleArmor => 3,
    }
}

/// A module's family.
pub open spec fn spec_family(k: ModuleKind) -> Family {
    match k {
        ModuleKind::MassDriver => Family::Driver,
        ModuleKind::TorpedoRack => Family::Torpedo,
        ModuleKind::PointDefenseScreen => Family::Interception,
        ModuleKind::ReflectivePlating | ModuleKind::WhippleArmor => Family::Protection,
    }
}

impl ModuleKind {
    /// Stable wire slug.
    pub fn slug(self) -> (s: &'static str)
        ensures
            s@ == slug_text(self),
    {
        match self {
            ModuleKind::MassDriver => "mass_driver",
            ModuleKind::TorpedoRack => "torpedo_rack",
            ModuleKind::PointDefenseScreen => "point_defense_screen",
            ModuleKind::ReflectivePlating => "reflective_plating",
            ModuleKind::WhippleArmor => "whipple_armor",
        }
    }

    /// The module whose slug is `s`, if any.
    pub fn from_slug(s: &str) -> (r: Option<Self>)
        ensures
            r == slug_module(s@),
    {
        if str_eq(s, "mass_driver") {
            Some(ModuleKind::MassDriver)
        } else if str_eq(s, "torpedo_rack") {
            Some(ModuleKind::TorpedoRack)
        } else if str_eq(s, "point_defense_screen") {
            Some(ModuleKind::PointDefenseScreen)
        } else if str_eq(s, "reflective_plating") {
            Some(ModuleKind::ReflectivePlating)
        } else if str_eq(s, "whipple_armor") {
            Some(ModuleKind::WhippleArmor)
        } else {
            None
        }
    }

    /// The human label.
    pub fn label(self) -> (s: &'static str)
        ensures
            s@ == match self {
                ModuleKind::MassDriver => "Mass Driver"@,
                ModuleKind::TorpedoRack => "Torpedo Rack"@,
                ModuleKind::PointDefenseScreen => "Point-Defense Screen"@,
                ModuleKind::ReflectivePlating => "Reflective Plating"@,
                ModuleKind::WhippleArmor => "Whipple Armor"@,
            },
    {
        match self {
            ModuleKind::MassDriver => "Mass Driver",
            ModuleKind::TorpedoRack => "Torpedo Rack",
            ModuleKind::PointDefenseScreen => "Point-Defense Screen",
            ModuleKind::ReflectivePlating => "Reflective Plating",
            ModuleKind::WhippleArmor => "Whipple Armor",
        }
    }

    /// Is this a weapon module (one that decides the ship's offense type)?
    pub fn is_weapon(self) -> (r: bool)
        ensures
            r == (self == ModuleKind::MassDriver || self == ModuleKind::TorpedoRack
                || self == ModuleKind::PointDefenseScreen),
    {
        match self {
            ModuleKind::MassDriver | ModuleKind::TorpedoRack | ModuleKind::PointDefenseScreen => true,
            _ => false,
        }
    }

    /// The module's fitting-point cost.
    pub fn fitting_cost(self) -> (c: u32)
        ensures
            c == spec_fitting_cost(self),
    {
        match self {
            ModuleKind::MassDriver => 2,
            ModuleKind::TorpedoRack => 3,
            ModuleKind::PointDefenseScreen => 2,
            ModuleKind::ReflectivePlating => 2,
            ModuleKind::WhippleArmor => 3,
        }
    }

    /// The module's family (the axis hull affinities key on).
    pub fn family(self) -> (f: Family)
        ensures
            f == spec_family(self),
    {
        match self {
            ModuleKind::MassDriver => Family::Driver,
            ModuleKind::TorpedoRack => Family::Torpedo,
            ModuleKind::PointDefenseScreen => Family::Interception,
            ModuleKind::ReflectivePlating | ModuleKind::WhippleArmor => Family::Protection,
        }
    }
}

/// The weapon family of a damage type.
pub fn weapon_family(ty: DamageType) -> (f: Family)
    ensures
        f == match ty {
            DamageType::Beam => Family::Beam,
            DamageType::Driver => Family::Driver,
            DamageType::Torpedo => Family::Torpedo,
        },
{
    match ty {
        DamageType::Beam => Family::Beam,
        DamageType::Driver => Family::Driver,
        DamageType::Torpedo => Family::Torpedo,
    }
}

// ----------------------------------------------------------------------------
// Counting and canonical order
// ----------------------------------------------------------------------------

/// How many times `k` occurs in `s`.
pub open spec fn occurrences(s: Seq<ModuleKind>, k: ModuleKind) -> nat
    decreases s.len(),
{
    if s.len() == 0 {
        0
    } else {
        occurrences(s.drop_last(), k) + if s.last() == k { 1nat } else { 0nat }
    }
}

/// `n` copies of `k`.
pub open spec fn copies(n: nat, k: ModuleKind) -> Seq<ModuleKind> {
    Seq::new(n, |i: int| k)
}

/// The canonical arrangement of a module list: every module in declaration
/// order, each repeated as often as it occurs.
pub open spec fn canonical(s: Seq<ModuleKind>) -> Seq<ModuleKind> {
    copies(occurrences(s, ModuleKind::MassDriver), ModuleKind::MassDriver)
        + copies(occurrences(s, ModuleKind::TorpedoRack), ModuleKind::TorpedoRack)
        + copies(occurrences(s, ModuleKind::PointDefenseScreen), ModuleKind::PointDefenseScreen)
        + copies(occurrences(s, ModuleKind::ReflectivePlating), ModuleKind::ReflectivePlating)
        + copies(occurrences(s, ModuleKind::WhippleArmor), ModuleKind::WhippleArmor)
}

/// Sorted by module order.
pub open spec fn is_sorted(s: Seq<ModuleKind>) -> bool {
    forall|i: int, j: int| 0 <= i < j < s.len() ==> rank(s[i]) <= rank(s[j])
}

/// Same modules with the same multiplicities.
pub open spec fn same_modules(a: Seq<ModuleKind>, b: Seq<ModuleKind>) -> bool {
    forall|k: ModuleKind| occurrences(a, k) == occurrences(b, k)
}

proof fn lemma_occurrences_concat(a: Seq<ModuleKind>, b: Seq<ModuleKind>, k: ModuleKind)
    ensures
        occurrences(a + b, k) == occurrences(a, k) + occurrences(b, k),
    decreases b.len(),
{
    if b.len() == 0 {
        assert(a + b =~= a);
    } else {
        lemma_occurrences_concat(a, b.drop_last(), k);
        assert((a + b).drop_last() =~= a + b.drop_last());
    }
}

proof fn lemma_occurrences_copies(n: nat, j: ModuleKind, k: ModuleKind)
    ensures
        occurrences(copies(n, j), k) == if j == k { n } else { 0 },
    decreases n,
{
    if n > 0 {
        lemma_occurrences_copies((n - 1) as nat, j, k);
        assert(copies(n, j).drop_last() =~= copies((n - 1) as nat, j));
    }
}

proof fn lemma_occurrences_push(s: Seq<ModuleKind>, x: ModuleKind, k: ModuleKind)
    ensures
        occurrences(s.push(x), k) == occurrences(s, k) + if x == k { 1nat } else { 0nat },
{
    assert(s.push(x).drop_last() =~= s);
}

/// The canonical arrangement is a sorted permutation of its input.
pub proof fn lemma_canonical_is_sorted_permutation(s: Seq<ModuleKind>)
    ensures
        is_sorted(canonical(s)),
        same_modules(canonical(s), s),
        canonical(s).len() == s.len(),
{
    let a = copies(occurrences(s, ModuleKind::MassDriver), ModuleKind::MassDriver);
    let b = copies(occurrences(s, ModuleKind::TorpedoRack), ModuleKind::TorpedoRack);
    let c = copies(occurrences(s, ModuleKind::PointDefenseScreen), ModuleKind::PointDefenseScreen);
    let d = copies(occurrences(s, ModuleKind::ReflectivePlating), ModuleKind::ReflectivePlating);
    let e = copies(occurrences(s, ModuleKind::WhippleArmor), ModuleKind::WhippleArmor);
    let t = canonical(s);
    assert(t == a + b + c + d + e);
    assert forall|k: ModuleKind| occurrences(t, k) == occurrences(s, k) by {
        lemma_occurrences_concat(a + b + c + d, e, k);
        lemma_occurrences_concat(a + b + c, d, k);
        lemma_occurrences_concat(a + b, c, k);
        lemma_occurrences_concat(a, b, k);
        lemma_occurrences_copies(occurrences(s, ModuleKind::MassDriver), ModuleKind::MassDriver, k);
        lemma_occurrences_copies(occurrences(s, ModuleKind::TorpedoRack), ModuleKind::TorpedoRack, k);
        lemma_occurrences_copies(occurrences(s, ModuleKind::PointDefenseScreen), ModuleKind::PointDefenseScreen, k);
        lemma_occurrences_copies(occurrences(s, ModuleKind::ReflectivePlating), ModuleKind::ReflectivePlating, k);
        lemma_occurrences_copies(occurrences(s, ModuleKind::WhippleArmor), ModuleKind::WhippleArmor, k);
    }
    assert forall|i: int, j: int| 0 <= i < j < t.len() implies rank(t[i]) <= rank(t[j]) by {
        let la = a.len() as int;
        let lb = la + b.len();
        let lc = lb + c.len();
        let ld = lc + d.len();
        assert(0 <= i < la ==> t[i] == ModuleKind::MassDriver);
        assert(la <= i < lb ==> t[i] == ModuleKind::TorpedoRack);
        assert(lb <= i < lc ==> t[i] == ModuleKind::PointDefenseScreen);
        assert(lc <= i < ld ==> t[i] == ModuleKind::ReflectivePlating);
        assert(ld <= i ==> t[i] == ModuleKind::WhippleArmor);
        assert(0 <= j < la ==> t[j] == ModuleKind::MassDriver);
        assert(la <= j < lb ==> t[j] == ModuleKind::TorpedoRack);
        assert(lb <= j < lc ==> t[j] == ModuleKind::PointDefenseScreen);
        assert(lc <= j < ld ==> t[j] == ModuleKind::ReflectivePlating);
        assert(ld <= j ==> t[j] == ModuleKind::WhippleArmor);
    }
    lemma_len_is_sum_of_occurrences(s);
}

proof fn lemma_len_is_sum_of_occurrences(s: Seq<ModuleKind>)
    ensures
        s.len() == occurrences(s, ModuleKind::MassDriver) + occurrences(s, ModuleKind::TorpedoRack)
            + occurrences(s, ModuleKind::PointDefenseScreen) + occurrences(s, ModuleKind::ReflectivePlating)
            + occurrences(s, ModuleKind::WhippleArmor),
    decreases s.len(),
{
    if s.len() > 0 {
        lemma_len_is_sum_of_occurrences(s.drop_last());
    }
}

/// Canonicalisation only looks at which modules occur and how often: two lists
/// with the same modules canonicalise identically, whatever their order.
pub proof fn canonical_is_order_insensitive(a: Seq<ModuleKind>, b: Seq<ModuleKind>)
    requires
        same_modules(a, b),
    ensures
        canonical(a) == canonical(b),
{
    assert(occurrences(a, ModuleKind::MassDriver) == occurrences(b, ModuleKind::MassDriver));
    assert(occurrences(a, ModuleKind::TorpedoRack) == occurrences(b, ModuleKind::TorpedoRack));
    assert(occurrences(a, ModuleKind::PointDefenseScreen) == occurrences(b, ModuleKind::PointDefenseScreen));
    assert(occurrences(a, ModuleKind::ReflectivePlating) == occurrences(b, ModuleKind::ReflectivePlating));
    assert(occurrences(a, ModuleKind::WhippleArmor) == occurrences(b, ModuleKind::WhippleArmor));
}

/// Canonicalising twice is canonicalising once.
pub proof fn canonical_is_idempotent(s: Seq<ModuleKind>)
    ensures
        canonical(canonical(s)) == canonical(s),
{
    lemma_canonical_is_sorted_permutation(s);
    canonical_is_order_insensitive(canonical(s), s);
}

// ----------------------------------------------------------------------------
// The wire key
// ----------------------------------------------------------------------------

/// The `+`-joined slugs of a module list (`""` for an empty one).
pub open spec fn key_text(s: Seq<ModuleKind>) -> Seq<char>
    decreases s.len(),
{
    if s.len() == 0 {
        Seq::empty()
    } else if s.len() == 1 {
        slug_text(s[0])
    } else {
        key_text(s.drop_last()) + seq!['+'] + slug_text(s.last())
    }
}

/// Split a text on `+`, keeping empty pieces (as `str::split` does).
pub open spec fn split_plus(t: Seq<char>) -> Seq<Seq<char>>
    decreases t.len(),
{
    if t.len() == 0 {
        seq![Seq::empty()]
    } else if t.last() == '+' {
        split_plus(t.drop_last()).push(Seq::empty())
    } else {
        let p = split_plus(t.drop_last());
        p.update(p.len() - 1, p.last().push(t.last()))
    }
}

/// The modules the pieces name, unknown pieces dropped, in piece order.
pub open spec fn named_modules(pieces: Seq<Seq<char>>) -> Seq<ModuleKind>
    decreases pieces.len(),
{
    if pieces.len() == 0 {
        Seq::empty()
    } else {
        let rest = named_modules(pieces.drop_last());
        match slug_module(pieces.last()) {
            Some(k) => rest.push(k),
            None => rest,
        }
    }
}

/// The modules a key names, in key order (unknown slugs dropped).
pub open spec fn parse_key(t: Seq<char>) -> Seq<ModuleKind> {
    named_modules(split_plus(t))
}

proof fn lemma_split_plus_len(t: Seq<char>)
    ensures
        split_plus(t).len() >= 1,
    decreases t.len(),
{
    if t.len() > 0 {
        lemma_split_plus_len(t.drop_last());
    }
}

proof fn lemma_split_extend(x: Seq<char>, t: Seq<char>)
    requires
        forall|i: int| 0 <= i < t.len() ==> t[i] != '+',
    ensures
        split_plus(x + t).len() == split_plus(x).len(),
        split_plus(x + t) == split_plus(x).update(
            split_plus(x).len() - 1,
            split_plus(x).last() + t,
        ),
    decreases t.len(),
{
    lemma_split_plus_len(x);
    if t.len() == 0 {
        assert(x + t =~= x);
        assert(split_plus(x).last() + t =~= split_plus(x).last());
        assert(split_plus(x).update(split_plus(x).len() - 1, split_plus(x).last())
            =~= split_plus(x));
    } else {
        let t0 = t.drop_last();
        lemma_split_extend(x, t0);
        assert((x + t).drop_last() =~= x + t0);
        assert((x + t).last() == t.last());
        let p = split_plus(x + t0);
        assert(p.last() == split_plus(x).last() + t0);
        assert(split_plus(x).last() + t0 + seq![t.last()] =~= split_plus(x).last() + t);
        assert(p.last().push(t.last()) =~= split_plus(x).last() + t);
        assert(split_plus(x + t) =~= split_plus(x).update(
            split_plus(x).len() - 1,
            split_plus(x).last() + t,
        ));
    }
}

proof fn lemma_slug_facts(k: ModuleKind)
    ensures
        forall|i: int| 0 <= i < slug_text(k).len() ==> slug_text(k)[i] != '+',
        slug_module(slug_text(k)) == Some(k),
        slug_text(k).len() > 0,
{
    lemma_slug_lengths();
}

proof fn lemma_slug_lengths()
    ensures
        slug_text(ModuleKind::MassDriver).len() == 11,
        slug_text(ModuleKind::TorpedoRack).len() == 12,
        slug_text(ModuleKind::PointDefenseScreen).len() == 20,
        slug_text(ModuleKind::ReflectivePlating).len() == 18,
        slug_text(ModuleKind::WhippleArmor).len() == 13,
        forall|k: ModuleKind, i: int| 0 <= i < slug_text(k).len() ==> #[trigger] slug_text(k)[i] != '+',
{
    reveal_strlit("mass_driver");
    reveal_strlit("torpedo_rack");
    reveal_strlit("point_defense_screen");
    reveal_strlit("reflective_plating");
    reveal_strlit("whipple_armor");
}

proof fn lemma_named_modules_push(pieces: Seq<Seq<char>>, piece: Seq<char>)
    ensures
        named_modules(pieces.push(piece)) == match slug_module(piece) {
            Some(k) => named_modules(pieces).push(k),
            None => named_modules(pieces),
        },
{
    assert(pieces.push(piece).drop_last() =~= pieces);
}

proof fn lemma_split_key(s: Seq<ModuleKind>)
    requires
        s.len() >= 1,
    ensures
        split_plus(key_text(s)) == s.map_values(|k: ModuleKind| slug_text(k)),
    decreases s.len(),
{
    if s.len() == 1 {
        lemma_slug_facts(s[0]);
        lemma_split_extend(Seq::empty(), slug_text(s[0]));
        assert(Seq::<char>::empty() + slug_text(s[0]) =~= slug_text(s[0]));
        assert(split_plus(Seq::<char>::empty()) == seq![Seq::<char>::empty()]);
        assert(Seq::<char>::empty() + slug_text(s[0]) =~= slug_text(s[0]));
        assert(split_plus(key_text(s)) =~= s.map_values(|k: ModuleKind| slug_text(k)));
    } else {
        let front = s.drop_last();
        lemma_split_key(front);
        lemma_slug_facts(s.last());
        let x = key_text(front) + seq!['+'];
        assert(x.drop_last() =~= key_text(front));
        assert(split_plus(x) == split_plus(key_text(front)).push(Seq::empty()));
        lemma_split_extend(x, slug_text(s.last()));
        assert(key_text(s) == x + slug_text(s.last()));
        assert(Seq::<char>::empty() + slug_text(s.last()) =~= slug_text(s.last()));
        assert(split_plus(key_text(s)) =~= split_plus(key_text(front)).push(slug_text(s.last())));
        assert(s.map_values(|k: ModuleKind| slug_text(k)) =~= front.map_values(
            |k: ModuleKind| slug_text(k),
        ).push(slug_text(s.last())));
    }
}

proof fn lemma_named_slugs(s: Seq<ModuleKind>)
    ensures
        named_modules(s.map_values(|k: ModuleKind| slug_text(k))) == s,
    decreases s.len(),
{
    if s.len() > 0 {
        let front = s.drop_last();
        lemma_named_slugs(front);
        lemma_slug_facts(s.last());
        let m = s.map_values(|k: ModuleKind| slug_text(k));
        assert(m.drop_last() =~= front.map_values(|k: ModuleKind| slug_text(k)));
        assert(front.push(s.last()) =~= s);
    } else {
        assert(s.map_values(|k: ModuleKind| slug_text(k)) =~= Seq::<Seq<char>>::empty());
    }
}

/// Every module list's key names exactly that list, in order.
pub proof fn parse_key_inverts_key_text(s: Seq<ModuleKind>)
    ensures
        parse_key(key_text(s)) == s,
{
    if s.len() == 0 {
        lemma_slug_lengths();
        assert(split_plus(Seq::<char>::empty()) == seq![Seq::<char>::empty()]);
        assert(seq![Seq::<char>::empty()].drop_last() =~= Seq::<Seq<char>>::empty());
        assert(slug_module(Seq::<char>::empty()) is None);
        let one = seq![Seq::<char>::empty()];
        assert(one.last() == Seq::<char>::empty());
        assert(named_modules(one.drop_last()) =~= Seq::<ModuleKind>::empty());
        assert(named_modules(one) =~= Seq::<ModuleKind>::empty());
        assert(key_text(s) =~= Seq::<char>::empty());
        assert(parse_key(key_text(s)) =~= s);
    } else {
        lemma_split_key(s);
        lemma_named_slugs(s);
    }
}

/// The key of a loadout parses back to the same loadout: for every canonical
/// module list, canonicalising what its key names gives the list back.
pub proof fn loadout_key_round_trips(s: Seq<ModuleKind>)
    ensures
        canonical(parse_key(key_text(canonical(s)))) == canonical(s),
{
    parse_key_inverts_key_text(canonical(s));
    canonical_is_idempotent(s);
}

// ----------------------------------------------------------------------------
// Loadout
// ----------------------------------------------------------------------------

/// The wire slugs are the published texts, one per module, and each names
/// its module back: keys printed with them parse to the same modules.
pub proof fn wire_slugs_are_the_published_texts(k: ModuleKind)
    ensures
        slug_text(k) == match k {
            ModuleKind::MassDriver => "mass_driver"@,
            ModuleKind::TorpedoRack => "torpedo_rack"@,
            ModuleKind::PointDefenseScreen => "point_defense_screen"@,
            ModuleKind::ReflectivePlating => "reflective_plating"@,
            ModuleKind::WhippleArmor => "whipple_armor"@,
        },
        slug_module(slug_text(k)) == Some(k),
{
    lemma_slug_facts(k);
}

/// Sum of fitting costs.
pub open spec fn cost_sum(s: Seq<ModuleKind>) -> nat
    decreases s.len(),
{
    if s.len() == 0 {
        0
    } else {
        cost_sum(s.drop_last()) + spec_fitting_cost(s.last()) as nat
    }
}

/// The cost of a module list, counted kind by kind.
proof fn lemma_cost_by_counts(s: Seq<ModuleKind>)
    ensures
        cost_sum(s) == 2 * occurrences(s, ModuleKind::MassDriver) + 3 * occurrences(s, ModuleKind::TorpedoRack)
            + 2 * occurrences(s, ModuleKind::PointDefenseScreen) + 2 * occurrences(s, ModuleKind::ReflectivePlating)
            + 3 * occurrences(s, ModuleKind::WhippleArmor),
    decreases s.len(),
{
    if s.len() > 0 {
        lemma_cost_by_counts(s.drop_last());
    }
}

/// The fitting cost of a loadout is that of the modules it was built from,
/// whatever their order: canonicalising changes no cost. So the cost of a
/// loadout built from two lists together is the sum of their loadouts' costs.
pub proof fn fitting_cost_is_additive(a: Seq<ModuleKind>, b: Seq<ModuleKind>)
    ensures
        cost_sum(canonical(a)) == cost_sum(a),
        cost_sum(canonical(a + b)) == cost_sum(canonical(a)) + cost_sum(canonical(b)),
{
    lemma_canonical_is_sorted_permutation(a);
    lemma_canonical_is_sorted_permutation(b);
    lemma_canonical_is_sorted_permutation(a + b);
    lemma_cost_by_counts(a);
    lemma_cost_by_counts(b);
    lemma_cost_by_counts(a + b);
    lemma_cost_by_counts(canonical(a));
    lemma_cost_by_counts(canonical(b));
    lemma_cost_by_counts(canonical(a + b));
    lemma_occurrences_concat(a, b, ModuleKind::MassDriver);
    lemma_occurrences_concat(a, b, ModuleKind::TorpedoRack);
    lemma_occurrences_concat(a, b, ModuleKind::PointDefenseScreen);
    lemma_occurrences_concat(a, b, ModuleKind::ReflectivePlating);
    lemma_occurrences_concat(a, b, ModuleKind::WhippleArmor);
    assert forall|k: ModuleKind|
        #[trigger] occurrences(canonical(a), k) == occurrences(a, k) && occurrences(canonical(b), k)
            == occurrences(b, k) && occurrences(canonical(a + b), k) == occurrences(a + b, k) by {}
}

/// A ship's loadout: a canonical (sorted, duplicates kept) module list. The
/// empty loadout is the stock, unfitted ship.
#[derive(Debug, PartialEq, Eq, PartialOrd, Ord, Hash)]
pub struct Loadout(Vec<ModuleKind>);

impl View for Loadout {
    type V = Seq<ModuleKind>;

    closed spec fn view(&self) -> Seq<ModuleKind> {
        self.0@
    }
}

impl Loadout {
    #[verifier::type_invariant]
    spec fn is_canonical(&self) -> bool {
        self.0@ == canonical(self.0@)
    }

    /// Build a canonical loadout from any module list (sorted, so the order
    /// it was listed in does not matter). Slot counts are not enforced here.
    pub fn new(mods: Vec<ModuleKind>) -> (l: Self)
        ensures
            l@ == canonical(mods@),
            is_sorted(l@),
            same_modules(l@, mods@),
    {
        let mut c0: usize = 0;
        let mut c1: usize = 0;
        let mut c2: usize = 0;
        let mut c3: usize = 0;
        let mut c4: usize = 0;
        let mut i: usize = 0;
        while i < mods.len()
            invariant
                i <= mods@.len(),
                c0 == occurrences(mods@.take(i as int), ModuleKind::MassDriver),
                c1 == occurrences(mods@.take(i as int), ModuleKind::TorpedoRack),
                c2 == occurrences(mods@.take(i as int), ModuleKind::PointDefenseScreen),
                c3 == occurrences(mods@.take(i as int), ModuleKind::ReflectivePlating),
                c4 == occurrences(mods@.take(i as int), ModuleKind::WhippleArmor),
                c0 + c1 + c2 + c3 + c4 == i,
            decreases mods@.len() - i,
        {
            let m = mods[i];
            proof {
                assert(mods@.take(i as int + 1) =~= mods@.take(i as int).push(m));
                lemma_occurrences_push(mods@.take(i as int), m, ModuleKind::MassDriver);
                lemma_occurrences_push(mods@.take(i as int), m, ModuleKind::TorpedoRack);
                lemma_occurrences_push(mods@.take(i as int), m, ModuleKind::PointDefenseScreen);
                lemma_occurrences_push(mods@.take(i as int), m, ModuleKind::ReflectivePlating);
                lemma_occurrences_push(mods@.take(i as int), m, ModuleKind::WhippleArmor);
            }
            match m {
                ModuleKind::MassDriver => c0 = c0 + 1,
                ModuleKind::TorpedoRack => c1 = c1 + 1,
                ModuleKind::PointDefenseScreen => c2 = c2 + 1,
                ModuleKind::ReflectivePlating => c3 = c3 + 1,
                ModuleKind::WhippleArmor => c4 = c4 + 1,
            }
            i = i + 1;
        }
        proof {
            assert(mods@.take(i as int) =~= mods@);
        }
        let mut out: Vec<ModuleKind> = Vec::new();
        push_copies(&mut out, c0, ModuleKind::MassDriver);
        push_copies(&mut out, c1, ModuleKind::TorpedoRack);
        push_copies(&mut out, c2, ModuleKind::PointDefenseScreen);
        push_copies(&mut out, c3, ModuleKind::ReflectivePlating);
        push_copies(&mut out, c4, ModuleKind::WhippleArmor);
        proof {
            assert(out@ =~= canonical(mods@));
            lemma_canonical_is_sorted_permutation(mods@);
            canonical_is_idempotent(mods@);
        }
        Loadout(out)
    }

    /// The empty (unfitted) loadout.
    pub fn unfitted() -> (l: Self)
        ensures
            l@ == Seq::<ModuleKind>::empty(),
    {
        proof {
            assert(canonical(Seq::<ModuleKind>::empty()) =~= Seq::<ModuleKind>::empty());
        }
        Loadout(Vec::new())
    }

    /// The modules, in canonical order.
    pub fn modules(&self) -> (m: &[ModuleKind])
        ensures
            m@ == self@,
    {
        self.0.as_slice()
    }

    /// Is this the unfitted ship?
    pub fn is_empty(&self) -> (r: bool)
        ensures
            r == (self@.len() == 0),
    {
        self.0.len() == 0
    }

    /// How many modules are fitted.
    pub fn len(&self) -> (n: usize)
        ensures
            n == self@.len(),
    {
        self.0.len()
    }

    /// The wire/map key: slugs joined by `+`, or `""` for an unfitted ship.
    pub fn key(&self) -> (k: String)
        ensures
            k@ == key_text(self@),
            self@ == canonical(self@),
    {
        proof {
            use_type_invariant(self);
        }
        let mut out = String::new();
        let mut i: usize = 0;
        while i < self.0.len()
            invariant
                i <= self.0@.len(),
                out@ == key_text(self.0@.take(i as int)),
            decreases self.0@.len() - i,
        {
            let m = self.0[i];
            proof {
                assert(self.0@.take(i as int + 1).drop_last() =~= self.0@.take(i as int));
                assert(self.0@.take(i as int + 1).last() == m);
                if i == 0 {
                    assert(out@ =~= Seq::<char>::empty());
                }
            }
            if i > 0 {
                out.append("+");
            }
            out.append(m.slug());
            proof {
                if i == 0 {
                    assert(out@ =~= slug_text(m));
                } else {
                    assert(out@ =~= key_text(self.0@.take(i as int)) + seq!['+'] + slug_text(m)) by {
                        reveal_strlit("+");
                    }
                }
            }
            i = i + 1;
        }
        proof {
            assert(self.0@.take(i as int) =~= self.0@);
        }
        out
    }

    /// Parse a key back to a canonical loadout. Unknown slugs are dropped;
    /// `""` is the unfitted default.
    pub fn from_key(key: &str) -> (l: Self)
        ensures
            l@ == canonical(parse_key(key@)),
    {
        let n = key.unicode_len();
        let mut mods: Vec<ModuleKind> = Vec::new();
        let mut start: usize = 0;
        let mut i: usize = 0;
        proof {
            assert(key@.take(0) =~= Seq::<char>::empty());
        }
        while i < n
            invariant
                n == key@.len(),
                start <= i <= n,
                split_plus(key@.take(i as int)).len() >= 1,
                mods@ == named_modules(split_plus(key@.take(i as int)).drop_last()),
                split_plus(key@.take(i as int)).last() == key@.subrange(start as int, i as int),
            decreases n - i,
        {
            let c = key.get_char(i);
            let ghost before = split_plus(key@.take(i as int));
            proof {
                assert(key@.take(i as int + 1).drop_last() =~= key@.take(i as int));
                assert(key@.take(i as int + 1).last() == c);
            }
            if c == '+' {
                let piece = key.substring_char(start, i);
                let found = ModuleKind::from_slug(piece);
                proof {
                    lemma_named_modules_push(before.drop_last(), before.last());
                    assert(before.drop_last().push(before.last()) =~= before);
                    assert(split_plus(key@.take(i as int + 1)) == before.push(Seq::empty()));
                    assert(split_plus(key@.take(i as int + 1)).drop_last() =~= before);
                    assert(key@.subrange(i as int + 1, i as int + 1) =~= Seq::<char>::empty());
                }
                match found {
                    Some(k) => mods.push(k),
                    None => {},
                }
                start = i + 1;
            } else {
                proof {
                    lemma_split_plus_len(key@.take(i as int));
                    let after = split_plus(key@.take(i as int + 1));
                    assert(after == before.update(before.len() - 1, before.last().push(c)));
                    assert(after.drop_last() =~= before.drop_last());
                    assert(key@.subrange(start as int, i as int + 1) =~= key@.subrange(
                        start as int,
                        i as int,
                    ).push(c));
                }
            }
            i = i + 1;
            proof {
                lemma_split_plus_len(key@.take(i as int));
            }
        }
        let piece = key.substring_char(start, n);
        let found = ModuleKind::from_slug(piece);
        proof {
            assert(key@.take(n as int) =~= key@);
            let all = split_plus(key@);
            lemma_named_modules_push(all.drop_last(), all.last());
            assert(all.drop_last().push(all.last()) =~= all);
        }
        match found {
            Some(k) => mods.push(k),
            None => {},
        }
        Loadout::new(mods)
    }

    /// Blunts beam damage into this ship (Reflective Plating fitted).
    pub fn reflects(&self) -> (r: bool)
        ensures
            r == self@.contains(ModuleKind::ReflectivePlating),
    {
        contains_module(&self.0, ModuleKind::ReflectivePlating)
    }

    /// Blunts driver damage into this ship (Whipple Armor fitted).
    pub fn whipples(&self) -> (r: bool)
        ensures
            r == self@.contains(ModuleKind::WhippleArmor),
    {
        contains_module(&self.0, ModuleKind::WhippleArmor)
    }

    /// Contributes to torpedo interception (Point-Defense Screen fitted).
    pub fn has_pd(&self) -> (r: bool)
        ensures
            r == self@.contains(ModuleKind::PointDefenseScreen),
    {
        contains_module(&self.0, ModuleKind::PointDefenseScreen)
    }

    /// The loadout's total fitting-point cost (duplicates stack).
    pub fn fitting_cost(&self) -> (c: u32)
        requires
            self@.len() <= u32::MAX / 3,
        ensures
            c == cost_sum(self@),
    {
        let mut total: u32 = 0;
        let mut i: usize = 0;
        while i < self.0.len()
            invariant
                i <= self.0@.len(),
                self.0@.len() <= u32::MAX / 3,
                total == cost_sum(self.0@.take(i as int)),
                total <= 3 * i,
            decreases self.0@.len() - i,
        {
            proof {
                assert(self.0@.take(i as int + 1).drop_last() =~= self.0@.take(i as int));
            }
            total = total + self.0[i].fitting_cost();
            i = i + 1;
        }
        proof {
            assert(self.0@.take(i as int) =~= self.0@);
        }
        total
    }

    /// Is this loadout legal on `kind`? Both the hull's module slots and its
    /// fitting-point budget bind.
    pub fn validate(&self, kind: ShipKind) -> (ok: bool)
        requires
            self@.len() <= u32::MAX / 3,
        ensures
            ok == ((self@.len() as u32) <= spec_module_slots(kind)
                && cost_sum(self@) <= spec_fitting_points(kind)),
    {
        (self.0.len() as u32) <= kind.module_slots()
            && self.fitting_cost() <= crate::ship::fitting_points(kind)
    }
}

impl Clone for Loadout {
    /// A copy with the same modules.
    fn clone(&self) -> (l: Self)
        ensures
            l@ == self@,
    {
        proof {
            use_type_invariant(self);
        }
        let mut out: Vec<ModuleKind> = Vec::new();
        let mut i: usize = 0;
        while i < self.0.len()
            invariant
                i <= self.0@.len(),
                out@ == self.0@.take(i as int),
            decreases self.0@.len() - i,
        {
            out.push(self.0[i]);
            proof {
                assert(self.0@.take(i as int + 1) =~= self.0@.take(i as int).push(self.0@[i as int]));
            }
            i = i + 1;
        }
        proof {
            assert(self.0@.take(i as int) =~= self.0@);
        }
        Loadout(out)
    }
}

impl Default for Loadout {
    /// The unfitted loadout.
    fn default() -> (l: Self)
        ensures
            l@ == Seq::<ModuleKind>::empty(),
    {
        Loadout::unfitted()
    }
}

fn push_copies(out: &mut Vec<ModuleKind>, n: usize, k: ModuleKind)
    ensures
        final(out)@ == old(out)@ + copies(n as nat, k),
{
    let ghost start = out@;
    let mut j: usize = 0;
    while j < n
        invariant
            j <= n,
            out@ == start + copies(j as nat, k),
        decreases n - j,
    {
        out.push(k);
        proof {
            assert(start + copies(j as nat + 1, k) =~= (start + copies(j as nat, k)).push(k));
        }
        j = j + 1;
    }
}

fn contains_module(v: &Vec<ModuleKind>, k: ModuleKind) -> (r: bool)
    ensures
        r == v@.contains(k),
{
    let mut i: usize = 0;
    while i < v.len()
        invariant
            i <= v@.len(),
            forall|j: int| 0 <= j < i ==> v@[j] != k,
        decreases v@.len() - i,
    {
        if v[i] == k {
            return true;
        }
        i = i + 1;
    }
    false
}

} // verus!
