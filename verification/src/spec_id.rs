//! Hard forks and the order in which they came.

use vstd::prelude::*;

verus! {

/// A named version of the consensus rules.
#[allow(non_camel_case_types)]
#[derive(Clone, Copy, Debug, PartialEq, Eq, Structural, Hash)]
pub enum SpecId {
    FRONTIER,
    FRONTIER_THAWING,
    HOMESTEAD,
    DAO_FORK,
    TANGERINE,
    SPURIOUS_DRAGON,
    BYZANTIUM,
    CONSTANTINOPLE,
    PETERSBURG,
    ISTANBUL,
    MUIR_GLACIER,
    BERLIN,
    LONDON,
    ARROW_GLACIER,
    GRAY_GLACIER,
    MERGE,
    SHANGHAI,
    CANCUN,
    PRAGUE,
    LATEST,
}

impl SpecId {
    /// The place of the fork in the order of activation.
    pub open spec fn rank(self) -> nat {
        match self {
            SpecId::FRONTIER => 0,
            SpecId::FRONTIER_THAWING => 1,
            SpecId::HOMESTEAD => 2,
            SpecId::DAO_FORK => 3,
            SpecId::TANGERINE => 4,
            SpecId::SPURIOUS_DRAGON => 5,
            SpecId::BYZANTIUM => 6,
            SpecId::CONSTANTINOPLE => 7,
            SpecId::PETERSBURG => 8,
            SpecId::ISTANBUL => 9,
            SpecId::MUIR_GLACIER => 10,
            SpecId::BERLIN => 11,
            SpecId::LONDON => 12,
            SpecId::ARROW_GLACIER => 13,
            SpecId::GRAY_GLACIER => 14,
            SpecId::MERGE => 15,
            SpecId::SHANGHAI => 16,
            SpecId::CANCUN => 17,
            SpecId::PRAGUE => 18,
            SpecId::LATEST => 19,
        }
    }

    /// Whether the rules of `other` are in force under `self`: `other` came no later.
    pub open spec fn enabled_spec(self, other: SpecId) -> bool {
        self.rank() >= other.rank()
    }

    /// The place of the fork in the order of activation.
    pub fn ordinal(&self) -> (r: u8)
        ensures
            r == self.rank(),
    {
        match self {
            SpecId::FRONTIER => 0,
            SpecId::FRONTIER_THAWING => 1,
            SpecId::HOMESTEAD => 2,
            SpecId::DAO_FORK => 3,
            SpecId::TANGERINE => 4,
            SpecId::SPURIOUS_DRAGON => 5,
            SpecId::BYZANTIUM => 6,
            SpecId::CONSTANTINOPLE => 7,
            SpecId::PETERSBURG => 8,
            SpecId::ISTANBUL => 9,
            SpecId::MUIR_GLACIER => 10,
            SpecId::BERLIN => 11,
            SpecId::LONDON => 12,
            SpecId::ARROW_GLACIER => 13,
            SpecId::GRAY_GLACIER => 14,
            SpecId::MERGE => 15,
            SpecId::SHANGHAI => 16,
            SpecId::CANCUN => 17,
            SpecId::PRAGUE => 18,
            SpecId::LATEST => 19,
        }
    }

    /// Whether the rules of `other` are in force under `self`.
    pub fn is_enabled_in(&self, other: SpecId) -> (r: bool)
        ensures
            r == self.enabled_spec(other),
    {
        self.ordinal() >= other.ordinal()
    }

    /// Whether the rules of `other` are in force under `spec_id`.
    pub fn enabled(spec_id: SpecId, other: SpecId) -> (r: bool)
        ensures
            r == spec_id.enabled_spec(other),
    {
        spec_id.is_enabled_in(other)
    }
}

/// A hard fork fixed at compile time.
pub trait Spec {
    /// The fork that the type stands for.
    spec fn spec_id_spec() -> SpecId;

    /// The fork that the type stands for.
    fn spec_id() -> (r: SpecId)
        ensures
            r == Self::spec_id_spec(),
    ;

    /// Whether the rules of `other` are in force under this fork.
    fn enabled(other: SpecId) -> (r: bool)
        ensures
            r == Self::spec_id_spec().enabled_spec(other),
    ;
}

pub struct FrontierSpec;

pub struct HomesteadSpec;

pub struct TangerineSpec;

pub struct SpuriousDragonSpec;

pub struct ByzantiumSpec;

pub struct PetersburgSpec;

pub struct IstanbulSpec;

pub struct BerlinSpec;

pub struct LondonSpec;

pub struct MergeSpec;

pub struct ShanghaiSpec;

pub struct CancunSpec;

pub struct PragueSpec;

pub struct LatestSpec;

impl Spec for FrontierSpec {
    open spec fn spec_id_spec() -> SpecId {
        SpecId::FRONTIER
    }

    fn spec_id() -> SpecId {
        SpecId::FRONTIER
    }

    fn enabled(other: SpecId) -> bool {
        SpecId::FRONTIER.is_enabled_in(other)
    }
}

impl Spec for HomesteadSpec {
    open spec fn spec_id_spec() -> SpecId {
        SpecId::HOMESTEAD
    }

    fn spec_id() -> SpecId {
        SpecId::HOMESTEAD
    }

    fn enabled(other: SpecId) -> bool {
        SpecId::HOMESTEAD.is_enabled_in(other)
    }
}

impl Spec for TangerineSpec {
    open spec fn spec_id_spec() -> SpecId {
        SpecId::TANGERINE
    }

    fn spec_id() -> SpecId {
        SpecId::TANGERINE
    }

    fn enabled(other: SpecId) -> bool {
        SpecId::TANGERINE.is_enabled_in(other)
    }
}

impl Spec for SpuriousDragonSpec {
    open spec fn spec_id_spec() -> SpecId {
        SpecId::SPURIOUS_DRAGON
    }

    fn spec_id() -> SpecId {
        SpecId::SPURIOUS_DRAGON
    }

    fn enabled(other: SpecId) -> bool {
        SpecId::SPURIOUS_DRAGON.is_enabled_in(other)
    }
}

impl Spec for ByzantiumSpec {
    open spec fn spec_id_spec() -> SpecId {
        SpecId::BYZANTIUM
    }

    fn spec_id() -> SpecId {
        SpecId::BYZANTIUM
    }

    fn enabled(other: SpecId) -> bool {
        SpecId::BYZANTIUM.is_enabled_in(other)
    }
}

impl Spec for PetersburgSpec {
    open spec fn spec_id_spec() -> SpecId {
        SpecId::PETERSBURG
    }

    fn spec_id() -> SpecId {
        SpecId::PETERSBURG
    }

    fn enabled(other: SpecId) -> bool {
        SpecId::PETERSBURG.is_enabled_in(other)
    }
}

impl Spec for IstanbulSpec {
    open spec fn spec_id_spec() -> SpecId {
        SpecId::ISTANBUL
    }

    fn spec_id() -> SpecId {
        SpecId::ISTANBUL
    }

    fn enabled(other: SpecId) -> bool {
        SpecId::ISTANBUL.is_enabled_in(other)
    }
}

impl Spec for BerlinSpec {
    open spec fn spec_id_spec() -> SpecId {
        SpecId::BERLIN
    }

    fn spec_id() -> SpecId {
        SpecId::BERLIN
    }

    fn enabled(other: SpecId) -> bool {
        SpecId::BERLIN.is_enabled_in(other)
    }
}

impl Spec for LondonSpec {
    open spec fn spec_id_spec() -> SpecId {
        SpecId::LONDON
    }

    fn spec_id() -> SpecId {
        SpecId::LONDON
    }

    fn enabled(other: SpecId) -> bool {
        SpecId::LONDON.is_enabled_in(other)
    }
}

impl Spec for MergeSpec {
    open spec fn spec_id_spec() -> SpecId {
        SpecId::MERGE
    }

    fn spec_id() -> SpecId {
        SpecId::MERGE
    }

    fn enabled(other: SpecId) -> bool {
        SpecId::MERGE.is_enabled_in(other)
    }
}

impl Spec for ShanghaiSpec {
    open spec fn spec_id_spec() -> SpecId {
        SpecId::SHANGHAI
    }

    fn spec_id() -> SpecId {
        SpecId::SHANGHAI
    }

    fn enabled(other: SpecId) -> bool {
        SpecId::SHANGHAI.is_enabled_in(other)
    }
}

impl Spec for CancunSpec {
    open spec fn spec_id_spec() -> SpecId {
        SpecId::CANCUN
    }

    fn spec_id() -> SpecId {
        SpecId::CANCUN
    }

    fn enabled(other: SpecId) -> bool {
        SpecId::CANCUN.is_enabled_in(other)
    }
}

impl Spec for PragueSpec {
    open spec fn spec_id_spec() -> SpecId {
        SpecId::PRAGUE
    }

    fn spec_id() -> SpecId {
        SpecId::PRAGUE
    }

    fn enabled(other: SpecId) -> bool {
        SpecId::PRAGUE.is_enabled_in(other)
    }
}

impl Spec for LatestSpec {
    open spec fn spec_id_spec() -> SpecId {
        SpecId::LATEST
    }

    fn spec_id() -> SpecId {
        SpecId::LATEST
    }

    fn enabled(other: SpecId) -> bool {
        SpecId::LATEST.is_enabled_in(other)
    }
}

} // verus!
