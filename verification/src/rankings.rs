//! Rankings: the leaderboard categories, their column keys and the titles
//! their leaders wear.

use vstd::prelude::*;

verus! {

/// Engagements a corporation must have fought before its battle efficiency
/// earns a rank.
pub const MIN_RANKED_ENGAGEMENTS: u32 = 3;

/// The nine ranking categories, in display order.
#[derive(Debug, Clone, Copy, PartialEq, Eq, Structural)]
pub enum RankingCategory {
    Valuation,
    TradeThroughput,
    MarketProfit,
    CargoCaptured,
    CargoProtected,
    BattleEfficiency,
    SystemsDeveloped,
    IntelGathered,
    Recovery,
}

/// Whether a corporation with this many engagements has a ranked battle
/// efficiency (below the floor it is shown as provisional).
pub fn efficiency_ranked(engagements: u32) -> (r: bool)
    ensures
        r == (engagements >= MIN_RANKED_ENGAGEMENTS),
{
    engagements >= MIN_RANKED_ENGAGEMENTS
}

impl RankingCategory {
    /// All categories, in display order.
    pub const ALL: [RankingCategory; 9] = [
        RankingCategory::Valuation,
        RankingCategory::TradeThroughput,
        RankingCategory::MarketProfit,
        RankingCategory::CargoCaptured,
        RankingCategory::CargoProtected,
        RankingCategory::BattleEfficiency,
        RankingCategory::SystemsDeveloped,
        RankingCategory::IntelGathered,
        RankingCategory::Recovery,
    ];

    /// Stable machine slug (the client's column key).
    pub fn slug(self) -> (s: &'static str)
        ensures
            s@ == match self {
                RankingCategory::Valuation => "valuation"@,
                RankingCategory::TradeThroughput => "trade_throughput"@,
                RankingCategory::MarketProfit => "market_profit"@,
                RankingCategory::CargoCaptured => "cargo_captured"@,
                RankingCategory::CargoProtected => "cargo_protected"@,
                RankingCategory::BattleEfficiency => "battle_efficiency"@,
                RankingCategory::SystemsDeveloped => "systems_developed"@,
                RankingCategory::IntelGathered => "intel_gathered"@,
                RankingCategory::Recovery => "recovery"@,
            },
    {
        match self {
            RankingCategory::Valuation => "valuation",
            RankingCategory::TradeThroughput => "trade_throughput",
            RankingCategory::MarketProfit => "market_profit",
            RankingCategory::CargoCaptured => "cargo_captured",
            RankingCategory::CargoProtected => "cargo_protected",
            RankingCategory::BattleEfficiency => "battle_efficiency",
            RankingCategory::SystemsDeveloped => "systems_developed",
            RankingCategory::IntelGathered => "intel_gathered",
            RankingCategory::Recovery => "recovery",
        }
    }

    /// The display title the category leader wears.
    pub fn title(self) -> (s: &'static str)
        ensures
            s@ == match self {
                RankingCategory::Valuation => "Magnate"@,
                RankingCategory::TradeThroughput => "Master Merchant"@,
                RankingCategory::MarketProfit => "Market Baron"@,
                RankingCategory::CargoCaptured => "Most Feared"@,
                RankingCategory::CargoProtected => "Iron Quartermaster"@,
                RankingCategory::BattleEfficiency => "Warlord"@,
                RankingCategory::SystemsDeveloped => "Master Builder"@,
                RankingCategory::IntelGathered => "All-Seeing"@,
                RankingCategory::Recovery => "Phoenix"@,
            },
    {
        match self {
            RankingCategory::Valuation => "Magnate",
            RankingCategory::TradeThroughput => "Master Merchant",
            RankingCategory::MarketProfit => "Market Baron",
            RankingCategory::CargoCaptured => "Most Feared",
            RankingCategory::CargoProtected => "Iron Quartermaster",
            RankingCategory::BattleEfficiency => "Warlord",
            RankingCategory::SystemsDeveloped => "Master Builder",
            RankingCategory::IntelGathered => "All-Seeing",
            RankingCategory::Recovery => "Phoenix",
        }
    }
}

} // verus!
