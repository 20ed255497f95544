//! Readable views of the packed flag words a listing carries: each flag
//! word decomposed into named booleans, as the JSON read API reports
//! them.  The bit assignments are the wire encoding of each flag set,
//! lowest bit first in the order the variants are listed.

use vstd::prelude::*;

verus! {

/// Objective: completing the duty.
pub const OBJECTIVE_DUTY_COMPLETION: u32 = 1;

/// Objective: practice run.
pub const OBJECTIVE_PRACTICE: u32 = 2;

/// Objective: loot run.
pub const OBJECTIVE_LOOT: u32 = 4;

/// Condition: duty complete.
pub const CONDITION_DUTY_COMPLETE: u32 = 1;

/// Condition: duty incomplete.
pub const CONDITION_DUTY_INCOMPLETE: u32 = 2;

/// Condition: duty complete, weekly reward unclaimed.
pub const CONDITION_DUTY_COMPLETE_WEEKLY_REWARD_UNCLAIMED: u32 = 4;

/// Setting: undersized party allowed.
pub const DUTY_FINDER_SETTING_UNDERSIZED_PARTY: u32 = 1;

/// Setting: minimum item level enforced.
pub const DUTY_FINDER_SETTING_MINIMUM_ITEM_LEVEL: u32 = 2;

/// Setting: echo silenced.
pub const DUTY_FINDER_SETTING_SILENCE_ECHO: u32 = 4;

/// Loot rule: greed only.
pub const LOOT_RULE_GREED_ONLY: u32 = 1;

/// Loot rule: lootmaster.
pub const LOOT_RULE_LOOTMASTER: u32 = 2;

/// Search area: whole data centre.
pub const SEARCH_AREA_DATA_CENTRE: u32 = 1;

/// Search area: private listing.
pub const SEARCH_AREA_PRIVATE_BIT: u32 = 2;

/// Search area: alliance raid.
pub const SEARCH_AREA_ALLIANCE_RAID: u32 = 4;

/// Search area: one world.
pub const SEARCH_AREA_WORLD: u32 = 8;

/// Search area: one player per job.
pub const SEARCH_AREA_ONE_PLAYER_PER_JOB: u32 = 16;

/// Whether `bits` has every bit of `mask` set.
pub open spec fn has_flag(bits: u32, mask: u32) -> bool {
    bits & mask == mask
}

/// Whether `bits` has every bit of `mask` set.
pub fn contains(bits: u32, mask: u32) -> (r: bool)
    ensures
        r == has_flag(bits, mask),
{
    bits & mask == mask
}

/// The objective flags, decomposed.
#[derive(Clone, Copy, PartialEq, Eq, Structural, Debug)]
pub struct ReadableObjectiveFlags {
    pub duty_completion: bool,
    pub practice: bool,
    pub loot: bool,
}

impl ReadableObjectiveFlags {
    /// Decomposes a packed objective word.
    pub fn from_bits(bits: u32) -> (r: ReadableObjectiveFlags)
        ensures
            r.duty_completion == has_flag(bits, OBJECTIVE_DUTY_COMPLETION),
            r.practice == has_flag(bits, OBJECTIVE_PRACTICE),
            r.loot == has_flag(bits, OBJECTIVE_LOOT),
    {
        ReadableObjectiveFlags {
            duty_completion: contains(bits, OBJECTIVE_DUTY_COMPLETION),
            practice: contains(bits, OBJECTIVE_PRACTICE),
            loot: contains(bits, OBJECTIVE_LOOT),
        }
    }
}

/// The join conditions, decomposed.
#[derive(Clone, Copy, PartialEq, Eq, Structural, Debug)]
pub struct ReadableConditionFlags {
    pub duty_complete: bool,
    pub duty_incomplete: bool,
    pub duty_complete_reward_unclaimed: bool,
}

impl ReadableConditionFlags {
    /// Decomposes a packed condition word.
    pub fn from_bits(bits: u32) -> (r: ReadableConditionFlags)
        ensures
            r.duty_complete == has_flag(bits, CONDITION_DUTY_COMPLETE),
            r.duty_incomplete == has_flag(bits, CONDITION_DUTY_INCOMPLETE),
            r.duty_complete_reward_unclaimed == has_flag(
                bits,
                CONDITION_DUTY_COMPLETE_WEEKLY_REWARD_UNCLAIMED,
            ),
    {
        ReadableConditionFlags {
            duty_complete: contains(bits, CONDITION_DUTY_COMPLETE),
            duty_incomplete: contains(bits, CONDITION_DUTY_INCOMPLETE),
            duty_complete_reward_unclaimed: contains(
                bits,
                CONDITION_DUTY_COMPLETE_WEEKLY_REWARD_UNCLAIMED,
            ),
        }
    }
}

/// The duty-finder settings, decomposed.
#[derive(Clone, Copy, PartialEq, Eq, Structural, Debug)]
pub struct ReadableDutyFinderSettingsFlags {
    pub undersized_party: bool,
    pub minimum_item_level: bool,
    pub silence_echo: bool,
}

impl ReadableDutyFinderSettingsFlags {
    /// Decomposes a packed settings word.
    pub fn from_bits(bits: u32) -> (r: ReadableDutyFinderSettingsFlags)
        ensures
            r.undersized_party == has_flag(bits, DUTY_FINDER_SETTING_UNDERSIZED_PARTY),
            r.minimum_item_level == has_flag(bits, DUTY_FINDER_SETTING_MINIMUM_ITEM_LEVEL),
            r.silence_echo == has_flag(bits, DUTY_FINDER_SETTING_SILENCE_ECHO),
    {
        ReadableDutyFinderSettingsFlags {
            undersized_party: contains(bits, DUTY_FINDER_SETTING_UNDERSIZED_PARTY),
            minimum_item_level: contains(bits, DUTY_FINDER_SETTING_MINIMUM_ITEM_LEVEL),
            silence_echo: contains(bits, DUTY_FINDER_SETTING_SILENCE_ECHO),
        }
    }
}

/// The loot rules, decomposed.
#[derive(Clone, Copy, PartialEq, Eq, Structural, Debug)]
pub struct ReadableLootRuleFlags {
    pub greed_only: bool,
    pub lootmaster: bool,
}

impl ReadableLootRuleFlags {
    /// Decomposes a packed loot-rule word.
    pub fn from_bits(bits: u32) -> (r: ReadableLootRuleFlags)
        ensures
            r.greed_only == has_flag(bits, LOOT_RULE_GREED_ONLY),
            r.lootmaster == has_flag(bits, LOOT_RULE_LOOTMASTER),
    {
        ReadableLootRuleFlags {
            greed_only: contains(bits, LOOT_RULE_GREED_ONLY),
            lootmaster: contains(bits, LOOT_RULE_LOOTMASTER),
        }
    }
}

/// The search area, decomposed.
#[derive(Clone, Copy, PartialEq, Eq, Structural, Debug)]
pub struct ReadableSearchAreaFlags {
    pub data_centre: bool,
    pub private: bool,
    pub alliance_raid: bool,
    pub world: bool,
    pub one_player_per_job: bool,
}

impl ReadableSearchAreaFlags {
    /// Decomposes a packed search-area word.
    pub fn from_bits(bits: u32) -> (r: ReadableSearchAreaFlags)
        ensures
            r.data_centre == has_flag(bits, SEARCH_AREA_DATA_CENTRE),
            r.private == has_flag(bits, SEARCH_AREA_PRIVATE_BIT),
            r.alliance_raid == has_flag(bits, SEARCH_AREA_ALLIANCE_RAID),
            r.world == has_flag(bits, SEARCH_AREA_WORLD),
            r.one_player_per_job == has_flag(bits, SEARCH_AREA_ONE_PLAYER_PER_JOB),
    {
        ReadableSearchAreaFlags {
            data_centre: contains(bits, SEARCH_AREA_DATA_CENTRE),
            private: contains(bits, SEARCH_AREA_PRIVATE_BIT),
            alliance_raid: contains(bits, SEARCH_AREA_ALLIANCE_RAID),
            world: contains(bits, SEARCH_AREA_WORLD),
            one_player_per_job: contains(bits, SEARCH_AREA_ONE_PLAYER_PER_JOB),
        }
    }
}

} // verus!
