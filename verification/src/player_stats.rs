//! The aggregate player-statistics map: known statistic keys become named
//! variants, unknown keys are preserved verbatim, and the conversion back to
//! a plain key-to-count map is lossless in both cases.

use vstd::prelude::*;
use vstd::string::StringExecFns;

use crate::json::{int_of, str_eq, DecodeError, JsonValue};

verus! {

/// One statistic: a named variant for each known snake_case key, and a
/// catch-all that preserves an unknown key verbatim.
#[derive(Debug)]
pub enum Stat {
    DamageResisted(i64),
    FishCaught(i64),
    AnimalsBred(i64),
    RaidWin(i64),
    InteractWithBrewingstand(i64),
    PlayRecord(i64),
    InteractWithLectern(i64),
    DamageAbsorbed(i64),
    InteractWithBlastFurnace(i64),
    TriggerTrappedChest(i64),
    WalkOneCm(i64),
    InteractWithCartographyTable(i64),
    OpenBarrel(i64),
    PotFlower(i64),
    BoatOneCm(i64),
    TimeSinceRest(i64),
    PigOneCm(i64),
    ClimbOneCm(i64),
    StriderOneCm(i64),
    CleanShulkerBox(i64),
    MinecartOneCm(i64),
    InspectDropper(i64),
    TargetHit(i64),
    PlayTime(i64),
    DamageBlockedByShield(i64),
    TotalWorldTime(i64),
    InspectHopper(i64),
    Jump(i64),
    InteractWithCraftingTable(i64),
    InteractWithSmithingTable(i64),
    InteractWithAnvil(i64),
    Deaths(i64),
    CrouchOneCm(i64),
    LeaveGame(i64),
    PlayNoteblock(i64),
    SleepInBed(i64),
    AviateOneCm(i64),
    OpenChest(i64),
    SneakTime(i64),
    InteractWithGrindstone(i64),
    OpenShulkerBox(i64),
    CleanArmor(i64),
    MobKills(i64),
    FillCauldron(i64),
    DamageDealt(i64),
    WalkUnderWaterOneCm(i64),
    EnchantItem(i64),
    PlayerKills(i64),
    OpenEnderchest(i64),
    FlyOneCm(i64),
    InteractWithStonecutter(i64),
    InteractWithSmoker(i64),
    InteractWithFurnace(i64),
    TuneNoteblock(i64),
    FallOneCm(i64),
    RaidTrigger(i64),
    SwimOneCm(i64),
    InspectDispenser(i64),
    DropCount(i64),
    DamageDealtAbsorbed(i64),
    EatCakeSlice(i64),
    TimeSinceDeath(i64),
    HorseOneCm(i64),
    TradedWithVillager(i64),
    DamageDealtResisted(i64),
    UseCauldron(i64),
    TalkedToVillager(i64),
    SprintOneCm(i64),
    InteractWithLoom(i64),
    InteractWithCampfire(i64),
    DamageTaken(i64),
    CleanBanner(i64),
    BellRing(i64),
    InteractWithBeacon(i64),
    WalkOnWaterOneCm(i64),
    Other(String, i64),
}

/// A map of statistics, in the order the entries arrived.
#[derive(Debug)]
pub struct StatMap(pub Vec<Stat>);

/// The canonical wire key of a statistic; an unknown key is its own.
pub open spec fn stat_key(s: Stat) -> Seq<char> {
    match s {
        Stat::DamageResisted(_) => "damage_resisted"@,
        Stat::FishCaught(_) => "fish_caught"@,
        Stat::AnimalsBred(_) => "animals_bred"@,
        Stat::RaidWin(_) => "raid_win"@,
        Stat::InteractWithBrewingstand(_) => "interact_with_brewingstand"@,
        Stat::PlayRecord(_) => "play_record"@,
        Stat::InteractWithLectern(_) => "interact_with_lectern"@,
        Stat::DamageAbsorbed(_) => "damage_absorbed"@,
        Stat::InteractWithBlastFurnace(_) => "interact_with_blast_furnace"@,
        Stat::TriggerTrappedChest(_) => "trigger_trapped_chest"@,
        Stat::WalkOneCm(_) => "walk_one_cm"@,
        Stat::InteractWithCartographyTable(_) => "interact_with_cartography_table"@,
        Stat::OpenBarrel(_) => "open_barrel"@,
        Stat::PotFlower(_) => "pot_flower"@,
        Stat::BoatOneCm(_) => "boat_one_cm"@,
        Stat::TimeSinceRest(_) => "time_since_rest"@,
        Stat::PigOneCm(_) => "pig_one_cm"@,
        Stat::ClimbOneCm(_) => "climb_one_cm"@,
        Stat::StriderOneCm(_) => "strider_one_cm"@,
        Stat::CleanShulkerBox(_) => "clean_shulker_box"@,
        Stat::MinecartOneCm(_) => "minecart_one_cm"@,
        Stat::InspectDropper(_) => "inspect_dropper"@,
        Stat::TargetHit(_) => "target_hit"@,
        Stat::PlayTime(_) => "play_time"@,
        Stat::DamageBlockedByShield(_) => "damage_blocked_by_shield"@,
        Stat::TotalWorldTime(_) => "total_world_time"@,
        Stat::InspectHopper(_) => "inspect_hopper"@,
        Stat::Jump(_) => "jump"@,
        Stat::InteractWithCraftingTable(_) => "interact_with_crafting_table"@,
        Stat::InteractWithSmithingTable(_) => "interact_with_smithing_table"@,
        Stat::InteractWithAnvil(_) => "interact_with_anvil"@,
        Stat::Deaths(_) => "deaths"@,
        Stat::CrouchOneCm(_) => "crouch_one_cm"@,
        Stat::LeaveGame(_) => "leave_game"@,
        Stat::PlayNoteblock(_) => "play_noteblock"@,
        Stat::SleepInBed(_) => "sleep_in_bed"@,
        Stat::AviateOneCm(_) => "aviate_one_cm"@,
        Stat::OpenChest(_) => "open_chest"@,
        Stat::SneakTime(_) => "sneak_time"@,
        Stat::InteractWithGrindstone(_) => "interact_with_grindstone"@,
        Stat::OpenShulkerBox(_) => "open_shulker_box"@,
        Stat::CleanArmor(_) => "clean_armor"@,
        Stat::MobKills(_) => "mob_kills"@,
        Stat::FillCauldron(_) => "fill_cauldron"@,
        Stat::DamageDealt(_) => "damage_dealt"@,
        Stat::WalkUnderWaterOneCm(_) => "walk_under_water_one_cm"@,
        Stat::EnchantItem(_) => "enchant_item"@,
        Stat::PlayerKills(_) => "player_kills"@,
        Stat::OpenEnderchest(_) => "open_enderchest"@,
        Stat::FlyOneCm(_) => "fly_one_cm"@,
        Stat::InteractWithStonecutter(_) => "interact_with_stonecutter"@,
        Stat::InteractWithSmoker(_) => "interact_with_smoker"@,
        Stat::InteractWithFurnace(_) => "interact_with_furnace"@,
        Stat::TuneNoteblock(_) => "tune_noteblock"@,
        Stat::FallOneCm(_) => "fall_one_cm"@,
        Stat::RaidTrigger(_) => "raid_trigger"@,
        Stat::SwimOneCm(_) => "swim_one_cm"@,
        Stat::InspectDispenser(_) => "inspect_dispenser"@,
        Stat::DropCount(_) => "drop_count"@,
        Stat::DamageDealtAbsorbed(_) => "damage_dealt_absorbed"@,
        Stat::EatCakeSlice(_) => "eat_cake_slice"@,
        Stat::TimeSinceDeath(_) => "time_since_death"@,
        Stat::HorseOneCm(_) => "horse_one_cm"@,
        Stat::TradedWithVillager(_) => "traded_with_villager"@,
        Stat::DamageDealtResisted(_) => "damage_dealt_resisted"@,
        Stat::UseCauldron(_) => "use_cauldron"@,
        Stat::TalkedToVillager(_) => "talked_to_villager"@,
        Stat::SprintOneCm(_) => "sprint_one_cm"@,
        Stat::InteractWithLoom(_) => "interact_with_loom"@,
        Stat::InteractWithCampfire(_) => "interact_with_campfire"@,
        Stat::DamageTaken(_) => "damage_taken"@,
        Stat::CleanBanner(_) => "clean_banner"@,
        Stat::BellRing(_) => "bell_ring"@,
        Stat::InteractWithBeacon(_) => "interact_with_beacon"@,
        Stat::WalkOnWaterOneCm(_) => "walk_on_water_one_cm"@,
        Stat::Other(k, _) => k@,
    }
}

/// The count a statistic carries.
pub open spec fn stat_value(s: Stat) -> i64 {
    match s {
        Stat::DamageResisted(n) => n,
        Stat::FishCaught(n) => n,
        Stat::AnimalsBred(n) => n,
        Stat::RaidWin(n) => n,
        Stat::InteractWithBrewingstand(n) => n,
        Stat::PlayRecord(n) => n,
        Stat::InteractWithLectern(n) => n,
        Stat::DamageAbsorbed(n) => n,
        Stat::InteractWithBlastFurnace(n) => n,
        Stat::TriggerTrappedChest(n) => n,
        Stat::WalkOneCm(n) => n,
        Stat::InteractWithCartographyTable(n) => n,
        Stat::OpenBarrel(n) => n,
        Stat::PotFlower(n) => n,
        Stat::BoatOneCm(n) => n,
        Stat::TimeSinceRest(n) => n,
        Stat::PigOneCm(n) => n,
        Stat::ClimbOneCm(n) => n,
        Stat::StriderOneCm(n) => n,
        Stat::CleanShulkerBox(n) => n,
        Stat::MinecartOneCm(n) => n,
        Stat::InspectDropper(n) => n,
        Stat::TargetHit(n) => n,
        Stat::PlayTime(n) => n,
        Stat::DamageBlockedByShield(n) => n,
        Stat::TotalWorldTime(n) => n,
        Stat::InspectHopper(n) => n,
        Stat::Jump(n) => n,
        Stat::InteractWithCraftingTable(n) => n,
        Stat::InteractWithSmithingTable(n) => n,
        Stat::InteractWithAnvil(n) => n,
        Stat::Deaths(n) => n,
        Stat::CrouchOneCm(n) => n,
        Stat::LeaveGame(n) => n,
        Stat::PlayNoteblock(n) => n,
        Stat::SleepInBed(n) => n,
        Stat::AviateOneCm(n) => n,
        Stat::OpenChest(n) => n,
        Stat::SneakTime(n) => n,
        Stat::InteractWithGrindstone(n) => n,
        Stat::OpenShulkerBox(n) => n,
        Stat::CleanArmor(n) => n,
        Stat::MobKills(n) => n,
        Stat::FillCauldron(n) => n,
        Stat::DamageDealt(n) => n,
        Stat::WalkUnderWaterOneCm(n) => n,
        Stat::EnchantItem(n) => n,
        Stat::PlayerKills(n) => n,
        Stat::OpenEnderchest(n) => n,
        Stat::FlyOneCm(n) => n,
        Stat::InteractWithStonecutter(n) => n,
        Stat::InteractWithSmoker(n) => n,
        Stat::InteractWithFurnace(n) => n,
        Stat::TuneNoteblock(n) => n,
        Stat::FallOneCm(n) => n,
        Stat::RaidTrigger(n) => n,
        Stat::SwimOneCm(n) => n,
        Stat::InspectDispenser(n) => n,
        Stat::DropCount(n) => n,
        Stat::DamageDealtAbsorbed(n) => n,
        Stat::EatCakeSlice(n) => n,
        Stat::TimeSinceDeath(n) => n,
        Stat::HorseOneCm(n) => n,
        Stat::TradedWithVillager(n) => n,
        Stat::DamageDealtResisted(n) => n,
        Stat::UseCauldron(n) => n,
        Stat::TalkedToVillager(n) => n,
        Stat::SprintOneCm(n) => n,
        Stat::InteractWithLoom(n) => n,
        Stat::InteractWithCampfire(n) => n,
        Stat::DamageTaken(n) => n,
        Stat::CleanBanner(n) => n,
        Stat::BellRing(n) => n,
        Stat::InteractWithBeacon(n) => n,
        Stat::WalkOnWaterOneCm(n) => n,
        Stat::Other(_, n) => n,
    }
}

/// Whether a wire key is one of the known statistic names.
pub open spec fn known_stat_key(k: Seq<char>) -> bool {
    ||| k == "damage_resisted"@
    ||| k == "fish_caught"@
    ||| k == "animals_bred"@
    ||| k == "raid_win"@
    ||| k == "interact_with_brewingstand"@
    ||| k == "play_record"@
    ||| k == "interact_with_lectern"@
    ||| k == "damage_absorbed"@
    ||| k == "interact_with_blast_furnace"@
    ||| k == "trigger_trapped_chest"@
    ||| k == "walk_one_cm"@
    ||| k == "interact_with_cartography_table"@
    ||| k == "open_barrel"@
    ||| k == "pot_flower"@
    ||| k == "boat_one_cm"@
    ||| k == "time_since_rest"@
    ||| k == "pig_one_cm"@
    ||| k == "climb_one_cm"@
    ||| k == "strider_one_cm"@
    ||| k == "clean_shulker_box"@
    ||| k == "minecart_one_cm"@
    ||| k == "inspect_dropper"@
    ||| k == "target_hit"@
    ||| k == "play_time"@
    ||| k == "damage_blocked_by_shield"@
    ||| k == "total_world_time"@
    ||| k == "inspect_hopper"@
    ||| k == "jump"@
    ||| k == "interact_with_crafting_table"@
    ||| k == "interact_with_smithing_table"@
    ||| k == "interact_with_anvil"@
    ||| k == "deaths"@
    ||| k == "crouch_one_cm"@
    ||| k == "leave_game"@
    ||| k == "play_noteblock"@
    ||| k == "sleep_in_bed"@
    ||| k == "aviate_one_cm"@
    ||| k == "open_chest"@
    ||| k == "sneak_time"@
    ||| k == "interact_with_grindstone"@
    ||| k == "open_shulker_box"@
    ||| k == "clean_armor"@
    ||| k == "mob_kills"@
    ||| k == "fill_cauldron"@
    ||| k == "damage_dealt"@
    ||| k == "walk_under_water_one_cm"@
    ||| k == "enchant_item"@
    ||| k == "player_kills"@
    ||| k == "open_enderchest"@
    ||| k == "fly_one_cm"@
    ||| k == "interact_with_stonecutter"@
    ||| k == "interact_with_smoker"@
    ||| k == "interact_with_furnace"@
    ||| k == "tune_noteblock"@
    ||| k == "fall_one_cm"@
    ||| k == "raid_trigger"@
    ||| k == "swim_one_cm"@
    ||| k == "inspect_dispenser"@
    ||| k == "drop_count"@
    ||| k == "damage_dealt_absorbed"@
    ||| k == "eat_cake_slice"@
    ||| k == "time_since_death"@
    ||| k == "horse_one_cm"@
    ||| k == "traded_with_villager"@
    ||| k == "damage_dealt_resisted"@
    ||| k == "use_cauldron"@
    ||| k == "talked_to_villager"@
    ||| k == "sprint_one_cm"@
    ||| k == "interact_with_loom"@
    ||| k == "interact_with_campfire"@
    ||| k == "damage_taken"@
    ||| k == "clean_banner"@
    ||| k == "bell_ring"@
    ||| k == "interact_with_beacon"@
    ||| k == "walk_on_water_one_cm"@
}

/// Whether the statistic `s` is what the wire entry `(k, v)` decodes to: the
/// key and count are kept exactly, and the entry lands in the catch-all
/// variant exactly when the key is unknown.
pub open spec fn stat_matches(k: Seq<char>, v: i64, s: Stat) -> bool {
    &&& stat_key(s) == k
    &&& stat_value(s) == v
    &&& (s is Other <==> !known_stat_key(k))
}

/// Decodes one wire entry: a known key becomes its named variant, any other
/// key is preserved in the catch-all.
#[verifier::rlimit(100)]
pub fn stat_of_entry(key: String, value: i64) -> (s: Stat)
    ensures
        stat_matches(key@, value, s),
{
    if str_eq(key.as_str(), "damage_resisted") {
        Stat::DamageResisted(value)
    } else if str_eq(key.as_str(), "fish_caught") {
        Stat::FishCaught(value)
    } else if str_eq(key.as_str(), "animals_bred") {
        Stat::AnimalsBred(value)
    } else if str_eq(key.as_str(), "raid_win") {
        Stat::RaidWin(value)
    } else if str_eq(key.as_str(), "interact_with_brewingstand") {
        Stat::InteractWithBrewingstand(value)
    } else if str_eq(key.as_str(), "play_record") {
        Stat::PlayRecord(value)
    } else if str_eq(key.as_str(), "interact_with_lectern") {
        Stat::InteractWithLectern(value)
    } else if str_eq(key.as_str(), "damage_absorbed") {
        Stat::DamageAbsorbed(value)
    } else if str_eq(key.as_str(), "interact_with_blast_furnace") {
        Stat::InteractWithBlastFurnace(value)
    } else if str_eq(key.as_str(), "trigger_trapped_chest") {
        Stat::TriggerTrappedChest(value)
    } else if str_eq(key.as_str(), "walk_one_cm") {
        Stat::WalkOneCm(value)
    } else if str_eq(key.as_str(), "interact_with_cartography_table") {
        Stat::InteractWithCartographyTable(value)
    } else if str_eq(key.as_str(), "open_barrel") {
        Stat::OpenBarrel(value)
    } else if str_eq(key.as_str(), "pot_flower") {
        Stat::PotFlower(value)
    } else if str_eq(key.as_str(), "boat_one_cm") {
        Stat::BoatOneCm(value)
    } else if str_eq(key.as_str(), "time_since_rest") {
        Stat::TimeSinceRest(value)
    } else if str_eq(key.as_str(), "pig_one_cm") {
        Stat::PigOneCm(value)
    } else if str_eq(key.as_str(), "climb_one_cm") {
        Stat::ClimbOneCm(value)
    } else if str_eq(key.as_str(), "strider_one_cm") {
        Stat::StriderOneCm(value)
    } else if str_eq(key.as_str(), "clean_shulker_box") {
        Stat::CleanShulkerBox(value)
    } else if str_eq(key.as_str(), "minecart_one_cm") {
        Stat::MinecartOneCm(value)
    } else if str_eq(key.as_str(), "inspect_dropper") {
        Stat::InspectDropper(value)
    } else if str_eq(key.as_str(), "target_hit") {
        Stat::TargetHit(value)
    } else if str_eq(key.as_str(), "play_time") {
        Stat::PlayTime(value)
    } else if str_eq(key.as_str(), "damage_blocked_by_shield") {
        Stat::DamageBlockedByShield(value)
    } else if str_eq(key.as_str(), "total_world_time") {
        Stat::TotalWorldTime(value)
    } else if str_eq(key.as_str(), "inspect_hopper") {
        Stat::InspectHopper(value)
    } else if str_eq(key.as_str(), "jump") {
        Stat::Jump(value)
    } else if str_eq(key.as_str(), "interact_with_crafting_table") {
        Stat::InteractWithCraftingTable(value)
    } else if str_eq(key.as_str(), "interact_with_smithing_table") {
        Stat::InteractWithSmithingTable(value)
    } else if str_eq(key.as_str(), "interact_with_anvil") {
        Stat::InteractWithAnvil(value)
    } else if str_eq(key.as_str(), "deaths") {
        Stat::Deaths(value)
    } else if str_eq(key.as_str(), "crouch_one_cm") {
        Stat::CrouchOneCm(value)
    } else if str_eq(key.as_str(), "leave_game") {
        Stat::LeaveGame(value)
    } else if str_eq(key.as_str(), "play_noteblock") {
        Stat::PlayNoteblock(value)
    } else if str_eq(key.as_str(), "sleep_in_bed") {
        Stat::SleepInBed(value)
    } else if str_eq(key.as_str(), "aviate_one_cm") {
        Stat::AviateOneCm(value)
    } else if str_eq(key.as_str(), "open_chest") {
        Stat::OpenChest(value)
    } else if str_eq(key.as_str(), "sneak_time") {
        Stat::SneakTime(value)
    } else if str_eq(key.as_str(), "interact_with_grindstone") {
        Stat::InteractWithGrindstone(value)
    } else if str_eq(key.as_str(), "open_shulker_box") {
        Stat::OpenShulkerBox(value)
    } else if str_eq(key.as_str(), "clean_armor") {
        Stat::CleanArmor(value)
    } else if str_eq(key.as_str(), "mob_kills") {
        Stat::MobKills(value)
    } else if str_eq(key.as_str(), "fill_cauldron") {
        Stat::FillCauldron(value)
    } else if str_eq(key.as_str(), "damage_dealt") {
        Stat::DamageDealt(value)
    } else if str_eq(key.as_str(), "walk_under_water_one_cm") {
        Stat::WalkUnderWaterOneCm(value)
    } else if str_eq(key.as_str(), "enchant_item") {
        Stat::EnchantItem(value)
    } else if str_eq(key.as_str(), "player_kills") {
        Stat::PlayerKills(value)
    } else if str_eq(key.as_str(), "open_enderchest") {
        Stat::OpenEnderchest(value)
    } else if str_eq(key.as_str(), "fly_one_cm") {
        Stat::FlyOneCm(value)
    } else if str_eq(key.as_str(), "interact_with_stonecutter") {
        Stat::InteractWithStonecutter(value)
    } else if str_eq(key.as_str(), "interact_with_smoker") {
        Stat::InteractWithSmoker(value)
    } else if str_eq(key.as_str(), "interact_with_furnace") {
        Stat::InteractWithFurnace(value)
    } else if str_eq(key.as_str(), "tune_noteblock") {
        Stat::TuneNoteblock(value)
    } else if str_eq(key.as_str(), "fall_one_cm") {
        Stat::FallOneCm(value)
    } else if str_eq(key.as_str(), "raid_trigger") {
        Stat::RaidTrigger(value)
    } else if str_eq(key.as_str(), "swim_one_cm") {
        Stat::SwimOneCm(value)
    } else if str_eq(key.as_str(), "inspect_dispenser") {
        Stat::InspectDispenser(value)
    } else if str_eq(key.as_str(), "drop_count") {
        Stat::DropCount(value)
    } else if str_eq(key.as_str(), "damage_dealt_absorbed") {
        Stat::DamageDealtAbsorbed(value)
    } else if str_eq(key.as_str(), "eat_cake_slice") {
        Stat::EatCakeSlice(value)
    } else if str_eq(key.as_str(), "time_since_death") {
        Stat::TimeSinceDeath(value)
    } else if str_eq(key.as_str(), "horse_one_cm") {
        Stat::HorseOneCm(value)
    } else if str_eq(key.as_str(), "traded_with_villager") {
        Stat::TradedWithVillager(value)
    } else if str_eq(key.as_str(), "damage_dealt_resisted") {
        Stat::DamageDealtResisted(value)
    } else if str_eq(key.as_str(), "use_cauldron") {
        Stat::UseCauldron(value)
    } else if str_eq(key.as_str(), "talked_to_villager") {
        Stat::TalkedToVillager(value)
    } else if str_eq(key.as_str(), "sprint_one_cm") {
        Stat::SprintOneCm(value)
    } else if str_eq(key.as_str(), "interact_with_loom") {
        Stat::InteractWithLoom(value)
    } else if str_eq(key.as_str(), "interact_with_campfire") {
        Stat::InteractWithCampfire(value)
    } else if str_eq(key.as_str(), "damage_taken") {
        Stat::DamageTaken(value)
    } else if str_eq(key.as_str(), "clean_banner") {
        Stat::CleanBanner(value)
    } else if str_eq(key.as_str(), "bell_ring") {
        Stat::BellRing(value)
    } else if str_eq(key.as_str(), "interact_with_beacon") {
        Stat::InteractWithBeacon(value)
    } else if str_eq(key.as_str(), "walk_on_water_one_cm") {
        Stat::WalkOnWaterOneCm(value)
    } else {
        Stat::Other(key, value)
    }
}

/// Encodes one statistic back to its wire entry: the canonical key for a
/// named variant, the preserved key for the catch-all.
#[verifier::rlimit(100)]
pub fn entry_of_stat(s: &Stat) -> (r: (String, i64))
    ensures
        r.0@ == stat_key(*s),
        r.1 == stat_value(*s),
{
    match s {
        Stat::DamageResisted(n) => (String::from_str("damage_resisted"), *n),
        Stat::FishCaught(n) => (String::from_str("fish_caught"), *n),
        Stat::AnimalsBred(n) => (String::from_str("animals_bred"), *n),
        Stat::RaidWin(n) => (String::from_str("raid_win"), *n),
        Stat::InteractWithBrewingstand(n) => (String::from_str("interact_with_brewingstand"), *n),
        Stat::PlayRecord(n) => (String::from_str("play_record"), *n),
        Stat::InteractWithLectern(n) => (String::from_str("interact_with_lectern"), *n),
        Stat::DamageAbsorbed(n) => (String::from_str("damage_absorbed"), *n),
        Stat::InteractWithBlastFurnace(n) => (String::from_str("interact_with_blast_furnace"), *n),
        Stat::TriggerTrappedChest(n) => (String::from_str("trigger_trapped_chest"), *n),
        Stat::WalkOneCm(n) => (String::from_str("walk_one_cm"), *n),
        Stat::InteractWithCartographyTable(n) => (String::from_str("interact_with_cartography_table"), *n),
        Stat::OpenBarrel(n) => (String::from_str("open_barrel"), *n),
        Stat::PotFlower(n) => (String::from_str("pot_flower"), *n),
        Stat::BoatOneCm(n) => (String::from_str("boat_one_cm"), *n),
        Stat::TimeSinceRest(n) => (String::from_str("time_since_rest"), *n),
        Stat::PigOneCm(n) => (String::from_str("pig_one_cm"), *n),
        Stat::ClimbOneCm(n) => (String::from_str("climb_one_cm"), *n),
        Stat::StriderOneCm(n) => (String::from_str("strider_one_cm"), *n),
        Stat::CleanShulkerBox(n) => (String::from_str("clean_shulker_box"), *n),
        Stat::MinecartOneCm(n) => (String::from_str("minecart_one_cm"), *n),
        Stat::InspectDropper(n) => (String::from_str("inspect_dropper"), *n),
        Stat::TargetHit(n) => (String::from_str("target_hit"), *n),
        Stat::PlayTime(n) => (String::from_str("play_time"), *n),
        Stat::DamageBlockedByShield(n) => (String::from_str("damage_blocked_by_shield"), *n),
        Stat::TotalWorldTime(n) => (String::from_str("total_world_time"), *n),
        Stat::InspectHopper(n) => (String::from_str("inspect_hopper"), *n),
        Stat::Jump(n) => (String::from_str("jump"), *n),
        Stat::InteractWithCraftingTable(n) => (String::from_str("interact_with_crafting_table"), *n),
        Stat::InteractWithSmithingTable(n) => (String::from_str("interact_with_smithing_table"), *n),
        Stat::InteractWithAnvil(n) => (String::from_str("interact_with_anvil"), *n),
        Stat::Deaths(n) => (String::from_str("deaths"), *n),
        Stat::CrouchOneCm(n) => (String::from_str("crouch_one_cm"), *n),
        Stat::LeaveGame(n) => (String::from_str("leave_game"), *n),
        Stat::PlayNoteblock(n) => (String::from_str("play_noteblock"), *n),
        Stat::SleepInBed(n) => (String::from_str("sleep_in_bed"), *n),
        Stat::AviateOneCm(n) => (String::from_str("aviate_one_cm"), *n),
        Stat::OpenChest(n) => (String::from_str("open_chest"), *n),
        Stat::SneakTime(n) => (String::from_str("sneak_time"), *n),
        Stat::InteractWithGrindstone(n) => (String::from_str("interact_with_grindstone"), *n),
        Stat::OpenShulkerBox(n) => (String::from_str("open_shulker_box"), *n),
        Stat::CleanArmor(n) => (String::from_str("clean_armor"), *n),
        Stat::MobKills(n) => (String::from_str("mob_kills"), *n),
        Stat::FillCauldron(n) => (String::from_str("fill_cauldron"), *n),
        Stat::DamageDealt(n) => (String::from_str("damage_dealt"), *n),
        Stat::WalkUnderWaterOneCm(n) => (String::from_str("walk_under_water_one_cm"), *n),
        Stat::EnchantItem(n) => (String::from_str("enchant_item"), *n),
        Stat::PlayerKills(n) => (String::from_str("player_kills"), *n),
        Stat::OpenEnderchest(n) => (String::from_str("open_enderchest"), *n),
        Stat::FlyOneCm(n) => (String::from_str("fly_one_cm"), *n),
        Stat::InteractWithStonecutter(n) => (String::from_str("interact_with_stonecutter"), *n),
        Stat::InteractWithSmoker(n) => (String::from_str("interact_with_smoker"), *n),
        Stat::InteractWithFurnace(n) => (String::from_str("interact_with_furnace"), *n),
        Stat::TuneNoteblock(n) => (String::from_str("tune_noteblock"), *n),
        Stat::FallOneCm(n) => (String::from_str("fall_one_cm"), *n),
        Stat::RaidTrigger(n) => (String::from_str("raid_trigger"), *n),
        Stat::SwimOneCm(n) => (String::from_str("swim_one_cm"), *n),
        Stat::InspectDispenser(n) => (String::from_str("inspect_dispenser"), *n),
        Stat::DropCount(n) => (String::from_str("drop_count"), *n),
        Stat::DamageDealtAbsorbed(n) => (String::from_str("damage_dealt_absorbed"), *n),
        Stat::EatCakeSlice(n) => (String::from_str("eat_cake_slice"), *n),
        Stat::TimeSinceDeath(n) => (String::from_str("time_since_death"), *n),
        Stat::HorseOneCm(n) => (String::from_str("horse_one_cm"), *n),
        Stat::TradedWithVillager(n) => (String::from_str("traded_with_villager"), *n),
        Stat::DamageDealtResisted(n) => (String::from_str("damage_dealt_resisted"), *n),
        Stat::UseCauldron(n) => (String::from_str("use_cauldron"), *n),
        Stat::TalkedToVillager(n) => (String::from_str("talked_to_villager"), *n),
        Stat::SprintOneCm(n) => (String::from_str("sprint_one_cm"), *n),
        Stat::InteractWithLoom(n) => (String::from_str("interact_with_loom"), *n),
        Stat::InteractWithCampfire(n) => (String::from_str("interact_with_campfire"), *n),
        Stat::DamageTaken(n) => (String::from_str("damage_taken"), *n),
        Stat::CleanBanner(n) => (String::from_str("clean_banner"), *n),
        Stat::BellRing(n) => (String::from_str("bell_ring"), *n),
        Stat::InteractWithBeacon(n) => (String::from_str("interact_with_beacon"), *n),
        Stat::WalkOnWaterOneCm(n) => (String::from_str("walk_on_water_one_cm"), *n),
        Stat::Other(k, n) => (k.clone(), *n),
    }
}

/// Law: any statistic a wire entry decodes to encodes back to exactly that
/// entry, for known and unknown keys alike.
pub proof fn lemma_stat_entry_round_trip(k: Seq<char>, v: i64, s: Stat)
    requires
        stat_matches(k, v, s),
    ensures
        stat_key(s) == k,
        stat_value(s) == v,
{
}

/// The least index of an object field whose value is not an integer, or the
/// field count when every value is one.
pub open spec fn first_non_int_field(fields: Seq<(String, JsonValue)>) -> int
    decreases fields.len(),
{
    if fields.len() == 0 {
        0
    } else if !(fields[0].1 is Int) {
        0
    } else {
        1 + first_non_int_field(fields.drop_first())
    }
}

pub proof fn lemma_first_non_int_field_is(fields: Seq<(String, JsonValue)>, i: int)
    requires
        0 <= i <= fields.len(),
        forall|j: int| 0 <= j < i ==> (#[trigger] fields[j]).1 is Int,
        i < fields.len() ==> !(fields[i].1 is Int),
    ensures
        first_non_int_field(fields) == i,
    decreases fields.len(),
{
    if fields.len() == 0 || i == 0 {
    } else {
        assert(forall|j: int| 0 <= j < i - 1 ==> fields.drop_first()[j] == fields[j + 1]);
        if i - 1 < fields.drop_first().len() {
            assert(fields.drop_first()[i - 1] == fields[i]);
        }
        lemma_first_non_int_field_is(fields.drop_first(), i - 1);
    }
}

impl StatMap {
    /// Decodes the wire object of statistics: every field's value must be an
    /// integer count, and the entries are kept in the order they arrived.
    pub fn decode(v: &JsonValue) -> (r: Result<StatMap, DecodeError>)
        ensures
            r is Ok <==> (*v matches JsonValue::Object(fields) && (forall|i: int|
                0 <= i < fields@.len() ==> (#[trigger] fields@[i]).1 is Int)),
            (r matches Ok(m) ==> *v matches JsonValue::Object(fields) && m.0@.len()
                == fields@.len() && (forall|i: int|
                0 <= i < m.0@.len() ==> stat_matches(
                    (#[trigger] fields@[i]).0@,
                    int_of(fields@[i].1),
                    m.0@[i],
                ))),
            (r matches Err(e) ==> (match *v {
                JsonValue::Object(fields) => {
                    let fb = first_non_int_field(fields@);
                    0 <= fb < fields@.len() && e == DecodeError::NotAnInt(fb as usize)
                },
                _ => e == DecodeError::NotAnObject,
            })),
    {
        match v {
            JsonValue::Object(fields) => {
                let mut out: Vec<Stat> = Vec::new();
                let mut i: usize = 0;
                let len = fields.len();
                while i < len
                    invariant
                        *v == JsonValue::Object(*fields),
                        i <= len,
                        len == fields@.len(),
                        out@.len() == i,
                        forall|j: int| 0 <= j < i ==> (#[trigger] fields@[j]).1 is Int,
                        forall|j: int|
                            0 <= j < i ==> stat_matches(
                                (#[trigger] fields@[j]).0@,
                                int_of(fields@[j].1),
                                out@[j],
                            ),
                    decreases len - i,
                {
                    let pair = &fields[i];
                    match &pair.1 {
                        JsonValue::Int(n) => {
                            out.push(stat_of_entry(pair.0.clone(), *n));
                        },
                        _ => {
                            proof {
                                lemma_first_non_int_field_is(fields@, i as int);
                            }
                            return Err(DecodeError::NotAnInt(i));
                        },
                    }
                    i += 1;
                }
                Ok(StatMap(out))
            },
            _ => Err(DecodeError::NotAnObject),
        }
    }

    /// Encodes the map back to the wire object: each named variant under its
    /// canonical key, each catch-all entry under its preserved key.
    pub fn encode(&self) -> (r: JsonValue)
        ensures
            r matches JsonValue::Object(fields) && fields@.len() == self.0@.len() && (forall|
                i: int,
            |
                0 <= i < fields@.len() ==> (#[trigger] fields@[i]).0@ == stat_key(self.0@[i])
                    && fields@[i].1 == JsonValue::Int(stat_value(self.0@[i]))),
    {
        let mut fields: Vec<(String, JsonValue)> = Vec::new();
        let mut i: usize = 0;
        let len = self.0.len();
        while i < len
            invariant
                i <= len,
                len == self.0@.len(),
                fields@.len() == i,
                forall|j: int|
                    0 <= j < i ==> (#[trigger] fields@[j]).0@ == stat_key(self.0@[j])
                        && fields@[j].1 == JsonValue::Int(stat_value(self.0@[j])),
            decreases len - i,
        {
            let (key, value) = entry_of_stat(&self.0[i]);
            fields.push((key, JsonValue::Int(value)));
            i += 1;
        }
        JsonValue::Object(fields)
    }
}

/// Law: decoding a statistics object and encoding the result reproduces
/// every key and every count exactly, known and unknown keys alike.
pub proof fn lemma_stat_map_round_trip(fields: Seq<(String, JsonValue)>, stats: Seq<Stat>)
    requires
        fields.len() == stats.len(),
        forall|i: int| 0 <= i < fields.len() ==> (#[trigger] fields[i]).1 is Int,
        forall|i: int|
            0 <= i < fields.len() ==> stat_matches(
                (#[trigger] fields[i]).0@,
                int_of(fields[i].1),
                stats[i],
            ),
    ensures
        forall|i: int|
            0 <= i < fields.len() ==> stat_key(#[trigger] stats[i]) == fields[i].0@
                && JsonValue::Int(stat_value(stats[i])) == fields[i].1,
{
    assert forall|i: int| 0 <= i < fields.len() implies stat_key(#[trigger] stats[i])
        == fields[i].0@ && JsonValue::Int(stat_value(stats[i])) == fields[i].1 by {
        assert(stat_matches(fields[i].0@, int_of(fields[i].1), stats[i]));
    }
}

} // verus!
