//! The records of the game service, as the host receives them: plain data
//! with one field for each field of the service's answer.

use vstd::prelude::*;

verus! {

/// A rendered avatar of a player.
#[derive(Debug)]
pub struct Avatar {
    pub height: i32,
    pub url: String,
    pub width: i32,
}

/// The progress of a player in one achievement.
#[derive(Debug)]
pub struct Achievement {
    pub category: String,
    pub level: i32,
    pub points: i32,
    pub points_next_level: i32,
    pub role_id: String,
}

/// The counters of a player's games. A counter of a player who hides their
/// statistics is negative.
#[derive(Debug)]
pub struct GameStats {
    pub achievements: Option<Vec<Achievement>>,
    pub exit_game_after_death_count: i32,
    pub exit_game_by_suicide_count: i32,
    pub games_killed_count: i32,
    pub games_survived_count: i32,
    pub solo_lose_count: i32,
    pub solo_win_count: i32,
    pub total_lose_count: i32,
    pub total_play_time_in_minutes: i32,
    pub total_tie_count: i32,
    pub total_win_count: i32,
    pub village_lose_count: i32,
    pub village_win_count: i32,
    pub voting_lose_count: i32,
    pub voting_win_count: i32,
    pub werewolf_lose_count: i32,
    pub werewolf_win_count: i32,
}

/// One role card of a player.
#[derive(Debug)]
pub struct RoleCards {
    pub ability_id1: Option<String>,
    pub ability_id2: Option<String>,
    pub ability_id3: Option<String>,
    pub ability_id4: Option<String>,
    pub rarity: Option<String>,
    pub role_id1: Option<String>,
    pub role_id2: Option<String>,
    pub role_id_base: Option<String>,
    pub role_ids_advanced: Option<Vec<String>>,
}

/// A clan.
#[derive(Debug)]
pub struct WolvesvilleClan {
    pub creation_time: String,
    pub description: Option<String>,
    pub gems: Option<i32>,
    pub gold: Option<i32>,
    pub icon: String,
    pub icon_color: String,
    pub id: String,
    pub join_type: String,
    pub language: String,
    pub leader_id: String,
    pub member_count: i32,
    pub min_level: i32,
    pub name: String,
    pub quest_history_count: i32,
    pub tag: Option<String>,
    pub xp: i32,
}

/// The colours that replies use, as `0xRRGGBB`.
pub struct CustomColor;

impl CustomColor {
    pub const CYAN: u32 = 0x00_FF_FF;
}

/// The names of the custom emojis that replies use.
pub struct CustomEmoji;

impl CustomEmoji {
    pub const SINGLE_ROSE: &'static str = "single_rose";

    pub const LETS_PLAY: &'static str = "lets_play";

    pub const LOADING: &'static str = "loading";
}

} // verus!
