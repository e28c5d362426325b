//! The shapes of the API's answers.
//!
//! Each type mirrors one JSON object of the Data API. A field is optional
//! unless the API always sends it: an absent field is `None`, never a
//! made-up value.

use std::collections::HashMap;
use vstd::prelude::*;

verus! {

/// `serde_json::Value`: any JSON value. The library carries such a value
/// through without looking inside.
#[verifier::external_type_specification]
#[verifier::external_body]
pub struct ExJsonValue(serde_json::Value);

/// `serde_json::Value::clone`, which the derived `Clone` of the types below
/// calls. Nothing is claimed of the copy.
pub assume_specification[ <serde_json::Value as Clone>::clone ](
    value: &serde_json::Value,
) -> serde_json::Value;

/// A point in time: whole seconds since the Unix epoch in UTC, and the
/// nanoseconds after them.
#[derive(Debug, Clone, Copy, PartialEq, Eq)]
pub struct Timestamp {
    pub seconds: i64,
    pub nanoseconds: u32,
}

// Pagination Types

/// Pagination metadata for list responses
#[derive(Debug, Clone)]
pub struct Pagination {
    pub start: i64,
    pub end: i64,
}

// Player Types

/// Player information from FACEIT API
#[derive(Debug, Clone)]
pub struct Player {
    pub player_id: String,
    pub nickname: String,
    pub avatar: Option<String>,
    pub country: Option<String>,
    pub faceit_url: Option<String>,
    pub steam_id_64: Option<String>,
    pub steam_nickname: Option<String>,
    pub new_steam_id: Option<String>,
    pub memberships: Option<Vec<String>>,
    pub games: Option<HashMap<String, GameDetail>>,
    pub verified: Option<bool>,
    pub activated_at: Option<Timestamp>,
    pub cover_image: Option<String>,
    pub friends_ids: Option<Vec<String>>,
    pub platforms: Option<HashMap<String, String>>,
    pub settings: Option<UserSettings>,
}

/// Game-specific player details
#[derive(Debug, Clone)]
pub struct GameDetail {
    pub faceit_elo: Option<i64>,
    pub game_player_id: Option<String>,
    pub game_player_name: Option<String>,
    pub game_profile_id: Option<String>,
    pub region: Option<String>,
    pub regions: Option<Vec<String>>,
    pub skill_level: Option<i64>,
    pub skill_level_label: Option<String>,
}

/// User settings
#[derive(Debug, Clone)]
pub struct UserSettings {
    pub language: Option<String>,
}

/// Player stats for a specific game
#[derive(Debug, Clone)]
pub struct PlayerStats {
    pub player_id: String,
    pub game_id: String,
    pub lifetime: Option<serde_json::Value>,
    pub segments: Option<Vec<serde_json::Value>>,
}

/// Player ban information
#[derive(Debug, Clone)]
pub struct PlayerBan {
    pub user_id: String,
    pub nickname: String,
    pub game: String,
    pub starts_at: Timestamp,
    pub ends_at: Timestamp,
    pub ban_type: String,
    pub reason: String,
}

/// Player bans list response
#[derive(Debug, Clone)]
pub struct PlayerBansList {
    pub start: i64,
    pub end: i64,
    pub items: Vec<PlayerBan>,
}

// Match Types

/// Match information
#[derive(Debug, Clone)]
pub struct Match {
    pub match_id: String,
    pub game: String,
    pub region: Option<String>,
    pub competition_id: Option<String>,
    pub competition_type: Option<String>,
    pub competition_name: Option<String>,
    pub organizer_id: Option<String>,
    pub teams: Option<HashMap<String, Faction>>,
    pub status: String,
    pub started_at: Option<i64>,
    pub finished_at: Option<i64>,
    pub scheduled_at: Option<i64>,
    pub configured_at: Option<i64>,
    pub best_of: Option<i64>,
    pub results: Option<MatchResult>,
    pub detailed_results: Option<Vec<DetailedMatchResult>>,
    pub round: Option<i64>,
    pub group: Option<i64>,
    pub faceit_url: Option<String>,
    pub chat_room_id: Option<String>,
    pub demo_url: Option<Vec<String>>,
    pub calculate_elo: Option<bool>,
    pub broadcast_start_time: Option<i64>,
    pub broadcast_start_time_label: Option<String>,
    pub version: Option<i64>,
    pub voting: Option<serde_json::Value>,
}

/// Match result
#[derive(Debug, Clone)]
pub struct MatchResult {
    pub score: Option<HashMap<String, i64>>,
    pub winner: Option<String>,
}

/// Detailed match result
#[derive(Debug, Clone)]
pub struct DetailedMatchResult {
    pub asc_score: Option<bool>,
    pub factions: Option<HashMap<String, FactionResult>>,
    pub winner: Option<String>,
}

/// Faction result
#[derive(Debug, Clone)]
pub struct FactionResult {
    pub score: i64,
}

/// Faction (team) in a match
#[derive(Debug, Clone)]
pub struct Faction {
    pub faction_id: Option<String>,
    pub leader: Option<String>,
    pub avatar: Option<String>,
    pub name: Option<String>,
    pub faction_type: Option<String>,
    pub roster: Option<Vec<Roster>>,
    pub stats: Option<Stats>,
    pub substituted: Option<bool>,
}

/// Roster member
#[derive(Debug, Clone)]
pub struct Roster {
    pub player_id: String,
    pub nickname: String,
    pub avatar: Option<String>,
    pub game_player_id: Option<String>,
    pub game_player_name: Option<String>,
    pub game_skill_level: Option<i64>,
    pub anticheat_required: Option<bool>,
    pub membership: Option<String>,
}

/// Match stats
#[derive(Debug, Clone)]
pub struct Stats {
    pub rating: Option<i64>,
    pub skill_level: Option<SkillLevel>,
    /// The probability as the bit pattern of its IEEE 754 binary64 form.
    pub win_probability_bits: Option<u64>,
}

/// Skill level
#[derive(Debug, Clone)]
pub struct SkillLevel {
    pub average: Option<i64>,
    pub range: Option<SkillLevelRange>,
}

/// Skill level range
#[derive(Debug, Clone)]
pub struct SkillLevelRange {
    pub min: Option<i64>,
    pub max: Option<i64>,
}

/// Match stats response
#[derive(Debug, Clone)]
pub struct MatchStats {
    pub rounds: Vec<RoundStats>,
}

/// Round stats
#[derive(Debug, Clone)]
pub struct RoundStats {
    pub match_id: Option<String>,
    pub game_id: Option<String>,
    pub competition_id: Option<String>,
    pub game_mode: Option<String>,
    pub match_round: Option<i64>,
    pub played: Option<i64>,
    pub best_of: Option<i64>,
    pub round_stats: Option<serde_json::Value>,
    pub teams: Option<Vec<TeamStatsSimple>>,
}

/// Team stats simple
#[derive(Debug, Clone)]
pub struct TeamStatsSimple {
    pub team_id: Option<String>,
    pub premade: Option<bool>,
    pub team_stats: Option<serde_json::Value>,
    pub players: Option<Vec<PlayerStatsSimple>>,
}

/// Player stats simple
#[derive(Debug, Clone)]
pub struct PlayerStatsSimple {
    pub player_id: Option<String>,
    pub nickname: Option<String>,
    pub player_stats: Option<serde_json::Value>,
}

/// Match history entry
#[derive(Debug, Clone)]
pub struct MatchHistory {
    pub match_id: String,
    pub game_id: String,
    pub region: Option<String>,
    pub match_type: Option<String>,
    pub game_mode: Option<String>,
    pub max_players: Option<i64>,
    pub teams_size: Option<i64>,
    pub teams: Option<HashMap<String, HistoryFaction>>,
    pub playing_players: Option<Vec<String>>,
    pub competition_id: Option<String>,
    pub competition_name: Option<String>,
    pub competition_type: Option<String>,
    pub organizer_id: Option<String>,
    pub started_at: Option<i64>,
    pub finished_at: Option<i64>,
    pub status: String,
    pub results: Option<MatchResult>,
    pub faceit_url: Option<String>,
}

/// History faction
#[derive(Debug, Clone)]
pub struct HistoryFaction {
    pub team_id: Option<String>,
    pub nickname: Option<String>,
    pub avatar: Option<String>,
    pub faction_type: Option<String>,
    pub players: Option<Vec<MatchHistoryPlayer>>,
}

/// Match history player
#[derive(Debug, Clone)]
pub struct MatchHistoryPlayer {
    pub player_id: String,
    pub nickname: String,
    pub avatar: Option<String>,
    pub faceit_url: Option<String>,
    pub game_player_id: Option<String>,
    pub game_player_name: Option<String>,
    pub skill_level: Option<i64>,
}

// List Response Types

/// Games list response
#[derive(Debug, Clone)]
pub struct GamesList {
    pub start: i64,
    pub end: i64,
    pub items: Vec<Game>,
}

/// Matches list response
#[derive(Debug, Clone)]
pub struct MatchesList {
    pub start: i64,
    pub end: i64,
    pub items: Vec<Match>,
}

/// Match history list response
#[derive(Debug, Clone)]
pub struct MatchHistoryList {
    pub start: i64,
    pub end: i64,
    pub from: Option<i64>,
    pub to: Option<i64>,
    pub items: Vec<MatchHistory>,
}

// Game Types

/// Game information
#[derive(Debug, Clone)]
pub struct Game {
    pub game_id: String,
    pub short_label: String,
    pub long_label: String,
    pub assets: Option<GameAssets>,
    pub platforms: Option<Vec<String>>,
    pub regions: Option<Vec<String>>,
    pub order: Option<i64>,
    pub parent_game_id: Option<String>,
}

/// Game assets
#[derive(Debug, Clone)]
pub struct GameAssets {
    pub cover: Option<String>,
    pub featured_img_l: Option<String>,
    pub featured_img_m: Option<String>,
    pub featured_img_s: Option<String>,
    pub flag_img_icon: Option<String>,
    pub flag_img_l: Option<String>,
    pub flag_img_m: Option<String>,
    pub flag_img_s: Option<String>,
    pub landing_page: Option<String>,
}

// Hub Types

/// Hub information
#[derive(Debug, Clone)]
pub struct Hub {
    pub hub_id: String,
    pub name: String,
    pub avatar: Option<String>,
    pub game_id: String,
    pub game_data: Option<Game>,
    pub organizer_id: String,
    pub organizer_data: Option<Organizer>,
    pub region: Option<String>,
    pub description: Option<String>,
    pub faceit_url: Option<String>,
    pub cover_image: Option<String>,
    pub background_image: Option<String>,
    pub chat_room_id: Option<String>,
    pub join_permission: Option<String>,
    pub min_skill_level: Option<i64>,
    pub max_skill_level: Option<i64>,
    pub players_joined: Option<i64>,
    pub rule_id: Option<String>,
}

/// Hub members list
#[derive(Debug, Clone)]
pub struct HubMembers {
    pub start: i64,
    pub end: i64,
    pub items: Vec<HubUser>,
}

/// Hub user
#[derive(Debug, Clone)]
pub struct HubUser {
    pub user_id: String,
    pub nickname: String,
    pub avatar: Option<String>,
    pub faceit_url: Option<String>,
    pub roles: Option<Vec<String>>,
}

/// Hub stats
#[derive(Debug, Clone)]
pub struct HubStats {
    pub game_id: String,
    pub players: Vec<StatsCompetitionPlayer>,
}

/// Stats competition player
#[derive(Debug, Clone)]
pub struct StatsCompetitionPlayer {
    pub player_id: String,
    pub nickname: String,
    pub stats: serde_json::Value,
}

/// Hubs list
#[derive(Debug, Clone)]
pub struct HubsList {
    pub start: i64,
    pub end: i64,
    pub items: Vec<Hub>,
}

// Championship Types

/// Championship information
#[derive(Debug, Clone)]
pub struct Championship {
    pub championship_id: String,
    pub id: Option<String>,
    pub name: String,
    pub description: Option<String>,
    pub game_id: String,
    pub game_data: Option<Game>,
    pub organizer_id: String,
    pub organizer_data: Option<Organizer>,
    pub region: Option<String>,
    pub avatar: Option<String>,
    pub cover_image: Option<String>,
    pub background_image: Option<String>,
    pub faceit_url: Option<String>,
    pub status: String,
    pub championship_start: Option<i64>,
    pub subscription_start: Option<i64>,
    pub subscription_end: Option<i64>,
    pub checkin_start: Option<i64>,
    pub checkin_clear: Option<i64>,
    pub checkin_enabled: Option<bool>,
    pub current_subscriptions: Option<i64>,
    pub slots: Option<i64>,
    pub full: Option<bool>,
    pub subscriptions_locked: Option<bool>,
    pub featured: Option<bool>,
    pub anticheat_required: Option<bool>,
    pub prizes: Option<Vec<Prize>>,
    pub total_prizes: Option<i64>,
    pub total_rounds: Option<i64>,
    pub total_groups: Option<i64>,
    pub seeding_strategy: Option<String>,
    pub rules_id: Option<String>,
    pub join_checks: Option<JoinCheck>,
    pub schedule: Option<HashMap<String, ChampionshipSchedule>>,
    pub screening: Option<ChampionshipScreening>,
    pub stream: Option<ChampionshipStream>,
    pub substitution_configuration: Option<SubstitutionConfiguration>,
    pub championship_type: Option<String>,
}

/// Prize
#[derive(Debug, Clone)]
pub struct Prize {
    pub rank: i64,
    pub faceit_points: Option<i64>,
}

/// Join check
#[derive(Debug, Clone)]
pub struct JoinCheck {
    pub join_policy: Option<String>,
    pub membership_type: Option<String>,
    pub min_skill_level: Option<i64>,
    pub max_skill_level: Option<i64>,
    pub allowed_team_types: Option<Vec<String>>,
    pub whitelist_geo_countries: Option<Vec<String>>,
    pub whitelist_geo_countries_min_players: Option<i64>,
    pub blacklist_geo_countries: Option<Vec<String>>,
}

/// Championship schedule
#[derive(Debug, Clone)]
pub struct ChampionshipSchedule {
    pub date: i64,
    pub status: String,
}

/// Championship screening
#[derive(Debug, Clone)]
pub struct ChampionshipScreening {
    pub enabled: bool,
    pub id: String,
}

/// Championship stream
#[derive(Debug, Clone)]
pub struct ChampionshipStream {
    pub active: bool,
    pub platform: Option<String>,
    pub source: Option<String>,
    pub title: Option<String>,
}

/// Substitution configuration
#[derive(Debug, Clone)]
pub struct SubstitutionConfiguration {
    pub max_substitutes: Option<i64>,
    pub max_substitutions: Option<i64>,
}

/// Championships list
#[derive(Debug, Clone)]
pub struct ChampionshipsList {
    pub start: i64,
    pub end: i64,
    pub items: Vec<Championship>,
}

// Organizer Types

/// Organizer information
#[derive(Debug, Clone)]
pub struct Organizer {
    pub organizer_id: String,
    pub name: String,
    pub avatar: Option<String>,
    pub cover: Option<String>,
    pub description: Option<String>,
    pub faceit_url: Option<String>,
    pub twitter: Option<String>,
    pub youtube: Option<String>,
    pub twitch: Option<String>,
    pub facebook: Option<String>,
    pub vk: Option<String>,
    pub website: Option<String>,
    pub followers_count: Option<i64>,
    pub organizer_type: Option<String>,
}

// Team Types

/// Team information
#[derive(Debug, Clone)]
pub struct Team {
    pub team_id: String,
    pub name: String,
    pub nickname: String,
    pub avatar: Option<String>,
    pub cover_image: Option<String>,
    pub description: Option<String>,
    pub game: Option<String>,
    pub leader: Option<String>,
    pub members: Option<Vec<UserSimple>>,
    pub faceit_url: Option<String>,
    pub chat_room_id: Option<String>,
    pub twitter: Option<String>,
    pub youtube: Option<String>,
    pub facebook: Option<String>,
    pub website: Option<String>,
    pub team_type: Option<String>,
}

/// User simple
#[derive(Debug, Clone)]
pub struct UserSimple {
    pub user_id: String,
    pub nickname: String,
    pub avatar: Option<String>,
    pub country: Option<String>,
    pub faceit_url: Option<String>,
    pub membership_type: Option<String>,
    pub memberships: Option<Vec<String>>,
    pub skill_level: Option<i64>,
}

/// Team stats
#[derive(Debug, Clone)]
pub struct TeamStats {
    pub team_id: String,
    pub game_id: String,
    pub lifetime: Option<serde_json::Value>,
    pub segments: Option<Vec<serde_json::Value>>,
}

/// Team list
#[derive(Debug, Clone)]
pub struct TeamList {
    pub start: i64,
    pub end: i64,
    pub items: Vec<Team>,
}

// Search Types

/// User search result
#[derive(Debug, Clone)]
pub struct UserSearch {
    pub player_id: String,
    pub nickname: String,
    pub avatar: Option<String>,
    pub country: Option<String>,
    pub verified: Option<bool>,
    pub status: Option<String>,
    pub games: Option<Vec<GameUserSearch>>,
}

/// Game user search
#[derive(Debug, Clone)]
pub struct GameUserSearch {
    pub name: String,
    pub skill_level: String,
}

/// Users search list
#[derive(Debug, Clone)]
pub struct UsersSearchList {
    pub start: i64,
    pub end: i64,
    pub items: Vec<UserSearch>,
}

/// Team search result
#[derive(Debug, Clone)]
pub struct TeamSearch {
    pub team_id: String,
    pub name: String,
    pub avatar: Option<String>,
    pub game: Option<String>,
    pub faceit_url: Option<String>,
    pub chat_room_id: Option<String>,
    pub verified: Option<bool>,
}

/// Teams search list
#[derive(Debug, Clone)]
pub struct TeamsSearchList {
    pub start: i64,
    pub end: i64,
    pub items: Vec<TeamSearch>,
}

/// Competition search result
#[derive(Debug, Clone)]
pub struct CompetitionSearch {
    pub competition_id: String,
    pub competition_type: String,
    pub name: String,
    pub game: Option<String>,
    pub region: Option<String>,
    pub organizer_id: String,
    pub organizer_name: Option<String>,
    pub organizer_type: Option<String>,
    pub status: Option<String>,
    pub started_at: Option<i64>,
    pub slots: Option<i64>,
    pub number_of_members: Option<i64>,
    pub players_joined: Option<i64>,
    pub players_checkedin: Option<i64>,
    pub prize_type: Option<String>,
    pub total_prize: Option<String>,
}

/// Competitions search list
#[derive(Debug, Clone)]
pub struct CompetitionsSearchList {
    pub start: i64,
    pub end: i64,
    pub items: Vec<CompetitionSearch>,
}

// Ranking Types

/// Global ranking entry
#[derive(Debug, Clone)]
pub struct GlobalRanking {
    pub player_id: String,
    pub nickname: String,
    pub position: i64,
    pub faceit_elo: i64,
    pub game_skill_level: i64,
    pub country: Option<String>,
}

/// Global ranking list
#[derive(Debug, Clone)]
pub struct GlobalRankingList {
    pub start: i64,
    pub end: i64,
    pub items: Vec<GlobalRanking>,
}

/// Player global ranking
#[derive(Debug, Clone)]
pub struct PlayerGlobalRanking {
    pub position: i64,
    pub start: i64,
    pub end: i64,
    pub items: Vec<GlobalRanking>,
}

// Tournament Types

/// Tournament information
#[derive(Debug, Clone)]
pub struct Tournament {
    pub tournament_id: String,
    pub competition_id: Option<String>,
    pub name: String,
    pub description: Option<String>,
    pub game_id: String,
    pub game_data: Option<Game>,
    pub organizer_id: String,
    pub organizer_data: Option<Organizer>,
    pub region: Option<String>,
    pub status: String,
    pub started_at: Option<i64>,
    pub faceit_url: Option<String>,
    pub cover_image: Option<String>,
    pub featured_image: Option<String>,
    pub anticheat_required: Option<bool>,
    pub calculate_elo: Option<bool>,
    pub best_of: Option<i64>,
    pub match_type: Option<String>,
    pub invite_type: Option<String>,
    pub membership_type: Option<String>,
    pub min_skill: Option<i64>,
    pub max_skill: Option<i64>,
    pub number_of_players: Option<i64>,
    pub number_of_players_joined: Option<i64>,
    pub number_of_players_checkedin: Option<i64>,
    pub number_of_players_participants: Option<i64>,
    pub team_size: Option<i64>,
    pub substitutes_allowed: Option<i64>,
    pub substitutions_allowed: Option<i64>,
    pub total_prize: Option<String>,
    pub prize_type: Option<String>,
    pub custom: Option<bool>,
    pub rule: Option<String>,
    pub rounds: Option<Vec<serde_json::Value>>,
    pub voting: Option<serde_json::Value>,
    pub whitelist_countries: Option<Vec<String>>,
}

/// Tournaments list
#[derive(Debug, Clone)]
pub struct TournamentsList {
    pub start: i64,
    pub end: i64,
    pub items: Vec<TournamentSimple>,
}

// Matchmaking Types

/// Matchmaking information
#[derive(Debug, Clone)]
pub struct Matchmaking {
    pub id: String,
    pub name: String,
    pub game: String,
    pub region: Option<String>,
    pub short_description: Option<String>,
    pub long_description: Option<String>,
    pub icon: Option<String>,
    pub league_id: Option<String>,
    pub queues: Option<Vec<MatchmakingQueue>>,
}

/// Matchmaking queue
#[derive(Debug, Clone)]
pub struct MatchmakingQueue {
    pub id: String,
    pub name: String,
    pub open: Option<bool>,
    pub paused: Option<bool>,
    pub organizer_id: Option<String>,
}

/// Matchmaking list
#[derive(Debug, Clone)]
pub struct MatchmakingList {
    pub start: i64,
    pub end: i64,
    pub items: Vec<MatchmakingSlim>,
}

/// Matchmaking slim
#[derive(Debug, Clone)]
pub struct MatchmakingSlim {
    pub id: String,
    pub name: String,
    pub game: String,
    pub region: Option<String>,
    pub has_league: Option<bool>,
}

/// Tournament simple
#[derive(Debug, Clone)]
pub struct TournamentSimple {
    pub tournament_id: String,
    pub name: String,
    pub game_id: String,
    pub region: Option<String>,
    pub status: String,
    pub started_at: Option<i64>,
    pub faceit_url: Option<String>,
    pub featured_image: Option<String>,
    pub anticheat_required: Option<bool>,
    pub custom: Option<bool>,
    pub match_type: Option<String>,
    pub invite_type: Option<String>,
    pub membership_type: Option<String>,
    pub min_skill: Option<i64>,
    pub max_skill: Option<i64>,
    pub number_of_players: Option<i64>,
    pub number_of_players_joined: Option<i64>,
    pub number_of_players_checkedin: Option<i64>,
    pub number_of_players_participants: Option<i64>,
    pub team_size: Option<i64>,
    pub total_prize: Option<String>,
    pub prize_type: Option<String>,
    pub organizer_id: String,
    pub subscriptions_count: Option<i64>,
    pub whitelist_countries: Option<Vec<String>>,
}

} // verus!
