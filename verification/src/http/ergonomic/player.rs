//! A handle on one player.

use crate::http::client::Client;
use crate::http::ergonomic::HandleView;
use crate::http::request::Request;
use vstd::prelude::*;
use vstd::string::StringExecFns;

verus! {

/// One player of the platform, by its identifier, together with the client
/// through which it is asked about. Each method makes the request that the
/// client's operation of that kind makes for this identifier.
pub struct Player<'a> {
    player_id: String,
    client: &'a Client,
}

impl<'a> View for Player<'a> {
    type V = HandleView;

    closed spec fn view(&self) -> HandleView {
        HandleView { id: self.player_id@, client: self.client@ }
    }
}

impl<'a> Player<'a> {
    /// A handle on the player `player_id`, asked about through `client`.
    pub fn new(player_id: &str, client: &'a Client) -> (r: Self)
        ensures
            r@ == (HandleView { id: player_id@, client: client@ }),
    {
        Player { player_id: String::from_str(player_id), client }
    }

    /// The player's identifier.
    pub fn id(&self) -> (r: &str)
        ensures
            r@ == self@.id,
    {
        self.player_id.as_str()
    }

    /// The request for the player's details.
    pub fn get(&self) -> (r: Request)
        ensures
            r@ == self@.client.get_player_request(self@.id),
    {
        self.client.get_player(self.player_id.as_str())
    }

    /// The request for the player's statistics in one game.
    pub fn stats(&self, game_id: &str) -> (r: Request)
        ensures
            r@ == self@.client.get_player_stats_request(self@.id, game_id@),
    {
        self.client.get_player_stats(self.player_id.as_str(), game_id)
    }

    /// The request for the player's match history in one game.
    pub fn history(
        &self,
        game: &str,
        from: Option<i64>,
        to: Option<i64>,
        offset: Option<i64>,
        limit: Option<i64>,
    ) -> (r: Request)
        ensures
            r@ == self@.client.get_player_history_request(self@.id, game@, from, to, offset, limit),
    {
        self.client.get_player_history(self.player_id.as_str(), game, from, to, offset, limit)
    }

    /// The request for the player's bans.
    pub fn bans(&self, offset: Option<i64>, limit: Option<i64>) -> (r: Request)
        ensures
            r@ == self@.client.get_player_bans_request(self@.id, offset, limit),
    {
        self.client.get_player_bans(self.player_id.as_str(), offset, limit)
    }

    /// The request for the player's hubs.
    pub fn hubs(&self, offset: Option<i64>, limit: Option<i64>) -> (r: Request)
        ensures
            r@ == self@.client.get_player_hubs_request(self@.id, offset, limit),
    {
        self.client.get_player_hubs(self.player_id.as_str(), offset, limit)
    }

    /// The request for the player's teams.
    pub fn teams(&self, offset: Option<i64>, limit: Option<i64>) -> (r: Request)
        ensures
            r@ == self@.client.get_player_teams_request(self@.id, offset, limit),
    {
        self.client.get_player_teams(self.player_id.as_str(), offset, limit)
    }

    /// The request for the player's tournaments.
    pub fn tournaments(&self, offset: Option<i64>, limit: Option<i64>) -> (r: Request)
        ensures
            r@ == self@.client.get_player_tournaments_request(self@.id, offset, limit),
    {
        self.client.get_player_tournaments(self.player_id.as_str(), offset, limit)
    }
}

} // verus!
