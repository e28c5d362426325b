//! A handle on one game.

use crate::http::client::Client;
use crate::http::ergonomic::HandleView;
use crate::http::request::Request;
use vstd::prelude::*;
use vstd::string::StringExecFns;

verus! {

/// One game of the platform, by its identifier, together with the client
/// through which it is asked about. Each method makes the request that the
/// client's operation of that kind makes for this identifier.
pub struct Game<'a> {
    game_id: String,
    client: &'a Client,
}

impl<'a> View for Game<'a> {
    type V = HandleView;

    closed spec fn view(&self) -> HandleView {
        HandleView { id: self.game_id@, client: self.client@ }
    }
}

impl<'a> Game<'a> {
    /// A handle on the game `game_id`, asked about through `client`.
    pub fn new(game_id: &str, client: &'a Client) -> (r: Self)
        ensures
            r@ == (HandleView { id: game_id@, client: client@ }),
    {
        Game { game_id: String::from_str(game_id), client }
    }

    /// The game's identifier.
    pub fn id(&self) -> (r: &str)
        ensures
            r@ == self@.id,
    {
        self.game_id.as_str()
    }

    /// The request for the game's details.
    pub fn get(&self) -> (r: Request)
        ensures
            r@ == self@.client.get_game_request(self@.id),
    {
        self.client.get_game(self.game_id.as_str())
    }

    /// The request for the game that this region-specific game belongs to.
    pub fn parent(&self) -> (r: Request)
        ensures
            r@ == self@.client.get_parent_game_request(self@.id),
    {
        self.client.get_parent_game(self.game_id.as_str())
    }

    /// The request for the game's matchmakings.
    pub fn matchmakings(
        &self,
        region: Option<&str>,
        offset: Option<i64>,
        limit: Option<i64>,
    ) -> (r: Request)
        ensures
            r@ == self@.client.get_game_matchmakings_request(self@.id, region, offset, limit),
    {
        self.client.get_game_matchmakings(self.game_id.as_str(), region, offset, limit)
    }
}

} // verus!
