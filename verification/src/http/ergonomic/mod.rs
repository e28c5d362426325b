//! Handles on one player, game, hub, championship or match: an identifier
//! kept together with the client, so that it need not be passed to each call.

use crate::http::client::ClientView;
use vstd::prelude::*;

mod championship;
mod game;
mod hub;
mod match_;
mod player;

pub use championship::Championship;
pub use game::Game;
pub use hub::Hub;
pub use match_::Match;
pub use player::Player;

verus! {

/// The mathematical value of a handle: the identifier it stands for and the
/// client it asks through.
pub struct HandleView {
    pub id: Seq<char>,
    pub client: ClientView,
}

} // verus!
