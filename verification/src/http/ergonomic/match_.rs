//! A handle on one match.

use crate::http::client::Client;
use crate::http::ergonomic::HandleView;
use crate::http::request::Request;
use vstd::prelude::*;
use vstd::string::StringExecFns;

verus! {

/// One match of the platform, by its identifier, together with the client
/// through which it is asked about. Each method makes the request that the
/// client's operation of that kind makes for this identifier.
pub struct Match<'a> {
    match_id: String,
    client: &'a Client,
}

impl<'a> View for Match<'a> {
    type V = HandleView;

    closed spec fn view(&self) -> HandleView {
        HandleView { id: self.match_id@, client: self.client@ }
    }
}

impl<'a> Match<'a> {
    /// A handle on the match `match_id`, asked about through `client`.
    pub fn new(match_id: &str, client: &'a Client) -> (r: Self)
        ensures
            r@ == (HandleView { id: match_id@, client: client@ }),
    {
        Match { match_id: String::from_str(match_id), client }
    }

    /// The match's identifier.
    pub fn id(&self) -> (r: &str)
        ensures
            r@ == self@.id,
    {
        self.match_id.as_str()
    }

    /// The request for the match's details.
    pub fn get(&self) -> (r: Request)
        ensures
            r@ == self@.client.get_match_request(self@.id),
    {
        self.client.get_match(self.match_id.as_str())
    }

    /// The request for the match's statistics.
    pub fn stats(&self) -> (r: Request)
        ensures
            r@ == self@.client.get_match_stats_request(self@.id),
    {
        self.client.get_match_stats(self.match_id.as_str())
    }
}

} // verus!
