//! A handle on one hub.

use crate::http::client::Client;
use crate::http::ergonomic::HandleView;
use crate::http::request::Request;
use vstd::prelude::*;
use vstd::string::StringExecFns;

verus! {

/// One hub of the platform, by its identifier, together with the client
/// through which it is asked about. Each method makes the request that the
/// client's operation of that kind makes for this identifier.
pub struct Hub<'a> {
    hub_id: String,
    client: &'a Client,
}

impl<'a> View for Hub<'a> {
    type V = HandleView;

    closed spec fn view(&self) -> HandleView {
        HandleView { id: self.hub_id@, client: self.client@ }
    }
}

impl<'a> Hub<'a> {
    /// A handle on the hub `hub_id`, asked about through `client`.
    pub fn new(hub_id: &str, client: &'a Client) -> (r: Self)
        ensures
            r@ == (HandleView { id: hub_id@, client: client@ }),
    {
        Hub { hub_id: String::from_str(hub_id), client }
    }

    /// The hub's identifier.
    pub fn id(&self) -> (r: &str)
        ensures
            r@ == self@.id,
    {
        self.hub_id.as_str()
    }

    /// The request for the hub's details.
    pub fn get(&self, expanded: Option<&[&str]>) -> (r: Request)
        ensures
            r@ == self@.client.get_hub_request(self@.id, expanded),
    {
        self.client.get_hub(self.hub_id.as_str(), expanded)
    }

    /// The request for the hub's matches.
    pub fn matches(
        &self,
        match_type: Option<&str>,
        offset: Option<i64>,
        limit: Option<i64>,
    ) -> (r: Request)
        ensures
            r@ == self@.client.get_hub_matches_request(self@.id, match_type, offset, limit),
    {
        self.client.get_hub_matches(self.hub_id.as_str(), match_type, offset, limit)
    }

    /// The request for the hub's members.
    pub fn members(&self, offset: Option<i64>, limit: Option<i64>) -> (r: Request)
        ensures
            r@ == self@.client.get_hub_members_request(self@.id, offset, limit),
    {
        self.client.get_hub_members(self.hub_id.as_str(), offset, limit)
    }

    /// The request for the hub's statistics.
    pub fn stats(&self, offset: Option<i64>, limit: Option<i64>) -> (r: Request)
        ensures
            r@ == self@.client.get_hub_stats_request(self@.id, offset, limit),
    {
        self.client.get_hub_stats(self.hub_id.as_str(), offset, limit)
    }
}

} // verus!
