//! A handle on one championship.

use crate::http::client::Client;
use crate::http::ergonomic::HandleView;
use crate::http::request::Request;
use vstd::prelude::*;
use vstd::string::StringExecFns;

verus! {

/// One championship of the platform, by its identifier, together with the client
/// through which it is asked about. Each method makes the request that the
/// client's operation of that kind makes for this identifier.
pub struct Championship<'a> {
    championship_id: String,
    client: &'a Client,
}

impl<'a> View for Championship<'a> {
    type V = HandleView;

    closed spec fn view(&self) -> HandleView {
        HandleView { id: self.championship_id@, client: self.client@ }
    }
}

impl<'a> Championship<'a> {
    /// A handle on the championship `championship_id`, asked about through `client`.
    pub fn new(championship_id: &str, client: &'a Client) -> (r: Self)
        ensures
            r@ == (HandleView { id: championship_id@, client: client@ }),
    {
        Championship { championship_id: String::from_str(championship_id), client }
    }

    /// The championship's identifier.
    pub fn id(&self) -> (r: &str)
        ensures
            r@ == self@.id,
    {
        self.championship_id.as_str()
    }

    /// The request for the championship's details.
    pub fn get(&self, expanded: Option<&[&str]>) -> (r: Request)
        ensures
            r@ == self@.client.get_championship_request(self@.id, expanded),
    {
        self.client.get_championship(self.championship_id.as_str(), expanded)
    }

    /// The request for the championship's matches.
    pub fn matches(
        &self,
        match_type: Option<&str>,
        offset: Option<i64>,
        limit: Option<i64>,
    ) -> (r: Request)
        ensures
            r@ == self@.client.get_championship_matches_request(
                self@.id,
                match_type,
                offset,
                limit,
            ),
    {
        self.client.get_championship_matches(
            self.championship_id.as_str(),
            match_type,
            offset,
            limit,
        )
    }
}

} // verus!
