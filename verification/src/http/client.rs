//! The client configuration and the operations of the Data API.

use crate::error::{Error, ErrorView};
use crate::http::request::{
    lemma_absent_name_is_omitted, list_param, number_param, present, required_param, text_param,
    ParamView, Params, Request, RequestView,
};
use crate::http::response::{failure, is_success, result_view, decoded_view, verdict, Response};
use std::time::Duration;
use vstd::prelude::*;
use vstd::string::StringExecFns;

verus! {

/// The duration of `secs` whole seconds.
pub uninterp spec fn duration_of_secs(secs: u64) -> Duration;

/// `std::time::Duration::from_secs` makes the duration of the given number of
/// whole seconds; the same number always gives the same duration.
pub assume_specification[ Duration::from_secs ](secs: u64) -> (d: Duration)
    ensures
        d == duration_of_secs(secs),
;

/// The base URL of the public API.
pub open spec fn default_base_url() -> Seq<char> {
    "https://open.faceit.com"@
}

/// The timeout of a request unless the caller sets another: 30 seconds.
pub open spec fn default_timeout() -> Duration {
    duration_of_secs(30)
}

/// Collects the settings of a [`Client`].
pub struct ClientBuilder {
    base_url: Option<String>,
    api_key: Option<String>,
    timeout: Option<Duration>,
}

/// The mathematical value of a [`ClientBuilder`].
pub struct ClientBuilderView {
    pub base_url: Option<Seq<char>>,
    pub api_key: Option<Seq<char>>,
    pub timeout: Option<Duration>,
}

/// The text of an optional string.
pub open spec fn optional_text(s: Option<String>) -> Option<Seq<char>> {
    match s {
        Some(s) => Some(s@),
        None => None,
    }
}

impl View for ClientBuilder {
    type V = ClientBuilderView;

    closed spec fn view(&self) -> ClientBuilderView {
        ClientBuilderView {
            base_url: optional_text(self.base_url),
            api_key: optional_text(self.api_key),
            timeout: self.timeout,
        }
    }
}

impl ClientBuilder {
    /// A builder with the default settings: no base URL of its own, no
    /// credential, and the default timeout.
    pub fn new() -> (r: ClientBuilder)
        ensures
            r@ == (ClientBuilderView {
                base_url: None,
                api_key: None,
                timeout: Some(default_timeout()),
            }),
    {
        ClientBuilder { base_url: None, api_key: None, timeout: Some(Duration::from_secs(30)) }
    }

    /// Sets the base URL of the API.
    pub fn base_url(self, url: &str) -> (r: ClientBuilder)
        ensures
            r@ == (ClientBuilderView { base_url: Some(url@), ..self@ }),
    {
        ClientBuilder {
            base_url: Some(String::from_str(url)),
            api_key: self.api_key,
            timeout: self.timeout,
        }
    }

    /// Sets the bearer credential: an API key or an access token, which are
    /// sent alike.
    pub fn api_key(self, key: &str) -> (r: ClientBuilder)
        ensures
            r@ == (ClientBuilderView { api_key: Some(key@), ..self@ }),
    {
        ClientBuilder {
            base_url: self.base_url,
            api_key: Some(String::from_str(key)),
            timeout: self.timeout,
        }
    }

    /// Sets the timeout of a request.
    pub fn timeout(self, timeout: Duration) -> (r: ClientBuilder)
        ensures
            r@ == (ClientBuilderView { timeout: Some(timeout), ..self@ }),
    {
        ClientBuilder { base_url: self.base_url, api_key: self.api_key, timeout: Some(timeout) }
    }

    /// Builds the client: each setting as it was given, and the default
    /// where none was.
    pub fn build(self) -> (r: Client)
        ensures
            r@ == (ClientView {
                base_url: match self@.base_url {
                    Some(url) => url,
                    None => default_base_url(),
                },
                api_key: self@.api_key,
                timeout: match self@.timeout {
                    Some(timeout) => timeout,
                    None => default_timeout(),
                },
            }),
    {
        let base_url = match self.base_url {
            Some(url) => url,
            None => String::from_str("https://open.faceit.com"),
        };
        let timeout = match self.timeout {
            Some(timeout) => timeout,
            None => Duration::from_secs(30),
        };
        Client { base_url, api_key: self.api_key, timeout }
    }
}

impl Default for ClientBuilder {
    fn default() -> (r: ClientBuilder)
        ensures
            r@ == (ClientBuilderView {
                base_url: None,
                api_key: None,
                timeout: Some(default_timeout()),
            }),
    {
        ClientBuilder::new()
    }
}

/// The configuration of a client of the API: where it is, which credential to
/// present, and how long to wait. It does not change once built.
pub struct Client {
    base_url: String,
    api_key: Option<String>,
    timeout: Duration,
}

/// The mathematical value of a [`Client`].
pub struct ClientView {
    pub base_url: Seq<char>,
    pub api_key: Option<Seq<char>>,
    pub timeout: Duration,
}

impl View for Client {
    type V = ClientView;

    closed spec fn view(&self) -> ClientView {
        ClientView {
            base_url: self.base_url@,
            api_key: optional_text(self.api_key),
            timeout: self.timeout,
        }
    }
}

/// The headers `headers` with the bearer credential added, if there is one.
pub open spec fn authorized(
    headers: Seq<(Seq<char>, Seq<char>)>,
    api_key: Option<Seq<char>>,
) -> Seq<(Seq<char>, Seq<char>)> {
    match api_key {
        Some(key) => headers.push(("Authorization"@, "Bearer "@ + key)),
        None => headers,
    }
}

impl ClientView {
    /// The request that an operation sends: a GET of `url` with one query
    /// pair for each parameter that has a value, and with the bearer
    /// credential if the client has one.
    pub open spec fn request(self, url: Seq<char>, params: Seq<ParamView>) -> RequestView {
        RequestView {
            url,
            query: present(params),
            headers: authorized(Seq::empty(), self.api_key),
        }
    }

    /// The request that [`Client::get_player`] makes.
    pub open spec fn get_player_request(self, player_id: Seq<char>) -> RequestView {
        self.request(self.base_url + "/data/v4/players/"@ + player_id, Seq::empty())
    }

    /// The request that [`Client::get_player_from_lookup`] makes.
    pub open spec fn get_player_from_lookup_request(
        self,
        nickname: Option<&str>,
        game: Option<&str>,
        game_player_id: Option<&str>,
    ) -> RequestView {
        self.request(
            self.base_url + "/data/v4/players"@,
            Seq::empty()
                .push(text_param("nickname"@, nickname))
                .push(text_param("game"@, game))
                .push(text_param("game_player_id"@, game_player_id)),
        )
    }

    /// The request that [`Client::get_player_stats`] makes.
    pub open spec fn get_player_stats_request(
        self,
        player_id: Seq<char>,
        game_id: Seq<char>,
    ) -> RequestView {
        self.request(
            self.base_url + "/data/v4/players/"@ + player_id + "/stats/"@ + game_id,
            Seq::empty(),
        )
    }

    /// The request that [`Client::get_player_history`] makes.
    pub open spec fn get_player_history_request(
        self,
        player_id: Seq<char>,
        game: Seq<char>,
        from: Option<i64>,
        to: Option<i64>,
        offset: Option<i64>,
        limit: Option<i64>,
    ) -> RequestView {
        self.request(
            self.base_url + "/data/v4/players/"@ + player_id + "/history"@,
            Seq::empty()
                .push(required_param("game"@, game))
                .push(number_param("from"@, from))
                .push(number_param("to"@, to))
                .push(number_param("offset"@, offset))
                .push(number_param("limit"@, limit)),
        )
    }

    /// The request that [`Client::get_player_bans`] makes.
    pub open spec fn get_player_bans_request(
        self,
        player_id: Seq<char>,
        offset: Option<i64>,
        limit: Option<i64>,
    ) -> RequestView {
        self.request(
            self.base_url + "/data/v4/players/"@ + player_id + "/bans"@,
            Seq::empty()
                .push(number_param("offset"@, offset))
                .push(number_param("limit"@, limit)),
        )
    }

    /// The request that [`Client::get_player_hubs`] makes.
    pub open spec fn get_player_hubs_request(
        self,
        player_id: Seq<char>,
        offset: Option<i64>,
        limit: Option<i64>,
    ) -> RequestView {
        self.request(
            self.base_url + "/data/v4/players/"@ + player_id + "/hubs"@,
            Seq::empty()
                .push(number_param("offset"@, offset))
                .push(number_param("limit"@, limit)),
        )
    }

    /// The request that [`Client::get_player_teams`] makes.
    pub open spec fn get_player_teams_request(
        self,
        player_id: Seq<char>,
        offset: Option<i64>,
        limit: Option<i64>,
    ) -> RequestView {
        self.request(
            self.base_url + "/data/v4/players/"@ + player_id + "/teams"@,
            Seq::empty()
                .push(number_param("offset"@, offset))
                .push(number_param("limit"@, limit)),
        )
    }

    /// The request that [`Client::get_player_tournaments`] makes.
    pub open spec fn get_player_tournaments_request(
        self,
        player_id: Seq<char>,
        offset: Option<i64>,
        limit: Option<i64>,
    ) -> RequestView {
        self.request(
            self.base_url + "/data/v4/players/"@ + player_id + "/tournaments"@,
            Seq::empty()
                .push(number_param("offset"@, offset))
                .push(number_param("limit"@, limit)),
        )
    }

    /// The request that [`Client::get_match`] makes.
    pub open spec fn get_match_request(self, match_id: Seq<char>) -> RequestView {
        self.request(self.base_url + "/data/v4/matches/"@ + match_id, Seq::empty())
    }

    /// The request that [`Client::get_match_stats`] makes.
    pub open spec fn get_match_stats_request(self, match_id: Seq<char>) -> RequestView {
        self.request(self.base_url + "/data/v4/matches/"@ + match_id + "/stats"@, Seq::empty())
    }

    /// The request that [`Client::get_all_games`] makes.
    pub open spec fn get_all_games_request(
        self,
        offset: Option<i64>,
        limit: Option<i64>,
    ) -> RequestView {
        self.request(
            self.base_url + "/data/v4/games"@,
            Seq::empty()
                .push(number_param("offset"@, offset))
                .push(number_param("limit"@, limit)),
        )
    }

    /// The request that [`Client::get_game`] makes.
    pub open spec fn get_game_request(self, game_id: Seq<char>) -> RequestView {
        self.request(self.base_url + "/data/v4/games/"@ + game_id, Seq::empty())
    }

    /// The request that [`Client::get_parent_game`] makes.
    pub open spec fn get_parent_game_request(self, game_id: Seq<char>) -> RequestView {
        self.request(self.base_url + "/data/v4/games/"@ + game_id + "/parent"@, Seq::empty())
    }

    /// The request that [`Client::get_game_matchmakings`] makes.
    pub open spec fn get_game_matchmakings_request(
        self,
        game_id: Seq<char>,
        region: Option<&str>,
        offset: Option<i64>,
        limit: Option<i64>,
    ) -> RequestView {
        self.request(
            self.base_url + "/data/v4/games/"@ + game_id + "/matchmakings"@,
            Seq::empty()
                .push(text_param("region"@, region))
                .push(number_param("offset"@, offset))
                .push(number_param("limit"@, limit)),
        )
    }

    /// The request that [`Client::get_hub`] makes.
    pub open spec fn get_hub_request(
        self,
        hub_id: Seq<char>,
        expanded: Option<&[&str]>,
    ) -> RequestView {
        self.request(
            self.base_url + "/data/v4/hubs/"@ + hub_id,
            Seq::empty().push(list_param("expanded"@, expanded)),
        )
    }

    /// The request that [`Client::get_hub_matches`] makes.
    pub open spec fn get_hub_matches_request(
        self,
        hub_id: Seq<char>,
        match_type: Option<&str>,
        offset: Option<i64>,
        limit: Option<i64>,
    ) -> RequestView {
        self.request(
            self.base_url + "/data/v4/hubs/"@ + hub_id + "/matches"@,
            Seq::empty()
                .push(text_param("type"@, match_type))
                .push(number_param("offset"@, offset))
                .push(number_param("limit"@, limit)),
        )
    }

    /// The request that [`Client::get_hub_members`] makes.
    pub open spec fn get_hub_members_request(
        self,
        hub_id: Seq<char>,
        offset: Option<i64>,
        limit: Option<i64>,
    ) -> RequestView {
        self.request(
            self.base_url + "/data/v4/hubs/"@ + hub_id + "/members"@,
            Seq::empty()
                .push(number_param("offset"@, offset))
                .push(number_param("limit"@, limit)),
        )
    }

    /// The request that [`Client::get_hub_stats`] makes.
    pub open spec fn get_hub_stats_request(
        self,
        hub_id: Seq<char>,
        offset: Option<i64>,
        limit: Option<i64>,
    ) -> RequestView {
        self.request(
            self.base_url + "/data/v4/hubs/"@ + hub_id + "/stats"@,
            Seq::empty()
                .push(number_param("offset"@, offset))
                .push(number_param("limit"@, limit)),
        )
    }

    /// The request that [`Client::get_championships`] makes.
    pub open spec fn get_championships_request(
        self,
        game: Seq<char>,
        championship_type: Option<&str>,
        offset: Option<i64>,
        limit: Option<i64>,
    ) -> RequestView {
        self.request(
            self.base_url + "/data/v4/championships"@,
            Seq::empty()
                .push(required_param("game"@, game))
                .push(text_param("type"@, championship_type))
                .push(number_param("offset"@, offset))
                .push(number_param("limit"@, limit)),
        )
    }

    /// The request that [`Client::get_championship`] makes.
    pub open spec fn get_championship_request(
        self,
        championship_id: Seq<char>,
        expanded: Option<&[&str]>,
    ) -> RequestView {
        self.request(
            self.base_url + "/data/v4/championships/"@ + championship_id,
            Seq::empty().push(list_param("expanded"@, expanded)),
        )
    }

    /// The request that [`Client::get_championship_matches`] makes.
    pub open spec fn get_championship_matches_request(
        self,
        championship_id: Seq<char>,
        match_type: Option<&str>,
        offset: Option<i64>,
        limit: Option<i64>,
    ) -> RequestView {
        self.request(
            self.base_url + "/data/v4/championships/"@ + championship_id + "/matches"@,
            Seq::empty()
                .push(text_param("type"@, match_type))
                .push(number_param("offset"@, offset))
                .push(number_param("limit"@, limit)),
        )
    }

    /// The request that [`Client::search_players`] makes.
    pub open spec fn search_players_request(
        self,
        nickname: Seq<char>,
        game: Option<&str>,
        country: Option<&str>,
        offset: Option<i64>,
        limit: Option<i64>,
    ) -> RequestView {
        self.request(
            self.base_url + "/data/v4/search/players"@,
            Seq::empty()
                .push(required_param("nickname"@, nickname))
                .push(text_param("game"@, game))
                .push(text_param("country"@, country))
                .push(number_param("offset"@, offset))
                .push(number_param("limit"@, limit)),
        )
    }

    /// The request that [`Client::search_teams`] makes.
    pub open spec fn search_teams_request(
        self,
        nickname: Seq<char>,
        game: Option<&str>,
        offset: Option<i64>,
        limit: Option<i64>,
    ) -> RequestView {
        self.request(
            self.base_url + "/data/v4/search/teams"@,
            Seq::empty()
                .push(required_param("nickname"@, nickname))
                .push(text_param("game"@, game))
                .push(number_param("offset"@, offset))
                .push(number_param("limit"@, limit)),
        )
    }

    /// The request that [`Client::search_hubs`] makes.
    pub open spec fn search_hubs_request(
        self,
        name: Seq<char>,
        game: Option<&str>,
        region: Option<&str>,
        offset: Option<i64>,
        limit: Option<i64>,
    ) -> RequestView {
        self.request(
            self.base_url + "/data/v4/search/hubs"@,
            Seq::empty()
                .push(required_param("name"@, name))
                .push(text_param("game"@, game))
                .push(text_param("region"@, region))
                .push(number_param("offset"@, offset))
                .push(number_param("limit"@, limit)),
        )
    }

    /// The request that [`Client::get_global_ranking`] makes.
    pub open spec fn get_global_ranking_request(
        self,
        game_id: Seq<char>,
        region: Seq<char>,
        country: Option<&str>,
        offset: Option<i64>,
        limit: Option<i64>,
    ) -> RequestView {
        self.request(
            self.base_url + "/data/v4/rankings/games/"@ + game_id + "/regions/"@ + region,
            Seq::empty()
                .push(text_param("country"@, country))
                .push(number_param("offset"@, offset))
                .push(number_param("limit"@, limit)),
        )
    }

    /// The request that [`Client::get_player_ranking`] makes.
    pub open spec fn get_player_ranking_request(
        self,
        game_id: Seq<char>,
        region: Seq<char>,
        player_id: Seq<char>,
        country: Option<&str>,
        limit: Option<i64>,
    ) -> RequestView {
        self.request(
            self.base_url + "/data/v4/rankings/games/"@ + game_id + "/regions/"@ + region + "/players/"@ + player_id,
            Seq::empty()
                .push(text_param("country"@, country))
                .push(number_param("limit"@, limit)),
        )
    }
}

impl Client {
    /// A client of the public API without a credential.
    pub fn new() -> (r: Client)
        ensures
            r@ == (ClientView {
                base_url: default_base_url(),
                api_key: None,
                timeout: default_timeout(),
            }),
    {
        ClientBuilder::new().build()
    }

    /// A builder with the default settings.
    pub fn builder() -> (r: ClientBuilder)
        ensures
            r@ == (ClientBuilderView {
                base_url: None,
                api_key: None,
                timeout: Some(default_timeout()),
            }),
    {
        ClientBuilder::new()
    }

    /// The base URL.
    pub fn base_url(&self) -> (r: &str)
        ensures
            r@ == self@.base_url,
    {
        self.base_url.as_str()
    }

    /// The bearer credential, if one is set.
    pub fn api_key(&self) -> (r: Option<&str>)
        ensures
            r is Some <==> self@.api_key is Some,
            r matches Some(key) ==> key@ == self@.api_key->0,
    {
        match &self.api_key {
            Some(key) => Some(key.as_str()),
            None => None,
        }
    }

    /// The timeout of a request.
    pub fn timeout(&self) -> (r: Duration)
        ensures
            r == self@.timeout,
    {
        self.timeout
    }

    /// Adds the header `Authorization: Bearer` and the credential to
    /// `request` if the client has a credential, and nothing if it has none.
    pub fn add_api_key_header(&self, request: Request) -> (r: Request)
        ensures
            r@ == (RequestView {
                headers: authorized(request@.headers, self@.api_key),
                ..request@
            }),
            self@.api_key is None ==> r == request,
    {
        match &self.api_key {
            Some(key) => {
                let mut value = String::from_str("Bearer ");
                value.append(key.as_str());
                request.header("Authorization", value.as_str())
            },
            None => request,
        }
    }

    fn prepare(&self, url: String, params: Params) -> (r: Request)
        ensures
            r@ == self@.request(url@, params@),
    {
        let request = Request::get(url).query(&params);
        self.add_api_key_header(request)
    }

    /// Asks for the details of a player; the answer decodes to a
    /// [`Player`](crate::types::Player).
    pub fn get_player(&self, player_id: &str) -> (r: Request)
        ensures
            r@ == self@.get_player_request(player_id@),
    {
        let mut url = self.base_url.clone();
        url.append("/data/v4/players/");
        url.append(player_id);
        self.prepare(url, Params::new())
    }

    /// Looks a player up by nickname, or by game and the player's identifier in
    /// that game; the answer decodes to a [`Player`](crate::types::Player).
    pub fn get_player_from_lookup(
        &self,
        nickname: Option<&str>,
        game: Option<&str>,
        game_player_id: Option<&str>,
    ) -> (r: Request)
        ensures
            r@ == self@.get_player_from_lookup_request(nickname, game, game_player_id),
    {
        let mut url = self.base_url.clone();
        url.append("/data/v4/players");
        let params = Params::new()
            .text("nickname", nickname)
            .text("game", game)
            .text("game_player_id", game_player_id);
        self.prepare(url, params)
    }

    /// Asks for the statistics of a player in one game; the answer decodes to a
    /// [`PlayerStats`](crate::types::PlayerStats).
    pub fn get_player_stats(&self, player_id: &str, game_id: &str) -> (r: Request)
        ensures
            r@ == self@.get_player_stats_request(player_id@, game_id@),
    {
        let mut url = self.base_url.clone();
        url.append("/data/v4/players/");
        url.append(player_id);
        url.append("/stats/");
        url.append(game_id);
        self.prepare(url, Params::new())
    }

    /// Asks for the match history of a player in one game, between the Unix
    /// times `from` and `to` where they are given; the answer decodes to a
    /// [`MatchHistoryList`](crate::types::MatchHistoryList).
    pub fn get_player_history(
        &self,
        player_id: &str,
        game: &str,
        from: Option<i64>,
        to: Option<i64>,
        offset: Option<i64>,
        limit: Option<i64>,
    ) -> (r: Request)
        ensures
            r@ == self@.get_player_history_request(player_id@, game@, from, to, offset, limit),
    {
        let mut url = self.base_url.clone();
        url.append("/data/v4/players/");
        url.append(player_id);
        url.append("/history");
        let params = Params::new()
            .required("game", game)
            .number("from", from)
            .number("to", to)
            .number("offset", offset)
            .number("limit", limit);
        self.prepare(url, params)
    }

    /// Asks for the bans of a player; the answer decodes to a
    /// [`PlayerBansList`](crate::types::PlayerBansList).
    pub fn get_player_bans(
        &self,
        player_id: &str,
        offset: Option<i64>,
        limit: Option<i64>,
    ) -> (r: Request)
        ensures
            r@ == self@.get_player_bans_request(player_id@, offset, limit),
    {
        let mut url = self.base_url.clone();
        url.append("/data/v4/players/");
        url.append(player_id);
        url.append("/bans");
        let params = Params::new().number("offset", offset).number("limit", limit);
        self.prepare(url, params)
    }

    /// Asks for the hubs of a player; the answer decodes to a
    /// [`HubsList`](crate::types::HubsList).
    pub fn get_player_hubs(
        &self,
        player_id: &str,
        offset: Option<i64>,
        limit: Option<i64>,
    ) -> (r: Request)
        ensures
            r@ == self@.get_player_hubs_request(player_id@, offset, limit),
    {
        let mut url = self.base_url.clone();
        url.append("/data/v4/players/");
        url.append(player_id);
        url.append("/hubs");
        let params = Params::new().number("offset", offset).number("limit", limit);
        self.prepare(url, params)
    }

    /// Asks for the teams of a player; the answer decodes to a
    /// [`TeamList`](crate::types::TeamList).
    pub fn get_player_teams(
        &self,
        player_id: &str,
        offset: Option<i64>,
        limit: Option<i64>,
    ) -> (r: Request)
        ensures
            r@ == self@.get_player_teams_request(player_id@, offset, limit),
    {
        let mut url = self.base_url.clone();
        url.append("/data/v4/players/");
        url.append(player_id);
        url.append("/teams");
        let params = Params::new().number("offset", offset).number("limit", limit);
        self.prepare(url, params)
    }

    /// Asks for the tournaments of a player; the answer decodes to a
    /// [`TournamentsList`](crate::types::TournamentsList).
    pub fn get_player_tournaments(
        &self,
        player_id: &str,
        offset: Option<i64>,
        limit: Option<i64>,
    ) -> (r: Request)
        ensures
            r@ == self@.get_player_tournaments_request(player_id@, offset, limit),
    {
        let mut url = self.base_url.clone();
        url.append("/data/v4/players/");
        url.append(player_id);
        url.append("/tournaments");
        let params = Params::new().number("offset", offset).number("limit", limit);
        self.prepare(url, params)
    }

    /// Asks for the details of a match; the answer decodes to a
    /// [`Match`](crate::types::Match).
    pub fn get_match(&self, match_id: &str) -> (r: Request)
        ensures
            r@ == self@.get_match_request(match_id@),
    {
        let mut url = self.base_url.clone();
        url.append("/data/v4/matches/");
        url.append(match_id);
        self.prepare(url, Params::new())
    }

    /// Asks for the statistics of a match; the answer decodes to a
    /// [`MatchStats`](crate::types::MatchStats).
    pub fn get_match_stats(&self, match_id: &str) -> (r: Request)
        ensures
            r@ == self@.get_match_stats_request(match_id@),
    {
        let mut url = self.base_url.clone();
        url.append("/data/v4/matches/");
        url.append(match_id);
        url.append("/stats");
        self.prepare(url, Params::new())
    }

    /// Asks for the list of games; the answer decodes to a
    /// [`GamesList`](crate::types::GamesList).
    pub fn get_all_games(&self, offset: Option<i64>, limit: Option<i64>) -> (r: Request)
        ensures
            r@ == self@.get_all_games_request(offset, limit),
    {
        let mut url = self.base_url.clone();
        url.append("/data/v4/games");
        let params = Params::new().number("offset", offset).number("limit", limit);
        self.prepare(url, params)
    }

    /// Asks for the details of a game; the answer decodes to a
    /// [`Game`](crate::types::Game).
    pub fn get_game(&self, game_id: &str) -> (r: Request)
        ensures
            r@ == self@.get_game_request(game_id@),
    {
        let mut url = self.base_url.clone();
        url.append("/data/v4/games/");
        url.append(game_id);
        self.prepare(url, Params::new())
    }

    /// Asks for the game that a region-specific game belongs to; the answer
    /// decodes to a [`Game`](crate::types::Game).
    pub fn get_parent_game(&self, game_id: &str) -> (r: Request)
        ensures
            r@ == self@.get_parent_game_request(game_id@),
    {
        let mut url = self.base_url.clone();
        url.append("/data/v4/games/");
        url.append(game_id);
        url.append("/parent");
        self.prepare(url, Params::new())
    }

    /// Asks for the matchmakings of a game, in one region where `region` is
    /// given; the answer decodes to a
    /// [`MatchmakingList`](crate::types::MatchmakingList).
    pub fn get_game_matchmakings(
        &self,
        game_id: &str,
        region: Option<&str>,
        offset: Option<i64>,
        limit: Option<i64>,
    ) -> (r: Request)
        ensures
            r@ == self@.get_game_matchmakings_request(game_id@, region, offset, limit),
    {
        let mut url = self.base_url.clone();
        url.append("/data/v4/games/");
        url.append(game_id);
        url.append("/matchmakings");
        let params = Params::new()
            .text("region", region)
            .number("offset", offset)
            .number("limit", limit);
        self.prepare(url, params)
    }

    /// Asks for the details of a hub, with the entities named in `expanded`
    /// written out; the answer decodes to a [`Hub`](crate::types::Hub).
    pub fn get_hub(&self, hub_id: &str, expanded: Option<&[&str]>) -> (r: Request)
        ensures
            r@ == self@.get_hub_request(hub_id@, expanded),
    {
        let mut url = self.base_url.clone();
        url.append("/data/v4/hubs/");
        url.append(hub_id);
        let params = Params::new().list("expanded", expanded);
        self.prepare(url, params)
    }

    /// Asks for the matches of a hub, of one kind where `match_type` is given;
    /// the answer decodes to a [`MatchesList`](crate::types::MatchesList).
    pub fn get_hub_matches(
        &self,
        hub_id: &str,
        match_type: Option<&str>,
        offset: Option<i64>,
        limit: Option<i64>,
    ) -> (r: Request)
        ensures
            r@ == self@.get_hub_matches_request(hub_id@, match_type, offset, limit),
    {
        let mut url = self.base_url.clone();
        url.append("/data/v4/hubs/");
        url.append(hub_id);
        url.append("/matches");
        let params = Params::new()
            .text("type", match_type)
            .number("offset", offset)
            .number("limit", limit);
        self.prepare(url, params)
    }

    /// Asks for the members of a hub; the answer decodes to a
    /// [`HubMembers`](crate::types::HubMembers).
    pub fn get_hub_members(
        &self,
        hub_id: &str,
        offset: Option<i64>,
        limit: Option<i64>,
    ) -> (r: Request)
        ensures
            r@ == self@.get_hub_members_request(hub_id@, offset, limit),
    {
        let mut url = self.base_url.clone();
        url.append("/data/v4/hubs/");
        url.append(hub_id);
        url.append("/members");
        let params = Params::new().number("offset", offset).number("limit", limit);
        self.prepare(url, params)
    }

    /// Asks for the statistics of a hub; the answer decodes to a
    /// [`HubStats`](crate::types::HubStats).
    pub fn get_hub_stats(
        &self,
        hub_id: &str,
        offset: Option<i64>,
        limit: Option<i64>,
    ) -> (r: Request)
        ensures
            r@ == self@.get_hub_stats_request(hub_id@, offset, limit),
    {
        let mut url = self.base_url.clone();
        url.append("/data/v4/hubs/");
        url.append(hub_id);
        url.append("/stats");
        let params = Params::new().number("offset", offset).number("limit", limit);
        self.prepare(url, params)
    }

    /// Asks for the championships of a game, of one kind where
    /// `championship_type` is given; the answer decodes to a
    /// [`ChampionshipsList`](crate::types::ChampionshipsList).
    pub fn get_championships(
        &self,
        game: &str,
        championship_type: Option<&str>,
        offset: Option<i64>,
        limit: Option<i64>,
    ) -> (r: Request)
        ensures
            r@ == self@.get_championships_request(game@, championship_type, offset, limit),
    {
        let mut url = self.base_url.clone();
        url.append("/data/v4/championships");
        let params = Params::new()
            .required("game", game)
            .text("type", championship_type)
            .number("offset", offset)
            .number("limit", limit);
        self.prepare(url, params)
    }

    /// Asks for the details of a championship, with the entities named in
    /// `expanded` written out; the answer decodes to a
    /// [`Championship`](crate::types::Championship).
    pub fn get_championship(&self, championship_id: &str, expanded: Option<&[&str]>) -> (r: Request)
        ensures
            r@ == self@.get_championship_request(championship_id@, expanded),
    {
        let mut url = self.base_url.clone();
        url.append("/data/v4/championships/");
        url.append(championship_id);
        let params = Params::new().list("expanded", expanded);
        self.prepare(url, params)
    }

    /// Asks for the matches of a championship, of one kind where `match_type` is
    /// given; the answer decodes to a
    /// [`MatchesList`](crate::types::MatchesList).
    pub fn get_championship_matches(
        &self,
        championship_id: &str,
        match_type: Option<&str>,
        offset: Option<i64>,
        limit: Option<i64>,
    ) -> (r: Request)
        ensures
            r@ == self@.get_championship_matches_request(
                championship_id@,
                match_type,
                offset,
                limit,
            ),
    {
        let mut url = self.base_url.clone();
        url.append("/data/v4/championships/");
        url.append(championship_id);
        url.append("/matches");
        let params = Params::new()
            .text("type", match_type)
            .number("offset", offset)
            .number("limit", limit);
        self.prepare(url, params)
    }

    /// Searches for players by nickname, within a game or a country where
    /// they are given; the answer decodes to a
    /// [`UsersSearchList`](crate::types::UsersSearchList).
    pub fn search_players(
        &self,
        nickname: &str,
        game: Option<&str>,
        country: Option<&str>,
        offset: Option<i64>,
        limit: Option<i64>,
    ) -> (r: Request)
        ensures
            r@ == self@.search_players_request(nickname@, game, country, offset, limit),
    {
        let mut url = self.base_url.clone();
        url.append("/data/v4/search/players");
        let params = Params::new()
            .required("nickname", nickname)
            .text("game", game)
            .text("country", country)
            .number("offset", offset)
            .number("limit", limit);
        self.prepare(url, params)
    }

    /// Searches for teams by nickname, within a game where it is given; the
    /// answer decodes to a [`TeamsSearchList`](crate::types::TeamsSearchList).
    pub fn search_teams(
        &self,
        nickname: &str,
        game: Option<&str>,
        offset: Option<i64>,
        limit: Option<i64>,
    ) -> (r: Request)
        ensures
            r@ == self@.search_teams_request(nickname@, game, offset, limit),
    {
        let mut url = self.base_url.clone();
        url.append("/data/v4/search/teams");
        let params = Params::new()
            .required("nickname", nickname)
            .text("game", game)
            .number("offset", offset)
            .number("limit", limit);
        self.prepare(url, params)
    }

    /// Searches for hubs by name, within a game or a region where they are
    /// given; the answer decodes to a
    /// [`CompetitionsSearchList`](crate::types::CompetitionsSearchList).
    pub fn search_hubs(
        &self,
        name: &str,
        game: Option<&str>,
        region: Option<&str>,
        offset: Option<i64>,
        limit: Option<i64>,
    ) -> (r: Request)
        ensures
            r@ == self@.search_hubs_request(name@, game, region, offset, limit),
    {
        let mut url = self.base_url.clone();
        url.append("/data/v4/search/hubs");
        let params = Params::new()
            .required("name", name)
            .text("game", game)
            .text("region", region)
            .number("offset", offset)
            .number("limit", limit);
        self.prepare(url, params)
    }

    /// Asks for the ranking of a game in a region, within a country where it
    /// is given; the answer decodes to a
    /// [`GlobalRankingList`](crate::types::GlobalRankingList).
    pub fn get_global_ranking(
        &self,
        game_id: &str,
        region: &str,
        country: Option<&str>,
        offset: Option<i64>,
        limit: Option<i64>,
    ) -> (r: Request)
        ensures
            r@ == self@.get_global_ranking_request(game_id@, region@, country, offset, limit),
    {
        let mut url = self.base_url.clone();
        url.append("/data/v4/rankings/games/");
        url.append(game_id);
        url.append("/regions/");
        url.append(region);
        let params = Params::new()
            .text("country", country)
            .number("offset", offset)
            .number("limit", limit);
        self.prepare(url, params)
    }

    /// Asks for the place of a player in the ranking of a game in a region,
    /// with the players around; the answer decodes to a
    /// [`PlayerGlobalRanking`](crate::types::PlayerGlobalRanking).
    pub fn get_player_ranking(
        &self,
        game_id: &str,
        region: &str,
        player_id: &str,
        country: Option<&str>,
        limit: Option<i64>,
    ) -> (r: Request)
        ensures
            r@ == self@.get_player_ranking_request(game_id@, region@, player_id@, country, limit),
    {
        let mut url = self.base_url.clone();
        url.append("/data/v4/rankings/games/");
        url.append(game_id);
        url.append("/regions/");
        url.append(region);
        url.append("/players/");
        url.append(player_id);
        let params = Params::new().text("country", country).number("limit", limit);
        self.prepare(url, params)
    }

    /// Turns a completed exchange into the decoded value or a classified
    /// error.
    ///
    /// A failure of the transport is passed on with its diagnostic. Else the
    /// status is looked at first, and only a successful response has its body
    /// handed to `decode`, whose failure is reported with the status, the
    /// decoder's diagnostic and the raw body.
    pub fn handle_response<T, F>(&self, exchange: Result<Response, String>, decode: F) -> (r:
        Result<T, Error>)
        where F: FnOnce(&str) -> Result<T, String>
        requires
            exchange matches Ok(response) ==> is_success(response.status) ==> forall|text: &str|
                text@ == response.body@ ==> #[trigger] decode.requires((text,)),
        ensures
            exchange matches Err(diagnostic) ==> result_view(r) == Err::<T, ErrorView>(
                ErrorView::Http(diagnostic@),
            ),
            exchange matches Ok(response) ==> !is_success(response.status) ==> result_view(r)
                == Err::<T, ErrorView>(failure(response.status, response.body@)),
            exchange matches Ok(response) ==> is_success(response.status) ==> exists|
                text: &str,
                decoded: Result<T, String>,
            |
                text@ == response.body@ && #[trigger] decode.ensures((text,), decoded)
                    && result_view(r) == verdict(response@, decoded_view(decoded)),
    {
        match exchange {
            Err(diagnostic) => Err(Error::Http(diagnostic)),
            Ok(response) => match response.error() {
                Some(e) => Err(e),
                None => {
                    let decoded = decode(response.body.as_str());
                    response.settle(decoded)
                },
            },
        }
    }
}

/// The bearer credential is sent if and only if the client has one: a
/// request of a client without a credential has no header at all, and one
/// of a client with a credential has the one header that presents it.
pub proof fn lemma_credential_is_sent_iff_configured(
    client: ClientView,
    url: Seq<char>,
    params: Seq<ParamView>,
)
    ensures
        client.api_key is None <==> client.request(url, params).headers.len() == 0,
        client.api_key matches Some(key) ==> client.request(url, params).headers == seq![
            ("Authorization"@, "Bearer "@ + key),
        ],
{
}

/// A paged request that is given no offset names no offset in its query,
/// whatever the limit is: the API then applies its own default.
pub proof fn lemma_absent_offset_is_not_sent(
    client: ClientView,
    player_id: Seq<char>,
    limit: Option<i64>,
)
    ensures
        forall|j: int|
            0 <= j < client.get_player_bans_request(player_id, None, limit).query.len() ==> (
            #[trigger] client.get_player_bans_request(player_id, None, limit).query[j]).0
                != "offset"@,
{
    reveal_strlit("offset");
    reveal_strlit("limit");
    let params = Seq::empty().push(number_param("offset"@, None)).push(
        number_param("limit"@, limit),
    );
    assert("limit"@.len() != "offset"@.len());
    lemma_absent_name_is_omitted(params, "offset"@);
}

impl Default for Client {
    fn default() -> (r: Client)
        ensures
            r@ == (ClientView {
                base_url: default_base_url(),
                api_key: None,
                timeout: default_timeout(),
            }),
    {
        Client::new()
    }
}

} // verus!
