use faceit::http::{Client, ClientBuilder, Param, Params, Request};

fn pairs(items: &[(&str, &str)]) -> Vec<(String, String)> {
    items.iter().map(|(n, v)| (n.to_string(), v.to_string())).collect()
}

fn client() -> Client {
    ClientBuilder::new().base_url("https://api.test").build()
}

fn check(request: Request, url: &str, query: &[(&str, &str)]) {
    assert_eq!(request.url, url);
    assert_eq!(request.query, pairs(query));
    assert!(request.headers.is_empty());
}

#[test]
fn limit_without_offset_sends_only_limit() {
    let request = client().get_player_bans("p1", None, Some(20));
    assert_eq!(request.query, pairs(&[("limit", "20")]));
    assert!(request.query.iter().all(|(name, _)| name != "offset"));
}

#[test]
fn absent_parameters_leave_the_query_empty() {
    let request = client().get_player_history("p1", "cs2", None, None, None, None);
    assert_eq!(request.query, pairs(&[("game", "cs2")]));
    let request = client().get_all_games(None, None);
    assert!(request.query.is_empty());
}

#[test]
fn present_parameters_keep_their_order_and_value() {
    let request = client().get_player_history("p1", "cs2", Some(1), Some(2), Some(3), Some(4));
    check(
        request,
        "https://api.test/data/v4/players/p1/history",
        &[("game", "cs2"), ("from", "1"), ("to", "2"), ("offset", "3"), ("limit", "4")],
    );
}

#[test]
fn out_of_range_paging_is_passed_through() {
    let request = client().get_all_games(Some(-5), Some(1000000));
    assert_eq!(request.query, pairs(&[("offset", "-5"), ("limit", "1000000")]));
    let request = client().get_all_games(Some(i64::MIN), Some(i64::MAX));
    assert_eq!(
        request.query,
        pairs(&[("offset", "-9223372036854775808"), ("limit", "9223372036854775807")])
    );
}

#[test]
fn empty_text_is_sent_empty_not_omitted() {
    let request = client().get_player_from_lookup(Some(""), None, None);
    assert_eq!(request.query, pairs(&[("nickname", "")]));
}

#[test]
fn identifiers_are_substituted_verbatim() {
    let request = client().get_player("a b/c?d");
    assert_eq!(request.url, "https://api.test/data/v4/players/a b/c?d");
}

#[test]
fn player_operations() {
    let c = client();
    check(c.get_player("p1"), "https://api.test/data/v4/players/p1", &[]);
    check(
        c.get_player_from_lookup(Some("nick"), Some("cs2"), Some("gp")),
        "https://api.test/data/v4/players",
        &[("nickname", "nick"), ("game", "cs2"), ("game_player_id", "gp")],
    );
    check(
        c.get_player_from_lookup(None, Some("cs2"), None),
        "https://api.test/data/v4/players",
        &[("game", "cs2")],
    );
    check(c.get_player_stats("p1", "cs2"), "https://api.test/data/v4/players/p1/stats/cs2", &[]);
    check(
        c.get_player_bans("p1", Some(0), Some(20)),
        "https://api.test/data/v4/players/p1/bans",
        &[("offset", "0"), ("limit", "20")],
    );
    check(
        c.get_player_hubs("p1", Some(10), None),
        "https://api.test/data/v4/players/p1/hubs",
        &[("offset", "10")],
    );
    check(
        c.get_player_teams("p1", None, Some(5)),
        "https://api.test/data/v4/players/p1/teams",
        &[("limit", "5")],
    );
    check(
        c.get_player_tournaments("p1", Some(1), Some(2)),
        "https://api.test/data/v4/players/p1/tournaments",
        &[("offset", "1"), ("limit", "2")],
    );
}

#[test]
fn match_and_game_operations() {
    let c = client();
    check(c.get_match("m1"), "https://api.test/data/v4/matches/m1", &[]);
    check(c.get_match_stats("m1"), "https://api.test/data/v4/matches/m1/stats", &[]);
    check(
        c.get_all_games(Some(0), Some(20)),
        "https://api.test/data/v4/games",
        &[("offset", "0"), ("limit", "20")],
    );
    check(c.get_game("cs2"), "https://api.test/data/v4/games/cs2", &[]);
    check(c.get_parent_game("cs2"), "https://api.test/data/v4/games/cs2/parent", &[]);
    check(
        c.get_game_matchmakings("cs2", Some("EU"), Some(0), Some(20)),
        "https://api.test/data/v4/games/cs2/matchmakings",
        &[("region", "EU"), ("offset", "0"), ("limit", "20")],
    );
    check(
        c.get_game_matchmakings("cs2", None, None, Some(20)),
        "https://api.test/data/v4/games/cs2/matchmakings",
        &[("limit", "20")],
    );
}

#[test]
fn hub_operations() {
    let c = client();
    check(c.get_hub("h1", None), "https://api.test/data/v4/hubs/h1", &[]);
    check(
        c.get_hub("h1", Some(&["organizer", "game"])),
        "https://api.test/data/v4/hubs/h1",
        &[("expanded", "organizer,game")],
    );
    check(
        c.get_hub("h1", Some(&["organizer"])),
        "https://api.test/data/v4/hubs/h1",
        &[("expanded", "organizer")],
    );
    check(c.get_hub("h1", Some(&[])), "https://api.test/data/v4/hubs/h1", &[("expanded", "")]);
    check(
        c.get_hub_matches("h1", Some("all"), Some(0), Some(20)),
        "https://api.test/data/v4/hubs/h1/matches",
        &[("type", "all"), ("offset", "0"), ("limit", "20")],
    );
    check(
        c.get_hub_members("h1", Some(0), Some(50)),
        "https://api.test/data/v4/hubs/h1/members",
        &[("offset", "0"), ("limit", "50")],
    );
    check(
        c.get_hub_stats("h1", None, None),
        "https://api.test/data/v4/hubs/h1/stats",
        &[],
    );
}

#[test]
fn championship_operations() {
    let c = client();
    check(
        c.get_championships("cs2", Some("all"), Some(0), Some(10)),
        "https://api.test/data/v4/championships",
        &[("game", "cs2"), ("type", "all"), ("offset", "0"), ("limit", "10")],
    );
    check(
        c.get_championships("cs2", None, None, None),
        "https://api.test/data/v4/championships",
        &[("game", "cs2")],
    );
    check(
        c.get_championship("c1", Some(&["organizer", "game"])),
        "https://api.test/data/v4/championships/c1",
        &[("expanded", "organizer,game")],
    );
    check(c.get_championship("c1", None), "https://api.test/data/v4/championships/c1", &[]);
    check(
        c.get_championship_matches("c1", Some("past"), None, Some(3)),
        "https://api.test/data/v4/championships/c1/matches",
        &[("type", "past"), ("limit", "3")],
    );
}

#[test]
fn search_operations() {
    let c = client();
    check(
        c.search_players("nick", Some("cs2"), Some("NL"), Some(0), Some(20)),
        "https://api.test/data/v4/search/players",
        &[("nickname", "nick"), ("game", "cs2"), ("country", "NL"), ("offset", "0"), ("limit", "20")],
    );
    check(
        c.search_players("nick", None, None, None, None),
        "https://api.test/data/v4/search/players",
        &[("nickname", "nick")],
    );
    check(
        c.search_teams("team", Some("cs2"), None, Some(20)),
        "https://api.test/data/v4/search/teams",
        &[("nickname", "team"), ("game", "cs2"), ("limit", "20")],
    );
    check(
        c.search_hubs("hub", None, Some("EU"), Some(0), None),
        "https://api.test/data/v4/search/hubs",
        &[("name", "hub"), ("region", "EU"), ("offset", "0")],
    );
}

#[test]
fn ranking_operations() {
    let c = client();
    check(
        c.get_global_ranking("cs2", "EU", Some("NL"), Some(0), Some(20)),
        "https://api.test/data/v4/rankings/games/cs2/regions/EU",
        &[("country", "NL"), ("offset", "0"), ("limit", "20")],
    );
    check(
        c.get_player_ranking("cs2", "EU", "p1", None, Some(20)),
        "https://api.test/data/v4/rankings/games/cs2/regions/EU/players/p1",
        &[("limit", "20")],
    );
}

#[test]
fn params_hold_every_parameter_given_or_not() {
    let params = Params::new()
        .required("game", "cs2")
        .text("region", None)
        .number("limit", Some(20))
        .list("expanded", Some(&["a", "b", "c"]));
    assert_eq!(
        params.items,
        vec![
            Param { name: "game".to_string(), value: Some("cs2".to_string()) },
            Param { name: "region".to_string(), value: None },
            Param { name: "limit".to_string(), value: Some("20".to_string()) },
            Param { name: "expanded".to_string(), value: Some("a,b,c".to_string()) },
        ]
    );
}

#[test]
fn query_appends_present_parameters_to_what_is_there() {
    let first = Params::new().required("a", "1").text("b", None);
    let second = Params::new().number("c", None).number("d", Some(-4));
    let request = Request::get("https://api.test/x".to_string()).query(&first).query(&second);
    assert_eq!(request.url, "https://api.test/x");
    assert_eq!(request.query, pairs(&[("a", "1"), ("d", "-4")]));
    assert!(request.headers.is_empty());
}

#[test]
fn header_appends_one_header() {
    let request = Request::get("u".to_string()).header("A", "1").header("B", "2");
    assert_eq!(request.headers, pairs(&[("A", "1"), ("B", "2")]));
    assert!(request.query.is_empty());
}
