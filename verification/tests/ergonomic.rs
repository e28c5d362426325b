use faceit::http::ergonomic::{Championship, Game, Hub, Match, Player};
use faceit::http::{Client, ClientBuilder};

fn client() -> Client {
    ClientBuilder::new().base_url("https://api.test").api_key("k").build()
}

#[test]
fn handles_keep_their_identifier() {
    let c = client();
    assert_eq!(Player::new("p1", &c).id(), "p1");
    assert_eq!(Game::new("cs2", &c).id(), "cs2");
    assert_eq!(Hub::new("h1", &c).id(), "h1");
    assert_eq!(Championship::new("c1", &c).id(), "c1");
    assert_eq!(Match::new("m1", &c).id(), "m1");
}

#[test]
fn player_handle_forwards_to_the_client() {
    let c = client();
    let p = Player::new("p1", &c);
    assert_eq!(p.get(), c.get_player("p1"));
    assert_eq!(p.stats("cs2"), c.get_player_stats("p1", "cs2"));
    assert_eq!(
        p.history("cs2", None, Some(5), Some(0), Some(20)),
        c.get_player_history("p1", "cs2", None, Some(5), Some(0), Some(20))
    );
    assert_eq!(p.bans(Some(0), Some(20)), c.get_player_bans("p1", Some(0), Some(20)));
    assert_eq!(p.hubs(None, Some(50)), c.get_player_hubs("p1", None, Some(50)));
    assert_eq!(p.teams(Some(1), None), c.get_player_teams("p1", Some(1), None));
    assert_eq!(p.tournaments(None, None), c.get_player_tournaments("p1", None, None));
    assert_eq!(p.get().url, "https://api.test/data/v4/players/p1");
}

#[test]
fn game_handle_forwards_to_the_client() {
    let c = client();
    let g = Game::new("cs2", &c);
    assert_eq!(g.get(), c.get_game("cs2"));
    assert_eq!(g.parent(), c.get_parent_game("cs2"));
    assert_eq!(
        g.matchmakings(Some("EU"), Some(0), Some(20)),
        c.get_game_matchmakings("cs2", Some("EU"), Some(0), Some(20))
    );
    assert_eq!(g.parent().url, "https://api.test/data/v4/games/cs2/parent");
}

#[test]
fn hub_handle_forwards_to_the_client() {
    let c = client();
    let h = Hub::new("h1", &c);
    assert_eq!(h.get(Some(&["organizer"])), c.get_hub("h1", Some(&["organizer"])));
    assert_eq!(
        h.matches(Some("all"), None, Some(20)),
        c.get_hub_matches("h1", Some("all"), None, Some(20))
    );
    assert_eq!(h.members(Some(0), Some(50)), c.get_hub_members("h1", Some(0), Some(50)));
    assert_eq!(h.stats(None, None), c.get_hub_stats("h1", None, None));
    assert_eq!(h.stats(None, None).url, "https://api.test/data/v4/hubs/h1/stats");
}

#[test]
fn championship_and_match_handles_forward_to_the_client() {
    let c = client();
    let ch = Championship::new("c1", &c);
    assert_eq!(ch.get(None), c.get_championship("c1", None));
    assert_eq!(
        ch.matches(Some("past"), Some(0), Some(20)),
        c.get_championship_matches("c1", Some("past"), Some(0), Some(20))
    );
    let m = Match::new("m1", &c);
    assert_eq!(m.get(), c.get_match("m1"));
    assert_eq!(m.stats(), c.get_match_stats("m1"));
    assert_eq!(m.stats().url, "https://api.test/data/v4/matches/m1/stats");
}
