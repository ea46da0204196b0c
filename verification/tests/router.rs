use vizer_gateway::operation::Operation;
use vizer_gateway::router::{route, segments_of, Route};

fn worker(operation: Operation) -> Option<Route> {
    Some(Route::Worker { operation })
}

#[test]
fn segments_are_cut_at_slashes() {
    assert_eq!(segments_of("/vizer/v1/home"), vec!["vizer", "v1", "home"]);
    assert_eq!(segments_of("vizer/v1/home"), vec!["vizer", "v1", "home"]);
    assert_eq!(segments_of("/a"), vec!["a"]);
}

#[test]
fn one_trailing_slash_carries_nothing() {
    assert_eq!(segments_of("/a/b/"), vec!["a", "b"]);
    assert_eq!(segments_of("/a/b//"), vec!["a", "b", ""]);
}

#[test]
fn doubled_slashes_hold_an_empty_segment() {
    assert_eq!(segments_of("/a//b"), vec!["a", "", "b"]);
    assert_eq!(segments_of("//a"), vec!["", "a"]);
    assert_eq!(segments_of("//"), vec![""]);
}

#[test]
fn empty_path_and_root_have_no_segments() {
    assert_eq!(segments_of(""), Vec::<String>::new());
    assert_eq!(segments_of("/"), Vec::<String>::new());
}

#[test]
fn segments_keep_every_other_character() {
    assert_eq!(segments_of("/caf\u{e9}/a%20b/'q'"), vec!["caf\u{e9}", "a%20b", "'q'"]);
}

#[test]
fn home_route() {
    assert_eq!(route("/vizer/v1/home"), worker(Operation::Home));
    assert_eq!(route("/vizer/v1/home/"), worker(Operation::Home));
    assert_eq!(route("vizer/v1/home"), worker(Operation::Home));
}

#[test]
fn search_route_takes_the_title() {
    assert_eq!(
        route("/vizer/v1/search/the-wire"),
        worker(Operation::Search { title: "the-wire".to_string() })
    );
    assert_eq!(
        route("/vizer/v1/search/the%20wire/"),
        worker(Operation::Search { title: "the%20wire".to_string() })
    );
}

#[test]
fn parse_route_takes_the_title() {
    assert_eq!(
        route("/vizer/v1/parse/serie/online/breaking-bad"),
        worker(Operation::Parse { title: "breaking-bad".to_string() })
    );
}

#[test]
fn episodes_route_takes_the_season() {
    assert_eq!(
        route("/vizer/v1/serie/episodes/4211"),
        worker(Operation::Episodes { season_id: "4211".to_string() })
    );
}

#[test]
fn streaming_route_takes_the_episode() {
    assert_eq!(
        route("/vizer/v1/serie/stream/98"),
        worker(Operation::Streaming { episode_id: "98".to_string() })
    );
}

#[test]
fn hello_route_takes_the_name() {
    assert_eq!(route("/hello/bob"), Some(Route::Hello { name: "bob".to_string() }));
    assert_eq!(route("/hello/bob/"), Some(Route::Hello { name: "bob".to_string() }));
}

#[test]
fn a_parameter_is_never_empty() {
    assert_eq!(route("/vizer/v1/search/"), None);
    assert_eq!(route("/vizer/v1/search"), None);
    assert_eq!(route("/vizer/v1/search//"), None);
    assert_eq!(route("/vizer/v1/parse/serie/online/"), None);
    assert_eq!(route("/vizer/v1/serie/episodes/"), None);
    assert_eq!(route("/vizer/v1/serie/stream"), None);
    assert_eq!(route("/hello/"), None);
    assert_eq!(route("/hello"), None);
}

#[test]
fn a_longer_path_fits_no_route() {
    assert_eq!(route("/vizer/v1/home/x"), None);
    assert_eq!(route("/vizer/v1/home//"), None);
    assert_eq!(route("/vizer/v1/search/a/b"), None);
    assert_eq!(route("/vizer/v1/parse/serie/online/a/b"), None);
    assert_eq!(route("/vizer/v1/serie/episodes/1/2"), None);
    assert_eq!(route("/hello/a/b"), None);
}

#[test]
fn other_paths_fit_no_route() {
    assert_eq!(route(""), None);
    assert_eq!(route("/"), None);
    assert_eq!(route("/vizer"), None);
    assert_eq!(route("/vizer/v1"), None);
    assert_eq!(route("/vizer/v2/home"), None);
    assert_eq!(route("/Vizer/v1/home"), None);
    assert_eq!(route("//vizer/v1/home"), None);
    assert_eq!(route("/vizer//v1/home"), None);
    assert_eq!(route("/vizer/v1/homes"), None);
    assert_eq!(route("/vizer/v1/parse/film/online/x"), None);
    assert_eq!(route("/vizer/v1/parse/serie/offline/x"), None);
    assert_eq!(route("/vizer/v1/serie/seasons/1"), None);
    assert_eq!(route("/vizer/v1/episodes/serie/1"), None);
    assert_eq!(route("/hi/bob"), None);
}
