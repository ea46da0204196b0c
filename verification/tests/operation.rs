use vizer_gateway::operation::{Command, Operation};

fn search(title: &str) -> Operation {
    Operation::Search { title: title.to_string() }
}

fn parse(title: &str) -> Operation {
    Operation::Parse { title: title.to_string() }
}

#[test]
fn home_key_is_a_fixed_word() {
    assert_eq!(Operation::Home.cache_key(), Some("home".to_string()));
}

#[test]
fn search_key_joins_kind_and_title() {
    assert_eq!(search("alpha").cache_key(), Some("search:alpha".to_string()));
    assert_eq!(search("").cache_key(), Some("search:".to_string()));
}

#[test]
fn parse_key_joins_kind_and_title() {
    assert_eq!(parse("breaking-bad").cache_key(), Some("serie:breaking-bad".to_string()));
}

#[test]
fn episodes_and_streaming_have_no_key() {
    assert_eq!(Operation::Episodes { season_id: "12".to_string() }.cache_key(), None);
    assert_eq!(Operation::Streaming { episode_id: "77".to_string() }.cache_key(), None);
}

#[test]
fn key_is_the_same_when_asked_twice() {
    assert_eq!(search("alpha").cache_key(), search("alpha").cache_key());
    assert_eq!(parse("dark").cache_key(), parse("dark").cache_key());
    assert_eq!(Operation::Home.cache_key(), Operation::Home.cache_key());
}

#[test]
fn different_parameters_give_different_keys() {
    assert_ne!(search("alpha").cache_key(), search("beta").cache_key());
    assert_ne!(parse("alpha").cache_key(), parse("beta").cache_key());
    assert_ne!(search("alpha").cache_key(), search("alpha ").cache_key());
}

#[test]
fn different_operations_give_different_keys() {
    assert_ne!(search("dark").cache_key(), parse("dark").cache_key());
    assert_ne!(search("").cache_key(), Operation::Home.cache_key());
    assert_ne!(parse("").cache_key(), Operation::Home.cache_key());
}

#[test]
fn is_cached_tells_the_remembered_operations() {
    assert!(Operation::Home.is_cached());
    assert!(search("x").is_cached());
    assert!(parse("x").is_cached());
    assert!(!Operation::Episodes { season_id: "1".to_string() }.is_cached());
    assert!(!Operation::Streaming { episode_id: "1".to_string() }.is_cached());
}

#[test]
fn home_runs_the_front_page_script_with_an_empty_argument() {
    assert_eq!(
        Operation::Home.command(),
        Command { script: "/data/main_page.py".to_string(), argument: String::new() }
    );
}

#[test]
fn search_runs_the_search_script_with_the_title() {
    assert_eq!(
        search("the wire").command(),
        Command { script: "/data/search.py".to_string(), argument: "the wire".to_string() }
    );
}

#[test]
fn parse_runs_the_parse_script_with_the_series_path() {
    assert_eq!(
        parse("breaking-bad").command(),
        Command {
            script: "/data/parse.py".to_string(),
            argument: "serie/online/breaking-bad".to_string()
        }
    );
}

#[test]
fn episodes_runs_the_episodes_script_with_the_season() {
    assert_eq!(
        Operation::Episodes { season_id: "4211".to_string() }.command(),
        Command { script: "/data/get_episodes.py".to_string(), argument: "4211".to_string() }
    );
}

#[test]
fn streaming_runs_the_stream_script_with_the_episode() {
    assert_eq!(
        Operation::Streaming { episode_id: "98".to_string() }.command(),
        Command { script: "/data/stream.py".to_string(), argument: "98".to_string() }
    );
}
