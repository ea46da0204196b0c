use vizer_gateway::bridge::{outcome, step, ExecFailure, SessionEvent, SessionPhase};
use vizer_gateway::handler::{
    complete, failure, greet, plan, Response, Step, STATUS_FAILED, STATUS_OK,
};
use vizer_gateway::operation::{Command, Operation};
use vizer_gateway::router::{route, Route};
use vizer_gateway::ResponseCache;

fn execute(script: &str, argument: &str) -> Step {
    Step::Execute { command: Command { script: script.to_string(), argument: argument.to_string() } }
}

fn reply(status: u16, body: &str) -> Step {
    Step::Reply { response: Response { status, body: body.to_string() } }
}

#[test]
fn home_misses_on_an_empty_cache_and_hits_afterwards() {
    let mut cache = ResponseCache::new();
    let op = match route("/vizer/v1/home") {
        Some(Route::Worker { operation }) => operation,
        other => panic!("no operation: {:?}", other),
    };
    assert_eq!(plan(&op, &cache), execute("/data/main_page.py", ""));
    let first = complete(&op, Ok("{'series': ['dark']}".to_string()), &mut cache);
    assert_eq!(first, Response { status: 200, body: "{\"series\": [\"dark\"]}".to_string() });
    assert_eq!(cache.lookup("home"), Some("{\"series\": [\"dark\"]}".to_string()));
    assert_eq!(plan(&op, &cache), Step::Reply { response: first });
}

#[test]
fn parse_runs_with_the_series_path_and_is_cached_under_the_series_key() {
    let mut cache = ResponseCache::new();
    let op = match route("/vizer/v1/parse/serie/online/breaking-bad") {
        Some(Route::Worker { operation }) => operation,
        other => panic!("no operation: {:?}", other),
    };
    assert_eq!(op, Operation::Parse { title: "breaking-bad".to_string() });
    assert_eq!(plan(&op, &cache), execute("/data/parse.py", "serie/online/breaking-bad"));
    let response = complete(&op, Ok("{'seasons': 5}".to_string()), &mut cache);
    assert_eq!(response.status, STATUS_OK);
    assert_eq!(cache.lookup("serie:breaking-bad"), Some("{\"seasons\": 5}".to_string()));
    assert_eq!(cache.lookup("search:breaking-bad"), None);
    assert_eq!(cache.lookup("home"), None);
}

#[test]
fn failed_session_creation_gives_a_server_error_and_no_cache_entry() {
    let mut cache = ResponseCache::new();
    let op = Operation::Search { title: "alpha".to_string() };
    assert_eq!(plan(&op, &cache), execute("/data/search.py", "alpha"));
    let (phase, _) = step(SessionPhase::Opening, SessionEvent::CreateFailed);
    let result = outcome(phase).expect("the session is over");
    assert_eq!(result, Err(ExecFailure::CreateFailed));
    let response = complete(&op, result, &mut cache);
    assert_eq!(response, Response { status: 500, body: String::new() });
    assert_eq!(cache.lookup("search:alpha"), None);
    assert_eq!(plan(&op, &cache), execute("/data/search.py", "alpha"));
}

#[test]
fn every_failure_gives_the_failure_status() {
    for failure in [
        ExecFailure::CreateFailed,
        ExecFailure::StartFailed,
        ExecFailure::NotAttached,
        ExecFailure::StreamBroken,
    ] {
        let mut cache = ResponseCache::new();
        let response = complete(&Operation::Home, Err(failure), &mut cache);
        assert_eq!(response.status, STATUS_FAILED);
        assert_eq!(response.body, "");
        assert_eq!(cache.lookup("home"), None);
    }
}

#[test]
fn a_failure_keeps_an_earlier_answer() {
    let mut cache = ResponseCache::new();
    cache.store("home".to_string(), "old".to_string());
    let response = complete(&Operation::Home, Err(ExecFailure::StreamBroken), &mut cache);
    assert_eq!(response.status, 500);
    assert_eq!(cache.lookup("home"), Some("old".to_string()));
}

#[test]
fn a_stored_answer_short_circuits_the_command() {
    let mut cache = ResponseCache::new();
    cache.store("home".to_string(), "X".to_string());
    assert_eq!(plan(&Operation::Home, &cache), reply(200, "X"));
    cache.store("search:alpha".to_string(), "S".to_string());
    assert_eq!(plan(&Operation::Search { title: "alpha".to_string() }, &cache), reply(200, "S"));
    assert_eq!(
        plan(&Operation::Search { title: "beta".to_string() }, &cache),
        execute("/data/search.py", "beta")
    );
}

#[test]
fn a_hit_returns_the_stored_text_as_it_is() {
    let mut cache = ResponseCache::new();
    cache.store("home".to_string(), "it's".to_string());
    assert_eq!(plan(&Operation::Home, &cache), reply(200, "it's"));
}

#[test]
fn episodes_run_every_time() {
    let mut cache = ResponseCache::new();
    let op = Operation::Episodes { season_id: "7".to_string() };
    assert_eq!(plan(&op, &cache), execute("/data/get_episodes.py", "7"));
    let first = complete(&op, Ok("['e1', 'e2']".to_string()), &mut cache);
    assert_eq!(first, Response { status: 200, body: "[\"e1\", \"e2\"]".to_string() });
    assert_eq!(plan(&op, &cache), execute("/data/get_episodes.py", "7"));
    let second = complete(&op, Ok("['e1', 'e2']".to_string()), &mut cache);
    assert_eq!(second, first);
    assert_eq!(plan(&op, &cache), execute("/data/get_episodes.py", "7"));
}

#[test]
fn streaming_runs_every_time() {
    let mut cache = ResponseCache::new();
    let op = Operation::Streaming { episode_id: "9".to_string() };
    assert_eq!(plan(&op, &cache), execute("/data/stream.py", "9"));
    let response = complete(&op, Ok("{'url': 'http://x'}".to_string()), &mut cache);
    assert_eq!(response.body, "{\"url\": \"http://x\"}");
    assert_eq!(plan(&op, &cache), execute("/data/stream.py", "9"));
    assert_eq!(cache.lookup("9"), None);
    assert_eq!(cache.lookup("home"), None);
}

#[test]
fn uncached_operations_ignore_what_the_cache_holds() {
    let mut cache = ResponseCache::new();
    cache.store("7".to_string(), "stale".to_string());
    cache.store("episodes:7".to_string(), "stale".to_string());
    let op = Operation::Episodes { season_id: "7".to_string() };
    assert_eq!(plan(&op, &cache), execute("/data/get_episodes.py", "7"));
}

#[test]
fn empty_output_is_a_success_and_is_remembered() {
    let mut cache = ResponseCache::new();
    let op = Operation::Search { title: "nothing".to_string() };
    let response = complete(&op, Ok(String::new()), &mut cache);
    assert_eq!(response, Response { status: 200, body: String::new() });
    assert_eq!(plan(&op, &cache), reply(200, ""));
}

#[test]
fn a_later_completion_overwrites_an_earlier_one() {
    let mut cache = ResponseCache::new();
    let op = Operation::Home;
    assert!(matches!(plan(&op, &cache), Step::Execute { .. }));
    assert!(matches!(plan(&op, &cache), Step::Execute { .. }));
    complete(&op, Ok("first".to_string()), &mut cache);
    complete(&op, Ok("second".to_string()), &mut cache);
    assert_eq!(plan(&op, &cache), reply(200, "second"));
}

#[test]
fn greeting_names_the_caller() {
    assert_eq!(greet("bob"), Response { status: 200, body: "Hello, bob!".to_string() });
    assert_eq!(greet("").body, "Hello, !");
}

#[test]
fn failure_reply_has_the_failure_status_and_no_body() {
    assert_eq!(failure(), Response { status: 500, body: String::new() });
    assert_eq!(failure().status, STATUS_FAILED);
}
