//! From the path of a request to what is asked.
//!
//! A path is cut into segments at its slashes. One slash in front of the
//! first segment and one behind the last are allowed and carry nothing; any
//! other pair of slashes has an empty segment between them. A route is a
//! fixed list of segments, the last of which may be a parameter. A parameter
//! is taken as it stands in the path and is never empty.

use crate::operation::{Operation, OperationView};
use vstd::prelude::*;
use vstd::string::*;

verus! {

/// What a path asks for.
#[derive(Clone, Debug, PartialEq, Eq)]
pub enum Route {
    /// The liveness route: a greeting for `name`.
    Hello { name: String },
    /// One of the operations of the worker.
    Worker { operation: Operation },
}

/// A route as a mathematical value.
pub enum RouteView {
    Hello { name: Seq<char> },
    Worker { operation: OperationView },
}

impl View for Route {
    type V = RouteView;

    open spec fn view(&self) -> RouteView {
        match self {
            Route::Hello { name } => RouteView::Hello { name: name@ },
            Route::Worker { operation } => RouteView::Worker { operation: operation@ },
        }
    }
}

/// The separator of segments.
pub open spec fn slash() -> char {
    '/'
}

/// The length of the first segment of `rest`: the position of its first
/// slash, or its whole length where it has none.
pub open spec fn segment_end(rest: Seq<char>) -> int
    decreases rest.len(),
{
    if rest.len() == 0 || rest[0] == slash() {
        0
    } else {
        1 + segment_end(rest.skip(1))
    }
}

/// The segments of `rest`, which is a path behind its leading slash.
pub open spec fn split_segments(rest: Seq<char>) -> Seq<Seq<char>>
    decreases rest.len(),
{
    if rest.len() == 0 {
        Seq::empty()
    } else {
        let end = segment_end(rest);
        if 0 <= end < rest.len() {
            seq![rest.take(end)] + split_segments(rest.skip(end + 1))
        } else {
            seq![rest]
        }
    }
}

/// The segments of a path.
pub open spec fn path_segments(path: Seq<char>) -> Seq<Seq<char>> {
    if path.len() > 0 && path[0] == slash() {
        split_segments(path.skip(1))
    } else {
        split_segments(path)
    }
}

/// What a list of segments asks for, if anything.
pub open spec fn route_of(segments: Seq<Seq<char>>) -> Option<RouteView> {
    if segments.len() == 3 && segments[0] == "vizer"@ && segments[1] == "v1"@ && segments[2]
        == "home"@ {
        Some(RouteView::Worker { operation: OperationView::Home })
    } else if segments.len() == 4 && segments[0] == "vizer"@ && segments[1] == "v1"@ && segments[2]
        == "search"@ && segments[3].len() > 0 {
        Some(RouteView::Worker { operation: OperationView::Search { title: segments[3] } })
    } else if segments.len() == 6 && segments[0] == "vizer"@ && segments[1] == "v1"@ && segments[2]
        == "parse"@ && segments[3] == "serie"@ && segments[4] == "online"@ && segments[5].len()
        > 0 {
        Some(RouteView::Worker { operation: OperationView::Parse { title: segments[5] } })
    } else if segments.len() == 5 && segments[0] == "vizer"@ && segments[1] == "v1"@ && segments[2]
        == "serie"@ && segments[3] == "episodes"@ && segments[4].len() > 0 {
        Some(RouteView::Worker { operation: OperationView::Episodes { season_id: segments[4] } })
    } else if segments.len() == 5 && segments[0] == "vizer"@ && segments[1] == "v1"@ && segments[2]
        == "serie"@ && segments[3] == "stream"@ && segments[4].len() > 0 {
        Some(
            RouteView::Worker { operation: OperationView::Streaming { episode_id: segments[4] } },
        )
    } else if segments.len() == 2 && segments[0] == "hello"@ && segments[1].len() > 0 {
        Some(RouteView::Hello { name: segments[1] })
    } else {
        None
    }
}

/// What a path asks for, if anything.
pub open spec fn route_of_path(path: Seq<char>) -> Option<RouteView> {
    route_of(path_segments(path))
}

/// The view of a found route.
pub open spec fn route_view(route: Option<Route>) -> Option<RouteView> {
    match route {
        Some(route) => Some(route@),
        None => None,
    }
}

/// A text without a slash before position `end`, which ends there or has a
/// slash there, has its first segment end at `end`.
pub proof fn lemma_segment_end(rest: Seq<char>, end: int)
    requires
        0 <= end <= rest.len(),
        forall|i: int| 0 <= i < end ==> rest[i] != slash(),
        end < rest.len() ==> rest[end] == slash(),
    ensures
        segment_end(rest) == end,
    decreases end,
{
    if end > 0 {
        let tail = rest.skip(1);
        assert forall|i: int| 0 <= i < end - 1 implies tail[i] != slash() by {
            assert(tail[i] == rest[i + 1]);
        }
        lemma_segment_end(tail, end - 1);
    }
}

/// Cuts a path into its segments.
pub fn segments_of(path: &str) -> (segments: Vec<String>)
    ensures
        segments.deep_view() == path_segments(path@),
{
    broadcast use group_string_axioms;

    let mut segments: Vec<String> = Vec::new();
    let mut current = String::new();
    let mut at_start = true;
    for c in it: path.chars()
        invariant
            it.seq() == path@,
            at_start <==> it.index() == 0,
            at_start ==> segments@.len() == 0 && current@.len() == 0,
            forall|i: int| 0 <= i < current@.len() ==> current@[i] != slash(),
            !at_start ==> path_segments(path@) == segments.deep_view()
                + split_segments(current@ + path@.skip(it.index() as int)),
    {
        let ghost rest = path@.skip(it.index() as int);
        let ghost tail = path@.skip(it.index() + 1);
        let ghost held = current@;
        if at_start {
            // A slash in front of the first segment is passed over.
            if c != '/' {
                current.push(c);
                assert(current@ + tail =~= path@);
            }
        } else if c == '/' {
            proof {
                let whole = held + rest;
                lemma_segment_end(whole, held.len() as int);
                assert(whole.take(held.len() as int) =~= held);
                assert(whole.skip(held.len() as int + 1) =~= tail);
            }
            segments.push(current);
            current = String::new();
        } else {
            current.push(c);
            assert(current@ + tail =~= held + rest);
        }
        at_start = false;
    }
    proof {
        if current@.len() > 0 {
            lemma_segment_end(current@, current@.len() as int);
        }
    }
    // A slash behind the last segment leaves nothing to add.
    if !current.as_str().is_empty() {
        segments.push(current);
    }
    segments
}

/// Whether `segment` is the word `word`.
fn is_word(segment: &String, word: &str) -> (same: bool)
    ensures
        same == (segment@ == word@),
{
    let word = String::from_str(word);
    *segment == word
}

/// Finds what `path` asks for: `None` where no route fits.
pub fn route(path: &str) -> (found: Option<Route>)
    ensures
        route_view(found) == route_of_path(path@),
{
    let segments = segments_of(path);
    let count = segments.len();
    if count == 2 {
        if is_word(&segments[0], "hello") && !segments[1].as_str().is_empty() {
            return Some(Route::Hello { name: segments[1].clone() });
        }
        return None;
    }
    if count < 3 || count > 6 {
        return None;
    }
    if !is_word(&segments[0], "vizer") || !is_word(&segments[1], "v1") {
        return None;
    }
    if count == 3 {
        if is_word(&segments[2], "home") {
            return Some(Route::Worker { operation: Operation::Home });
        }
        return None;
    }
    let last = &segments[count - 1];
    if last.as_str().is_empty() {
        return None;
    }
    if count == 4 {
        if is_word(&segments[2], "search") {
            return Some(Route::Worker { operation: Operation::Search { title: last.clone() } });
        }
        return None;
    }
    if count == 5 {
        if is_word(&segments[2], "serie") {
            if is_word(&segments[3], "episodes") {
                return Some(
                    Route::Worker { operation: Operation::Episodes { season_id: last.clone() } },
                );
            }
            if is_word(&segments[3], "stream") {
                return Some(
                    Route::Worker { operation: Operation::Streaming { episode_id: last.clone() } },
                );
            }
        }
        return None;
    }
    if is_word(&segments[2], "parse") && is_word(&segments[3], "serie")
        && is_word(&segments[4], "online") {
        return Some(Route::Worker { operation: Operation::Parse { title: last.clone() } });
    }
    None
}

} // verus!
