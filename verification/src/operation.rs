//! The five things a client can ask of the worker, the script and argument
//! each of them runs, and the key under which its answer is remembered.

use vstd::prelude::*;
use vstd::string::*;

verus! {

/// One request to the worker.
#[derive(Clone, Debug, PartialEq, Eq)]
pub enum Operation {
    /// The front page.
    Home,
    /// A search for a title.
    Search { title: String },
    /// The details of one series.
    Parse { title: String },
    /// The episodes of one season.
    Episodes { season_id: String },
    /// The stream of one episode.
    Streaming { episode_id: String },
}

/// An operation as a mathematical value.
pub enum OperationView {
    Home,
    Search { title: Seq<char> },
    Parse { title: Seq<char> },
    Episodes { season_id: Seq<char> },
    Streaming { episode_id: Seq<char> },
}

impl View for Operation {
    type V = OperationView;

    open spec fn view(&self) -> OperationView {
        match self {
            Operation::Home => OperationView::Home,
            Operation::Search { title } => OperationView::Search { title: title@ },
            Operation::Parse { title } => OperationView::Parse { title: title@ },
            Operation::Episodes { season_id } => OperationView::Episodes { season_id: season_id@ },
            Operation::Streaming { episode_id } => OperationView::Streaming {
                episode_id: episode_id@,
            },
        }
    }
}

/// A script of the worker and the one argument it is run with.
#[derive(Clone, Debug, PartialEq, Eq)]
pub struct Command {
    pub script: String,
    pub argument: String,
}

/// A command as a mathematical value.
pub struct CommandView {
    pub script: Seq<char>,
    pub argument: Seq<char>,
}

impl View for Command {
    type V = CommandView;

    open spec fn view(&self) -> CommandView {
        CommandView { script: self.script@, argument: self.argument@ }
    }
}

/// The key under which the answer to `op` is remembered: a fixed word for
/// the front page, the kind and the title joined by a colon for a search and
/// for a series. Episode lists and streams change too fast to be remembered
/// and have no key.
pub open spec fn cache_key_of(op: OperationView) -> Option<Seq<char>> {
    match op {
        OperationView::Home => Some("home"@),
        OperationView::Search { title } => Some("search:"@ + title),
        OperationView::Parse { title } => Some("serie:"@ + title),
        OperationView::Episodes { .. } => None,
        OperationView::Streaming { .. } => None,
    }
}

/// The script that answers `op`, and its argument.
pub open spec fn command_of(op: OperationView) -> CommandView {
    match op {
        OperationView::Home => CommandView {
            script: "/data/main_page.py"@,
            argument: Seq::empty(),
        },
        OperationView::Search { title } => CommandView {
            script: "/data/search.py"@,
            argument: title,
        },
        OperationView::Parse { title } => CommandView {
            script: "/data/parse.py"@,
            argument: "serie/online/"@ + title,
        },
        OperationView::Episodes { season_id } => CommandView {
            script: "/data/get_episodes.py"@,
            argument: season_id,
        },
        OperationView::Streaming { episode_id } => CommandView {
            script: "/data/stream.py"@,
            argument: episode_id,
        },
    }
}

impl Operation {
    /// Whether answers to this operation are remembered.
    pub fn is_cached(&self) -> (cached: bool)
        ensures
            cached == cache_key_of(self@) is Some,
    {
        match self {
            Operation::Home => true,
            Operation::Search { .. } => true,
            Operation::Parse { .. } => true,
            Operation::Episodes { .. } => false,
            Operation::Streaming { .. } => false,
        }
    }

    /// The key under which the answer to this operation is remembered, if it
    /// is remembered at all.
    pub fn cache_key(&self) -> (key: Option<String>)
        ensures
            key.deep_view() == cache_key_of(self@),
    {
        match self {
            Operation::Home => Some(String::from_str("home")),
            Operation::Search { title } => Some(String::from_str("search:").concat(title.as_str())),
            Operation::Parse { title } => Some(String::from_str("serie:").concat(title.as_str())),
            Operation::Episodes { .. } => None,
            Operation::Streaming { .. } => None,
        }
    }

    /// The script that answers this operation, and its argument.
    pub fn command(&self) -> (command: Command)
        ensures
            command@ == command_of(self@),
    {
        match self {
            Operation::Home => Command {
                script: String::from_str("/data/main_page.py"),
                argument: String::new(),
            },
            Operation::Search { title } => Command {
                script: String::from_str("/data/search.py"),
                argument: title.clone(),
            },
            Operation::Parse { title } => Command {
                script: String::from_str("/data/parse.py"),
                argument: String::from_str("serie/online/").concat(title.as_str()),
            },
            Operation::Episodes { season_id } => Command {
                script: String::from_str("/data/get_episodes.py"),
                argument: season_id.clone(),
            },
            Operation::Streaming { episode_id } => Command {
                script: String::from_str("/data/stream.py"),
                argument: episode_id.clone(),
            },
        }
    }
}

/// A text is found again behind any prefix it was joined to.
pub proof fn lemma_same_prefix(prefix: Seq<char>, a: Seq<char>, b: Seq<char>)
    requires
        prefix + a == prefix + b,
    ensures
        a == b,
{
    assert((prefix + a).skip(prefix.len() as int) =~= a);
    assert((prefix + b).skip(prefix.len() as int) =~= b);
}

/// Two remembered operations have the same key exactly when they are the
/// same operation with the same parameter: asking twice gives the same key,
/// and no two different requests share one.
pub proof fn lemma_cache_key_identifies(a: OperationView, b: OperationView)
    requires
        cache_key_of(a) is Some,
    ensures
        cache_key_of(a) == cache_key_of(b) <==> a == b,
{
    reveal_strlit("home");
    reveal_strlit("search:");
    reveal_strlit("serie:");
    if cache_key_of(a) == cache_key_of(b) {
        match (a, b) {
            (OperationView::Search { title: s }, OperationView::Search { title: t }) => {
                lemma_same_prefix("search:"@, s, t);
            },
            (OperationView::Parse { title: s }, OperationView::Parse { title: t }) => {
                lemma_same_prefix("serie:"@, s, t);
            },
            (OperationView::Search { title: s }, OperationView::Parse { title: t }) => {
                assert(("search:"@ + s)[2] == 'a');
                assert(("serie:"@ + t)[2] == 'r');
            },
            (OperationView::Parse { title: s }, OperationView::Search { title: t }) => {
                assert(("search:"@ + t)[2] == 'a');
                assert(("serie:"@ + s)[2] == 'r');
            },
            (OperationView::Home, OperationView::Search { title: t }) => {
                assert(("search:"@ + t).len() >= 7);
            },
            (OperationView::Home, OperationView::Parse { title: t }) => {
                assert(("serie:"@ + t).len() >= 6);
            },
            (OperationView::Search { title: s }, OperationView::Home) => {
                assert(("search:"@ + s).len() >= 7);
            },
            (OperationView::Parse { title: s }, OperationView::Home) => {
                assert(("serie:"@ + s).len() >= 6);
            },
            _ => {},
        }
    }
}

} // verus!
