//! The event classifier: a pure map from one notification to the log actions
//! it produces. Noise kinds are filtered; a paired rename is correlated into
//! a single action instead of separate created/removed lines.

use vstd::prelude::*;
use vstd::string::StringExecFns;
use crate::event::{EventKind, ModifyKind, Notification, RenameMode, string_views};

verus! {

/// The mathematical form of one log action: the exec form with every path
/// replaced by its view.
#[verifier::ext_equal]
pub enum Action {
    Created { path: Seq<char> },
    Renamed { from: Seq<char>, to: Seq<char> },
    Modified { path: Seq<char> },
    Removed { path: Seq<char> },
}

/// One log action the classifier asks the logging sink to perform.
#[derive(Clone, Debug, PartialEq, Eq)]
pub enum LogAction {
    Created(String),
    Renamed(String, String),
    Modified(String),
    Removed(String),
}

impl View for LogAction {
    type V = Action;

    open spec fn view(&self) -> Action {
        match self {
            LogAction::Created(p) => Action::Created { path: p@ },
            LogAction::Renamed(f, t) => Action::Renamed { from: f@, to: t@ },
            LogAction::Modified(p) => Action::Modified { path: p@ },
            LogAction::Removed(p) => Action::Removed { path: p@ },
        }
    }
}

/// The views of a sequence of log actions.
pub open spec fn action_views(actions: Seq<LogAction>) -> Seq<Action> {
    actions.map_values(|a: LogAction| a@)
}

/// The log line one action asks the sink to emit.
pub open spec fn rendered(a: Action) -> Seq<char> {
    match a {
        Action::Created { path } => "Created: "@ + path,
        Action::Renamed { from, to } => "Rename: "@ + from + " → "@ + to,
        Action::Modified { path } => "Modified: "@ + path,
        Action::Removed { path } => "Removed: "@ + path,
    }
}

impl LogAction {
    /// Render this action as its log line.
    pub fn line(&self) -> (r: String)
        ensures
            r@ == rendered(self@),
    {
        match self {
            LogAction::Created(p) => String::from_str("Created: ").concat(p.as_str()),
            LogAction::Renamed(f, t) => String::from_str("Rename: ")
                .concat(f.as_str())
                .concat(" → ")
                .concat(t.as_str()),
            LogAction::Modified(p) => String::from_str("Modified: ").concat(p.as_str()),
            LogAction::Removed(p) => String::from_str("Removed: ").concat(p.as_str()),
        }
    }
}

/// The kinds of action that are emitted once per affected path.
#[derive(Clone, Copy, Debug, PartialEq, Eq, Structural)]
pub enum PathLineKind {
    Created,
    Modified,
    Removed,
}

/// The single action a per-path line kind produces for one path.
pub open spec fn path_action(k: PathLineKind, path: Seq<char>) -> Action {
    match k {
        PathLineKind::Created => Action::Created { path },
        PathLineKind::Modified => Action::Modified { path },
        PathLineKind::Removed => Action::Removed { path },
    }
}

/// One action of the given kind for every path, in path order.
pub open spec fn per_path_actions(k: PathLineKind, paths: Seq<Seq<char>>) -> Seq<Action> {
    paths.map_values(|p: Seq<char>| path_action(k, p))
}

/// The classification rules: which log actions one notification of the given
/// kind and paths produces.
///
/// - a creation is logged once per path;
/// - a paired rename (both ends present) is logged as exactly one correlated
///   action over its first two paths; a rename with fewer than two paths, or
///   one reporting only its old or only its new end, is logged not at all,
///   on the assumption that separate created/removed notifications cover it;
/// - any other modification is logged once per path;
/// - a removal is logged once per path;
/// - access events, platform-specific other events and unclassified events
///   are noise and produce nothing.
pub open spec fn classified(kind: EventKind, paths: Seq<Seq<char>>) -> Seq<Action> {
    match kind {
        EventKind::Create => per_path_actions(PathLineKind::Created, paths),
        EventKind::Modify(mk) => match mk {
            ModifyKind::Name(rm) => if rm is Both && paths.len() >= 2 {
                seq![Action::Renamed { from: paths[0], to: paths[1] }]
            } else {
                Seq::empty()
            },
            _ => per_path_actions(PathLineKind::Modified, paths),
        },
        EventKind::Remove => per_path_actions(PathLineKind::Removed, paths),
        EventKind::Access => Seq::empty(),
        EventKind::Other => Seq::empty(),
        EventKind::Any => Seq::empty(),
    }
}

/// One action of the given per-path kind for each path, in order.
fn per_path_lines(k: PathLineKind, paths: &Vec<String>) -> (r: Vec<LogAction>)
    ensures
        action_views(r@) == per_path_actions(k, string_views(paths@)),
{
    let mut r: Vec<LogAction> = Vec::new();
    let mut i: usize = 0;
    while i < paths.len()
        invariant
            i <= paths@.len(),
            r@.len() == i,
            action_views(r@) == per_path_actions(k, string_views(paths@.take(i as int))),
        decreases paths@.len() - i,
    {
        let ghost r_pre = r@;
        let ghost i_pre = i as int;
        let p = paths[i].clone();
        let a = match k {
            PathLineKind::Created => LogAction::Created(p),
            PathLineKind::Modified => LogAction::Modified(p),
            PathLineKind::Removed => LogAction::Removed(p),
        };
        r.push(a);
        i = i + 1;
        proof {
            assert forall|m: int| 0 <= m < r@.len() implies
                action_views(r@)[m] == per_path_actions(k, string_views(paths@.take(i as int)))[m] by {
                if m < i_pre {
                    assert(action_views(r_pre)[m] == path_action(k, string_views(paths@.take(i_pre))[m]));
                }
            }
            assert(action_views(r@) =~~= per_path_actions(k, string_views(paths@.take(i as int))));
        }
    }
    proof {
        assert(paths@.take(paths@.len() as int) =~= paths@);
    }
    r
}

/// Classify one notification into the log actions of `classified`.
pub fn classify(n: &Notification) -> (r: Vec<LogAction>)
    ensures
        action_views(r@) == classified(n.kind, n.path_views()),
{
    match n.kind {
        EventKind::Create => per_path_lines(PathLineKind::Created, &n.paths),
        EventKind::Modify(mk) => match mk {
            ModifyKind::Name(rm) => {
                let mut r: Vec<LogAction> = Vec::new();
                if matches!(rm, RenameMode::Both) && n.paths.len() >= 2 {
                    let from = n.paths[0].clone();
                    let to = n.paths[1].clone();
                    r.push(LogAction::Renamed(from, to));
                }
                proof {
                    assert(action_views(r@) =~~= classified(n.kind, n.path_views()));
                }
                r
            },
            _ => per_path_lines(PathLineKind::Modified, &n.paths),
        },
        EventKind::Remove => per_path_lines(PathLineKind::Removed, &n.paths),
        EventKind::Access => Vec::new(),
        EventKind::Other => Vec::new(),
        EventKind::Any => Vec::new(),
    }
}

/// Rename correlation: a paired rename carrying at least two paths produces
/// exactly one action, the rename of its first two paths, and in particular
/// no created and no removed action for any of its paths.
pub proof fn lemma_rename_correlated(paths: Seq<Seq<char>>)
    requires
        paths.len() >= 2,
    ensures
        ({
            let acts = classified(
                EventKind::Modify(ModifyKind::Name(RenameMode::Both)),
                paths,
            );
            &&& acts == seq![Action::Renamed { from: paths[0], to: paths[1] }]
            &&& forall|j: int|
                0 <= j < acts.len() ==> !(#[trigger] acts[j] is Created) && !(acts[j] is Removed)
        }),
{
}

} // verus!
