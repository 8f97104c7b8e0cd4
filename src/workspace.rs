use vstd::prelude::*;
use vstd::string::*;

use crate::text::{contains_str, has_sub};

verus! {

/// The prefix of every special workspace this tool manages.
pub const WORKSPACE_PREFIX: &'static str = "hyprrdrop";

/// A workspace as the compositor identifies it.
#[derive(Debug, Clone)]
pub struct WorkspaceRef {
    pub id: i32,
    pub name: String,
}

/// `prefix`, a dash, then `name`.
pub open spec fn prefixed_name(prefix: Seq<char>, name: Seq<char>) -> Seq<char> {
    prefix + "-"@ + name
}

/// The special workspace name for the short name `name`.
pub open spec fn workspace_name(name: Seq<char>) -> Seq<char> {
    prefixed_name(WORKSPACE_PREFIX@, name)
}

/// Join `prefix` and `name` with a dash.
pub fn prefix_workspace_name(prefix: &str, name: &str) -> (r: String)
    ensures
        r@ == prefixed_name(prefix@, name@),
{
    let mut s = String::from_str(prefix);
    s.append("-");
    s.append(name);
    s
}

/// Prepend the prefix hyprrdrop- to workspace names.
pub fn prepend_workspace_prefix(name: &str) -> (r: String)
    ensures
        r@ == workspace_name(name@),
{
    prefix_workspace_name(WORKSPACE_PREFIX, name)
}

/// Every prefixed name begins with the prefix and a dash, and distinct names
/// under one prefix give distinct prefixed names.
pub proof fn prefixed_name_injective(prefix: Seq<char>, a: Seq<char>, b: Seq<char>)
    ensures
        prefixed_name(prefix, a).subrange(0, prefix.len() + 1 as int) == prefix + "-"@,
        prefixed_name(prefix, a) == prefixed_name(prefix, b) ==> a == b,
{
    let p = prefix + "-"@;
    assert(prefixed_name(prefix, a) == p + a);
    assert(prefixed_name(prefix, b) == p + b);
    assert((p + a).subrange(0, p.len() as int) =~= p);
    assert(prefix.len() + 1 == p.len()) by {
        reveal_strlit("-");
    }
    assert((p + a).subrange(p.len() as int, (p + a).len() as int) =~= a);
    assert((p + b).subrange(p.len() as int, (p + b).len() as int) =~= b);
}

/// Index of the first workspace whose name holds `name`.
pub fn find_workspace(workspaces: &Vec<WorkspaceRef>, name: &str) -> (r: Option<usize>)
    ensures
        r is None <==> forall|k: int|
            0 <= k < workspaces@.len() ==> !has_sub(#[trigger] workspaces@[k].name@, name@),
        r matches Some(i) ==> {
            &&& i < workspaces@.len()
            &&& has_sub(workspaces@[i as int].name@, name@)
            &&& forall|k: int| 0 <= k < i ==> !has_sub(#[trigger] workspaces@[k].name@, name@)
        },
{
    let mut i: usize = 0;
    while i < workspaces.len()
        invariant
            i <= workspaces@.len(),
            forall|k: int| 0 <= k < i ==> !has_sub(#[trigger] workspaces@[k].name@, name@),
        decreases workspaces.len() - i,
    {
        if contains_str(workspaces[i].name.as_str(), name) {
            return Some(i);
        }
        i += 1;
    }
    None
}

/// Whether a workspace of this name is a special one.
pub fn is_special_workspace(name: &str) -> (r: bool)
    ensures
        r == has_sub(name@, "special"@),
{
    contains_str(name, "special")
}

/// The indices below `n` of the windows whose class is `class`, in order.
pub open spec fn class_indices(classes: Seq<String>, class: Seq<char>, n: nat) -> Seq<usize>
    decreases n,
{
    if n == 0 {
        Seq::empty()
    } else {
        let prev = class_indices(classes, class, (n - 1) as nat);
        if classes[n - 1]@ == class {
            prev.push((n - 1) as usize)
        } else {
            prev
        }
    }
}

/// Indices of the windows whose class is `class`, in order.
pub fn clients_with_class(classes: &Vec<String>, class: &str) -> (r: Vec<usize>)
    ensures
        r@ == class_indices(classes@, class@, classes@.len()),
{
    let wanted = String::from_str(class);
    let mut r: Vec<usize> = Vec::new();
    let mut i: usize = 0;
    while i < classes.len()
        invariant
            i <= classes@.len(),
            wanted@ == class@,
            r@ == class_indices(classes@, class@, i as nat),
        decreases classes.len() - i,
    {
        if classes[i] == wanted {
            r.push(i);
        }
        i += 1;
    }
    r
}

/// Whether a window on workspace `w` belongs to workspace `target`: the same
/// name or the same id.
pub open spec fn on_workspace(w: WorkspaceRef, target: WorkspaceRef) -> bool {
    w.name@ == target.name@ || w.id == target.id
}

/// The indices below `n` of the windows that are on `target`, in order.
pub open spec fn window_indices(windows: Seq<WorkspaceRef>, target: WorkspaceRef, n: nat) -> Seq<
    usize,
>
    decreases n,
{
    if n == 0 {
        Seq::empty()
    } else {
        let prev = window_indices(windows, target, (n - 1) as nat);
        if on_workspace(windows[n - 1], target) {
            prev.push((n - 1) as usize)
        } else {
            prev
        }
    }
}

/// Indices of the windows, given by the workspace each is on, that are on
/// `target`, in order.
pub fn windows_on(windows: &Vec<WorkspaceRef>, target: &WorkspaceRef) -> (r: Vec<usize>)
    ensures
        r@ == window_indices(windows@, *target, windows@.len()),
{
    let mut r: Vec<usize> = Vec::new();
    let mut i: usize = 0;
    while i < windows.len()
        invariant
            i <= windows@.len(),
            r@ == window_indices(windows@, *target, i as nat),
        decreases windows.len() - i,
    {
        let w = &windows[i];
        if w.name == target.name || w.id == target.id {
            r.push(i);
        }
        i += 1;
    }
    r
}

} // verus!
