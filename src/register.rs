use vstd::prelude::*;
use vstd::string::*;

use crate::keybind::{bind_present, check_if_bound, keybind_key, keybind_mask, Error, LiveBind};
use crate::text::has_sub;
use crate::workspace::{
    find_workspace, is_special_workspace, prepend_workspace_prefix, window_indices, windows_on,
    workspace_name, WorkspaceRef,
};

verus! {

/// A change to the compositor's state, to be carried out in order.
#[derive(Debug, Clone, PartialEq, Eq)]
pub enum Intent {
    /// Move the active window, silently, into the special workspace of this name.
    MoveActive(String),
    /// Set the keyword (`bind` or `unbind`) to the value.
    SetKeyword(String, String),
}

pub open spec fn is_move(i: Intent, workspace: Seq<char>) -> bool {
    match i {
        Intent::MoveActive(w) => w@ == workspace,
        _ => false,
    }
}

pub open spec fn is_keyword(i: Intent, name: Seq<char>, value: Seq<char>) -> bool {
    match i {
        Intent::SetKeyword(n, v) => n@ == name && v@ == value,
        _ => false,
    }
}

/// Whether a list of intents changes the bind table.
pub open spec fn touches_binds(v: Seq<Intent>) -> bool {
    exists|k: int| 0 <= k < v.len() && v[k] is SetKeyword
}

/// The bind value that toggles the special workspace `workspace` on `keybind`.
pub open spec fn toggle_bind(keybind: Seq<char>, workspace: Seq<char>) -> Seq<char> {
    keybind + ",togglespecialworkspace,"@ + workspace
}

/// Decide what registering the active window under the short name `name`
/// does, given the bind table `binds` as it stands now.
///
/// Without a keybind the window is moved. With one, a malformed keybind or
/// one that is already bound (unless `force`) is refused before any change;
/// otherwise the window is moved, the keybind unbound, then bound to toggle
/// the workspace.
pub fn plan_register_active(name: &str, keybind: Option<&str>, force: bool, binds: &Vec<LiveBind>) -> (r: Result<Vec<Intent>, Error>)
    ensures
        keybind is None ==> (r matches Ok(v) && v@.len() == 1 && is_move(
            v@[0],
            workspace_name(name@),
        )),
        keybind matches Some(k) ==> {
            if !k@.contains(',') {
                r == Err::<Vec<Intent>, Error>(Error::MalformedKeybind)
            } else if bind_present(binds@, keybind_mask(k@), keybind_key(k@)) && !force {
                r matches Err(Error::BindConflict(s)) && s@ == k@
            } else {
                r matches Ok(v) && v@.len() == 3 && is_move(v@[0], workspace_name(name@))
                    && is_keyword(v@[1], "unbind"@, k@) && is_keyword(
                    v@[2],
                    "bind"@,
                    toggle_bind(k@, workspace_name(name@)),
                )
            }
        },
        r is Ok && touches_binds(r->Ok_0@) ==> keybind is Some && (force || !bind_present(
            binds@,
            keybind_mask(keybind->Some_0@),
            keybind_key(keybind->Some_0@),
        )),
{
    let workspace = prepend_workspace_prefix(name);
    match keybind {
        None => {
            let mut v: Vec<Intent> = Vec::new();
            v.push(Intent::MoveActive(workspace));
            proof {
                assert(!(v@[0] is SetKeyword));
            }
            Ok(v)
        },
        Some(k) => {
            let bound = check_if_bound(k, binds)?;
            if bound && !force {
                return Err(Error::BindConflict(String::from_str(k)));
            }
            let mut bind_value = String::from_str(k);
            bind_value.append(",togglespecialworkspace,");
            bind_value.append(workspace.as_str());
            let mut v: Vec<Intent> = Vec::new();
            v.push(Intent::MoveActive(workspace));
            v.push(Intent::SetKeyword(String::from_str("unbind"), String::from_str(k)));
            v.push(Intent::SetKeyword(String::from_str("bind"), bind_value));
            Ok(v)
        },
    }
}

/// Decide which special workspace toggling the short name `name` shows or
/// hides: the full name, if a workspace whose name holds it exists.
pub fn plan_toggle(name: &str, workspaces: &Vec<WorkspaceRef>) -> (r: Result<String, Error>)
    ensures
        (exists|k: int|
            0 <= k < workspaces@.len() && has_sub(
                #[trigger] workspaces@[k].name@,
                workspace_name(name@),
            )) ==> (r matches Ok(w) && w@ == workspace_name(name@)),
        (forall|k: int|
            0 <= k < workspaces@.len() ==> !has_sub(
                #[trigger] workspaces@[k].name@,
                workspace_name(name@),
            )) ==> (r matches Err(Error::WorkspaceNotFound(w)) && w@ == workspace_name(name@)),
{
    let workspace = prepend_workspace_prefix(name);
    match find_workspace(workspaces, workspace.as_str()) {
        Some(_) => Ok(workspace),
        None => Err(Error::WorkspaceNotFound(workspace)),
    }
}

/// Decide which windows unregistering the short name `name` moves back to
/// the active workspace `active`.
///
/// Nothing is done (`None`) while the active workspace is itself special.
/// Otherwise the special workspace is the first whose name holds the full
/// name, and the windows moved are those on it, by name or by id, given as
/// indices into `windows`.
pub fn plan_unregister(
    name: &str,
    active: &WorkspaceRef,
    workspaces: &Vec<WorkspaceRef>,
    windows: &Vec<WorkspaceRef>,
) -> (r: Result<Option<Vec<usize>>, Error>)
    ensures
        has_sub(active.name@, "special"@) ==> r matches Ok(None),
        !has_sub(active.name@, "special"@) ==> {
            if forall|k: int|
                0 <= k < workspaces@.len() ==> !has_sub(
                    #[trigger] workspaces@[k].name@,
                    workspace_name(name@),
                ) {
                r matches Err(Error::WorkspaceNotFound(w)) && w@ == workspace_name(name@)
            } else {
                exists|i: int|
                    {
                        &&& 0 <= i < workspaces@.len()
                        &&& has_sub(workspaces@[i].name@, workspace_name(name@))
                        &&& forall|k: int|
                            0 <= k < i ==> !has_sub(
                                #[trigger] workspaces@[k].name@,
                                workspace_name(name@),
                            )
                        &&& r matches Ok(Some(v)) && v@ == window_indices(
                            windows@,
                            workspaces@[i],
                            windows@.len(),
                        )
                    }
            }
        },
{
    if is_special_workspace(active.name.as_str()) {
        return Ok(None);
    }
    let workspace = prepend_workspace_prefix(name);
    match find_workspace(workspaces, workspace.as_str()) {
        Some(i) => Ok(Some(windows_on(windows, &workspaces[i]))),
        None => Err(Error::WorkspaceNotFound(workspace)),
    }
}

} // verus!
