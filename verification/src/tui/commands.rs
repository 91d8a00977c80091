//! When commands can run: each state check over what the interface has
//! selected, and the commands a palette hides.
use vstd::prelude::*;

use crate::tui::command::{Command, CommandState};
use crate::tui::git_panel::Unavailable;

verus! {

/// What kind of sidebar row is selected.
#[derive(Clone, Copy, Debug, PartialEq, Eq, Structural)]
pub enum SidebarKind {
    Folder,
    Tag,
    Other,
}

/// What the state checks read of the selected snippet: whether it has a
/// gist, whether it is locked, and how many fragments it has.
#[derive(Clone, Copy, Debug)]
pub struct SelectedSnippet {
    pub has_gist: bool,
    pub locked: bool,
    pub fragment_count: usize,
}

/// What the state checks read of the interface: the selected snippet, the
/// selected fragment's position, the selected sidebar row, why git cannot
/// be used (if so) and whether a repository was found, and whether a trash
/// entry is selected.
pub struct CommandContext {
    pub snippet: Option<SelectedSnippet>,
    pub fragment_index: usize,
    pub sidebar: Option<SidebarKind>,
    pub git_unavailable: Option<Unavailable>,
    pub git_repo: bool,
    pub trash_selected: bool,
}

/// A command state as a spec value.
pub enum StateView {
    Enabled,
    Disabled(Seq<char>),
    Hidden,
}

impl View for CommandState {
    type V = StateView;

    open spec fn view(&self) -> StateView {
        match self {
            CommandState::Enabled => StateView::Enabled,
            CommandState::Disabled(reason) => StateView::Disabled(reason@),
            CommandState::Hidden => StateView::Hidden,
        }
    }
}

/// Enabled where `ok`, else disabled for `reason`.
pub open spec fn enabled_if(ok: bool, reason: Seq<char>) -> StateView {
    if ok {
        StateView::Enabled
    } else {
        StateView::Disabled(reason)
    }
}

/// Needs a selected snippet.
pub open spec fn has_snippet_spec(ctx: CommandContext) -> StateView {
    enabled_if(ctx.snippet is Some, "no snippet selected"@)
}

/// Needs a selected snippet that has a gist.
pub open spec fn has_gist_spec(ctx: CommandContext) -> StateView {
    enabled_if(ctx.snippet matches Some(s) && s.has_gist, "this snippet has no gist"@)
}

/// Needs a folder selected in the sidebar.
pub open spec fn has_folder_spec(ctx: CommandContext) -> StateView {
    enabled_if(ctx.sidebar == Some(SidebarKind::Folder), "no folder selected"@)
}

/// Needs a tag selected in the sidebar.
pub open spec fn has_tag_spec(ctx: CommandContext) -> StateView {
    enabled_if(ctx.sidebar == Some(SidebarKind::Tag), "no tag selected"@)
}

/// Needs git and a repository.
pub open spec fn git_available_spec(ctx: CommandContext) -> StateView {
    match ctx.git_unavailable {
        Some(Unavailable::BinaryMissing) => StateView::Disabled("git not found in PATH"@),
        Some(Unavailable::ProbeFailed { .. }) => StateView::Disabled("git could not inspect this repository"@),
        _ => enabled_if(ctx.git_repo, "not a Git repository"@),
    }
}

/// Needs a library that is not a repository yet.
pub open spec fn can_init_git_spec(ctx: CommandContext) -> StateView {
    enabled_if(ctx.git_unavailable matches Some(Unavailable::NotARepository), "already a Git repository"@)
}

/// Needs a selected trash entry.
pub open spec fn has_trash_selection_spec(ctx: CommandContext) -> StateView {
    enabled_if(ctx.trash_selected, "no trash entry selected"@)
}

/// Needs a selected snippet that is not locked (the state to show where it
/// is missing or locked).
pub open spec fn fragment_snippet_spec(ctx: CommandContext) -> Result<SelectedSnippet, StateView> {
    match ctx.snippet {
        None => Err(StateView::Disabled("no snippet selected"@)),
        Some(s) => if s.locked {
            Err(StateView::Disabled("snippet is locked; use the CLI with --force"@))
        } else {
            Ok(s)
        },
    }
}

/// Needs a selected snippet that is not locked.
pub open spec fn can_add_fragment_spec(ctx: CommandContext) -> StateView {
    match fragment_snippet_spec(ctx) {
        Err(state) => state,
        Ok(_) => StateView::Enabled,
    }
}

/// Needs a selected, unlocked snippet with the selected fragment.
pub open spec fn can_edit_fragment_spec(ctx: CommandContext) -> StateView {
    match fragment_snippet_spec(ctx) {
        Err(state) => state,
        Ok(s) => enabled_if(ctx.fragment_index < s.fragment_count, "no fragment selected"@),
    }
}

/// Needs a fragment that can be edited, and another one to move it past.
pub open spec fn can_reorder_fragment_spec(ctx: CommandContext) -> StateView {
    match can_edit_fragment_spec(ctx) {
        StateView::Enabled => enabled_if(
            ctx.snippet matches Some(s) && s.fragment_count >= 2,
            "only one fragment to move"@,
        ),
        state => state,
    }
}

/// Needs a fragment that can be edited, and another one to keep.
pub open spec fn can_remove_fragment_spec(ctx: CommandContext) -> StateView {
    match can_edit_fragment_spec(ctx) {
        StateView::Enabled => enabled_if(
            ctx.snippet matches Some(s) && s.fragment_count >= 2,
            "cannot delete the only fragment"@,
        ),
        state => state,
    }
}

fn enabled_when(ok: bool, reason: &'static str) -> (r: CommandState)
    ensures
        r@ == enabled_if(ok, reason@),
{
    if ok {
        CommandState::Enabled
    } else {
        CommandState::Disabled(reason)
    }
}

/// Always enabled.
pub fn enabled(ctx: &CommandContext) -> (r: CommandState)
    ensures
        r@ == StateView::Enabled,
{
    CommandState::Enabled
}

/// Needs a selected snippet.
pub fn has_snippet(ctx: &CommandContext) -> (r: CommandState)
    ensures
        r@ == has_snippet_spec(*ctx),
{
    enabled_when(ctx.snippet.is_some(), "no snippet selected")
}

/// Needs a selected snippet that has a gist.
pub fn has_gist(ctx: &CommandContext) -> (r: CommandState)
    ensures
        r@ == has_gist_spec(*ctx),
{
    let ok = match ctx.snippet {
        Some(s) => s.has_gist,
        None => false,
    };
    enabled_when(ok, "this snippet has no gist")
}

/// Needs a folder selected in the sidebar.
pub fn has_folder(ctx: &CommandContext) -> (r: CommandState)
    ensures
        r@ == has_folder_spec(*ctx),
{
    let ok = match ctx.sidebar {
        Some(SidebarKind::Folder) => true,
        _ => false,
    };
    enabled_when(ok, "no folder selected")
}

/// Needs a tag selected in the sidebar.
pub fn has_tag(ctx: &CommandContext) -> (r: CommandState)
    ensures
        r@ == has_tag_spec(*ctx),
{
    let ok = match ctx.sidebar {
        Some(SidebarKind::Tag) => true,
        _ => false,
    };
    enabled_when(ok, "no tag selected")
}

/// Needs git and a repository.
pub fn git_available(ctx: &CommandContext) -> (r: CommandState)
    ensures
        r@ == git_available_spec(*ctx),
{
    match &ctx.git_unavailable {
        Some(Unavailable::BinaryMissing) => CommandState::Disabled("git not found in PATH"),
        Some(Unavailable::ProbeFailed { .. }) => CommandState::Disabled("git could not inspect this repository"),
        _ => enabled_when(ctx.git_repo, "not a Git repository"),
    }
}

/// Needs a library that is not a repository yet.
pub fn can_init_git(ctx: &CommandContext) -> (r: CommandState)
    ensures
        r@ == can_init_git_spec(*ctx),
{
    let ok = match &ctx.git_unavailable {
        Some(Unavailable::NotARepository) => true,
        _ => false,
    };
    enabled_when(ok, "already a Git repository")
}

/// Needs a selected trash entry.
pub fn has_trash_selection(ctx: &CommandContext) -> (r: CommandState)
    ensures
        r@ == has_trash_selection_spec(*ctx),
{
    enabled_when(ctx.trash_selected, "no trash entry selected")
}

/// The selected snippet, where it can take fragment changes; otherwise the
/// state to show.
pub fn fragment_snippet(ctx: &CommandContext) -> (r: Result<SelectedSnippet, CommandState>)
    ensures
        match fragment_snippet_spec(*ctx) {
            Ok(s) => r == Ok::<SelectedSnippet, CommandState>(s),
            Err(state) => r matches Err(x) && x@ == state,
        },
{
    match ctx.snippet {
        None => Err(CommandState::Disabled("no snippet selected")),
        Some(s) => if s.locked {
            Err(CommandState::Disabled("snippet is locked; use the CLI with --force"))
        } else {
            Ok(s)
        },
    }
}

/// Needs a selected snippet that is not locked.
pub fn can_add_fragment(ctx: &CommandContext) -> (r: CommandState)
    ensures
        r@ == can_add_fragment_spec(*ctx),
{
    match fragment_snippet(ctx) {
        Err(state) => state,
        Ok(_) => CommandState::Enabled,
    }
}

/// Needs a selected, unlocked snippet with the selected fragment.
pub fn can_edit_fragment(ctx: &CommandContext) -> (r: CommandState)
    ensures
        r@ == can_edit_fragment_spec(*ctx),
{
    match fragment_snippet(ctx) {
        Err(state) => state,
        Ok(s) => enabled_when(ctx.fragment_index < s.fragment_count, "no fragment selected"),
    }
}

/// Needs a fragment that can be edited, and another one to move it past.
pub fn can_reorder_fragment(ctx: &CommandContext) -> (r: CommandState)
    ensures
        r@ == can_reorder_fragment_spec(*ctx),
{
    match can_edit_fragment(ctx) {
        CommandState::Enabled => {},
        state => {
            return state;
        },
    }
    let ok = match ctx.snippet {
        Some(s) => s.fragment_count >= 2,
        None => false,
    };
    enabled_when(ok, "only one fragment to move")
}

/// Needs a fragment that can be edited, and another one to keep.
pub fn can_remove_fragment(ctx: &CommandContext) -> (r: CommandState)
    ensures
        r@ == can_remove_fragment_spec(*ctx),
{
    match can_edit_fragment(ctx) {
        CommandState::Enabled => {},
        state => {
            return state;
        },
    }
    let ok = match ctx.snippet {
        Some(s) => s.fragment_count >= 2,
        None => false,
    };
    enabled_when(ok, "cannot delete the only fragment")
}

/// The commands whose state is hidden, in order, from each command and its
/// state.
pub open spec fn hidden_ids(commands: Seq<Command>, states: Seq<StateView>) -> Seq<crate::tui::command::CommandId>
    decreases commands.len(),
{
    if commands.len() == 0 || states.len() == 0 {
        Seq::empty()
    } else {
        let rest = hidden_ids(commands.drop_last(), states.drop_last());
        if states.last() is Hidden {
            rest.push(commands.last().id)
        } else {
            rest
        }
    }
}

/// The commands a palette leaves out: those whose state is hidden, given
/// each command's state in turn.
pub fn hidden_command_ids(commands: &Vec<Command>, states: &Vec<CommandState>) -> (r: Vec<
    crate::tui::command::CommandId,
>)
    requires
        states@.len() == commands@.len(),
    ensures
        r@ == hidden_ids(commands@, states@.map_values(|s: CommandState| s@)),
{
    let mut out: Vec<crate::tui::command::CommandId> = Vec::new();
    let mut i: usize = 0;
    while i < commands.len()
        invariant
            i <= commands@.len(),
            states@.len() == commands@.len(),
            out@ == hidden_ids(commands@.take(i as int), states@.map_values(|s: CommandState| s@).take(i as int)),
        decreases commands@.len() - i,
    {
        proof {
            let sv = states@.map_values(|s: CommandState| s@);
            assert(commands@.take(i + 1).drop_last() =~= commands@.take(i as int));
            assert(sv.take(i + 1).drop_last() =~= sv.take(i as int));
            assert(sv.take(i + 1).last() == states@[i as int]@);
        }
        match states[i] {
            CommandState::Hidden => {
                out.push(commands[i].id);
            },
            _ => {},
        }
        i = i + 1;
    }
    proof {
        assert(commands@.take(i as int) =~= commands@);
        assert(states@.map_values(|s: CommandState| s@).take(i as int) =~= states@.map_values(|s: CommandState| s@));
    }
    out
}

} // verus!
