use snip::tui::command::{get, CommandId, CommandState};
use snip::tui::commands::{
    can_add_fragment, can_edit_fragment, can_init_git, can_remove_fragment, can_reorder_fragment, enabled,
    fragment_snippet, git_available, has_folder, has_gist, has_snippet, has_tag, has_trash_selection,
    hidden_command_ids, CommandContext, SelectedSnippet, SidebarKind,
};
use snip::tui::git_panel::Unavailable;

fn nothing() -> CommandContext {
    CommandContext {
        snippet: None,
        fragment_index: 0,
        sidebar: None,
        git_unavailable: None,
        git_repo: false,
        trash_selected: false,
    }
}

fn snippet(locked: bool, fragment_count: usize) -> CommandContext {
    CommandContext { snippet: Some(SelectedSnippet { has_gist: false, locked, fragment_count }), ..nothing() }
}

#[test]
fn selection_checks_name_what_is_missing() {
    assert_eq!(enabled(&nothing()), CommandState::Enabled);
    assert_eq!(has_snippet(&nothing()), CommandState::Disabled("no snippet selected"));
    assert_eq!(has_snippet(&snippet(true, 1)), CommandState::Enabled);
    assert_eq!(has_gist(&snippet(false, 1)), CommandState::Disabled("this snippet has no gist"));
    let with_gist = CommandContext { snippet: Some(SelectedSnippet { has_gist: true, locked: true, fragment_count: 0 }), ..nothing() };
    assert_eq!(has_gist(&with_gist), CommandState::Enabled);
    let folder = CommandContext { sidebar: Some(SidebarKind::Folder), ..nothing() };
    let tag = CommandContext { sidebar: Some(SidebarKind::Tag), ..nothing() };
    assert_eq!(has_folder(&folder), CommandState::Enabled);
    assert_eq!(has_folder(&tag), CommandState::Disabled("no folder selected"));
    assert_eq!(has_tag(&tag), CommandState::Enabled);
    assert_eq!(has_tag(&CommandContext { sidebar: Some(SidebarKind::Other), ..nothing() }), CommandState::Disabled("no tag selected"));
    assert_eq!(has_trash_selection(&nothing()), CommandState::Disabled("no trash entry selected"));
    assert_eq!(has_trash_selection(&CommandContext { trash_selected: true, ..nothing() }), CommandState::Enabled);
}

#[test]
fn git_checks_follow_the_probe() {
    assert_eq!(git_available(&nothing()), CommandState::Disabled("not a Git repository"));
    assert_eq!(git_available(&CommandContext { git_repo: true, ..nothing() }), CommandState::Enabled);
    let missing = CommandContext { git_unavailable: Some(Unavailable::BinaryMissing), git_repo: true, ..nothing() };
    assert_eq!(git_available(&missing), CommandState::Disabled("git not found in PATH"));
    let failed = CommandContext {
        git_unavailable: Some(Unavailable::ProbeFailed { message: "bad".to_owned() }),
        ..nothing()
    };
    assert_eq!(git_available(&failed), CommandState::Disabled("git could not inspect this repository"));
    let not_repo = CommandContext { git_unavailable: Some(Unavailable::NotARepository), ..nothing() };
    assert_eq!(git_available(&not_repo), CommandState::Disabled("not a Git repository"));
    assert_eq!(can_init_git(&not_repo), CommandState::Enabled);
    assert_eq!(can_init_git(&CommandContext { git_repo: true, ..nothing() }), CommandState::Disabled("already a Git repository"));
}

#[test]
fn fragment_checks_need_an_unlocked_snippet_and_enough_fragments() {
    assert_eq!(can_add_fragment(&nothing()), CommandState::Disabled("no snippet selected"));
    assert_eq!(can_add_fragment(&snippet(true, 3)), CommandState::Disabled("snippet is locked; use the CLI with --force"));
    assert_eq!(can_add_fragment(&snippet(false, 0)), CommandState::Enabled);
    assert!(fragment_snippet(&snippet(false, 2)).is_ok());
    assert_eq!(can_edit_fragment(&snippet(false, 0)), CommandState::Disabled("no fragment selected"));
    assert_eq!(can_edit_fragment(&snippet(false, 1)), CommandState::Enabled);
    let past_end = CommandContext { fragment_index: 2, ..snippet(false, 2) };
    assert_eq!(can_edit_fragment(&past_end), CommandState::Disabled("no fragment selected"));
    assert_eq!(can_reorder_fragment(&snippet(false, 1)), CommandState::Disabled("only one fragment to move"));
    assert_eq!(can_reorder_fragment(&snippet(false, 2)), CommandState::Enabled);
    assert_eq!(can_reorder_fragment(&snippet(true, 2)), CommandState::Disabled("snippet is locked; use the CLI with --force"));
    assert_eq!(can_remove_fragment(&snippet(false, 1)), CommandState::Disabled("cannot delete the only fragment"));
    assert_eq!(can_remove_fragment(&snippet(false, 5)), CommandState::Enabled);
    assert_eq!(can_remove_fragment(&past_end), CommandState::Disabled("no fragment selected"));
}

#[test]
fn app_layer_excludes_hidden_commands_before_refreshing_the_palette() {
    let commands = vec![get(CommandId::GitPush), get(CommandId::AppQuit), get(CommandId::GistPush)];
    let states = vec![CommandState::Hidden, CommandState::Enabled, CommandState::Disabled("no snippet selected")];
    assert_eq!(hidden_command_ids(&commands, &states), vec![CommandId::GitPush]);
    assert!(hidden_command_ids(&commands, &vec![CommandState::Enabled; 3]).is_empty());
}
