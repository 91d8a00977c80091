use std::collections::HashSet;

use snip::tui::command::{by_slug, display_title, get, gui_editor_name, resolve_slug, CommandId, CommandState};

#[test]
fn gui_editor_title_uses_the_configured_executable_name() {
    let command = get(CommandId::SnippetOpenGui);
    assert_eq!(display_title(&command, Some("zed")), "Open in zed");
    assert_eq!(display_title(&command, Some("/usr/local/bin/code -w")), "Open in code");
    assert_eq!(display_title(&command, None), "Open in GUI Editor");
    assert_eq!(display_title(&command, Some("'")), "Open in GUI Editor");
    assert_eq!(display_title(&get(CommandId::SnippetRename), Some("zed")), "Rename");
}

#[test]
fn registry_is_complete_and_slugs_are_unique() {
    let all = CommandId::all();
    let registered_ids = all.iter().map(|id| get(*id).id).collect::<HashSet<_>>();
    let declared_ids = all.iter().copied().collect::<HashSet<_>>();
    let slugs = all.iter().map(|id| get(*id).slug).collect::<HashSet<_>>();
    assert_eq!(declared_ids.len(), all.len());
    assert_eq!(registered_ids, declared_ids);
    assert_eq!(slugs.len(), all.len());
}

#[test]
fn every_slug_finds_its_command() {
    for id in CommandId::all() {
        assert_eq!(by_slug(id.slug()), Some(id));
    }
    assert_eq!(by_slug("palette.open"), Some(CommandId::PaletteOpen));
    assert_eq!(by_slug("snippet.open-gui"), Some(CommandId::SnippetOpenGui));
    assert_eq!(by_slug("no.such-command"), None);
    assert_eq!(by_slug(""), None);
}

#[test]
fn gui_editor_names_come_from_the_first_word() {
    assert_eq!(gui_editor_name(Some("zed")).as_deref(), Some("zed"));
    assert_eq!(gui_editor_name(Some("\"/opt/My Editor/bin/edit.sh\" --wait")).as_deref(), Some("edit"));
    assert_eq!(gui_editor_name(Some("")), None);
    assert_eq!(gui_editor_name(Some("'unbalanced")), None);
    assert_eq!(gui_editor_name(None), None);
    assert_ne!(CommandState::Enabled, CommandState::Hidden);
    assert_eq!(CommandState::Disabled("no snippet"), CommandState::Disabled("no snippet"));
}

#[test]
fn registry_descriptions_are_present_and_well_formed() {
    for id in CommandId::all() {
        let command = get(id);
        let description = command.description;
        assert!(!description.trim().is_empty(), "{}", command.slug);
        assert!(description.chars().count() <= 90, "{}", command.slug);
        assert!(!description.ends_with('.'), "{}", command.slug);
        assert!(description.chars().next().is_some_and(|character| character.is_uppercase()), "{}", command.slug);
    }
}

#[test]
fn palette_commands_carry_their_keywords() {
    assert_eq!(get(CommandId::AppQuit).keywords, &["exit"]);
    assert_eq!(get(CommandId::TrashPurgeSelected).keywords, &["delete", "permanent"]);
    assert_eq!(get(CommandId::TrashPurgeSelected).description, "Permanently delete the selected trashed snippet");
    assert!(get(CommandId::NavDown).keywords.is_empty());
    assert_eq!(get(CommandId::NavDown).description, "Move to the next item");
    for id in CommandId::all() {
        let command = get(id);
        if !command.palette {
            assert!(command.keywords.is_empty(), "{}", command.slug);
        }
    }
}

#[test]
fn retired_slugs_resolve_to_their_command_and_its_slug() {
    let retired = vec![("palette", CommandId::PaletteOpen), ("nav.down", CommandId::NavUp)];
    assert_eq!(resolve_slug("palette.open", &retired), Some((CommandId::PaletteOpen, None)));
    assert_eq!(resolve_slug("palette", &retired), Some((CommandId::PaletteOpen, Some("palette.open"))));
    // A registered slug wins over a retired entry with the same text.
    assert_eq!(resolve_slug("nav.down", &retired), Some((CommandId::NavDown, None)));
    assert_eq!(resolve_slug("no.such", &retired), None);
    assert_eq!(resolve_slug("palette", &Vec::new()), None);
}
