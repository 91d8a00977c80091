use snip::tui::command::CommandId;
use snip::tui::help::Mode;
use snip::tui::shortcuts::{
    action_pill_rules, actions_accented, bar_tiers, choose_tier, navigation_pill_rules, resolve_pill, shortcut_context,
    tier_fits_in, ChordChoice, Pane, Pill, ShortcutContext, Tier,
};

fn keys(commands: &[&[&str]]) -> Vec<Vec<String>> {
    commands.iter().map(|keys| keys.iter().map(|key| (*key).to_owned()).collect()).collect()
}

fn pill(key: &str, action: &str) -> Pill {
    (key.to_owned(), action.to_owned())
}

#[test]
fn pills_name_the_chosen_keys_once_each() {
    let bound = keys(&[&["h", "left"], &["l"]]);
    assert_eq!(resolve_pill(&bound, ChordChoice::All, None, "nav"), Some(pill("h/left/l", "nav")));
    assert_eq!(resolve_pill(&bound, ChordChoice::First, None, "nav"), Some(pill("h/l", "nav")));
    assert_eq!(resolve_pill(&bound, ChordChoice::Last, None, ""), Some(pill("left/l", "")));
    assert_eq!(resolve_pill(&bound, ChordChoice::All, Some("j/k"), "nav"), Some(pill("j/k", "nav")));
    let repeated = keys(&[&["g"], &["g", "G"]]);
    assert_eq!(resolve_pill(&repeated, ChordChoice::All, None, "top"), Some(pill("g/G", "top")));
    let unbound = keys(&[&[], &[]]);
    assert_eq!(resolve_pill(&unbound, ChordChoice::All, Some("j/k"), "nav"), None);
    assert_eq!(resolve_pill(&Vec::new(), ChordChoice::First, None, "nav"), None);
}

#[test]
fn rows_fit_with_two_columns_to_spare() {
    // "n create" is 2 + 1 + 2 + 6 = 11 columns; "q" alone is 3; one column between.
    let navigation = vec![pill("q", "")];
    let actions = vec![pill("n", "create"), pill("q", "")];
    assert!(tier_fits_in(&navigation, &actions, 3 + 11 + 1 + 3 + 2));
    assert!(!tier_fits_in(&navigation, &actions, 3 + 11 + 1 + 3 + 1));
    assert!(tier_fits_in(&Vec::new(), &Vec::new(), 2));
    assert!(!tier_fits_in(&Vec::new(), &Vec::new(), 1));
}

#[test]
fn the_bar_shows_the_fullest_tier_that_fits() {
    let nav_full = vec![pill("j/k", "nav"), pill("/", "search")];
    let nav_medium = vec![pill("j/k", "nav")];
    let nav_compact = vec![pill("j/k", "")];
    let act_full = vec![pill("n", "create"), pill("e", "edit"), pill("t", "tags")];
    let act_medium = vec![pill("n", "create"), pill("e", "edit")];
    let act_compact = vec![pill("n", ""), pill("e", "")];
    let tiers = bar_tiers(&nav_full, &nav_medium, &nav_compact, &act_full, &act_medium, &act_compact);
    assert_eq!(tiers.len(), 5);
    assert_eq!(tiers[4].1, vec![pill("n", "")]);
    assert_eq!(tiers[2], (nav_compact.clone(), act_medium.clone()));
    // Widths: full rows 10 + 1 + 11 and 11 + 1 + 9 + 1 + 9; medium 10 and
    // 11 + 1 + 9; compact navigation 5; compact actions 3 + 1 + 3; the first
    // compact action 3; each tier adds 2.
    assert_eq!(choose_tier(&tiers, 55), 0);
    assert_eq!(choose_tier(&tiers, 54), 1);
    assert_eq!(choose_tier(&tiers, 33), 1);
    assert_eq!(choose_tier(&tiers, 32), 2);
    assert_eq!(choose_tier(&tiers, 28), 2);
    assert_eq!(choose_tier(&tiers, 14), 3);
    assert_eq!(choose_tier(&tiers, 10), 4);
    assert_eq!(choose_tier(&tiers, 1), 4);
}

#[test]
fn the_action_pills_follow_what_holds_the_keyboard() {
    assert_eq!(shortcut_context(true, true, true, true, true, Pane::List), ShortcutContext::Git);
    assert_eq!(shortcut_context(false, true, true, true, true, Pane::List), ShortcutContext::Gist);
    assert_eq!(shortcut_context(false, false, true, true, true, Pane::List), ShortcutContext::Grab);
    assert_eq!(shortcut_context(false, false, false, true, true, Pane::List), ShortcutContext::Fragment);
    assert_eq!(shortcut_context(false, false, false, false, true, Pane::List), ShortcutContext::Trash);
    assert_eq!(shortcut_context(false, false, false, false, true, Pane::Sidebar), ShortcutContext::Sidebar);
    assert_eq!(shortcut_context(false, false, false, false, false, Pane::Preview), ShortcutContext::Preview);
    assert!(actions_accented(ShortcutContext::Trash));
    assert!(!actions_accented(ShortcutContext::List));
}

#[test]
fn each_tier_offers_its_own_pills() {
    let full = navigation_pill_rules(Tier::Full);
    let actions: Vec<&str> = full.iter().map(|rule| rule.action.as_str()).collect();
    assert_eq!(actions, vec!["nav", "search", "cmd", "git", "help", "quit"]);
    assert_eq!(full[0].commands, vec![CommandId::PaneBack, CommandId::PaneForward]);
    assert_eq!(full[0].fixed_key.as_deref(), Some("j/k"));
    assert_eq!(full[2].choice, ChordChoice::First);
    let compact = navigation_pill_rules(Tier::Compact);
    assert!(compact.iter().all(|rule| rule.action.is_empty()));
    assert_eq!(compact.len(), 4);

    let list = action_pill_rules(ShortcutContext::List, Tier::Medium);
    let names: Vec<&str> = list.iter().map(|rule| rule.action.as_str()).collect();
    assert_eq!(names, vec!["create", "edit", "tags", "copy"]);
    assert_eq!(list[0].mode, Mode::List);
    assert_eq!(list[3].mode, Mode::Global);
    let preview = action_pill_rules(ShortcutContext::Preview, Tier::Full);
    assert_eq!(preview[0].mode, Mode::Preview);
    assert_eq!(preview.len(), 7);
    let grab = action_pill_rules(ShortcutContext::Grab, Tier::Compact);
    assert_eq!(grab.len(), 2);
    assert_eq!(grab[1].choice, ChordChoice::Last);
    assert_eq!(grab[1].commands, vec![CommandId::UiDismiss]);
    let trash = action_pill_rules(ShortcutContext::Trash, Tier::Full);
    assert_eq!(trash[0].commands, vec![CommandId::NavDown, CommandId::NavUp]);
}
