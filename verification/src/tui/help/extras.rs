//! The help rows that are no command binding: digits, mouse gestures,
//! typing in the search field and the like.
use vstd::prelude::*;

use crate::tui::help::{HelpExtra, HelpExtraGroup, Mode};

verus! {

/// A help extra as a spec value.
pub struct ExtraView {
    pub id: Seq<char>,
    pub modes: Seq<Mode>,
    pub group: HelpExtraGroup,
    pub key: Seq<char>,
    pub slug: Seq<char>,
    pub description: Seq<char>,
    pub aliases: Seq<Seq<char>>,
}

impl View for HelpExtra {
    type V = ExtraView;

    open spec fn view(&self) -> ExtraView {
        ExtraView {
            id: self.id@,
            modes: self.modes@,
            group: self.group,
            key: self.key@,
            slug: self.slug@,
            description: self.description@,
            aliases: self.aliases@.map_values(|a: &str| a@),
        }
    }
}

/// The extra rows, in the order the overlay lists them: the force quit in
/// every mode, the digit jumps, typing in the search field, the mouse, and
/// the wheel in the overlay itself.
pub open spec fn extras_spec() -> Seq<ExtraView> {
    seq![
        ExtraView {
            id: "system.force-quit"@,
            modes: seq![Mode::Global, Mode::Sidebar, Mode::List, Mode::Preview, Mode::Fragment, Mode::FragmentGrab, Mode::Trash, Mode::Git, Mode::Gist, Mode::Search, Mode::Help],
            group: HelpExtraGroup::System,
            key: "Ctrl-c"@,
            slug: "app.quit"@,
            description: "Force quit before the active mode handles input"@,
            aliases: seq!["quit"@, "exit"@, "system"@],
        },
        ExtraView {
            id: "numbers.jump"@,
            modes: seq![Mode::Sidebar, Mode::List, Mode::Preview, Mode::Fragment],
            group: HelpExtraGroup::Numbers,
            key: "1-9 / 0"@,
            slug: ""@,
            description: "Jump to the first through tenth item"@,
            aliases: seq!["digits"@, "number"@, "shortcut"@],
        },
        ExtraView {
            id: "search.type"@,
            modes: seq![Mode::Search],
            group: HelpExtraGroup::Mode(Mode::Search),
            key: "any printable character"@,
            slug: ""@,
            description: "Append a character to the search query"@,
            aliases: seq!["type"@, "input"@, "query"@],
        },
        ExtraView {
            id: "search.backspace"@,
            modes: seq![Mode::Search],
            group: HelpExtraGroup::Mode(Mode::Search),
            key: "Backspace"@,
            slug: ""@,
            description: "Remove the final character from the search query"@,
            aliases: seq!["delete"@, "erase"@],
        },
        ExtraView {
            id: "search.enter"@,
            modes: seq![Mode::Search],
            group: HelpExtraGroup::Mode(Mode::Search),
            key: "Enter"@,
            slug: ""@,
            description: "Keep the query and return focus to the snippet list"@,
            aliases: seq!["accept"@, "finish"@],
        },
        ExtraView {
            id: "search.escape"@,
            modes: seq![Mode::Search],
            group: HelpExtraGroup::Mode(Mode::Search),
            key: "Esc"@,
            slug: ""@,
            description: "Leave search without clearing the query"@,
            aliases: seq!["close"@, "cancel"@],
        },
        ExtraView {
            id: "mouse.wheel"@,
            modes: seq![Mode::Sidebar, Mode::List, Mode::Preview, Mode::Fragment],
            group: HelpExtraGroup::Mouse,
            key: "wheel"@,
            slug: ""@,
            description: "Scroll the hovered pane"@,
            aliases: seq!["mouse"@, "scroll"@],
        },
        ExtraView {
            id: "mouse.click"@,
            modes: seq![Mode::Sidebar, Mode::List, Mode::Preview, Mode::Fragment],
            group: HelpExtraGroup::Mouse,
            key: "click"@,
            slug: ""@,
            description: "Select an item or fragment"@,
            aliases: seq!["mouse"@, "select"@],
        },
        ExtraView {
            id: "mouse.double-click"@,
            modes: seq![Mode::List],
            group: HelpExtraGroup::Mouse,
            key: "double-click"@,
            slug: ""@,
            description: "Drill into the snippet preview"@,
            aliases: seq!["mouse"@, "open"@, "preview"@],
        },
        ExtraView {
            id: "mouse.drag"@,
            modes: seq![Mode::Preview, Mode::Fragment],
            group: HelpExtraGroup::Mouse,
            key: "drag"@,
            slug: ""@,
            description: "Select text in the preview"@,
            aliases: seq!["mouse"@, "selection"@],
        },
        ExtraView {
            id: "mouse.copy-selection"@,
            modes: seq![Mode::Preview, Mode::Fragment],
            group: HelpExtraGroup::Mouse,
            key: "mouse up"@,
            slug: ""@,
            description: "Copy the selected preview text"@,
            aliases: seq!["mouse"@, "clipboard"@, "selection"@],
        },
        ExtraView {
            id: "help.wheel"@,
            modes: seq![Mode::Help],
            group: HelpExtraGroup::HelpControls,
            key: "wheel"@,
            slug: ""@,
            description: "Move the help selection"@,
            aliases: seq!["mouse"@, "scroll"@, "navigate"@],
        },
    ]
}

/// Help extras as spec values.
pub open spec fn extras_view(v: Seq<HelpExtra>) -> Seq<ExtraView> {
    v.map_values(|e: HelpExtra| e@)
}

/// The extra rows.
pub fn extras() -> (v: Vec<HelpExtra>)
    ensures
        extras_view(v@) == extras_spec(),
{
    let mut v: Vec<HelpExtra> = Vec::new();
    v.push(HelpExtra {
        id: "system.force-quit",
        modes: &[Mode::Global, Mode::Sidebar, Mode::List, Mode::Preview, Mode::Fragment, Mode::FragmentGrab, Mode::Trash, Mode::Git, Mode::Gist, Mode::Search, Mode::Help],
        group: HelpExtraGroup::System,
        key: "Ctrl-c",
        slug: "app.quit",
        description: "Force quit before the active mode handles input",
        aliases: &["quit", "exit", "system"],
    });
    v.push(HelpExtra {
        id: "numbers.jump",
        modes: &[Mode::Sidebar, Mode::List, Mode::Preview, Mode::Fragment],
        group: HelpExtraGroup::Numbers,
        key: "1-9 / 0",
        slug: "",
        description: "Jump to the first through tenth item",
        aliases: &["digits", "number", "shortcut"],
    });
    v.push(HelpExtra {
        id: "search.type",
        modes: &[Mode::Search],
        group: HelpExtraGroup::Mode(Mode::Search),
        key: "any printable character",
        slug: "",
        description: "Append a character to the search query",
        aliases: &["type", "input", "query"],
    });
    v.push(HelpExtra {
        id: "search.backspace",
        modes: &[Mode::Search],
        group: HelpExtraGroup::Mode(Mode::Search),
        key: "Backspace",
        slug: "",
        description: "Remove the final character from the search query",
        aliases: &["delete", "erase"],
    });
    v.push(HelpExtra {
        id: "search.enter",
        modes: &[Mode::Search],
        group: HelpExtraGroup::Mode(Mode::Search),
        key: "Enter",
        slug: "",
        description: "Keep the query and return focus to the snippet list",
        aliases: &["accept", "finish"],
    });
    v.push(HelpExtra {
        id: "search.escape",
        modes: &[Mode::Search],
        group: HelpExtraGroup::Mode(Mode::Search),
        key: "Esc",
        slug: "",
        description: "Leave search without clearing the query",
        aliases: &["close", "cancel"],
    });
    v.push(HelpExtra {
        id: "mouse.wheel",
        modes: &[Mode::Sidebar, Mode::List, Mode::Preview, Mode::Fragment],
        group: HelpExtraGroup::Mouse,
        key: "wheel",
        slug: "",
        description: "Scroll the hovered pane",
        aliases: &["mouse", "scroll"],
    });
    v.push(HelpExtra {
        id: "mouse.click",
        modes: &[Mode::Sidebar, Mode::List, Mode::Preview, Mode::Fragment],
        group: HelpExtraGroup::Mouse,
        key: "click",
        slug: "",
        description: "Select an item or fragment",
        aliases: &["mouse", "select"],
    });
    v.push(HelpExtra {
        id: "mouse.double-click",
        modes: &[Mode::List],
        group: HelpExtraGroup::Mouse,
        key: "double-click",
        slug: "",
        description: "Drill into the snippet preview",
        aliases: &["mouse", "open", "preview"],
    });
    v.push(HelpExtra {
        id: "mouse.drag",
        modes: &[Mode::Preview, Mode::Fragment],
        group: HelpExtraGroup::Mouse,
        key: "drag",
        slug: "",
        description: "Select text in the preview",
        aliases: &["mouse", "selection"],
    });
    v.push(HelpExtra {
        id: "mouse.copy-selection",
        modes: &[Mode::Preview, Mode::Fragment],
        group: HelpExtraGroup::Mouse,
        key: "mouse up",
        slug: "",
        description: "Copy the selected preview text",
        aliases: &["mouse", "clipboard", "selection"],
    });
    v.push(HelpExtra {
        id: "help.wheel",
        modes: &[Mode::Help],
        group: HelpExtraGroup::HelpControls,
        key: "wheel",
        slug: "",
        description: "Move the help selection",
        aliases: &["mouse", "scroll", "navigate"],
    });
    proof {
        assert forall|i: int| 0 <= i < v@.len() implies #[trigger] extras_view(v@)[i] == extras_spec()[i] by {
            assert(v@[i].aliases@.map_values(|a: &str| a@) =~= extras_spec()[i].aliases);
            assert(v@[i].modes@ =~= extras_spec()[i].modes);
        }
        assert(extras_view(v@) =~= extras_spec());
    }
    v
}

/// Every extra row has an id, and no two share one.
pub proof fn law_help_extra_ids_are_unique()
    ensures
        forall|i: int| 0 <= i < extras_spec().len() ==> #[trigger] extras_spec()[i].id.len() > 0,
        forall|i: int, j: int|
            0 <= i < j < extras_spec().len() ==> #[trigger] extras_spec()[i].id != #[trigger] extras_spec()[j].id,
{
    reveal_strlit("system.force-quit");
    reveal_strlit("numbers.jump");
    reveal_strlit("search.type");
    reveal_strlit("search.backspace");
    reveal_strlit("search.enter");
    reveal_strlit("search.escape");
    reveal_strlit("mouse.wheel");
    reveal_strlit("mouse.click");
    reveal_strlit("mouse.double-click");
    reveal_strlit("mouse.drag");
    reveal_strlit("mouse.copy-selection");
    reveal_strlit("help.wheel");
    let e = extras_spec();
    assert(e[0].id.len() != e[1].id.len());
    assert(e[0].id.len() != e[2].id.len());
    assert(e[0].id.len() != e[3].id.len());
    assert(e[0].id.len() != e[4].id.len());
    assert(e[0].id.len() != e[5].id.len());
    assert(e[0].id.len() != e[6].id.len());
    assert(e[0].id.len() != e[7].id.len());
    assert(e[0].id.len() != e[8].id.len());
    assert(e[0].id.len() != e[9].id.len());
    assert(e[0].id.len() != e[10].id.len());
    assert(e[0].id.len() != e[11].id.len());
    assert(e[1].id.len() != e[2].id.len());
    assert(e[1].id.len() != e[3].id.len());
    assert(e[1].id[0] != e[4].id[0]);
    assert(e[1].id.len() != e[5].id.len());
    assert(e[1].id.len() != e[6].id.len());
    assert(e[1].id.len() != e[7].id.len());
    assert(e[1].id.len() != e[8].id.len());
    assert(e[1].id.len() != e[9].id.len());
    assert(e[1].id.len() != e[10].id.len());
    assert(e[1].id.len() != e[11].id.len());
    assert(e[2].id.len() != e[3].id.len());
    assert(e[2].id.len() != e[4].id.len());
    assert(e[2].id.len() != e[5].id.len());
    assert(e[2].id[0] != e[6].id[0]);
    assert(e[2].id[0] != e[7].id[0]);
    assert(e[2].id.len() != e[8].id.len());
    assert(e[2].id.len() != e[9].id.len());
    assert(e[2].id.len() != e[10].id.len());
    assert(e[2].id.len() != e[11].id.len());
    assert(e[3].id.len() != e[4].id.len());
    assert(e[3].id.len() != e[5].id.len());
    assert(e[3].id.len() != e[6].id.len());
    assert(e[3].id.len() != e[7].id.len());
    assert(e[3].id.len() != e[8].id.len());
    assert(e[3].id.len() != e[9].id.len());
    assert(e[3].id.len() != e[10].id.len());
    assert(e[3].id.len() != e[11].id.len());
    assert(e[4].id.len() != e[5].id.len());
    assert(e[4].id.len() != e[6].id.len());
    assert(e[4].id.len() != e[7].id.len());
    assert(e[4].id.len() != e[8].id.len());
    assert(e[4].id.len() != e[9].id.len());
    assert(e[4].id.len() != e[10].id.len());
    assert(e[4].id.len() != e[11].id.len());
    assert(e[5].id.len() != e[6].id.len());
    assert(e[5].id.len() != e[7].id.len());
    assert(e[5].id.len() != e[8].id.len());
    assert(e[5].id.len() != e[9].id.len());
    assert(e[5].id.len() != e[10].id.len());
    assert(e[5].id.len() != e[11].id.len());
    assert(e[6].id[6] != e[7].id[6]);
    assert(e[6].id.len() != e[8].id.len());
    assert(e[6].id.len() != e[9].id.len());
    assert(e[6].id.len() != e[10].id.len());
    assert(e[6].id.len() != e[11].id.len());
    assert(e[7].id.len() != e[8].id.len());
    assert(e[7].id.len() != e[9].id.len());
    assert(e[7].id.len() != e[10].id.len());
    assert(e[7].id.len() != e[11].id.len());
    assert(e[8].id.len() != e[9].id.len());
    assert(e[8].id.len() != e[10].id.len());
    assert(e[8].id.len() != e[11].id.len());
    assert(e[9].id.len() != e[10].id.len());
    assert(e[9].id[0] != e[11].id[0]);
    assert(e[10].id.len() != e[11].id.len());
    assert forall|i: int, j: int| 0 <= i < j < e.len() implies #[trigger] e[i].id != #[trigger] e[j].id by {
        assert(i == 0 || i == 1 || i == 2 || i == 3 || i == 4 || i == 5 || i == 6 || i == 7 || i == 8 || i == 9 || i
            == 10);
        assert(j == 1 || j == 2 || j == 3 || j == 4 || j == 5 || j == 6 || j == 7 || j == 8 || j == 9 || j == 10 || j
            == 11);
    }
}

} // verus!
