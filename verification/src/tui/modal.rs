//! What a confirmed dialog does: from the dialog's action and the text it
//! was confirmed with, the library change to make (or the next dialog to
//! open), and the status line shown once the change is made.

use vstd::prelude::*;

use crate::error::{ErrorKind, SnipError};
use crate::text::{chars_of, copy_string, decimal, decimal_string, push_str, string_of, trim, trim_string};

verus! {

/// The action a dialog carries out once it is confirmed.
#[derive(Clone, Debug)]
pub enum ModalAction {
    RenameSnippet { id: u128 },
    MoveSnippet { id: u128 },
    EditTags { id: u128 },
    DeleteSnippet { id: u128 },
    /// Saving an edit over a newer version of the snippet; the edit itself
    /// stays with the caller.
    ForceEdit,
    CreateTitle,
    CreateFolder { title: String },
    CreateLanguage { title: String, folder: String },
    CreateFolderUnder { parent: String },
    RenameFolder { path: String },
    DeleteFolder { path: String },
    RenameTag { tag: String },
    DeleteTag { tag: String },
    PurgeSnippet { entry_id: String },
}

/// What to do for a confirmed dialog.
#[derive(Clone, Debug)]
pub enum ModalStep {
    /// Give snippet `id` the title `title`.
    Rename { id: u128, title: String },
    /// Move snippet `id` to `folder` (the empty text is the top level).
    Move { id: u128, folder: String },
    /// Give snippet `id` exactly these tags.
    Retag { id: u128, tags: Vec<String> },
    /// Move snippet `id` to the trash.
    Trash { id: u128 },
    /// Save the pending edit over the newer version.
    ForceSave,
    /// Open the folder picker for a new snippet titled `title`, over
    /// `folders`, with `selected` highlighted.
    PickFolder { title: String, folders: Vec<String>, selected: usize },
    /// Ask for the language of a new snippet, starting from `language`.
    AskLanguage { title: String, folder: String, language: String },
    /// Create a snippet.
    Create { title: String, folder: Option<String>, language: String },
    /// Create the folder `path`.
    CreateFolder { path: String },
    /// Rename the folder `from` to `to`.
    RenameFolder { from: String, to: String },
    /// Delete the folder `path`.
    DeleteFolder { path: String },
    /// Rename the tag `tag` to `name` in every snippet.
    RenameTag { tag: String, name: String },
    /// Remove the tag `tag` from every snippet.
    DeleteTag { tag: String },
    /// Delete the trash entry `entry_id` for good.
    Purge { entry_id: String },
}

/// A dialog step, as a spec value.
pub enum ModalStepView {
    Rename { id: u128, title: Seq<char> },
    Move { id: u128, folder: Seq<char> },
    Retag { id: u128, tags: Seq<Seq<char>> },
    Trash { id: u128 },
    ForceSave,
    PickFolder { title: Seq<char>, folders: Seq<Seq<char>>, selected: nat },
    AskLanguage { title: Seq<char>, folder: Seq<char>, language: Seq<char> },
    Create { title: Seq<char>, folder: Option<Seq<char>>, language: Seq<char> },
    CreateFolder { path: Seq<char> },
    RenameFolder { from: Seq<char>, to: Seq<char> },
    DeleteFolder { path: Seq<char> },
    RenameTag { tag: Seq<char>, name: Seq<char> },
    DeleteTag { tag: Seq<char> },
    Purge { entry_id: Seq<char> },
}

/// Strings, as spec values.
pub open spec fn strings_view(v: Seq<String>) -> Seq<Seq<char>> {
    v.map_values(|s: String| s@)
}

impl View for ModalStep {
    type V = ModalStepView;

    open spec fn view(&self) -> ModalStepView {
        match self {
            ModalStep::Rename { id, title } => ModalStepView::Rename { id: *id, title: title@ },
            ModalStep::Move { id, folder } => ModalStepView::Move { id: *id, folder: folder@ },
            ModalStep::Retag { id, tags } => ModalStepView::Retag { id: *id, tags: strings_view(tags@) },
            ModalStep::Trash { id } => ModalStepView::Trash { id: *id },
            ModalStep::ForceSave => ModalStepView::ForceSave,
            ModalStep::PickFolder { title, folders, selected } => ModalStepView::PickFolder {
                title: title@,
                folders: strings_view(folders@),
                selected: *selected as nat,
            },
            ModalStep::AskLanguage { title, folder, language } => ModalStepView::AskLanguage {
                title: title@,
                folder: folder@,
                language: language@,
            },
            ModalStep::Create { title, folder, language } => ModalStepView::Create {
                title: title@,
                folder: match folder {
                    Some(f) => Some(f@),
                    None => None,
                },
                language: language@,
            },
            ModalStep::CreateFolder { path } => ModalStepView::CreateFolder { path: path@ },
            ModalStep::RenameFolder { from, to } => ModalStepView::RenameFolder { from: from@, to: to@ },
            ModalStep::DeleteFolder { path } => ModalStepView::DeleteFolder { path: path@ },
            ModalStep::RenameTag { tag, name } => ModalStepView::RenameTag { tag: tag@, name: name@ },
            ModalStep::DeleteTag { tag } => ModalStepView::DeleteTag { tag: tag@ },
            ModalStep::Purge { entry_id } => ModalStepView::Purge { entry_id: entry_id@ },
        }
    }
}

/// The pieces of `s` between commas, as `str::split(',')` gives them: one
/// more than there are commas.
pub open spec fn comma_pieces(s: Seq<char>) -> Seq<Seq<char>>
    decreases s.len(),
{
    if s.len() == 0 {
        seq![Seq::empty()]
    } else if s.last() == ',' {
        comma_pieces(s.drop_last()).push(Seq::empty())
    } else {
        let p = comma_pieces(s.drop_last());
        p.update(p.len() - 1, p.last().push(s.last()))
    }
}

/// The pieces, trimmed, that are not empty, in order.
pub open spec fn kept_tags(pieces: Seq<Seq<char>>) -> Seq<Seq<char>>
    decreases pieces.len(),
{
    if pieces.len() == 0 {
        Seq::empty()
    } else {
        let rest = kept_tags(pieces.drop_last());
        let t = trim(pieces.last());
        if t.len() > 0 {
            rest.push(t)
        } else {
            rest
        }
    }
}

/// The tags a comma-separated list names: each piece trimmed, empty ones
/// dropped.
pub open spec fn tag_list(s: Seq<char>) -> Seq<Seq<char>> {
    kept_tags(comma_pieces(s))
}

/// Every tag a list names is a trimmed piece that is not empty.
pub proof fn law_listed_tags_are_never_empty(s: Seq<char>)
    ensures
        forall|i: int| 0 <= i < tag_list(s).len() ==> (#[trigger] tag_list(s)[i]).len() > 0,
{
    lemma_kept_tags_not_empty(comma_pieces(s));
}

/// The kept pieces are the non-empty ones.
proof fn lemma_kept_tags_not_empty(pieces: Seq<Seq<char>>)
    ensures
        forall|i: int| 0 <= i < kept_tags(pieces).len() ==> (#[trigger] kept_tags(pieces)[i]).len() > 0,
    decreases pieces.len(),
{
    if pieces.len() > 0 {
        lemma_kept_tags_not_empty(pieces.drop_last());
        let rest = kept_tags(pieces.drop_last());
        let t = trim(pieces.last());
        if t.len() > 0 {
            assert forall|i: int| 0 <= i < rest.push(t).len() implies (#[trigger] rest.push(t)[i]).len() > 0 by {
                if i < rest.len() {
                    assert(rest.push(t)[i] == rest[i]);
                }
            }
        }
    }
}

/// The first position in `items` that holds `item`.
pub open spec fn position_of(items: Seq<Seq<char>>, item: Seq<char>) -> Option<nat>
    decreases items.len(),
{
    if items.len() == 0 {
        None
    } else if items[0] == item {
        Some(0)
    } else {
        match position_of(items.drop_first(), item) {
            Some(i) => Some(i + 1),
            None => None,
        }
    }
}

/// `~`, the name the folder pickers give the top level.
pub open spec fn top_level() -> Seq<char> {
    seq!['~']
}

/// A picked folder as the library names it: `~` is the top level.
pub open spec fn picked_folder(folder: Seq<char>) -> Seq<char> {
    if folder == top_level() {
        Seq::empty()
    } else {
        folder
    }
}

/// The message when a dialog that needs text has none.
pub open spec fn no_input_message() -> Seq<char> {
    "modal input is unavailable"@
}

/// The message for a new snippet with an empty title.
pub open spec fn empty_title_message() -> Seq<char> {
    "snippet title cannot be empty"@
}

/// Whether a dialog with this action reads the text it was confirmed with.
pub open spec fn reads_input(action: ModalAction) -> bool {
    !(action is DeleteSnippet || action is ForceEdit || action is DeleteFolder || action is DeleteTag
        || action is PurgeSnippet)
}

/// What confirming a dialog with `action` and text `value` comes to. The
/// text is trimmed first. `folders` are the library's folders, `preferred`
/// the folder a new snippet goes to by default (the list's folder filter,
/// else the configured default), and `language` the default language.
pub open spec fn modal_step_spec(
    action: ModalAction,
    value: Option<Seq<char>>,
    folders: Seq<Seq<char>>,
    preferred: Option<Seq<char>>,
    language: Seq<char>,
) -> Result<ModalStepView, (ErrorKind, Seq<char>)> {
    if reads_input(action) && value is None {
        Err((ErrorKind::Usage, no_input_message()))
    } else {
        let input = trim(value->0);
        match action {
            ModalAction::RenameSnippet { id } => Ok(ModalStepView::Rename { id, title: input }),
            ModalAction::MoveSnippet { id } => Ok(ModalStepView::Move { id, folder: picked_folder(input) }),
            ModalAction::EditTags { id } => Ok(ModalStepView::Retag { id, tags: tag_list(input) }),
            ModalAction::DeleteSnippet { id } => Ok(ModalStepView::Trash { id }),
            ModalAction::ForceEdit => Ok(ModalStepView::ForceSave),
            ModalAction::CreateTitle => if input.len() == 0 {
                Err((ErrorKind::Usage, empty_title_message()))
            } else {
                let items = seq![top_level()] + folders;
                let wanted = match preferred {
                    Some(p) => p,
                    None => top_level(),
                };
                Ok(
                    ModalStepView::PickFolder {
                        title: input,
                        folders: items,
                        selected: match position_of(items, wanted) {
                            Some(i) => i,
                            None => 0,
                        },
                    },
                )
            },
            ModalAction::CreateFolder { title } => Ok(
                ModalStepView::AskLanguage { title: title@, folder: picked_folder(input), language },
            ),
            ModalAction::CreateLanguage { title, folder } => Ok(
                ModalStepView::Create {
                    title: title@,
                    folder: if folder@.len() == 0 {
                        None
                    } else {
                        Some(folder@)
                    },
                    language: input,
                },
            ),
            ModalAction::CreateFolderUnder { .. } => Ok(ModalStepView::CreateFolder { path: input }),
            ModalAction::RenameFolder { path } => Ok(ModalStepView::RenameFolder { from: path@, to: input }),
            ModalAction::DeleteFolder { path } => Ok(ModalStepView::DeleteFolder { path: path@ }),
            ModalAction::RenameTag { tag } => Ok(ModalStepView::RenameTag { tag: tag@, name: input }),
            ModalAction::DeleteTag { tag } => Ok(ModalStepView::DeleteTag { tag: tag@ }),
            ModalAction::PurgeSnippet { entry_id } => Ok(ModalStepView::Purge { entry_id: entry_id@ }),
        }
    }
}

/// The status line once `step` has been carried out; `count` is the number
/// of snippets a tag change touched. Steps that open another dialog or
/// hand the work on show nothing.
pub open spec fn step_status_spec(step: ModalStepView, count: nat) -> Seq<char> {
    match step {
        ModalStepView::Rename { .. } => "snippet renamed"@,
        ModalStepView::Move { .. } => "snippet moved"@,
        ModalStepView::Retag { .. } => "tags updated"@,
        ModalStepView::Trash { .. } => "snippet moved to trash"@,
        ModalStepView::ForceSave => Seq::empty(),
        ModalStepView::PickFolder { .. } => Seq::empty(),
        ModalStepView::AskLanguage { .. } => Seq::empty(),
        ModalStepView::Create { .. } => "snippet created"@,
        ModalStepView::CreateFolder { .. } => "folder created"@,
        ModalStepView::RenameFolder { .. } => "folder renamed"@,
        ModalStepView::DeleteFolder { .. } => "folder deleted"@,
        ModalStepView::RenameTag { .. } => "tag renamed in "@ + decimal(count) + " snippets"@,
        ModalStepView::DeleteTag { .. } => "tag removed from "@ + decimal(count) + " snippets"@,
        ModalStepView::Purge { .. } => "trash entry permanently deleted"@,
    }
}

// ---------------------------------------------------------------------------
// Implementation
// ---------------------------------------------------------------------------

/// Strings made from the characters of `s`, as a list of tags.
pub fn split_tags(s: &str) -> (tags: Vec<String>)
    ensures
        strings_view(tags@) == tag_list(s@),
{
    let v = chars_of(s);
    let mut tags: Vec<String> = Vec::new();
    let mut piece: Vec<char> = Vec::new();
    let mut i: usize = 0;
    proof {
        assert(v@.take(0) =~= Seq::<char>::empty());
    }
    while i < v.len()
        invariant
            i <= v.len(),
            v@ == s@,
            comma_pieces(v@.take(i as int)).len() > 0,
            piece@ == comma_pieces(v@.take(i as int)).last(),
            strings_view(tags@) == kept_tags(comma_pieces(v@.take(i as int)).drop_last()),
        decreases v.len() - i,
    {
        let c = v[i];
        let ghost before = v@.take(i as int);
        let ghost after = v@.take(i + 1);
        proof {
            assert(after.drop_last() =~= before);
            assert(after.last() == c);
        }
        if c == ',' {
            let text = string_of(piece.as_slice());
            let t = trim_string(text.as_str());
            let n = t.as_str().unicode_len();
            let ghost old_tags = strings_view(tags@);
            if n > 0 {
                tags.push(t);
                proof {
                    assert(strings_view(tags@) =~= old_tags.push(trim(piece@)));
                }
            }
            proof {
                let p = comma_pieces(before);
                assert(comma_pieces(after) == p.push(Seq::empty()));
                assert(comma_pieces(after).drop_last() =~= p);
                assert(p =~= p.drop_last().push(p.last()));
            }
            piece = Vec::new();
        } else {
            piece.push(c);
            proof {
                let p = comma_pieces(before);
                let q = comma_pieces(after);
                assert(q == p.update(p.len() - 1, p.last().push(c)));
                assert(q.drop_last() =~= p.drop_last());
            }
        }
        i += 1;
    }
    proof {
        assert(v@.take(v.len() as int) =~= v@);
    }
    let text = string_of(piece.as_slice());
    let t = trim_string(text.as_str());
    let n = t.as_str().unicode_len();
    let ghost old_tags = strings_view(tags@);
    let ghost p = comma_pieces(v@);
    proof {
        assert(p =~= p.drop_last().push(p.last()));
        assert(p.drop_last().push(p.last()).drop_last() =~= p.drop_last());
    }
    if n > 0 {
        tags.push(t);
        proof {
            assert(strings_view(tags@) =~= old_tags.push(trim(piece@)));
        }
    }
    tags
}

/// The first position in `items` that holds `item`.
fn find_position(items: &Vec<String>, item: &str) -> (r: Option<usize>)
    ensures
        match position_of(strings_view(items@), item@) {
            Some(i) => r matches Some(k) && k == i,
            None => r is None,
        },
{
    let wanted = chars_of(item);
    let mut i: usize = 0;
    proof {
        assert(strings_view(items@).skip(0) =~= strings_view(items@));
    }
    while i < items.len()
        invariant
            i <= items.len(),
            wanted@ == item@,
            position_of(strings_view(items@), item@) == (match position_of(strings_view(items@).skip(i as int), item@) {
                Some(k) => Some((k + i) as nat),
                None => None::<nat>,
            }),
        decreases items.len() - i,
    {
        let here = chars_of(items[i].as_str());
        let ghost rest = strings_view(items@).skip(i as int);
        proof {
            assert(rest[0] == items@[i as int]@);
            assert(rest.drop_first() =~= strings_view(items@).skip(i + 1));
        }
        if crate::text::eq_chars(here.as_slice(), wanted.as_slice()) {
            return Some(i);
        }
        i += 1;
    }
    proof {
        assert(strings_view(items@).skip(i as int).len() == 0);
    }
    None
}

/// A picked folder as the library names it: `~` is the top level.
fn library_folder(folder: &str) -> (r: String)
    ensures
        r@ == picked_folder(folder@),
{
    let v = chars_of(folder);
    if v.len() == 1 && v[0] == '~' {
        proof {
            assert(v@ =~= top_level());
        }
        String::new()
    } else {
        proof {
            if folder@ == top_level() {
                assert(v@[0] == '~');
            }
        }
        copy_string(folder)
    }
}

/// Decides what confirming a dialog with `action` and text `value` does,
/// as `modal_step_spec` says: the change to make, the next dialog, or why
/// the text is refused.
pub fn modal_step(
    action: &ModalAction,
    value: Option<&str>,
    folders: &Vec<String>,
    preferred: Option<&str>,
    language: &str,
) -> (r: Result<ModalStep, SnipError>)
    ensures
        match modal_step_spec(
            *action,
            match value {
                Some(v) => Some(v@),
                None => None,
            },
            strings_view(folders@),
            match preferred {
                Some(p) => Some(p@),
                None => None,
            },
            language@,
        ) {
            Ok(step) => r matches Ok(s) && s@ == step,
            Err(e) => r matches Err(err) && err@ == e,
        },
{
    let needs = match action {
        ModalAction::DeleteSnippet { .. } | ModalAction::ForceEdit | ModalAction::DeleteFolder { .. }
        | ModalAction::DeleteTag { .. } | ModalAction::PurgeSnippet { .. } => false,
        _ => true,
    };
    let input = match value {
        Some(v) => trim_string(v),
        None => {
            if needs {
                return Err(SnipError::new(ErrorKind::Usage, copy_string("modal input is unavailable")));
            }
            String::new()
        },
    };
    match action {
        ModalAction::RenameSnippet { id } => Ok(ModalStep::Rename { id: *id, title: input }),
        ModalAction::MoveSnippet { id } => Ok(ModalStep::Move { id: *id, folder: library_folder(input.as_str()) }),
        ModalAction::EditTags { id } => Ok(ModalStep::Retag { id: *id, tags: split_tags(input.as_str()) }),
        ModalAction::DeleteSnippet { id } => Ok(ModalStep::Trash { id: *id }),
        ModalAction::ForceEdit => Ok(ModalStep::ForceSave),
        ModalAction::CreateTitle => {
            if input.as_str().unicode_len() == 0 {
                return Err(SnipError::new(ErrorKind::Usage, copy_string("snippet title cannot be empty")));
            }
            let mut items: Vec<String> = Vec::new();
            items.push(copy_string("~"));
            let mut k: usize = 0;
            proof {
                reveal_strlit("~");
                assert(items@[0]@ == seq!['~']);
                assert(strings_view(items@) =~= seq![top_level()] + strings_view(folders@).take(0));
            }
            while k < folders.len()
                invariant
                    k <= folders.len(),
                    strings_view(items@) == seq![top_level()] + strings_view(folders@).take(k as int),
                decreases folders.len() - k,
            {
                let ghost before = strings_view(items@);
                items.push(copy_string(folders[k].as_str()));
                proof {
                    assert(strings_view(items@) =~= before.push(folders@[k as int]@));
                    assert(strings_view(items@) =~= seq![top_level()] + strings_view(folders@).take(k + 1));
                }
                k += 1;
            }
            proof {
                reveal_strlit("~");
                assert(strings_view(folders@).take(folders.len() as int) =~= strings_view(folders@));
            }
            let selected = match preferred {
                Some(p) => find_position(&items, p),
                None => find_position(&items, "~"),
            };
            let selected = match selected {
                Some(i) => i,
                None => 0,
            };
            Ok(ModalStep::PickFolder { title: input, folders: items, selected })
        },
        ModalAction::CreateFolder { title } => Ok(
            ModalStep::AskLanguage {
                title: copy_string(title.as_str()),
                folder: library_folder(input.as_str()),
                language: copy_string(language),
            },
        ),
        ModalAction::CreateLanguage { title, folder } => {
            let folder = if folder.as_str().unicode_len() == 0 {
                None
            } else {
                Some(copy_string(folder.as_str()))
            };
            Ok(ModalStep::Create { title: copy_string(title.as_str()), folder, language: input })
        },
        ModalAction::CreateFolderUnder { .. } => Ok(ModalStep::CreateFolder { path: input }),
        ModalAction::RenameFolder { path } => Ok(
            ModalStep::RenameFolder { from: copy_string(path.as_str()), to: input },
        ),
        ModalAction::DeleteFolder { path } => Ok(ModalStep::DeleteFolder { path: copy_string(path.as_str()) }),
        ModalAction::RenameTag { tag } => Ok(ModalStep::RenameTag { tag: copy_string(tag.as_str()), name: input }),
        ModalAction::DeleteTag { tag } => Ok(ModalStep::DeleteTag { tag: copy_string(tag.as_str()) }),
        ModalAction::PurgeSnippet { entry_id } => Ok(ModalStep::Purge { entry_id: copy_string(entry_id.as_str()) }),
    }
}

/// The status line once `step` has been carried out, as `step_status_spec`
/// says.
pub fn step_status(step: &ModalStep, count: u64) -> (s: String)
    ensures
        s@ == step_status_spec(step@, count as nat),
{
    match step {
        ModalStep::Rename { .. } => copy_string("snippet renamed"),
        ModalStep::Move { .. } => copy_string("snippet moved"),
        ModalStep::Retag { .. } => copy_string("tags updated"),
        ModalStep::Trash { .. } => copy_string("snippet moved to trash"),
        ModalStep::ForceSave | ModalStep::PickFolder { .. } | ModalStep::AskLanguage { .. } => String::new(),
        ModalStep::Create { .. } => copy_string("snippet created"),
        ModalStep::CreateFolder { .. } => copy_string("folder created"),
        ModalStep::RenameFolder { .. } => copy_string("folder renamed"),
        ModalStep::DeleteFolder { .. } => copy_string("folder deleted"),
        ModalStep::RenameTag { .. } => {
            let mut s = copy_string("tag renamed in ");
            push_str(&mut s, decimal_string(count).as_str());
            push_str(&mut s, " snippets");
            s
        },
        ModalStep::DeleteTag { .. } => {
            let mut s = copy_string("tag removed from ");
            push_str(&mut s, decimal_string(count).as_str());
            push_str(&mut s, " snippets");
            s
        },
        ModalStep::Purge { .. } => copy_string("trash entry permanently deleted"),
    }
}

// ---------------------------------------------------------------------------
// Keys in an open dialog
// ---------------------------------------------------------------------------

/// A key pressed while a dialog is open; `plain` says that neither Control
/// nor Alt was held with a character.
#[derive(Clone, Copy, Debug, PartialEq, Eq)]
pub enum KeyInput {
    Enter,
    Esc,
    Left,
    Right,
    Home,
    End,
    Backspace,
    Delete,
    Up,
    Down,
    Char { c: char, plain: bool },
    Other,
}

/// What a key does to the dialog as a whole.
#[derive(Clone, Copy, Debug, PartialEq, Eq)]
pub enum ModalOutcome {
    /// The dialog stays open.
    Stay,
    /// The dialog is confirmed.
    Submit,
    /// The dialog is dismissed.
    Cancel,
}

/// An open dialog: a text field with its cursor (counted in characters), a
/// yes/no question, or a picker with its filter text, its highlighted row
/// and whether it shows an error.
#[derive(Clone, Debug)]
pub enum ModalState {
    Input { value: Vec<char>, cursor: usize },
    Confirm,
    Picker { filter: Vec<char>, selected: usize, error: bool },
}

/// An open dialog, as a spec value.
pub enum ModalStateView {
    Input { value: Seq<char>, cursor: nat },
    Confirm,
    Picker { filter: Seq<char>, selected: nat, error: bool },
}

impl View for ModalState {
    type V = ModalStateView;

    open spec fn view(&self) -> ModalStateView {
        match self {
            ModalState::Input { value, cursor } => ModalStateView::Input { value: value@, cursor: *cursor as nat },
            ModalState::Confirm => ModalStateView::Confirm,
            ModalState::Picker { filter, selected, error } => ModalStateView::Picker {
                filter: filter@,
                selected: *selected as nat,
                error: *error,
            },
        }
    }
}

/// A text field's cursor stands within its text.
pub open spec fn modal_state_wf(state: ModalStateView) -> bool {
    state matches ModalStateView::Input { value, cursor } ==> cursor <= value.len()
}

/// The last row of a picker that shows `shown` rows (0 when it shows none).
pub open spec fn last_row(shown: nat) -> nat {
    if shown == 0 {
        0
    } else {
        (shown - 1) as nat
    }
}

/// What `key` does in a dialog in `state`; a picker shows `shown` rows for
/// its current filter. In a text field, characters typed without Control
/// or Alt go in at the cursor, Backspace removes the character before it
/// and Delete the one under it. A question answers to y, n, Enter and Esc.
/// In a picker, j and k move as Down and Up do, other characters extend the
/// filter and go back to the first row, and Backspace shortens the filter
/// (the caller then keeps the row within what the shorter filter shows).
pub open spec fn modal_key_spec(state: ModalStateView, key: KeyInput, shown: nat) -> (ModalStateView, ModalOutcome) {
    match key {
        KeyInput::Enter => (state, ModalOutcome::Submit),
        KeyInput::Esc => (state, ModalOutcome::Cancel),
        _ => match state {
            ModalStateView::Input { value, cursor } => {
                let next = match key {
                    KeyInput::Left => ModalStateView::Input { value, cursor: if cursor == 0 { 0 } else { (cursor - 1) as nat } },
                    KeyInput::Right => ModalStateView::Input {
                        value,
                        cursor: if cursor + 1 <= value.len() { cursor + 1 } else { value.len() },
                    },
                    KeyInput::Home => ModalStateView::Input { value, cursor: 0 },
                    KeyInput::End => ModalStateView::Input { value, cursor: value.len() },
                    KeyInput::Backspace => if cursor > 0 {
                        ModalStateView::Input { value: value.remove(cursor - 1), cursor: (cursor - 1) as nat }
                    } else {
                        state
                    },
                    KeyInput::Delete => if cursor < value.len() {
                        ModalStateView::Input { value: value.remove(cursor as int), cursor }
                    } else {
                        state
                    },
                    KeyInput::Char { c, plain } => if plain {
                        ModalStateView::Input { value: value.insert(cursor as int, c), cursor: cursor + 1 }
                    } else {
                        state
                    },
                    _ => state,
                };
                (next, ModalOutcome::Stay)
            },
            ModalStateView::Confirm => match key {
                KeyInput::Char { c, .. } => if c == 'y' || c == 'Y' {
                    (state, ModalOutcome::Submit)
                } else if c == 'n' || c == 'N' {
                    (state, ModalOutcome::Cancel)
                } else {
                    (state, ModalOutcome::Stay)
                },
                _ => (state, ModalOutcome::Stay),
            },
            ModalStateView::Picker { filter, selected, error } => {
                let down = key == KeyInput::Down || key == (KeyInput::Char { c: 'j', plain: true }) || key == (
                KeyInput::Char { c: 'j', plain: false });
                let up = key == KeyInput::Up || key == (KeyInput::Char { c: 'k', plain: true }) || key == (
                KeyInput::Char { c: 'k', plain: false });
                let next = if down {
                    ModalStateView::Picker {
                        filter,
                        selected: if selected + 1 <= last_row(shown) { selected + 1 } else { last_row(shown) },
                        error,
                    }
                } else if up {
                    ModalStateView::Picker { filter, selected: if selected == 0 { 0 } else { (selected - 1) as nat }, error }
                } else {
                    match key {
                        KeyInput::Home => ModalStateView::Picker { filter, selected: 0, error },
                        KeyInput::End => ModalStateView::Picker { filter, selected: last_row(shown), error },
                        KeyInput::Backspace => ModalStateView::Picker {
                            filter: if filter.len() > 0 { filter.drop_last() } else { filter },
                            selected,
                            error: false,
                        },
                        KeyInput::Char { c, plain } => if plain {
                            ModalStateView::Picker { filter: filter.push(c), selected: 0, error: false }
                        } else {
                            state
                        },
                        _ => state,
                    }
                };
                (next, ModalOutcome::Stay)
            },
        },
    }
}

/// What `key` does in the open dialog `state`, as `modal_key_spec` says;
/// the cursor of a text field stays within its text.
pub fn modal_key(state: &ModalState, key: KeyInput, shown: usize) -> (r: (ModalState, ModalOutcome))
    requires
        modal_state_wf(state@),
    ensures
        (r.0@, r.1) == modal_key_spec(state@, key, shown as nat),
        modal_state_wf(r.0@),
{
    match key {
        KeyInput::Enter => return (state.clone_state(), ModalOutcome::Submit),
        KeyInput::Esc => return (state.clone_state(), ModalOutcome::Cancel),
        _ => {},
    }
    match state {
        ModalState::Input { value, cursor } => {
            let mut value = value.clone();
            let mut cursor = *cursor;
            match key {
                KeyInput::Left => {
                    if cursor > 0 {
                        cursor = cursor - 1;
                    }
                },
                KeyInput::Right => {
                    if cursor < value.len() {
                        cursor = cursor + 1;
                    }
                },
                KeyInput::Home => cursor = 0,
                KeyInput::End => cursor = value.len(),
                KeyInput::Backspace => {
                    if cursor > 0 {
                        value.remove(cursor - 1);
                        cursor = cursor - 1;
                    }
                },
                KeyInput::Delete => {
                    if cursor < value.len() {
                        value.remove(cursor);
                    }
                },
                KeyInput::Char { c, plain } => {
                    if plain {
                        value.insert(cursor, c);
                        let n = value.len();
                        assert(cursor < n);
                        cursor = cursor + 1;
                    }
                },
                _ => {},
            }
            (ModalState::Input { value, cursor }, ModalOutcome::Stay)
        },
        ModalState::Confirm => {
            let outcome = match key {
                KeyInput::Char { c, .. } => {
                    if c == 'y' || c == 'Y' {
                        ModalOutcome::Submit
                    } else if c == 'n' || c == 'N' {
                        ModalOutcome::Cancel
                    } else {
                        ModalOutcome::Stay
                    }
                },
                _ => ModalOutcome::Stay,
            };
            (ModalState::Confirm, outcome)
        },
        ModalState::Picker { filter, selected, error } => {
            let mut filter = filter.clone();
            let mut selected = *selected;
            let mut error = *error;
            let last = if shown == 0 {
                0
            } else {
                shown - 1
            };
            let down = match key {
                KeyInput::Down => true,
                KeyInput::Char { c, .. } => c == 'j',
                _ => false,
            };
            let up = match key {
                KeyInput::Up => true,
                KeyInput::Char { c, .. } => c == 'k',
                _ => false,
            };
            if down {
                selected = if selected < last {
                    selected + 1
                } else {
                    last
                };
            } else if up {
                if selected > 0 {
                    selected = selected - 1;
                }
            } else {
                match key {
                    KeyInput::Home => selected = 0,
                    KeyInput::End => selected = last,
                    KeyInput::Backspace => {
                        if filter.len() > 0 {
                            filter.pop();
                        }
                        error = false;
                    },
                    KeyInput::Char { c, plain } => {
                        if plain {
                            filter.push(c);
                            selected = 0;
                            error = false;
                        }
                    },
                    _ => {},
                }
            }
            (ModalState::Picker { filter, selected, error }, ModalOutcome::Stay)
        },
    }
}

impl ModalState {
    /// A copy of the dialog.
    pub fn clone_state(&self) -> (r: ModalState)
        ensures
            r@ == self@,
    {
        match self {
            ModalState::Input { value, cursor } => ModalState::Input { value: value.clone(), cursor: *cursor },
            ModalState::Confirm => ModalState::Confirm,
            ModalState::Picker { filter, selected, error } => ModalState::Picker {
                filter: filter.clone(),
                selected: *selected,
                error: *error,
            },
        }
    }
}

/// The status line when a dialog with `action` is dismissed: dismissing
/// the question about a newer version throws the edit away, and says so.
pub open spec fn cancel_status_spec(action: ModalAction) -> Seq<char> {
    if action is ForceEdit {
        "edited content discarded"@
    } else {
        Seq::empty()
    }
}

/// The status line when a dialog with `action` is dismissed, as
/// `cancel_status_spec` says.
pub fn cancel_status(action: &ModalAction) -> (s: String)
    ensures
        s@ == cancel_status_spec(*action),
{
    match action {
        ModalAction::ForceEdit => copy_string("edited content discarded"),
        _ => String::new(),
    }
}

/// The message a picker shows when Enter finds no row to pick.
pub open spec fn no_match_message() -> Seq<char> {
    "no matching item"@
}

/// The text a confirmed dialog hands on: a text field's text, nothing for a
/// question, and the picked row's value for a picker (`picked`, none when
/// the filter hides every row, which keeps the picker open with an error).
pub open spec fn submitted_value_spec(state: ModalStateView, picked: Option<Seq<char>>) -> Result<
    Option<Seq<char>>,
    Seq<char>,
> {
    match state {
        ModalStateView::Input { value, .. } => Ok(Some(value)),
        ModalStateView::Confirm => Ok(None),
        ModalStateView::Picker { .. } => match picked {
            Some(v) => Ok(Some(v)),
            None => Err(no_match_message()),
        },
    }
}

/// The text a confirmed dialog hands on, or the error the picker shows, as
/// `submitted_value_spec` says.
pub fn submitted_value(state: &ModalState, picked: Option<&str>) -> (r: Result<Option<String>, String>)
    ensures
        match submitted_value_spec(
            state@,
            match picked {
                Some(p) => Some(p@),
                None => None,
            },
        ) {
            Ok(Some(v)) => r matches Ok(Some(s)) && s@ == v,
            Ok(None) => r matches Ok(None),
            Err(m) => r matches Err(e) && e@ == m,
        },
{
    match state {
        ModalState::Input { value, .. } => Ok(Some(string_of(value.as_slice()))),
        ModalState::Confirm => Ok(None),
        ModalState::Picker { .. } => match picked {
            Some(p) => Ok(Some(copy_string(p))),
            None => Err(copy_string("no matching item")),
        },
    }
}

/// Keeps a picker's highlighted row among the `shown` rows its filter
/// shows.
pub fn clamp_selected(selected: usize, shown: usize) -> (r: usize)
    ensures
        r == (if selected <= last_row(shown as nat) { selected as nat } else { last_row(shown as nat) }),
{
    let last = if shown == 0 {
        0
    } else {
        shown - 1
    };
    if selected <= last {
        selected
    } else {
        last
    }
}

/// Every key keeps the cursor of a text field within its text.
pub proof fn law_keys_keep_the_cursor_in_the_text(state: ModalStateView, key: KeyInput, shown: nat)
    requires
        modal_state_wf(state),
    ensures
        modal_state_wf(modal_key_spec(state, key, shown).0),
{
}

/// Enter confirms and Esc dismisses any dialog, and neither changes it.
pub proof fn law_enter_submits_and_esc_cancels(state: ModalStateView, shown: nat)
    ensures
        modal_key_spec(state, KeyInput::Enter, shown) == (state, ModalOutcome::Submit),
        modal_key_spec(state, KeyInput::Esc, shown) == (state, ModalOutcome::Cancel),
{
}

} // verus!
