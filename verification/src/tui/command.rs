//! The command registry: every action the interface can run, under a stable
//! slug that key bindings, the palette and saved state refer to.
use vstd::prelude::*;

use crate::paths::{file_stem, path_stem};
use crate::text::{chars_of, copy_string, eq_chars, push_str};

verus! {

/// Every command the interface can run.
#[derive(Clone, Copy, Debug, PartialEq, Eq, Hash, Structural)]
pub enum CommandId {
    PaletteOpen,
    NavDown,
    NavUp,
    NavFirst,
    NavLast,
    NavPageDown,
    NavPageUp,
    PaneNext,
    PanePrevious,
    PaneBack,
    PaneForward,
    SidebarActivate,
    SidebarToggleFolder,
    SidebarRename,
    SidebarDelete,
    ListEnterPreview,
    PreviewPreviousItem,
    PreviewNextItem,
    PreviewPreviousParagraph,
    PreviewNextParagraph,
    PreviewExpandFragments,
    PreviewCollapseFragments,
    GrabDrop,
    UiDismiss,
    SnippetNew,
    SnippetEditContent,
    SnippetEditNote,
    SnippetEditReadme,
    SnippetOpenGui,
    SnippetRename,
    SnippetMove,
    SnippetEditTags,
    SnippetEditLanguage,
    SnippetTogglePin,
    SnippetToggleLock,
    SnippetMoveToTrash,
    FragmentAdd,
    FragmentRename,
    FragmentReorder,
    FragmentRemove,
    CopyContent,
    CopySnippetId,
    CopyManagedPath,
    FolderNew,
    FolderRename,
    FolderMove,
    FolderDelete,
    TagRename,
    TagDelete,
    ViewCycleSort,
    ViewSortModified,
    ViewSortTitle,
    ViewSortCreated,
    ViewToggleLineNumbers,
    ViewToggleSimplifiedUi,
    ViewToggleFragmentList,
    ViewToggleDensity,
    ViewToggleSidebar,
    ViewCycleAppearance,
    ViewClearAppearanceOverride,
    ViewPickTheme,
    ViewToggleHelp,
    HelpFilter,
    HelpToggleScope,
    HelpCycleSort,
    LibrarySearch,
    LibraryRescan,
    LibraryToggleTrash,
    LibraryClearFilter,
    LibraryTogglePublishedFilter,
    GitToggleConsole,
    GitBackup,
    GitCommit,
    GitCommitWithMessage,
    GitPush,
    GitFetchRemoteStatus,
    GitPull,
    GitToggleAutoPull,
    GitRefreshLocalStatus,
    GitInitRepository,
    GitInitOrSetInterval,
    GitToggleAutoPush,
    GitToggleBackupOnQuit,
    GitPauseAutoBackup,
    GitSetAutoCommitInterval,
    GistTogglePanel,
    GistPush,
    GistPushPublic,
    GistCopyUrl,
    GistOpenInBrowser,
    GistAttach,
    GistDetach,
    GistDelete,
    GistVerifyRemote,
    TrashRestoreSelected,
    TrashPurgeSelected,
    AppQuit,
}

/// Whether a command can run now: enabled, disabled with the reason shown,
/// or not offered at all.
#[derive(Clone, Copy, Debug, PartialEq, Eq)]
pub enum CommandState {
    Enabled,
    Disabled(&'static str),
    Hidden,
}

/// A registered command.
#[derive(Clone, Copy, Debug)]
pub struct Command {
    pub id: CommandId,
    pub slug: &'static str,
    pub category: &'static str,
    pub title: &'static str,
    pub description: &'static str,
    pub keywords: &'static [&'static str],
    /// Whether the command palette lists it.
    pub palette: bool,
}

/// Every command, in registry order.
pub open spec fn all_commands() -> Seq<CommandId> {
    seq![
        CommandId::PaletteOpen,
        CommandId::NavDown,
        CommandId::NavUp,
        CommandId::NavFirst,
        CommandId::NavLast,
        CommandId::NavPageDown,
        CommandId::NavPageUp,
        CommandId::PaneNext,
        CommandId::PanePrevious,
        CommandId::PaneBack,
        CommandId::PaneForward,
        CommandId::SidebarActivate,
        CommandId::SidebarToggleFolder,
        CommandId::SidebarRename,
        CommandId::SidebarDelete,
        CommandId::ListEnterPreview,
        CommandId::PreviewPreviousItem,
        CommandId::PreviewNextItem,
        CommandId::PreviewPreviousParagraph,
        CommandId::PreviewNextParagraph,
        CommandId::PreviewExpandFragments,
        CommandId::PreviewCollapseFragments,
        CommandId::GrabDrop,
        CommandId::UiDismiss,
        CommandId::SnippetNew,
        CommandId::SnippetEditContent,
        CommandId::SnippetEditNote,
        CommandId::SnippetEditReadme,
        CommandId::SnippetOpenGui,
        CommandId::SnippetRename,
        CommandId::SnippetMove,
        CommandId::SnippetEditTags,
        CommandId::SnippetEditLanguage,
        CommandId::SnippetTogglePin,
        CommandId::SnippetToggleLock,
        CommandId::SnippetMoveToTrash,
        CommandId::FragmentAdd,
        CommandId::FragmentRename,
        CommandId::FragmentReorder,
        CommandId::FragmentRemove,
        CommandId::CopyContent,
        CommandId::CopySnippetId,
        CommandId::CopyManagedPath,
        CommandId::FolderNew,
        CommandId::FolderRename,
        CommandId::FolderMove,
        CommandId::FolderDelete,
        CommandId::TagRename,
        CommandId::TagDelete,
        CommandId::ViewCycleSort,
        CommandId::ViewSortModified,
        CommandId::ViewSortTitle,
        CommandId::ViewSortCreated,
        CommandId::ViewToggleLineNumbers,
        CommandId::ViewToggleSimplifiedUi,
        CommandId::ViewToggleFragmentList,
        CommandId::ViewToggleDensity,
        CommandId::ViewToggleSidebar,
        CommandId::ViewCycleAppearance,
        CommandId::ViewClearAppearanceOverride,
        CommandId::ViewPickTheme,
        CommandId::ViewToggleHelp,
        CommandId::HelpFilter,
        CommandId::HelpToggleScope,
        CommandId::HelpCycleSort,
        CommandId::LibrarySearch,
        CommandId::LibraryRescan,
        CommandId::LibraryToggleTrash,
        CommandId::LibraryClearFilter,
        CommandId::LibraryTogglePublishedFilter,
        CommandId::GitToggleConsole,
        CommandId::GitBackup,
        CommandId::GitCommit,
        CommandId::GitCommitWithMessage,
        CommandId::GitPush,
        CommandId::GitFetchRemoteStatus,
        CommandId::GitPull,
        CommandId::GitToggleAutoPull,
        CommandId::GitRefreshLocalStatus,
        CommandId::GitInitRepository,
        CommandId::GitInitOrSetInterval,
        CommandId::GitToggleAutoPush,
        CommandId::GitToggleBackupOnQuit,
        CommandId::GitPauseAutoBackup,
        CommandId::GitSetAutoCommitInterval,
        CommandId::GistTogglePanel,
        CommandId::GistPush,
        CommandId::GistPushPublic,
        CommandId::GistCopyUrl,
        CommandId::GistOpenInBrowser,
        CommandId::GistAttach,
        CommandId::GistDetach,
        CommandId::GistDelete,
        CommandId::GistVerifyRemote,
        CommandId::TrashRestoreSelected,
        CommandId::TrashPurgeSelected,
        CommandId::AppQuit,
    ]
}

/// A command's slug.
pub open spec fn slug_of(id: CommandId) -> Seq<char> {
    match id {
        CommandId::PaletteOpen => "palette.open"@,
        CommandId::NavDown => "nav.down"@,
        CommandId::NavUp => "nav.up"@,
        CommandId::NavFirst => "nav.first"@,
        CommandId::NavLast => "nav.last"@,
        CommandId::NavPageDown => "nav.page-down"@,
        CommandId::NavPageUp => "nav.page-up"@,
        CommandId::PaneNext => "pane.next"@,
        CommandId::PanePrevious => "pane.previous"@,
        CommandId::PaneBack => "pane.back"@,
        CommandId::PaneForward => "pane.forward"@,
        CommandId::SidebarActivate => "sidebar.activate"@,
        CommandId::SidebarToggleFolder => "sidebar.toggle-folder"@,
        CommandId::SidebarRename => "sidebar.rename"@,
        CommandId::SidebarDelete => "sidebar.delete"@,
        CommandId::ListEnterPreview => "list.enter-preview"@,
        CommandId::PreviewPreviousItem => "preview.previous-item"@,
        CommandId::PreviewNextItem => "preview.next-item"@,
        CommandId::PreviewPreviousParagraph => "preview.previous-paragraph"@,
        CommandId::PreviewNextParagraph => "preview.next-paragraph"@,
        CommandId::PreviewExpandFragments => "preview.expand-fragments"@,
        CommandId::PreviewCollapseFragments => "preview.collapse-fragments"@,
        CommandId::GrabDrop => "grab.drop"@,
        CommandId::UiDismiss => "ui.dismiss"@,
        CommandId::SnippetNew => "snippet.new"@,
        CommandId::SnippetEditContent => "snippet.edit-content"@,
        CommandId::SnippetEditNote => "snippet.edit-note"@,
        CommandId::SnippetEditReadme => "snippet.edit-readme"@,
        CommandId::SnippetOpenGui => "snippet.open-gui"@,
        CommandId::SnippetRename => "snippet.rename"@,
        CommandId::SnippetMove => "snippet.move"@,
        CommandId::SnippetEditTags => "snippet.edit-tags"@,
        CommandId::SnippetEditLanguage => "snippet.edit-language"@,
        CommandId::SnippetTogglePin => "snippet.toggle-pin"@,
        CommandId::SnippetToggleLock => "snippet.toggle-lock"@,
        CommandId::SnippetMoveToTrash => "snippet.move-to-trash"@,
        CommandId::FragmentAdd => "fragment.add"@,
        CommandId::FragmentRename => "fragment.rename"@,
        CommandId::FragmentReorder => "fragment.reorder"@,
        CommandId::FragmentRemove => "fragment.remove"@,
        CommandId::CopyContent => "copy.content"@,
        CommandId::CopySnippetId => "copy.snippet-id"@,
        CommandId::CopyManagedPath => "copy.managed-path"@,
        CommandId::FolderNew => "folder.new"@,
        CommandId::FolderRename => "folder.rename"@,
        CommandId::FolderMove => "folder.move"@,
        CommandId::FolderDelete => "folder.delete"@,
        CommandId::TagRename => "tag.rename"@,
        CommandId::TagDelete => "tag.delete"@,
        CommandId::ViewCycleSort => "view.cycle-sort"@,
        CommandId::ViewSortModified => "view.sort-modified"@,
        CommandId::ViewSortTitle => "view.sort-title"@,
        CommandId::ViewSortCreated => "view.sort-created"@,
        CommandId::ViewToggleLineNumbers => "view.toggle-line-numbers"@,
        CommandId::ViewToggleSimplifiedUi => "view.toggle-simplified-ui"@,
        CommandId::ViewToggleFragmentList => "view.toggle-fragment-list"@,
        CommandId::ViewToggleDensity => "view.toggle-density"@,
        CommandId::ViewToggleSidebar => "view.toggle-sidebar"@,
        CommandId::ViewCycleAppearance => "view.cycle-appearance"@,
        CommandId::ViewClearAppearanceOverride => "view.clear-appearance-override"@,
        CommandId::ViewPickTheme => "view.pick-theme"@,
        CommandId::ViewToggleHelp => "view.toggle-help"@,
        CommandId::HelpFilter => "help.filter"@,
        CommandId::HelpToggleScope => "help.toggle-scope"@,
        CommandId::HelpCycleSort => "help.cycle-sort"@,
        CommandId::LibrarySearch => "library.search"@,
        CommandId::LibraryRescan => "library.rescan"@,
        CommandId::LibraryToggleTrash => "library.toggle-trash"@,
        CommandId::LibraryClearFilter => "library.clear-filter"@,
        CommandId::LibraryTogglePublishedFilter => "library.toggle-published"@,
        CommandId::GitToggleConsole => "git.toggle-console"@,
        CommandId::GitBackup => "git.backup"@,
        CommandId::GitCommit => "git.commit"@,
        CommandId::GitCommitWithMessage => "git.commit-message"@,
        CommandId::GitPush => "git.push"@,
        CommandId::GitFetchRemoteStatus => "git.fetch"@,
        CommandId::GitPull => "git.pull"@,
        CommandId::GitToggleAutoPull => "git.toggle-auto-pull"@,
        CommandId::GitRefreshLocalStatus => "git.refresh"@,
        CommandId::GitInitRepository => "git.init"@,
        CommandId::GitInitOrSetInterval => "git.init-or-set-interval"@,
        CommandId::GitToggleAutoPush => "git.toggle-auto-push"@,
        CommandId::GitToggleBackupOnQuit => "git.toggle-backup-on-quit"@,
        CommandId::GitPauseAutoBackup => "git.pause-auto-backup"@,
        CommandId::GitSetAutoCommitInterval => "git.set-auto-commit-interval"@,
        CommandId::GistTogglePanel => "gist.toggle-panel"@,
        CommandId::GistPush => "gist.push"@,
        CommandId::GistPushPublic => "gist.push-public"@,
        CommandId::GistCopyUrl => "gist.copy-url"@,
        CommandId::GistOpenInBrowser => "gist.open-browser"@,
        CommandId::GistAttach => "gist.attach"@,
        CommandId::GistDetach => "gist.detach"@,
        CommandId::GistDelete => "gist.delete"@,
        CommandId::GistVerifyRemote => "gist.verify"@,
        CommandId::TrashRestoreSelected => "trash.restore-selected"@,
        CommandId::TrashPurgeSelected => "trash.purge-selected"@,
        CommandId::AppQuit => "app.quit"@,
    }
}

/// A command's category.
pub open spec fn category_of(id: CommandId) -> Seq<char> {
    match id {
        CommandId::PaletteOpen => "UI"@,
        CommandId::NavDown => "Navigation"@,
        CommandId::NavUp => "Navigation"@,
        CommandId::NavFirst => "Navigation"@,
        CommandId::NavLast => "Navigation"@,
        CommandId::NavPageDown => "Navigation"@,
        CommandId::NavPageUp => "Navigation"@,
        CommandId::PaneNext => "Pane"@,
        CommandId::PanePrevious => "Pane"@,
        CommandId::PaneBack => "Pane"@,
        CommandId::PaneForward => "Pane"@,
        CommandId::SidebarActivate => "Sidebar"@,
        CommandId::SidebarToggleFolder => "Sidebar"@,
        CommandId::SidebarRename => "Sidebar"@,
        CommandId::SidebarDelete => "Sidebar"@,
        CommandId::ListEnterPreview => "List"@,
        CommandId::PreviewPreviousItem => "Preview"@,
        CommandId::PreviewNextItem => "Preview"@,
        CommandId::PreviewPreviousParagraph => "Preview"@,
        CommandId::PreviewNextParagraph => "Preview"@,
        CommandId::PreviewExpandFragments => "Preview"@,
        CommandId::PreviewCollapseFragments => "Preview"@,
        CommandId::GrabDrop => "Fragment"@,
        CommandId::UiDismiss => "UI"@,
        CommandId::SnippetNew => "Snippet"@,
        CommandId::SnippetEditContent => "Snippet"@,
        CommandId::SnippetEditNote => "Snippet"@,
        CommandId::SnippetEditReadme => "Snippet"@,
        CommandId::SnippetOpenGui => "Snippet"@,
        CommandId::SnippetRename => "Snippet"@,
        CommandId::SnippetMove => "Snippet"@,
        CommandId::SnippetEditTags => "Snippet"@,
        CommandId::SnippetEditLanguage => "Snippet"@,
        CommandId::SnippetTogglePin => "Snippet"@,
        CommandId::SnippetToggleLock => "Snippet"@,
        CommandId::SnippetMoveToTrash => "Snippet"@,
        CommandId::FragmentAdd => "Fragment"@,
        CommandId::FragmentRename => "Fragment"@,
        CommandId::FragmentReorder => "Fragment"@,
        CommandId::FragmentRemove => "Fragment"@,
        CommandId::CopyContent => "Copy"@,
        CommandId::CopySnippetId => "Copy"@,
        CommandId::CopyManagedPath => "Copy"@,
        CommandId::FolderNew => "Folder"@,
        CommandId::FolderRename => "Folder"@,
        CommandId::FolderMove => "Folder"@,
        CommandId::FolderDelete => "Folder"@,
        CommandId::TagRename => "Tag"@,
        CommandId::TagDelete => "Tag"@,
        CommandId::ViewCycleSort => "View"@,
        CommandId::ViewSortModified => "View"@,
        CommandId::ViewSortTitle => "View"@,
        CommandId::ViewSortCreated => "View"@,
        CommandId::ViewToggleLineNumbers => "View"@,
        CommandId::ViewToggleSimplifiedUi => "View"@,
        CommandId::ViewToggleFragmentList => "View"@,
        CommandId::ViewToggleDensity => "View"@,
        CommandId::ViewToggleSidebar => "View"@,
        CommandId::ViewCycleAppearance => "View"@,
        CommandId::ViewClearAppearanceOverride => "View"@,
        CommandId::ViewPickTheme => "View"@,
        CommandId::ViewToggleHelp => "View"@,
        CommandId::HelpFilter => "Help"@,
        CommandId::HelpToggleScope => "Help"@,
        CommandId::HelpCycleSort => "Help"@,
        CommandId::LibrarySearch => "Library"@,
        CommandId::LibraryRescan => "Library"@,
        CommandId::LibraryToggleTrash => "Library"@,
        CommandId::LibraryClearFilter => "Library"@,
        CommandId::LibraryTogglePublishedFilter => "Library"@,
        CommandId::GitToggleConsole => "Git"@,
        CommandId::GitBackup => "Git"@,
        CommandId::GitCommit => "Git"@,
        CommandId::GitCommitWithMessage => "Git"@,
        CommandId::GitPush => "Git"@,
        CommandId::GitFetchRemoteStatus => "Git"@,
        CommandId::GitPull => "Git"@,
        CommandId::GitToggleAutoPull => "Git"@,
        CommandId::GitRefreshLocalStatus => "Git"@,
        CommandId::GitInitRepository => "Git"@,
        CommandId::GitInitOrSetInterval => "Git"@,
        CommandId::GitToggleAutoPush => "Git"@,
        CommandId::GitToggleBackupOnQuit => "Git"@,
        CommandId::GitPauseAutoBackup => "Git"@,
        CommandId::GitSetAutoCommitInterval => "Git"@,
        CommandId::GistTogglePanel => "Gist"@,
        CommandId::GistPush => "Gist"@,
        CommandId::GistPushPublic => "Gist"@,
        CommandId::GistCopyUrl => "Gist"@,
        CommandId::GistOpenInBrowser => "Gist"@,
        CommandId::GistAttach => "Gist"@,
        CommandId::GistDetach => "Gist"@,
        CommandId::GistDelete => "Gist"@,
        CommandId::GistVerifyRemote => "Gist"@,
        CommandId::TrashRestoreSelected => "Trash"@,
        CommandId::TrashPurgeSelected => "Trash"@,
        CommandId::AppQuit => "App"@,
    }
}

/// A command's title.
pub open spec fn title_of(id: CommandId) -> Seq<char> {
    match id {
        CommandId::PaletteOpen => "Open Palette"@,
        CommandId::NavDown => "Move Down"@,
        CommandId::NavUp => "Move Up"@,
        CommandId::NavFirst => "Move to First"@,
        CommandId::NavLast => "Move to Last"@,
        CommandId::NavPageDown => "Page Down"@,
        CommandId::NavPageUp => "Page Up"@,
        CommandId::PaneNext => "Next Pane"@,
        CommandId::PanePrevious => "Previous Pane"@,
        CommandId::PaneBack => "Go Back"@,
        CommandId::PaneForward => "Go Forward"@,
        CommandId::SidebarActivate => "Activate"@,
        CommandId::SidebarToggleFolder => "Toggle Folder"@,
        CommandId::SidebarRename => "Rename"@,
        CommandId::SidebarDelete => "Delete"@,
        CommandId::ListEnterPreview => "Enter Preview"@,
        CommandId::PreviewPreviousItem => "Previous Item"@,
        CommandId::PreviewNextItem => "Next Item"@,
        CommandId::PreviewPreviousParagraph => "Previous Paragraph"@,
        CommandId::PreviewNextParagraph => "Next Paragraph"@,
        CommandId::PreviewExpandFragments => "Expand Fragments"@,
        CommandId::PreviewCollapseFragments => "Collapse Fragments"@,
        CommandId::GrabDrop => "Drop Fragment"@,
        CommandId::UiDismiss => "Dismiss"@,
        CommandId::SnippetNew => "New Snippet"@,
        CommandId::SnippetEditContent => "Edit Content"@,
        CommandId::SnippetEditNote => "Edit Note"@,
        CommandId::SnippetEditReadme => "Edit README"@,
        CommandId::SnippetOpenGui => "Open in GUI Editor"@,
        CommandId::SnippetRename => "Rename"@,
        CommandId::SnippetMove => "Move"@,
        CommandId::SnippetEditTags => "Edit Tags"@,
        CommandId::SnippetEditLanguage => "Edit Language"@,
        CommandId::SnippetTogglePin => "Toggle Pin"@,
        CommandId::SnippetToggleLock => "Toggle Lock"@,
        CommandId::SnippetMoveToTrash => "Move to Trash"@,
        CommandId::FragmentAdd => "Add Fragment"@,
        CommandId::FragmentRename => "Rename Fragment"@,
        CommandId::FragmentReorder => "Move Fragment"@,
        CommandId::FragmentRemove => "Delete Fragment"@,
        CommandId::CopyContent => "Content"@,
        CommandId::CopySnippetId => "Snippet ID"@,
        CommandId::CopyManagedPath => "Managed Path"@,
        CommandId::FolderNew => "New Folder"@,
        CommandId::FolderRename => "Rename"@,
        CommandId::FolderMove => "Move"@,
        CommandId::FolderDelete => "Delete"@,
        CommandId::TagRename => "Rename"@,
        CommandId::TagDelete => "Delete"@,
        CommandId::ViewCycleSort => "Cycle Sort"@,
        CommandId::ViewSortModified => "Sort by Modified"@,
        CommandId::ViewSortTitle => "Sort by Title"@,
        CommandId::ViewSortCreated => "Sort by Created"@,
        CommandId::ViewToggleLineNumbers => "Toggle Line Numbers"@,
        CommandId::ViewToggleSimplifiedUi => "Toggle Simplified UI"@,
        CommandId::ViewToggleFragmentList => "Toggle Fragment List"@,
        CommandId::ViewToggleDensity => "Toggle Density"@,
        CommandId::ViewToggleSidebar => "Toggle Library Pane"@,
        CommandId::ViewCycleAppearance => "Toggle Light / Dark"@,
        CommandId::ViewClearAppearanceOverride => "Clear Appearance Override"@,
        CommandId::ViewPickTheme => "Change Color Theme"@,
        CommandId::ViewToggleHelp => "Toggle Help"@,
        CommandId::HelpFilter => "Filter Help"@,
        CommandId::HelpToggleScope => "Toggle Help Scope"@,
        CommandId::HelpCycleSort => "Cycle Help Sort"@,
        CommandId::LibrarySearch => "Search"@,
        CommandId::LibraryRescan => "Rescan"@,
        CommandId::LibraryToggleTrash => "Toggle Trash"@,
        CommandId::LibraryClearFilter => "Clear Filter"@,
        CommandId::LibraryTogglePublishedFilter => "Toggle Published Filter"@,
        CommandId::GitToggleConsole => "Toggle Console"@,
        CommandId::GitBackup => "Backup"@,
        CommandId::GitCommit => "Commit"@,
        CommandId::GitCommitWithMessage => "Commit with Message…"@,
        CommandId::GitPush => "Push to Remote"@,
        CommandId::GitFetchRemoteStatus => "Fetch Remote Status"@,
        CommandId::GitPull => "Pull From Remote"@,
        CommandId::GitToggleAutoPull => "Toggle Auto Pull"@,
        CommandId::GitRefreshLocalStatus => "Refresh Local Status"@,
        CommandId::GitInitRepository => "Init Repository"@,
        CommandId::GitInitOrSetInterval => "Init or Set Interval"@,
        CommandId::GitToggleAutoPush => "Toggle Auto Push"@,
        CommandId::GitToggleBackupOnQuit => "Toggle Backup on Quit"@,
        CommandId::GitPauseAutoBackup => "Pause Auto Backup"@,
        CommandId::GitSetAutoCommitInterval => "Set Auto Commit Interval…"@,
        CommandId::GistTogglePanel => "Toggle Panel"@,
        CommandId::GistPush => "Publish or Update"@,
        CommandId::GistPushPublic => "Publish as Public Gist"@,
        CommandId::GistCopyUrl => "Copy URL"@,
        CommandId::GistOpenInBrowser => "Open in Browser"@,
        CommandId::GistAttach => "Attach Existing Gist…"@,
        CommandId::GistDetach => "Detach Gist"@,
        CommandId::GistDelete => "Delete Gist…"@,
        CommandId::GistVerifyRemote => "Verify Remote"@,
        CommandId::TrashRestoreSelected => "Restore Selected"@,
        CommandId::TrashPurgeSelected => "Purge Selected"@,
        CommandId::AppQuit => "Quit"@,
    }
}

/// Whether the palette lists a command.
pub open spec fn palette_of(id: CommandId) -> bool {
    match id {
        CommandId::PaletteOpen => false,
        CommandId::NavDown => false,
        CommandId::NavUp => false,
        CommandId::NavFirst => false,
        CommandId::NavLast => false,
        CommandId::NavPageDown => false,
        CommandId::NavPageUp => false,
        CommandId::PaneNext => false,
        CommandId::PanePrevious => false,
        CommandId::PaneBack => false,
        CommandId::PaneForward => false,
        CommandId::SidebarActivate => false,
        CommandId::SidebarToggleFolder => false,
        CommandId::SidebarRename => false,
        CommandId::SidebarDelete => false,
        CommandId::ListEnterPreview => false,
        CommandId::PreviewPreviousItem => false,
        CommandId::PreviewNextItem => false,
        CommandId::PreviewPreviousParagraph => false,
        CommandId::PreviewNextParagraph => false,
        CommandId::PreviewExpandFragments => false,
        CommandId::PreviewCollapseFragments => false,
        CommandId::GrabDrop => false,
        CommandId::UiDismiss => false,
        CommandId::SnippetNew => true,
        CommandId::SnippetEditContent => true,
        CommandId::SnippetEditNote => true,
        CommandId::SnippetEditReadme => true,
        CommandId::SnippetOpenGui => true,
        CommandId::SnippetRename => true,
        CommandId::SnippetMove => true,
        CommandId::SnippetEditTags => true,
        CommandId::SnippetEditLanguage => true,
        CommandId::SnippetTogglePin => true,
        CommandId::SnippetToggleLock => true,
        CommandId::SnippetMoveToTrash => true,
        CommandId::FragmentAdd => true,
        CommandId::FragmentRename => true,
        CommandId::FragmentReorder => true,
        CommandId::FragmentRemove => true,
        CommandId::CopyContent => true,
        CommandId::CopySnippetId => true,
        CommandId::CopyManagedPath => true,
        CommandId::FolderNew => true,
        CommandId::FolderRename => true,
        CommandId::FolderMove => true,
        CommandId::FolderDelete => true,
        CommandId::TagRename => true,
        CommandId::TagDelete => true,
        CommandId::ViewCycleSort => true,
        CommandId::ViewSortModified => true,
        CommandId::ViewSortTitle => true,
        CommandId::ViewSortCreated => true,
        CommandId::ViewToggleLineNumbers => true,
        CommandId::ViewToggleSimplifiedUi => true,
        CommandId::ViewToggleFragmentList => true,
        CommandId::ViewToggleDensity => true,
        CommandId::ViewToggleSidebar => true,
        CommandId::ViewCycleAppearance => true,
        CommandId::ViewClearAppearanceOverride => true,
        CommandId::ViewPickTheme => true,
        CommandId::ViewToggleHelp => true,
        CommandId::HelpFilter => false,
        CommandId::HelpToggleScope => false,
        CommandId::HelpCycleSort => false,
        CommandId::LibrarySearch => true,
        CommandId::LibraryRescan => true,
        CommandId::LibraryToggleTrash => true,
        CommandId::LibraryClearFilter => true,
        CommandId::LibraryTogglePublishedFilter => true,
        CommandId::GitToggleConsole => true,
        CommandId::GitBackup => true,
        CommandId::GitCommit => true,
        CommandId::GitCommitWithMessage => true,
        CommandId::GitPush => true,
        CommandId::GitFetchRemoteStatus => true,
        CommandId::GitPull => true,
        CommandId::GitToggleAutoPull => true,
        CommandId::GitRefreshLocalStatus => true,
        CommandId::GitInitRepository => true,
        CommandId::GitInitOrSetInterval => false,
        CommandId::GitToggleAutoPush => true,
        CommandId::GitToggleBackupOnQuit => true,
        CommandId::GitPauseAutoBackup => true,
        CommandId::GitSetAutoCommitInterval => true,
        CommandId::GistTogglePanel => true,
        CommandId::GistPush => true,
        CommandId::GistPushPublic => true,
        CommandId::GistCopyUrl => true,
        CommandId::GistOpenInBrowser => true,
        CommandId::GistAttach => true,
        CommandId::GistDetach => true,
        CommandId::GistDelete => true,
        CommandId::GistVerifyRemote => true,
        CommandId::TrashRestoreSelected => true,
        CommandId::TrashPurgeSelected => true,
        CommandId::AppQuit => true,
    }
}

impl CommandId {
    /// Every command, in registry order.
    pub fn all() -> (v: Vec<CommandId>)
        ensures
            v@ == all_commands(),
    {
        let v = vec![
            CommandId::PaletteOpen,
            CommandId::NavDown,
            CommandId::NavUp,
            CommandId::NavFirst,
            CommandId::NavLast,
            CommandId::NavPageDown,
            CommandId::NavPageUp,
            CommandId::PaneNext,
            CommandId::PanePrevious,
            CommandId::PaneBack,
            CommandId::PaneForward,
            CommandId::SidebarActivate,
            CommandId::SidebarToggleFolder,
            CommandId::SidebarRename,
            CommandId::SidebarDelete,
            CommandId::ListEnterPreview,
            CommandId::PreviewPreviousItem,
            CommandId::PreviewNextItem,
            CommandId::PreviewPreviousParagraph,
            CommandId::PreviewNextParagraph,
            CommandId::PreviewExpandFragments,
            CommandId::PreviewCollapseFragments,
            CommandId::GrabDrop,
            CommandId::UiDismiss,
            CommandId::SnippetNew,
            CommandId::SnippetEditContent,
            CommandId::SnippetEditNote,
            CommandId::SnippetEditReadme,
            CommandId::SnippetOpenGui,
            CommandId::SnippetRename,
            CommandId::SnippetMove,
            CommandId::SnippetEditTags,
            CommandId::SnippetEditLanguage,
            CommandId::SnippetTogglePin,
            CommandId::SnippetToggleLock,
            CommandId::SnippetMoveToTrash,
            CommandId::FragmentAdd,
            CommandId::FragmentRename,
            CommandId::FragmentReorder,
            CommandId::FragmentRemove,
            CommandId::CopyContent,
            CommandId::CopySnippetId,
            CommandId::CopyManagedPath,
            CommandId::FolderNew,
            CommandId::FolderRename,
            CommandId::FolderMove,
            CommandId::FolderDelete,
            CommandId::TagRename,
            CommandId::TagDelete,
            CommandId::ViewCycleSort,
            CommandId::ViewSortModified,
            CommandId::ViewSortTitle,
            CommandId::ViewSortCreated,
            CommandId::ViewToggleLineNumbers,
            CommandId::ViewToggleSimplifiedUi,
            CommandId::ViewToggleFragmentList,
            CommandId::ViewToggleDensity,
            CommandId::ViewToggleSidebar,
            CommandId::ViewCycleAppearance,
            CommandId::ViewClearAppearanceOverride,
            CommandId::ViewPickTheme,
            CommandId::ViewToggleHelp,
            CommandId::HelpFilter,
            CommandId::HelpToggleScope,
            CommandId::HelpCycleSort,
            CommandId::LibrarySearch,
            CommandId::LibraryRescan,
            CommandId::LibraryToggleTrash,
            CommandId::LibraryClearFilter,
            CommandId::LibraryTogglePublishedFilter,
            CommandId::GitToggleConsole,
            CommandId::GitBackup,
            CommandId::GitCommit,
            CommandId::GitCommitWithMessage,
            CommandId::GitPush,
            CommandId::GitFetchRemoteStatus,
            CommandId::GitPull,
            CommandId::GitToggleAutoPull,
            CommandId::GitRefreshLocalStatus,
            CommandId::GitInitRepository,
            CommandId::GitInitOrSetInterval,
            CommandId::GitToggleAutoPush,
            CommandId::GitToggleBackupOnQuit,
            CommandId::GitPauseAutoBackup,
            CommandId::GitSetAutoCommitInterval,
            CommandId::GistTogglePanel,
            CommandId::GistPush,
            CommandId::GistPushPublic,
            CommandId::GistCopyUrl,
            CommandId::GistOpenInBrowser,
            CommandId::GistAttach,
            CommandId::GistDetach,
            CommandId::GistDelete,
            CommandId::GistVerifyRemote,
            CommandId::TrashRestoreSelected,
            CommandId::TrashPurgeSelected,
            CommandId::AppQuit,
        ];
        assert(v@ =~= all_commands());
        v
    }

    /// The command's slug.
    pub fn slug(self) -> (s: &'static str)
        ensures
            s@ == slug_of(self),
    {
        match self {
            CommandId::PaletteOpen => "palette.open",
            CommandId::NavDown => "nav.down",
            CommandId::NavUp => "nav.up",
            CommandId::NavFirst => "nav.first",
            CommandId::NavLast => "nav.last",
            CommandId::NavPageDown => "nav.page-down",
            CommandId::NavPageUp => "nav.page-up",
            CommandId::PaneNext => "pane.next",
            CommandId::PanePrevious => "pane.previous",
            CommandId::PaneBack => "pane.back",
            CommandId::PaneForward => "pane.forward",
            CommandId::SidebarActivate => "sidebar.activate",
            CommandId::SidebarToggleFolder => "sidebar.toggle-folder",
            CommandId::SidebarRename => "sidebar.rename",
            CommandId::SidebarDelete => "sidebar.delete",
            CommandId::ListEnterPreview => "list.enter-preview",
            CommandId::PreviewPreviousItem => "preview.previous-item",
            CommandId::PreviewNextItem => "preview.next-item",
            CommandId::PreviewPreviousParagraph => "preview.previous-paragraph",
            CommandId::PreviewNextParagraph => "preview.next-paragraph",
            CommandId::PreviewExpandFragments => "preview.expand-fragments",
            CommandId::PreviewCollapseFragments => "preview.collapse-fragments",
            CommandId::GrabDrop => "grab.drop",
            CommandId::UiDismiss => "ui.dismiss",
            CommandId::SnippetNew => "snippet.new",
            CommandId::SnippetEditContent => "snippet.edit-content",
            CommandId::SnippetEditNote => "snippet.edit-note",
            CommandId::SnippetEditReadme => "snippet.edit-readme",
            CommandId::SnippetOpenGui => "snippet.open-gui",
            CommandId::SnippetRename => "snippet.rename",
            CommandId::SnippetMove => "snippet.move",
            CommandId::SnippetEditTags => "snippet.edit-tags",
            CommandId::SnippetEditLanguage => "snippet.edit-language",
            CommandId::SnippetTogglePin => "snippet.toggle-pin",
            CommandId::SnippetToggleLock => "snippet.toggle-lock",
            CommandId::SnippetMoveToTrash => "snippet.move-to-trash",
            CommandId::FragmentAdd => "fragment.add",
            CommandId::FragmentRename => "fragment.rename",
            CommandId::FragmentReorder => "fragment.reorder",
            CommandId::FragmentRemove => "fragment.remove",
            CommandId::CopyContent => "copy.content",
            CommandId::CopySnippetId => "copy.snippet-id",
            CommandId::CopyManagedPath => "copy.managed-path",
            CommandId::FolderNew => "folder.new",
            CommandId::FolderRename => "folder.rename",
            CommandId::FolderMove => "folder.move",
            CommandId::FolderDelete => "folder.delete",
            CommandId::TagRename => "tag.rename",
            CommandId::TagDelete => "tag.delete",
            CommandId::ViewCycleSort => "view.cycle-sort",
            CommandId::ViewSortModified => "view.sort-modified",
            CommandId::ViewSortTitle => "view.sort-title",
            CommandId::ViewSortCreated => "view.sort-created",
            CommandId::ViewToggleLineNumbers => "view.toggle-line-numbers",
            CommandId::ViewToggleSimplifiedUi => "view.toggle-simplified-ui",
            CommandId::ViewToggleFragmentList => "view.toggle-fragment-list",
            CommandId::ViewToggleDensity => "view.toggle-density",
            CommandId::ViewToggleSidebar => "view.toggle-sidebar",
            CommandId::ViewCycleAppearance => "view.cycle-appearance",
            CommandId::ViewClearAppearanceOverride => "view.clear-appearance-override",
            CommandId::ViewPickTheme => "view.pick-theme",
            CommandId::ViewToggleHelp => "view.toggle-help",
            CommandId::HelpFilter => "help.filter",
            CommandId::HelpToggleScope => "help.toggle-scope",
            CommandId::HelpCycleSort => "help.cycle-sort",
            CommandId::LibrarySearch => "library.search",
            CommandId::LibraryRescan => "library.rescan",
            CommandId::LibraryToggleTrash => "library.toggle-trash",
            CommandId::LibraryClearFilter => "library.clear-filter",
            CommandId::LibraryTogglePublishedFilter => "library.toggle-published",
            CommandId::GitToggleConsole => "git.toggle-console",
            CommandId::GitBackup => "git.backup",
            CommandId::GitCommit => "git.commit",
            CommandId::GitCommitWithMessage => "git.commit-message",
            CommandId::GitPush => "git.push",
            CommandId::GitFetchRemoteStatus => "git.fetch",
            CommandId::GitPull => "git.pull",
            CommandId::GitToggleAutoPull => "git.toggle-auto-pull",
            CommandId::GitRefreshLocalStatus => "git.refresh",
            CommandId::GitInitRepository => "git.init",
            CommandId::GitInitOrSetInterval => "git.init-or-set-interval",
            CommandId::GitToggleAutoPush => "git.toggle-auto-push",
            CommandId::GitToggleBackupOnQuit => "git.toggle-backup-on-quit",
            CommandId::GitPauseAutoBackup => "git.pause-auto-backup",
            CommandId::GitSetAutoCommitInterval => "git.set-auto-commit-interval",
            CommandId::GistTogglePanel => "gist.toggle-panel",
            CommandId::GistPush => "gist.push",
            CommandId::GistPushPublic => "gist.push-public",
            CommandId::GistCopyUrl => "gist.copy-url",
            CommandId::GistOpenInBrowser => "gist.open-browser",
            CommandId::GistAttach => "gist.attach",
            CommandId::GistDetach => "gist.detach",
            CommandId::GistDelete => "gist.delete",
            CommandId::GistVerifyRemote => "gist.verify",
            CommandId::TrashRestoreSelected => "trash.restore-selected",
            CommandId::TrashPurgeSelected => "trash.purge-selected",
            CommandId::AppQuit => "app.quit",
        }
    }

    /// The command's category.
    pub fn category(self) -> (s: &'static str)
        ensures
            s@ == category_of(self),
    {
        match self {
            CommandId::PaletteOpen => "UI",
            CommandId::NavDown => "Navigation",
            CommandId::NavUp => "Navigation",
            CommandId::NavFirst => "Navigation",
            CommandId::NavLast => "Navigation",
            CommandId::NavPageDown => "Navigation",
            CommandId::NavPageUp => "Navigation",
            CommandId::PaneNext => "Pane",
            CommandId::PanePrevious => "Pane",
            CommandId::PaneBack => "Pane",
            CommandId::PaneForward => "Pane",
            CommandId::SidebarActivate => "Sidebar",
            CommandId::SidebarToggleFolder => "Sidebar",
            CommandId::SidebarRename => "Sidebar",
            CommandId::SidebarDelete => "Sidebar",
            CommandId::ListEnterPreview => "List",
            CommandId::PreviewPreviousItem => "Preview",
            CommandId::PreviewNextItem => "Preview",
            CommandId::PreviewPreviousParagraph => "Preview",
            CommandId::PreviewNextParagraph => "Preview",
            CommandId::PreviewExpandFragments => "Preview",
            CommandId::PreviewCollapseFragments => "Preview",
            CommandId::GrabDrop => "Fragment",
            CommandId::UiDismiss => "UI",
            CommandId::SnippetNew => "Snippet",
            CommandId::SnippetEditContent => "Snippet",
            CommandId::SnippetEditNote => "Snippet",
            CommandId::SnippetEditReadme => "Snippet",
            CommandId::SnippetOpenGui => "Snippet",
            CommandId::SnippetRename => "Snippet",
            CommandId::SnippetMove => "Snippet",
            CommandId::SnippetEditTags => "Snippet",
            CommandId::SnippetEditLanguage => "Snippet",
            CommandId::SnippetTogglePin => "Snippet",
            CommandId::SnippetToggleLock => "Snippet",
            CommandId::SnippetMoveToTrash => "Snippet",
            CommandId::FragmentAdd => "Fragment",
            CommandId::FragmentRename => "Fragment",
            CommandId::FragmentReorder => "Fragment",
            CommandId::FragmentRemove => "Fragment",
            CommandId::CopyContent => "Copy",
            CommandId::CopySnippetId => "Copy",
            CommandId::CopyManagedPath => "Copy",
            CommandId::FolderNew => "Folder",
            CommandId::FolderRename => "Folder",
            CommandId::FolderMove => "Folder",
            CommandId::FolderDelete => "Folder",
            CommandId::TagRename => "Tag",
            CommandId::TagDelete => "Tag",
            CommandId::ViewCycleSort => "View",
            CommandId::ViewSortModified => "View",
            CommandId::ViewSortTitle => "View",
            CommandId::ViewSortCreated => "View",
            CommandId::ViewToggleLineNumbers => "View",
            CommandId::ViewToggleSimplifiedUi => "View",
            CommandId::ViewToggleFragmentList => "View",
            CommandId::ViewToggleDensity => "View",
            CommandId::ViewToggleSidebar => "View",
            CommandId::ViewCycleAppearance => "View",
            CommandId::ViewClearAppearanceOverride => "View",
            CommandId::ViewPickTheme => "View",
            CommandId::ViewToggleHelp => "View",
            CommandId::HelpFilter => "Help",
            CommandId::HelpToggleScope => "Help",
            CommandId::HelpCycleSort => "Help",
            CommandId::LibrarySearch => "Library",
            CommandId::LibraryRescan => "Library",
            CommandId::LibraryToggleTrash => "Library",
            CommandId::LibraryClearFilter => "Library",
            CommandId::LibraryTogglePublishedFilter => "Library",
            CommandId::GitToggleConsole => "Git",
            CommandId::GitBackup => "Git",
            CommandId::GitCommit => "Git",
            CommandId::GitCommitWithMessage => "Git",
            CommandId::GitPush => "Git",
            CommandId::GitFetchRemoteStatus => "Git",
            CommandId::GitPull => "Git",
            CommandId::GitToggleAutoPull => "Git",
            CommandId::GitRefreshLocalStatus => "Git",
            CommandId::GitInitRepository => "Git",
            CommandId::GitInitOrSetInterval => "Git",
            CommandId::GitToggleAutoPush => "Git",
            CommandId::GitToggleBackupOnQuit => "Git",
            CommandId::GitPauseAutoBackup => "Git",
            CommandId::GitSetAutoCommitInterval => "Git",
            CommandId::GistTogglePanel => "Gist",
            CommandId::GistPush => "Gist",
            CommandId::GistPushPublic => "Gist",
            CommandId::GistCopyUrl => "Gist",
            CommandId::GistOpenInBrowser => "Gist",
            CommandId::GistAttach => "Gist",
            CommandId::GistDetach => "Gist",
            CommandId::GistDelete => "Gist",
            CommandId::GistVerifyRemote => "Gist",
            CommandId::TrashRestoreSelected => "Trash",
            CommandId::TrashPurgeSelected => "Trash",
            CommandId::AppQuit => "App",
        }
    }

    /// The command's title.
    pub fn title(self) -> (s: &'static str)
        ensures
            s@ == title_of(self),
    {
        match self {
            CommandId::PaletteOpen => "Open Palette",
            CommandId::NavDown => "Move Down",
            CommandId::NavUp => "Move Up",
            CommandId::NavFirst => "Move to First",
            CommandId::NavLast => "Move to Last",
            CommandId::NavPageDown => "Page Down",
            CommandId::NavPageUp => "Page Up",
            CommandId::PaneNext => "Next Pane",
            CommandId::PanePrevious => "Previous Pane",
            CommandId::PaneBack => "Go Back",
            CommandId::PaneForward => "Go Forward",
            CommandId::SidebarActivate => "Activate",
            CommandId::SidebarToggleFolder => "Toggle Folder",
            CommandId::SidebarRename => "Rename",
            CommandId::SidebarDelete => "Delete",
            CommandId::ListEnterPreview => "Enter Preview",
            CommandId::PreviewPreviousItem => "Previous Item",
            CommandId::PreviewNextItem => "Next Item",
            CommandId::PreviewPreviousParagraph => "Previous Paragraph",
            CommandId::PreviewNextParagraph => "Next Paragraph",
            CommandId::PreviewExpandFragments => "Expand Fragments",
            CommandId::PreviewCollapseFragments => "Collapse Fragments",
            CommandId::GrabDrop => "Drop Fragment",
            CommandId::UiDismiss => "Dismiss",
            CommandId::SnippetNew => "New Snippet",
            CommandId::SnippetEditContent => "Edit Content",
            CommandId::SnippetEditNote => "Edit Note",
            CommandId::SnippetEditReadme => "Edit README",
            CommandId::SnippetOpenGui => "Open in GUI Editor",
            CommandId::SnippetRename => "Rename",
            CommandId::SnippetMove => "Move",
            CommandId::SnippetEditTags => "Edit Tags",
            CommandId::SnippetEditLanguage => "Edit Language",
            CommandId::SnippetTogglePin => "Toggle Pin",
            CommandId::SnippetToggleLock => "Toggle Lock",
            CommandId::SnippetMoveToTrash => "Move to Trash",
            CommandId::FragmentAdd => "Add Fragment",
            CommandId::FragmentRename => "Rename Fragment",
            CommandId::FragmentReorder => "Move Fragment",
            CommandId::FragmentRemove => "Delete Fragment",
            CommandId::CopyContent => "Content",
            CommandId::CopySnippetId => "Snippet ID",
            CommandId::CopyManagedPath => "Managed Path",
            CommandId::FolderNew => "New Folder",
            CommandId::FolderRename => "Rename",
            CommandId::FolderMove => "Move",
            CommandId::FolderDelete => "Delete",
            CommandId::TagRename => "Rename",
            CommandId::TagDelete => "Delete",
            CommandId::ViewCycleSort => "Cycle Sort",
            CommandId::ViewSortModified => "Sort by Modified",
            CommandId::ViewSortTitle => "Sort by Title",
            CommandId::ViewSortCreated => "Sort by Created",
            CommandId::ViewToggleLineNumbers => "Toggle Line Numbers",
            CommandId::ViewToggleSimplifiedUi => "Toggle Simplified UI",
            CommandId::ViewToggleFragmentList => "Toggle Fragment List",
            CommandId::ViewToggleDensity => "Toggle Density",
            CommandId::ViewToggleSidebar => "Toggle Library Pane",
            CommandId::ViewCycleAppearance => "Toggle Light / Dark",
            CommandId::ViewClearAppearanceOverride => "Clear Appearance Override",
            CommandId::ViewPickTheme => "Change Color Theme",
            CommandId::ViewToggleHelp => "Toggle Help",
            CommandId::HelpFilter => "Filter Help",
            CommandId::HelpToggleScope => "Toggle Help Scope",
            CommandId::HelpCycleSort => "Cycle Help Sort",
            CommandId::LibrarySearch => "Search",
            CommandId::LibraryRescan => "Rescan",
            CommandId::LibraryToggleTrash => "Toggle Trash",
            CommandId::LibraryClearFilter => "Clear Filter",
            CommandId::LibraryTogglePublishedFilter => "Toggle Published Filter",
            CommandId::GitToggleConsole => "Toggle Console",
            CommandId::GitBackup => "Backup",
            CommandId::GitCommit => "Commit",
            CommandId::GitCommitWithMessage => "Commit with Message…",
            CommandId::GitPush => "Push to Remote",
            CommandId::GitFetchRemoteStatus => "Fetch Remote Status",
            CommandId::GitPull => "Pull From Remote",
            CommandId::GitToggleAutoPull => "Toggle Auto Pull",
            CommandId::GitRefreshLocalStatus => "Refresh Local Status",
            CommandId::GitInitRepository => "Init Repository",
            CommandId::GitInitOrSetInterval => "Init or Set Interval",
            CommandId::GitToggleAutoPush => "Toggle Auto Push",
            CommandId::GitToggleBackupOnQuit => "Toggle Backup on Quit",
            CommandId::GitPauseAutoBackup => "Pause Auto Backup",
            CommandId::GitSetAutoCommitInterval => "Set Auto Commit Interval…",
            CommandId::GistTogglePanel => "Toggle Panel",
            CommandId::GistPush => "Publish or Update",
            CommandId::GistPushPublic => "Publish as Public Gist",
            CommandId::GistCopyUrl => "Copy URL",
            CommandId::GistOpenInBrowser => "Open in Browser",
            CommandId::GistAttach => "Attach Existing Gist…",
            CommandId::GistDetach => "Detach Gist",
            CommandId::GistDelete => "Delete Gist…",
            CommandId::GistVerifyRemote => "Verify Remote",
            CommandId::TrashRestoreSelected => "Restore Selected",
            CommandId::TrashPurgeSelected => "Purge Selected",
            CommandId::AppQuit => "Quit",
        }
    }

    /// Whether the palette lists the command.
    pub fn in_palette(self) -> (b: bool)
        ensures
            b == palette_of(self),
    {
        match self {
            CommandId::PaletteOpen => false,
            CommandId::NavDown => false,
            CommandId::NavUp => false,
            CommandId::NavFirst => false,
            CommandId::NavLast => false,
            CommandId::NavPageDown => false,
            CommandId::NavPageUp => false,
            CommandId::PaneNext => false,
            CommandId::PanePrevious => false,
            CommandId::PaneBack => false,
            CommandId::PaneForward => false,
            CommandId::SidebarActivate => false,
            CommandId::SidebarToggleFolder => false,
            CommandId::SidebarRename => false,
            CommandId::SidebarDelete => false,
            CommandId::ListEnterPreview => false,
            CommandId::PreviewPreviousItem => false,
            CommandId::PreviewNextItem => false,
            CommandId::PreviewPreviousParagraph => false,
            CommandId::PreviewNextParagraph => false,
            CommandId::PreviewExpandFragments => false,
            CommandId::PreviewCollapseFragments => false,
            CommandId::GrabDrop => false,
            CommandId::UiDismiss => false,
            CommandId::SnippetNew => true,
            CommandId::SnippetEditContent => true,
            CommandId::SnippetEditNote => true,
            CommandId::SnippetEditReadme => true,
            CommandId::SnippetOpenGui => true,
            CommandId::SnippetRename => true,
            CommandId::SnippetMove => true,
            CommandId::SnippetEditTags => true,
            CommandId::SnippetEditLanguage => true,
            CommandId::SnippetTogglePin => true,
            CommandId::SnippetToggleLock => true,
            CommandId::SnippetMoveToTrash => true,
            CommandId::FragmentAdd => true,
            CommandId::FragmentRename => true,
            CommandId::FragmentReorder => true,
            CommandId::FragmentRemove => true,
            CommandId::CopyContent => true,
            CommandId::CopySnippetId => true,
            CommandId::CopyManagedPath => true,
            CommandId::FolderNew => true,
            CommandId::FolderRename => true,
            CommandId::FolderMove => true,
            CommandId::FolderDelete => true,
            CommandId::TagRename => true,
            CommandId::TagDelete => true,
            CommandId::ViewCycleSort => true,
            CommandId::ViewSortModified => true,
            CommandId::ViewSortTitle => true,
            CommandId::ViewSortCreated => true,
            CommandId::ViewToggleLineNumbers => true,
            CommandId::ViewToggleSimplifiedUi => true,
            CommandId::ViewToggleFragmentList => true,
            CommandId::ViewToggleDensity => true,
            CommandId::ViewToggleSidebar => true,
            CommandId::ViewCycleAppearance => true,
            CommandId::ViewClearAppearanceOverride => true,
            CommandId::ViewPickTheme => true,
            CommandId::ViewToggleHelp => true,
            CommandId::HelpFilter => false,
            CommandId::HelpToggleScope => false,
            CommandId::HelpCycleSort => false,
            CommandId::LibrarySearch => true,
            CommandId::LibraryRescan => true,
            CommandId::LibraryToggleTrash => true,
            CommandId::LibraryClearFilter => true,
            CommandId::LibraryTogglePublishedFilter => true,
            CommandId::GitToggleConsole => true,
            CommandId::GitBackup => true,
            CommandId::GitCommit => true,
            CommandId::GitCommitWithMessage => true,
            CommandId::GitPush => true,
            CommandId::GitFetchRemoteStatus => true,
            CommandId::GitPull => true,
            CommandId::GitToggleAutoPull => true,
            CommandId::GitRefreshLocalStatus => true,
            CommandId::GitInitRepository => true,
            CommandId::GitInitOrSetInterval => false,
            CommandId::GitToggleAutoPush => true,
            CommandId::GitToggleBackupOnQuit => true,
            CommandId::GitPauseAutoBackup => true,
            CommandId::GitSetAutoCommitInterval => true,
            CommandId::GistTogglePanel => true,
            CommandId::GistPush => true,
            CommandId::GistPushPublic => true,
            CommandId::GistCopyUrl => true,
            CommandId::GistOpenInBrowser => true,
            CommandId::GistAttach => true,
            CommandId::GistDetach => true,
            CommandId::GistDelete => true,
            CommandId::GistVerifyRemote => true,
            CommandId::TrashRestoreSelected => true,
            CommandId::TrashPurgeSelected => true,
            CommandId::AppQuit => true,
        }
    }
}
/// What each command does, in a line.
pub open spec fn description_of(id: CommandId) -> Seq<char> {
    match id {
        CommandId::PaletteOpen => "Open the command palette"@,
        CommandId::NavDown => "Move to the next item"@,
        CommandId::NavUp => "Move to the previous item"@,
        CommandId::NavFirst => "Move to the first item"@,
        CommandId::NavLast => "Move to the last item"@,
        CommandId::NavPageDown => "Move down by half a page"@,
        CommandId::NavPageUp => "Move up by half a page"@,
        CommandId::PaneNext => "Focus the next pane"@,
        CommandId::PanePrevious => "Focus the previous pane"@,
        CommandId::PaneBack => "Go back to the previous pane"@,
        CommandId::PaneForward => "Drill into the next pane"@,
        CommandId::SidebarActivate => "Apply the selected library filter"@,
        CommandId::SidebarToggleFolder => "Expand or collapse the selected folder"@,
        CommandId::SidebarRename => "Rename the selected folder or tag"@,
        CommandId::SidebarDelete => "Delete the selected folder or tag"@,
        CommandId::ListEnterPreview => "Focus the snippet preview"@,
        CommandId::PreviewPreviousItem => "Select the previous preview item"@,
        CommandId::PreviewNextItem => "Select the next preview item"@,
        CommandId::PreviewPreviousParagraph => "Jump to the previous paragraph"@,
        CommandId::PreviewNextParagraph => "Jump to the next paragraph"@,
        CommandId::PreviewExpandFragments => "Expand the fragment list"@,
        CommandId::PreviewCollapseFragments => "Collapse the fragment list"@,
        CommandId::GrabDrop => "Drop the grabbed fragment"@,
        CommandId::UiDismiss => "Close the active panel or clear the active filter"@,
        CommandId::SnippetNew => "Create a snippet"@,
        CommandId::SnippetEditContent => "Edit the selected fragment content"@,
        CommandId::SnippetEditNote => "Edit the selected fragment note"@,
        CommandId::SnippetEditReadme => "Edit the selected snippet README"@,
        CommandId::SnippetOpenGui => "Open the selected fragment in the GUI editor"@,
        CommandId::SnippetRename => "Rename the selected snippet"@,
        CommandId::SnippetMove => "Move the selected snippet to another folder"@,
        CommandId::SnippetEditTags => "Edit the selected snippet tags"@,
        CommandId::SnippetEditLanguage => "Change the selected fragment language"@,
        CommandId::SnippetTogglePin => "Pin or unpin the selected snippet"@,
        CommandId::SnippetToggleLock => "Lock or unlock the selected snippet"@,
        CommandId::SnippetMoveToTrash => "Move the selected snippet to trash"@,
        CommandId::FragmentAdd => "Add a fragment to the selected snippet"@,
        CommandId::FragmentRename => "Rename the selected fragment"@,
        CommandId::FragmentReorder => "Move the selected fragment"@,
        CommandId::FragmentRemove => "Delete the selected fragment"@,
        CommandId::CopyContent => "Copy the selected fragment content"@,
        CommandId::CopySnippetId => "Copy the selected snippet ID"@,
        CommandId::CopyManagedPath => "Copy the selected managed file path"@,
        CommandId::FolderNew => "Create a folder"@,
        CommandId::FolderRename => "Rename the selected folder"@,
        CommandId::FolderMove => "Move the selected folder"@,
        CommandId::FolderDelete => "Delete the selected folder"@,
        CommandId::TagRename => "Rename the selected tag"@,
        CommandId::TagDelete => "Delete the selected tag"@,
        CommandId::ViewCycleSort => "Cycle the snippet sort order"@,
        CommandId::ViewSortModified => "Sort snippets by modification time"@,
        CommandId::ViewSortTitle => "Sort snippets by title"@,
        CommandId::ViewSortCreated => "Sort snippets by creation time"@,
        CommandId::ViewToggleLineNumbers => "Show or hide preview line numbers"@,
        CommandId::ViewToggleSimplifiedUi => "Toggle the simplified terminal UI"@,
        CommandId::ViewToggleFragmentList => "Show or hide the fragment list"@,
        CommandId::ViewToggleDensity => "Toggle compact snippet list spacing"@,
        CommandId::ViewToggleSidebar => "Show or hide the library pane"@,
        CommandId::ViewCycleAppearance => "Switch between light and dark appearance"@,
        CommandId::ViewClearAppearanceOverride => "Return appearance selection to automatic"@,
        CommandId::ViewPickTheme => "Choose a color theme"@,
        CommandId::ViewToggleHelp => "Open or close the help panel"@,
        CommandId::HelpFilter => "Filter the help cheatsheet"@,
        CommandId::HelpToggleScope => "Show this context or all modes"@,
        CommandId::HelpCycleSort => "Sort help rows by key or action"@,
        CommandId::LibrarySearch => "Search the snippet library"@,
        CommandId::LibraryRescan => "Rescan the snippet library"@,
        CommandId::LibraryToggleTrash => "Open or close the trash"@,
        CommandId::LibraryClearFilter => "Clear the active library filter"@,
        CommandId::LibraryTogglePublishedFilter => "Show or hide published snippets"@,
        CommandId::GitToggleConsole => "Open or close the Git console"@,
        CommandId::GitBackup => "Commit changes and push them to the remote"@,
        CommandId::GitCommit => "Commit library changes"@,
        CommandId::GitCommitWithMessage => "Commit library changes with a custom message"@,
        CommandId::GitPush => "Push local commits to the remote"@,
        CommandId::GitFetchRemoteStatus => "Fetch the latest remote status"@,
        CommandId::GitPull => "Pull changes from the remote"@,
        CommandId::GitToggleAutoPull => "Toggle automatic pull on startup"@,
        CommandId::GitRefreshLocalStatus => "Refresh local repository status"@,
        CommandId::GitInitRepository => "Initialize a Git repository"@,
        CommandId::GitInitOrSetInterval => "Initialize Git or set the automatic commit interval"@,
        CommandId::GitToggleAutoPush => "Toggle automatic push after commits"@,
        CommandId::GitToggleBackupOnQuit => "Toggle automatic backup on quit"@,
        CommandId::GitPauseAutoBackup => "Pause automatic backup for this session"@,
        CommandId::GitSetAutoCommitInterval => "Set the automatic commit interval"@,
        CommandId::GistTogglePanel => "Open or close the Gist panel"@,
        CommandId::GistPush => "Publish or update the selected snippet as a gist"@,
        CommandId::GistPushPublic => "Publish the selected snippet as a public gist"@,
        CommandId::GistCopyUrl => "Copy the selected snippet gist URL"@,
        CommandId::GistOpenInBrowser => "Open the selected snippet gist in a browser"@,
        CommandId::GistAttach => "Attach an existing gist to the selected snippet"@,
        CommandId::GistDetach => "Detach the gist from the selected snippet"@,
        CommandId::GistDelete => "Delete the selected snippet gist from GitHub"@,
        CommandId::GistVerifyRemote => "Check that the selected snippet gist still exists"@,
        CommandId::TrashRestoreSelected => "Restore the selected snippet from trash"@,
        CommandId::TrashPurgeSelected => "Permanently delete the selected trashed snippet"@,
        CommandId::AppQuit => "Quit snip"@,
    }
}

/// The words the command palette also finds each command by.
pub open spec fn keywords_of(id: CommandId) -> Seq<Seq<char>> {
    match id {
        CommandId::PaletteOpen => Seq::empty(),
        CommandId::NavDown => Seq::empty(),
        CommandId::NavUp => Seq::empty(),
        CommandId::NavFirst => Seq::empty(),
        CommandId::NavLast => Seq::empty(),
        CommandId::NavPageDown => Seq::empty(),
        CommandId::NavPageUp => Seq::empty(),
        CommandId::PaneNext => Seq::empty(),
        CommandId::PanePrevious => Seq::empty(),
        CommandId::PaneBack => Seq::empty(),
        CommandId::PaneForward => Seq::empty(),
        CommandId::SidebarActivate => Seq::empty(),
        CommandId::SidebarToggleFolder => Seq::empty(),
        CommandId::SidebarRename => Seq::empty(),
        CommandId::SidebarDelete => Seq::empty(),
        CommandId::ListEnterPreview => Seq::empty(),
        CommandId::PreviewPreviousItem => Seq::empty(),
        CommandId::PreviewNextItem => Seq::empty(),
        CommandId::PreviewPreviousParagraph => Seq::empty(),
        CommandId::PreviewNextParagraph => Seq::empty(),
        CommandId::PreviewExpandFragments => Seq::empty(),
        CommandId::PreviewCollapseFragments => Seq::empty(),
        CommandId::GrabDrop => Seq::empty(),
        CommandId::UiDismiss => Seq::empty(),
        CommandId::SnippetNew => seq!["create"@],
        CommandId::SnippetEditContent => seq!["edit"@],
        CommandId::SnippetEditNote => seq!["note"@],
        CommandId::SnippetEditReadme => seq!["readme"@],
        CommandId::SnippetOpenGui => seq!["code"@, "editor"@],
        CommandId::SnippetRename => seq!["title"@],
        CommandId::SnippetMove => seq!["folder"@],
        CommandId::SnippetEditTags => seq!["labels"@],
        CommandId::SnippetEditLanguage => seq!["syntax"@],
        CommandId::SnippetTogglePin => seq!["pinned"@],
        CommandId::SnippetToggleLock => seq!["locked"@],
        CommandId::SnippetMoveToTrash => seq!["delete"@],
        CommandId::FragmentAdd => seq!["new"@, "create"@],
        CommandId::FragmentRename => seq!["title"@],
        CommandId::FragmentReorder => seq!["reorder"@, "order"@, "position"@],
        CommandId::FragmentRemove => seq!["delete"@, "remove"@],
        CommandId::CopyContent => seq!["clipboard"@],
        CommandId::CopySnippetId => seq!["clipboard"@, "id"@],
        CommandId::CopyManagedPath => seq!["clipboard"@, "path"@],
        CommandId::FolderNew => seq!["create"@],
        CommandId::FolderRename => Seq::empty(),
        CommandId::FolderMove => Seq::empty(),
        CommandId::FolderDelete => seq!["remove"@],
        CommandId::TagRename => Seq::empty(),
        CommandId::TagDelete => seq!["remove"@],
        CommandId::ViewCycleSort => Seq::empty(),
        CommandId::ViewSortModified => seq!["date"@],
        CommandId::ViewSortTitle => seq!["name"@],
        CommandId::ViewSortCreated => seq!["date"@],
        CommandId::ViewToggleLineNumbers => Seq::empty(),
        CommandId::ViewToggleSimplifiedUi => seq!["font"@, "powerline"@, "nerd font"@, "square"@, "bars"@],
        CommandId::ViewToggleFragmentList => seq!["fragment"@, "fragments"@, "tree"@, "expand"@, "collapse"@],
        CommandId::ViewToggleDensity => seq!["list"@],
        CommandId::ViewToggleSidebar => seq!["sidebar"@, "library"@, "pane"@, "hide"@, "show"@, "collapse"@, "width"@, "narrow"@],
        CommandId::ViewCycleAppearance => seq!["light"@, "dark"@, "appearance"@, "mode"@, "force"@, "theme"@],
        CommandId::ViewClearAppearanceOverride => seq!["clear"@, "override"@, "auto"@, "system"@, "appearance"@, "reset"@],
        CommandId::ViewPickTheme => seq!["theme"@, "color"@, "colour"@, "scheme"@, "appearance"@],
        CommandId::ViewToggleHelp => Seq::empty(),
        CommandId::HelpFilter => Seq::empty(),
        CommandId::HelpToggleScope => Seq::empty(),
        CommandId::HelpCycleSort => Seq::empty(),
        CommandId::LibrarySearch => seq!["find"@],
        CommandId::LibraryRescan => seq!["refresh"@],
        CommandId::LibraryToggleTrash => seq!["deleted"@],
        CommandId::LibraryClearFilter => seq!["reset"@],
        CommandId::LibraryTogglePublishedFilter => seq!["gist"@],
        CommandId::GitToggleConsole => seq!["source control"@],
        CommandId::GitBackup => seq!["commit"@, "push"@],
        CommandId::GitCommit => seq!["save"@],
        CommandId::GitCommitWithMessage => seq!["custom"@],
        CommandId::GitPush => seq!["upload"@, "remote"@],
        CommandId::GitFetchRemoteStatus => seq!["remote"@],
        CommandId::GitPull => seq!["remote"@, "sync"@],
        CommandId::GitToggleAutoPull => seq!["automatic"@],
        CommandId::GitRefreshLocalStatus => seq!["status"@],
        CommandId::GitInitRepository => seq!["initialize"@],
        CommandId::GitInitOrSetInterval => Seq::empty(),
        CommandId::GitToggleAutoPush => seq!["automatic"@],
        CommandId::GitToggleBackupOnQuit => seq!["automatic"@],
        CommandId::GitPauseAutoBackup => seq!["automatic"@],
        CommandId::GitSetAutoCommitInterval => seq!["automatic"@],
        CommandId::GistTogglePanel => seq!["gist"@],
        CommandId::GistPush => seq!["share"@, "gist"@],
        CommandId::GistPushPublic => seq!["public"@],
        CommandId::GistCopyUrl => seq!["link"@, "url"@],
        CommandId::GistOpenInBrowser => seq!["gist"@],
        CommandId::GistAttach => seq!["adopt"@, "link"@],
        CommandId::GistDetach => seq!["gist"@],
        CommandId::GistDelete => seq!["gist"@],
        CommandId::GistVerifyRemote => seq!["gist"@],
        CommandId::TrashRestoreSelected => seq!["undelete"@],
        CommandId::TrashPurgeSelected => seq!["delete"@, "permanent"@],
        CommandId::AppQuit => seq!["exit"@],
    }
}

/// Keywords, as spec values.
pub open spec fn keywords_view(k: Seq<&'static str>) -> Seq<Seq<char>> {
    k.map_values(|w: &str| w@)
}

impl CommandId {
    /// What the command does, in a line.
    pub fn description(self) -> (s: &'static str)
        ensures
            s@ == description_of(self),
    {
        match self {
            CommandId::PaletteOpen => "Open the command palette",
            CommandId::NavDown => "Move to the next item",
            CommandId::NavUp => "Move to the previous item",
            CommandId::NavFirst => "Move to the first item",
            CommandId::NavLast => "Move to the last item",
            CommandId::NavPageDown => "Move down by half a page",
            CommandId::NavPageUp => "Move up by half a page",
            CommandId::PaneNext => "Focus the next pane",
            CommandId::PanePrevious => "Focus the previous pane",
            CommandId::PaneBack => "Go back to the previous pane",
            CommandId::PaneForward => "Drill into the next pane",
            CommandId::SidebarActivate => "Apply the selected library filter",
            CommandId::SidebarToggleFolder => "Expand or collapse the selected folder",
            CommandId::SidebarRename => "Rename the selected folder or tag",
            CommandId::SidebarDelete => "Delete the selected folder or tag",
            CommandId::ListEnterPreview => "Focus the snippet preview",
            CommandId::PreviewPreviousItem => "Select the previous preview item",
            CommandId::PreviewNextItem => "Select the next preview item",
            CommandId::PreviewPreviousParagraph => "Jump to the previous paragraph",
            CommandId::PreviewNextParagraph => "Jump to the next paragraph",
            CommandId::PreviewExpandFragments => "Expand the fragment list",
            CommandId::PreviewCollapseFragments => "Collapse the fragment list",
            CommandId::GrabDrop => "Drop the grabbed fragment",
            CommandId::UiDismiss => "Close the active panel or clear the active filter",
            CommandId::SnippetNew => "Create a snippet",
            CommandId::SnippetEditContent => "Edit the selected fragment content",
            CommandId::SnippetEditNote => "Edit the selected fragment note",
            CommandId::SnippetEditReadme => "Edit the selected snippet README",
            CommandId::SnippetOpenGui => "Open the selected fragment in the GUI editor",
            CommandId::SnippetRename => "Rename the selected snippet",
            CommandId::SnippetMove => "Move the selected snippet to another folder",
            CommandId::SnippetEditTags => "Edit the selected snippet tags",
            CommandId::SnippetEditLanguage => "Change the selected fragment language",
            CommandId::SnippetTogglePin => "Pin or unpin the selected snippet",
            CommandId::SnippetToggleLock => "Lock or unlock the selected snippet",
            CommandId::SnippetMoveToTrash => "Move the selected snippet to trash",
            CommandId::FragmentAdd => "Add a fragment to the selected snippet",
            CommandId::FragmentRename => "Rename the selected fragment",
            CommandId::FragmentReorder => "Move the selected fragment",
            CommandId::FragmentRemove => "Delete the selected fragment",
            CommandId::CopyContent => "Copy the selected fragment content",
            CommandId::CopySnippetId => "Copy the selected snippet ID",
            CommandId::CopyManagedPath => "Copy the selected managed file path",
            CommandId::FolderNew => "Create a folder",
            CommandId::FolderRename => "Rename the selected folder",
            CommandId::FolderMove => "Move the selected folder",
            CommandId::FolderDelete => "Delete the selected folder",
            CommandId::TagRename => "Rename the selected tag",
            CommandId::TagDelete => "Delete the selected tag",
            CommandId::ViewCycleSort => "Cycle the snippet sort order",
            CommandId::ViewSortModified => "Sort snippets by modification time",
            CommandId::ViewSortTitle => "Sort snippets by title",
            CommandId::ViewSortCreated => "Sort snippets by creation time",
            CommandId::ViewToggleLineNumbers => "Show or hide preview line numbers",
            CommandId::ViewToggleSimplifiedUi => "Toggle the simplified terminal UI",
            CommandId::ViewToggleFragmentList => "Show or hide the fragment list",
            CommandId::ViewToggleDensity => "Toggle compact snippet list spacing",
            CommandId::ViewToggleSidebar => "Show or hide the library pane",
            CommandId::ViewCycleAppearance => "Switch between light and dark appearance",
            CommandId::ViewClearAppearanceOverride => "Return appearance selection to automatic",
            CommandId::ViewPickTheme => "Choose a color theme",
            CommandId::ViewToggleHelp => "Open or close the help panel",
            CommandId::HelpFilter => "Filter the help cheatsheet",
            CommandId::HelpToggleScope => "Show this context or all modes",
            CommandId::HelpCycleSort => "Sort help rows by key or action",
            CommandId::LibrarySearch => "Search the snippet library",
            CommandId::LibraryRescan => "Rescan the snippet library",
            CommandId::LibraryToggleTrash => "Open or close the trash",
            CommandId::LibraryClearFilter => "Clear the active library filter",
            CommandId::LibraryTogglePublishedFilter => "Show or hide published snippets",
            CommandId::GitToggleConsole => "Open or close the Git console",
            CommandId::GitBackup => "Commit changes and push them to the remote",
            CommandId::GitCommit => "Commit library changes",
            CommandId::GitCommitWithMessage => "Commit library changes with a custom message",
            CommandId::GitPush => "Push local commits to the remote",
            CommandId::GitFetchRemoteStatus => "Fetch the latest remote status",
            CommandId::GitPull => "Pull changes from the remote",
            CommandId::GitToggleAutoPull => "Toggle automatic pull on startup",
            CommandId::GitRefreshLocalStatus => "Refresh local repository status",
            CommandId::GitInitRepository => "Initialize a Git repository",
            CommandId::GitInitOrSetInterval => "Initialize Git or set the automatic commit interval",
            CommandId::GitToggleAutoPush => "Toggle automatic push after commits",
            CommandId::GitToggleBackupOnQuit => "Toggle automatic backup on quit",
            CommandId::GitPauseAutoBackup => "Pause automatic backup for this session",
            CommandId::GitSetAutoCommitInterval => "Set the automatic commit interval",
            CommandId::GistTogglePanel => "Open or close the Gist panel",
            CommandId::GistPush => "Publish or update the selected snippet as a gist",
            CommandId::GistPushPublic => "Publish the selected snippet as a public gist",
            CommandId::GistCopyUrl => "Copy the selected snippet gist URL",
            CommandId::GistOpenInBrowser => "Open the selected snippet gist in a browser",
            CommandId::GistAttach => "Attach an existing gist to the selected snippet",
            CommandId::GistDetach => "Detach the gist from the selected snippet",
            CommandId::GistDelete => "Delete the selected snippet gist from GitHub",
            CommandId::GistVerifyRemote => "Check that the selected snippet gist still exists",
            CommandId::TrashRestoreSelected => "Restore the selected snippet from trash",
            CommandId::TrashPurgeSelected => "Permanently delete the selected trashed snippet",
            CommandId::AppQuit => "Quit snip",
        }
    }

    /// The words the command palette also finds the command by.
    pub fn keywords(self) -> (k: &'static [&'static str])
        ensures
            keywords_view(k@) == keywords_of(self),
    {
        match self {
            CommandId::PaletteOpen => {
                let k: &'static [&'static str] = &[];
                assert(k@.map_values(|w: &str| w@) =~= Seq::<Seq<char>>::empty());
                k
            },
            CommandId::NavDown => {
                let k: &'static [&'static str] = &[];
                assert(k@.map_values(|w: &str| w@) =~= Seq::<Seq<char>>::empty());
                k
            },
            CommandId::NavUp => {
                let k: &'static [&'static str] = &[];
                assert(k@.map_values(|w: &str| w@) =~= Seq::<Seq<char>>::empty());
                k
            },
            CommandId::NavFirst => {
                let k: &'static [&'static str] = &[];
                assert(k@.map_values(|w: &str| w@) =~= Seq::<Seq<char>>::empty());
                k
            },
            CommandId::NavLast => {
                let k: &'static [&'static str] = &[];
                assert(k@.map_values(|w: &str| w@) =~= Seq::<Seq<char>>::empty());
                k
            },
            CommandId::NavPageDown => {
                let k: &'static [&'static str] = &[];
                assert(k@.map_values(|w: &str| w@) =~= Seq::<Seq<char>>::empty());
                k
            },
            CommandId::NavPageUp => {
                let k: &'static [&'static str] = &[];
                assert(k@.map_values(|w: &str| w@) =~= Seq::<Seq<char>>::empty());
                k
            },
            CommandId::PaneNext => {
                let k: &'static [&'static str] = &[];
                assert(k@.map_values(|w: &str| w@) =~= Seq::<Seq<char>>::empty());
                k
            },
            CommandId::PanePrevious => {
                let k: &'static [&'static str] = &[];
                assert(k@.map_values(|w: &str| w@) =~= Seq::<Seq<char>>::empty());
                k
            },
            CommandId::PaneBack => {
                let k: &'static [&'static str] = &[];
                assert(k@.map_values(|w: &str| w@) =~= Seq::<Seq<char>>::empty());
                k
            },
            CommandId::PaneForward => {
                let k: &'static [&'static str] = &[];
                assert(k@.map_values(|w: &str| w@) =~= Seq::<Seq<char>>::empty());
                k
            },
            CommandId::SidebarActivate => {
                let k: &'static [&'static str] = &[];
                assert(k@.map_values(|w: &str| w@) =~= Seq::<Seq<char>>::empty());
                k
            },
            CommandId::SidebarToggleFolder => {
                let k: &'static [&'static str] = &[];
                assert(k@.map_values(|w: &str| w@) =~= Seq::<Seq<char>>::empty());
                k
            },
            CommandId::SidebarRename => {
                let k: &'static [&'static str] = &[];
                assert(k@.map_values(|w: &str| w@) =~= Seq::<Seq<char>>::empty());
                k
            },
            CommandId::SidebarDelete => {
                let k: &'static [&'static str] = &[];
                assert(k@.map_values(|w: &str| w@) =~= Seq::<Seq<char>>::empty());
                k
            },
            CommandId::ListEnterPreview => {
                let k: &'static [&'static str] = &[];
                assert(k@.map_values(|w: &str| w@) =~= Seq::<Seq<char>>::empty());
                k
            },
            CommandId::PreviewPreviousItem => {
                let k: &'static [&'static str] = &[];
                assert(k@.map_values(|w: &str| w@) =~= Seq::<Seq<char>>::empty());
                k
            },
            CommandId::PreviewNextItem => {
                let k: &'static [&'static str] = &[];
                assert(k@.map_values(|w: &str| w@) =~= Seq::<Seq<char>>::empty());
                k
            },
            CommandId::PreviewPreviousParagraph => {
                let k: &'static [&'static str] = &[];
                assert(k@.map_values(|w: &str| w@) =~= Seq::<Seq<char>>::empty());
                k
            },
            CommandId::PreviewNextParagraph => {
                let k: &'static [&'static str] = &[];
                assert(k@.map_values(|w: &str| w@) =~= Seq::<Seq<char>>::empty());
                k
            },
            CommandId::PreviewExpandFragments => {
                let k: &'static [&'static str] = &[];
                assert(k@.map_values(|w: &str| w@) =~= Seq::<Seq<char>>::empty());
                k
            },
            CommandId::PreviewCollapseFragments => {
                let k: &'static [&'static str] = &[];
                assert(k@.map_values(|w: &str| w@) =~= Seq::<Seq<char>>::empty());
                k
            },
            CommandId::GrabDrop => {
                let k: &'static [&'static str] = &[];
                assert(k@.map_values(|w: &str| w@) =~= Seq::<Seq<char>>::empty());
                k
            },
            CommandId::UiDismiss => {
                let k: &'static [&'static str] = &[];
                assert(k@.map_values(|w: &str| w@) =~= Seq::<Seq<char>>::empty());
                k
            },
            CommandId::SnippetNew => {
                let k: &'static [&'static str] = &["create"];
                assert(k@.map_values(|w: &str| w@) =~= seq!["create"@]);
                k
            },
            CommandId::SnippetEditContent => {
                let k: &'static [&'static str] = &["edit"];
                assert(k@.map_values(|w: &str| w@) =~= seq!["edit"@]);
                k
            },
            CommandId::SnippetEditNote => {
                let k: &'static [&'static str] = &["note"];
                assert(k@.map_values(|w: &str| w@) =~= seq!["note"@]);
                k
            },
            CommandId::SnippetEditReadme => {
                let k: &'static [&'static str] = &["readme"];
                assert(k@.map_values(|w: &str| w@) =~= seq!["readme"@]);
                k
            },
            CommandId::SnippetOpenGui => {
                let k: &'static [&'static str] = &["code", "editor"];
                assert(k@.map_values(|w: &str| w@) =~= seq!["code"@, "editor"@]);
                k
            },
            CommandId::SnippetRename => {
                let k: &'static [&'static str] = &["title"];
                assert(k@.map_values(|w: &str| w@) =~= seq!["title"@]);
                k
            },
            CommandId::SnippetMove => {
                let k: &'static [&'static str] = &["folder"];
                assert(k@.map_values(|w: &str| w@) =~= seq!["folder"@]);
                k
            },
            CommandId::SnippetEditTags => {
                let k: &'static [&'static str] = &["labels"];
                assert(k@.map_values(|w: &str| w@) =~= seq!["labels"@]);
                k
            },
            CommandId::SnippetEditLanguage => {
                let k: &'static [&'static str] = &["syntax"];
                assert(k@.map_values(|w: &str| w@) =~= seq!["syntax"@]);
                k
            },
            CommandId::SnippetTogglePin => {
                let k: &'static [&'static str] = &["pinned"];
                assert(k@.map_values(|w: &str| w@) =~= seq!["pinned"@]);
                k
            },
            CommandId::SnippetToggleLock => {
                let k: &'static [&'static str] = &["locked"];
                assert(k@.map_values(|w: &str| w@) =~= seq!["locked"@]);
                k
            },
            CommandId::SnippetMoveToTrash => {
                let k: &'static [&'static str] = &["delete"];
                assert(k@.map_values(|w: &str| w@) =~= seq!["delete"@]);
                k
            },
            CommandId::FragmentAdd => {
                let k: &'static [&'static str] = &["new", "create"];
                assert(k@.map_values(|w: &str| w@) =~= seq!["new"@, "create"@]);
                k
            },
            CommandId::FragmentRename => {
                let k: &'static [&'static str] = &["title"];
                assert(k@.map_values(|w: &str| w@) =~= seq!["title"@]);
                k
            },
            CommandId::FragmentReorder => {
                let k: &'static [&'static str] = &["reorder", "order", "position"];
                assert(k@.map_values(|w: &str| w@) =~= seq!["reorder"@, "order"@, "position"@]);
                k
            },
            CommandId::FragmentRemove => {
                let k: &'static [&'static str] = &["delete", "remove"];
                assert(k@.map_values(|w: &str| w@) =~= seq!["delete"@, "remove"@]);
                k
            },
            CommandId::CopyContent => {
                let k: &'static [&'static str] = &["clipboard"];
                assert(k@.map_values(|w: &str| w@) =~= seq!["clipboard"@]);
                k
            },
            CommandId::CopySnippetId => {
                let k: &'static [&'static str] = &["clipboard", "id"];
                assert(k@.map_values(|w: &str| w@) =~= seq!["clipboard"@, "id"@]);
                k
            },
            CommandId::CopyManagedPath => {
                let k: &'static [&'static str] = &["clipboard", "path"];
                assert(k@.map_values(|w: &str| w@) =~= seq!["clipboard"@, "path"@]);
                k
            },
            CommandId::FolderNew => {
                let k: &'static [&'static str] = &["create"];
                assert(k@.map_values(|w: &str| w@) =~= seq!["create"@]);
                k
            },
            CommandId::FolderRename => {
                let k: &'static [&'static str] = &[];
                assert(k@.map_values(|w: &str| w@) =~= Seq::<Seq<char>>::empty());
                k
            },
            CommandId::FolderMove => {
                let k: &'static [&'static str] = &[];
                assert(k@.map_values(|w: &str| w@) =~= Seq::<Seq<char>>::empty());
                k
            },
            CommandId::FolderDelete => {
                let k: &'static [&'static str] = &["remove"];
                assert(k@.map_values(|w: &str| w@) =~= seq!["remove"@]);
                k
            },
            CommandId::TagRename => {
                let k: &'static [&'static str] = &[];
                assert(k@.map_values(|w: &str| w@) =~= Seq::<Seq<char>>::empty());
                k
            },
            CommandId::TagDelete => {
                let k: &'static [&'static str] = &["remove"];
                assert(k@.map_values(|w: &str| w@) =~= seq!["remove"@]);
                k
            },
            CommandId::ViewCycleSort => {
                let k: &'static [&'static str] = &[];
                assert(k@.map_values(|w: &str| w@) =~= Seq::<Seq<char>>::empty());
                k
            },
            CommandId::ViewSortModified => {
                let k: &'static [&'static str] = &["date"];
                assert(k@.map_values(|w: &str| w@) =~= seq!["date"@]);
                k
            },
            CommandId::ViewSortTitle => {
                let k: &'static [&'static str] = &["name"];
                assert(k@.map_values(|w: &str| w@) =~= seq!["name"@]);
                k
            },
            CommandId::ViewSortCreated => {
                let k: &'static [&'static str] = &["date"];
                assert(k@.map_values(|w: &str| w@) =~= seq!["date"@]);
                k
            },
            CommandId::ViewToggleLineNumbers => {
                let k: &'static [&'static str] = &[];
                assert(k@.map_values(|w: &str| w@) =~= Seq::<Seq<char>>::empty());
                k
            },
            CommandId::ViewToggleSimplifiedUi => {
                let k: &'static [&'static str] = &["font", "powerline", "nerd font", "square", "bars"];
                assert(k@.map_values(|w: &str| w@) =~= seq!["font"@, "powerline"@, "nerd font"@, "square"@, "bars"@]);
                k
            },
            CommandId::ViewToggleFragmentList => {
                let k: &'static [&'static str] = &["fragment", "fragments", "tree", "expand", "collapse"];
                assert(k@.map_values(|w: &str| w@) =~= seq!["fragment"@, "fragments"@, "tree"@, "expand"@, "collapse"@]);
                k
            },
            CommandId::ViewToggleDensity => {
                let k: &'static [&'static str] = &["list"];
                assert(k@.map_values(|w: &str| w@) =~= seq!["list"@]);
                k
            },
            CommandId::ViewToggleSidebar => {
                let k: &'static [&'static str] = &["sidebar", "library", "pane", "hide", "show", "collapse", "width", "narrow"];
                assert(k@.map_values(|w: &str| w@) =~= seq!["sidebar"@, "library"@, "pane"@, "hide"@, "show"@, "collapse"@, "width"@, "narrow"@]);
                k
            },
            CommandId::ViewCycleAppearance => {
                let k: &'static [&'static str] = &["light", "dark", "appearance", "mode", "force", "theme"];
                assert(k@.map_values(|w: &str| w@) =~= seq!["light"@, "dark"@, "appearance"@, "mode"@, "force"@, "theme"@]);
                k
            },
            CommandId::ViewClearAppearanceOverride => {
                let k: &'static [&'static str] = &["clear", "override", "auto", "system", "appearance", "reset"];
                assert(k@.map_values(|w: &str| w@) =~= seq!["clear"@, "override"@, "auto"@, "system"@, "appearance"@, "reset"@]);
                k
            },
            CommandId::ViewPickTheme => {
                let k: &'static [&'static str] = &["theme", "color", "colour", "scheme", "appearance"];
                assert(k@.map_values(|w: &str| w@) =~= seq!["theme"@, "color"@, "colour"@, "scheme"@, "appearance"@]);
                k
            },
            CommandId::ViewToggleHelp => {
                let k: &'static [&'static str] = &[];
                assert(k@.map_values(|w: &str| w@) =~= Seq::<Seq<char>>::empty());
                k
            },
            CommandId::HelpFilter => {
                let k: &'static [&'static str] = &[];
                assert(k@.map_values(|w: &str| w@) =~= Seq::<Seq<char>>::empty());
                k
            },
            CommandId::HelpToggleScope => {
                let k: &'static [&'static str] = &[];
                assert(k@.map_values(|w: &str| w@) =~= Seq::<Seq<char>>::empty());
                k
            },
            CommandId::HelpCycleSort => {
                let k: &'static [&'static str] = &[];
                assert(k@.map_values(|w: &str| w@) =~= Seq::<Seq<char>>::empty());
                k
            },
            CommandId::LibrarySearch => {
                let k: &'static [&'static str] = &["find"];
                assert(k@.map_values(|w: &str| w@) =~= seq!["find"@]);
                k
            },
            CommandId::LibraryRescan => {
                let k: &'static [&'static str] = &["refresh"];
                assert(k@.map_values(|w: &str| w@) =~= seq!["refresh"@]);
                k
            },
            CommandId::LibraryToggleTrash => {
                let k: &'static [&'static str] = &["deleted"];
                assert(k@.map_values(|w: &str| w@) =~= seq!["deleted"@]);
                k
            },
            CommandId::LibraryClearFilter => {
                let k: &'static [&'static str] = &["reset"];
                assert(k@.map_values(|w: &str| w@) =~= seq!["reset"@]);
                k
            },
            CommandId::LibraryTogglePublishedFilter => {
                let k: &'static [&'static str] = &["gist"];
                assert(k@.map_values(|w: &str| w@) =~= seq!["gist"@]);
                k
            },
            CommandId::GitToggleConsole => {
                let k: &'static [&'static str] = &["source control"];
                assert(k@.map_values(|w: &str| w@) =~= seq!["source control"@]);
                k
            },
            CommandId::GitBackup => {
                let k: &'static [&'static str] = &["commit", "push"];
                assert(k@.map_values(|w: &str| w@) =~= seq!["commit"@, "push"@]);
                k
            },
            CommandId::GitCommit => {
                let k: &'static [&'static str] = &["save"];
                assert(k@.map_values(|w: &str| w@) =~= seq!["save"@]);
                k
            },
            CommandId::GitCommitWithMessage => {
                let k: &'static [&'static str] = &["custom"];
                assert(k@.map_values(|w: &str| w@) =~= seq!["custom"@]);
                k
            },
            CommandId::GitPush => {
                let k: &'static [&'static str] = &["upload", "remote"];
                assert(k@.map_values(|w: &str| w@) =~= seq!["upload"@, "remote"@]);
                k
            },
            CommandId::GitFetchRemoteStatus => {
                let k: &'static [&'static str] = &["remote"];
                assert(k@.map_values(|w: &str| w@) =~= seq!["remote"@]);
                k
            },
            CommandId::GitPull => {
                let k: &'static [&'static str] = &["remote", "sync"];
                assert(k@.map_values(|w: &str| w@) =~= seq!["remote"@, "sync"@]);
                k
            },
            CommandId::GitToggleAutoPull => {
                let k: &'static [&'static str] = &["automatic"];
                assert(k@.map_values(|w: &str| w@) =~= seq!["automatic"@]);
                k
            },
            CommandId::GitRefreshLocalStatus => {
                let k: &'static [&'static str] = &["status"];
                assert(k@.map_values(|w: &str| w@) =~= seq!["status"@]);
                k
            },
            CommandId::GitInitRepository => {
                let k: &'static [&'static str] = &["initialize"];
                assert(k@.map_values(|w: &str| w@) =~= seq!["initialize"@]);
                k
            },
            CommandId::GitInitOrSetInterval => {
                let k: &'static [&'static str] = &[];
                assert(k@.map_values(|w: &str| w@) =~= Seq::<Seq<char>>::empty());
                k
            },
            CommandId::GitToggleAutoPush => {
                let k: &'static [&'static str] = &["automatic"];
                assert(k@.map_values(|w: &str| w@) =~= seq!["automatic"@]);
                k
            },
            CommandId::GitToggleBackupOnQuit => {
                let k: &'static [&'static str] = &["automatic"];
                assert(k@.map_values(|w: &str| w@) =~= seq!["automatic"@]);
                k
            },
            CommandId::GitPauseAutoBackup => {
                let k: &'static [&'static str] = &["automatic"];
                assert(k@.map_values(|w: &str| w@) =~= seq!["automatic"@]);
                k
            },
            CommandId::GitSetAutoCommitInterval => {
                let k: &'static [&'static str] = &["automatic"];
                assert(k@.map_values(|w: &str| w@) =~= seq!["automatic"@]);
                k
            },
            CommandId::GistTogglePanel => {
                let k: &'static [&'static str] = &["gist"];
                assert(k@.map_values(|w: &str| w@) =~= seq!["gist"@]);
                k
            },
            CommandId::GistPush => {
                let k: &'static [&'static str] = &["share", "gist"];
                assert(k@.map_values(|w: &str| w@) =~= seq!["share"@, "gist"@]);
                k
            },
            CommandId::GistPushPublic => {
                let k: &'static [&'static str] = &["public"];
                assert(k@.map_values(|w: &str| w@) =~= seq!["public"@]);
                k
            },
            CommandId::GistCopyUrl => {
                let k: &'static [&'static str] = &["link", "url"];
                assert(k@.map_values(|w: &str| w@) =~= seq!["link"@, "url"@]);
                k
            },
            CommandId::GistOpenInBrowser => {
                let k: &'static [&'static str] = &["gist"];
                assert(k@.map_values(|w: &str| w@) =~= seq!["gist"@]);
                k
            },
            CommandId::GistAttach => {
                let k: &'static [&'static str] = &["adopt", "link"];
                assert(k@.map_values(|w: &str| w@) =~= seq!["adopt"@, "link"@]);
                k
            },
            CommandId::GistDetach => {
                let k: &'static [&'static str] = &["gist"];
                assert(k@.map_values(|w: &str| w@) =~= seq!["gist"@]);
                k
            },
            CommandId::GistDelete => {
                let k: &'static [&'static str] = &["gist"];
                assert(k@.map_values(|w: &str| w@) =~= seq!["gist"@]);
                k
            },
            CommandId::GistVerifyRemote => {
                let k: &'static [&'static str] = &["gist"];
                assert(k@.map_values(|w: &str| w@) =~= seq!["gist"@]);
                k
            },
            CommandId::TrashRestoreSelected => {
                let k: &'static [&'static str] = &["undelete"];
                assert(k@.map_values(|w: &str| w@) =~= seq!["undelete"@]);
                k
            },
            CommandId::TrashPurgeSelected => {
                let k: &'static [&'static str] = &["delete", "permanent"];
                assert(k@.map_values(|w: &str| w@) =~= seq!["delete"@, "permanent"@]);
                k
            },
            CommandId::AppQuit => {
                let k: &'static [&'static str] = &["exit"];
                assert(k@.map_values(|w: &str| w@) =~= seq!["exit"@]);
                k
            },
        }
    }
}

/// The registered command `id`.
pub fn get(id: CommandId) -> (c: Command)
    ensures
        c.id == id,
        c.slug@ == slug_of(id),
        c.category@ == category_of(id),
        c.title@ == title_of(id),
        c.description@ == description_of(id),
        keywords_view(c.keywords@) == keywords_of(id),
        c.palette == palette_of(id),
{
    Command {
        id,
        slug: id.slug(),
        category: id.category(),
        title: id.title(),
        description: id.description(),
        keywords: id.keywords(),
        palette: id.in_palette(),
    }
}

/// The first command in `ids` whose slug is `slug`.
pub open spec fn first_with_slug(ids: Seq<CommandId>, slug: Seq<char>) -> Option<CommandId>
    decreases ids.len(),
{
    if ids.len() == 0 {
        None
    } else if slug_of(ids[0]) == slug {
        Some(ids[0])
    } else {
        first_with_slug(ids.drop_first(), slug)
    }
}

/// The command registered under `slug`, if any.
pub fn by_slug(slug: &str) -> (r: Option<CommandId>)
    ensures
        r == first_with_slug(all_commands(), slug@),
{
    let ids = CommandId::all();
    let target = chars_of(slug);
    let ghost all = all_commands();
    let mut i: usize = 0;
    assert(all.skip(0) =~= all);
    while i < ids.len()
        invariant
            ids@ == all,
            all == all_commands(),
            i <= ids@.len(),
            target@ == slug@,
            first_with_slug(all, slug@) == first_with_slug(all.skip(i as int), slug@),
        decreases ids@.len() - i,
    {
        assert(all.skip(i as int)[0] == all[i as int]);
        assert(all.skip(i as int).drop_first() =~= all.skip(i + 1));
        let candidate = chars_of(ids[i].slug());
        if eq_chars(candidate.as_slice(), target.as_slice()) {
            return Some(ids[i]);
        }
        i = i + 1;
    }
    None
}

/// The command an old slug in `deprecated` (old slug, command) stands for:
/// the first entry with that slug.
pub open spec fn first_deprecated(deprecated: Seq<(Seq<char>, CommandId)>, slug: Seq<char>) -> Option<CommandId>
    decreases deprecated.len(),
{
    if deprecated.len() == 0 {
        None
    } else if deprecated[0].0 == slug {
        Some(deprecated[0].1)
    } else {
        first_deprecated(deprecated.drop_first(), slug)
    }
}

/// What a slug names: the command registered under it; else the command an
/// old, retired slug stands for, with the slug to use now.
pub open spec fn resolve_slug_spec(slug: Seq<char>, deprecated: Seq<(Seq<char>, CommandId)>) -> Option<
    (CommandId, Option<Seq<char>>),
> {
    match first_with_slug(all_commands(), slug) {
        Some(id) => Some((id, None)),
        None => match first_deprecated(deprecated, slug) {
            Some(id) => Some((id, Some(slug_of(id)))),
            None => None,
        },
    }
}

/// Retired slugs, as spec values.
pub open spec fn deprecated_view(deprecated: Seq<(&'static str, CommandId)>) -> Seq<(Seq<char>, CommandId)> {
    deprecated.map_values(|d: (&'static str, CommandId)| (d.0@, d.1))
}

/// What `slug` names, given the retired slugs and the commands they stand
/// for, as `resolve_slug_spec` says.
pub fn resolve_slug(slug: &str, deprecated: &Vec<(&'static str, CommandId)>) -> (r: Option<
    (CommandId, Option<&'static str>),
>)
    ensures
        match resolve_slug_spec(slug@, deprecated_view(deprecated@)) {
            Some((id, now)) => r matches Some((rid, rnow)) && rid == id && match (now, rnow) {
                (Some(a), Some(b)) => b@ == a,
                (None, None) => true,
                _ => false,
            },
            None => r is None,
        },
{
    if let Some(id) = by_slug(slug) {
        return Some((id, None));
    }
    let target = chars_of(slug);
    let ghost dv = deprecated_view(deprecated@);
    let mut i: usize = 0;
    assert(dv.skip(0) =~= dv);
    while i < deprecated.len()
        invariant
            i <= deprecated.len(),
            dv == deprecated_view(deprecated@),
            target@ == slug@,
            first_with_slug(all_commands(), slug@) is None,
            first_deprecated(dv, slug@) == first_deprecated(dv.skip(i as int), slug@),
        decreases deprecated.len() - i,
    {
        assert(dv.skip(i as int)[0] == dv[i as int]);
        assert(dv.skip(i as int).drop_first() =~= dv.skip(i + 1));
        let (old, id) = deprecated[i];
        let candidate = chars_of(old);
        if eq_chars(candidate.as_slice(), target.as_slice()) {
            return Some((id, Some(id.slug())));
        }
        i = i + 1;
    }
    None
}

// ---------------------------------------------------------------------------
// Slugs name one command each
// ---------------------------------------------------------------------------

/// A short key that tells the registered slugs apart: the length and the
/// first, sixth and next-to-last characters.
pub open spec fn slug_key(s: Seq<char>) -> (nat, char, char, char) {
    (s.len(), s[0], s[5], s[s.len() - 2])
}

/// The command whose slug has key `k`.
pub open spec fn command_of_key(k: (nat, char, char, char)) -> Option<CommandId> {
    if k == (12nat, 'p', 't', 'e') {
        Some(CommandId::PaletteOpen)
    } else if k == (8nat, 'n', 'o', 'w') {
        Some(CommandId::NavDown)
    } else if k == (6nat, 'n', 'p', 'u') {
        Some(CommandId::NavUp)
    } else if k == (9nat, 'n', 'i', 's') {
        Some(CommandId::NavFirst)
    } else if k == (8nat, 'n', 'a', 's') {
        Some(CommandId::NavLast)
    } else if k == (13nat, 'n', 'a', 'w') {
        Some(CommandId::NavPageDown)
    } else if k == (11nat, 'n', 'a', 'u') {
        Some(CommandId::NavPageUp)
    } else if k == (9nat, 'p', 'n', 'x') {
        Some(CommandId::PaneNext)
    } else if k == (13nat, 'p', 'p', 'u') {
        Some(CommandId::PanePrevious)
    } else if k == (9nat, 'p', 'b', 'c') {
        Some(CommandId::PaneBack)
    } else if k == (12nat, 'p', 'f', 'r') {
        Some(CommandId::PaneForward)
    } else if k == (16nat, 's', 'a', 't') {
        Some(CommandId::SidebarActivate)
    } else if k == (21nat, 's', 'a', 'e') {
        Some(CommandId::SidebarToggleFolder)
    } else if k == (14nat, 's', 'a', 'm') {
        Some(CommandId::SidebarRename)
    } else if k == (14nat, 's', 'a', 't') {
        Some(CommandId::SidebarDelete)
    } else if k == (18nat, 'l', 'e', 'e') {
        Some(CommandId::ListEnterPreview)
    } else if k == (21nat, 'p', 'e', 'e') {
        Some(CommandId::PreviewPreviousItem)
    } else if k == (17nat, 'p', 'e', 'e') {
        Some(CommandId::PreviewNextItem)
    } else if k == (26nat, 'p', 'e', 'p') {
        Some(CommandId::PreviewPreviousParagraph)
    } else if k == (22nat, 'p', 'e', 'p') {
        Some(CommandId::PreviewNextParagraph)
    } else if k == (24nat, 'p', 'e', 't') {
        Some(CommandId::PreviewExpandFragments)
    } else if k == (26nat, 'p', 'e', 't') {
        Some(CommandId::PreviewCollapseFragments)
    } else if k == (9nat, 'g', 'd', 'o') {
        Some(CommandId::GrabDrop)
    } else if k == (10nat, 'u', 's', 's') {
        Some(CommandId::UiDismiss)
    } else if k == (11nat, 's', 'e', 'e') {
        Some(CommandId::SnippetNew)
    } else if k == (20nat, 's', 'e', 'n') {
        Some(CommandId::SnippetEditContent)
    } else if k == (17nat, 's', 'e', 't') {
        Some(CommandId::SnippetEditNote)
    } else if k == (19nat, 's', 'e', 'm') {
        Some(CommandId::SnippetEditReadme)
    } else if k == (16nat, 's', 'e', 'u') {
        Some(CommandId::SnippetOpenGui)
    } else if k == (14nat, 's', 'e', 'm') {
        Some(CommandId::SnippetRename)
    } else if k == (12nat, 's', 'e', 'v') {
        Some(CommandId::SnippetMove)
    } else if k == (17nat, 's', 'e', 'g') {
        Some(CommandId::SnippetEditTags)
    } else if k == (21nat, 's', 'e', 'g') {
        Some(CommandId::SnippetEditLanguage)
    } else if k == (18nat, 's', 'e', 'i') {
        Some(CommandId::SnippetTogglePin)
    } else if k == (19nat, 's', 'e', 'c') {
        Some(CommandId::SnippetToggleLock)
    } else if k == (21nat, 's', 'e', 's') {
        Some(CommandId::SnippetMoveToTrash)
    } else if k == (12nat, 'f', 'e', 'd') {
        Some(CommandId::FragmentAdd)
    } else if k == (15nat, 'f', 'e', 'm') {
        Some(CommandId::FragmentRename)
    } else if k == (16nat, 'f', 'e', 'e') {
        Some(CommandId::FragmentReorder)
    } else if k == (15nat, 'f', 'e', 'v') {
        Some(CommandId::FragmentRemove)
    } else if k == (12nat, 'c', 'c', 'n') {
        Some(CommandId::CopyContent)
    } else if k == (15nat, 'c', 's', 'i') {
        Some(CommandId::CopySnippetId)
    } else if k == (17nat, 'c', 'm', 't') {
        Some(CommandId::CopyManagedPath)
    } else if k == (10nat, 'f', 'r', 'e') {
        Some(CommandId::FolderNew)
    } else if k == (13nat, 'f', 'r', 'm') {
        Some(CommandId::FolderRename)
    } else if k == (11nat, 'f', 'r', 'v') {
        Some(CommandId::FolderMove)
    } else if k == (13nat, 'f', 'r', 't') {
        Some(CommandId::FolderDelete)
    } else if k == (10nat, 't', 'e', 'm') {
        Some(CommandId::TagRename)
    } else if k == (10nat, 't', 'e', 't') {
        Some(CommandId::TagDelete)
    } else if k == (15nat, 'v', 'c', 'r') {
        Some(CommandId::ViewCycleSort)
    } else if k == (18nat, 'v', 's', 'e') {
        Some(CommandId::ViewSortModified)
    } else if k == (15nat, 'v', 's', 'l') {
        Some(CommandId::ViewSortTitle)
    } else if k == (17nat, 'v', 's', 'e') {
        Some(CommandId::ViewSortCreated)
    } else if k == (24nat, 'v', 't', 'r') {
        Some(CommandId::ViewToggleLineNumbers)
    } else if k == (25nat, 'v', 't', 'u') {
        Some(CommandId::ViewToggleSimplifiedUi)
    } else if k == (25nat, 'v', 't', 's') {
        Some(CommandId::ViewToggleFragmentList)
    } else if k == (19nat, 'v', 't', 't') {
        Some(CommandId::ViewToggleDensity)
    } else if k == (19nat, 'v', 't', 'a') {
        Some(CommandId::ViewToggleSidebar)
    } else if k == (21nat, 'v', 'c', 'c') {
        Some(CommandId::ViewCycleAppearance)
    } else if k == (30nat, 'v', 'c', 'd') {
        Some(CommandId::ViewClearAppearanceOverride)
    } else if k == (15nat, 'v', 'p', 'm') {
        Some(CommandId::ViewPickTheme)
    } else if k == (16nat, 'v', 't', 'l') {
        Some(CommandId::ViewToggleHelp)
    } else if k == (11nat, 'h', 'f', 'e') {
        Some(CommandId::HelpFilter)
    } else if k == (17nat, 'h', 't', 'p') {
        Some(CommandId::HelpToggleScope)
    } else if k == (15nat, 'h', 'c', 'r') {
        Some(CommandId::HelpCycleSort)
    } else if k == (14nat, 'l', 'r', 'c') {
        Some(CommandId::LibrarySearch)
    } else if k == (14nat, 'l', 'r', 'a') {
        Some(CommandId::LibraryRescan)
    } else if k == (20nat, 'l', 'r', 's') {
        Some(CommandId::LibraryToggleTrash)
    } else if k == (20nat, 'l', 'r', 'e') {
        Some(CommandId::LibraryClearFilter)
    } else if k == (24nat, 'l', 'r', 'e') {
        Some(CommandId::LibraryTogglePublishedFilter)
    } else if k == (18nat, 'g', 'o', 'l') {
        Some(CommandId::GitToggleConsole)
    } else if k == (10nat, 'g', 'a', 'u') {
        Some(CommandId::GitBackup)
    } else if k == (10nat, 'g', 'o', 'i') {
        Some(CommandId::GitCommit)
    } else if k == (18nat, 'g', 'o', 'g') {
        Some(CommandId::GitCommitWithMessage)
    } else if k == (8nat, 'g', 'u', 's') {
        Some(CommandId::GitPush)
    } else if k == (9nat, 'g', 'e', 'c') {
        Some(CommandId::GitFetchRemoteStatus)
    } else if k == (8nat, 'g', 'u', 'l') {
        Some(CommandId::GitPull)
    } else if k == (20nat, 'g', 'o', 'l') {
        Some(CommandId::GitToggleAutoPull)
    } else if k == (11nat, 'g', 'e', 's') {
        Some(CommandId::GitRefreshLocalStatus)
    } else if k == (8nat, 'g', 'n', 'i') {
        Some(CommandId::GitInitRepository)
    } else if k == (24nat, 'g', 'n', 'a') {
        Some(CommandId::GitInitOrSetInterval)
    } else if k == (20nat, 'g', 'o', 's') {
        Some(CommandId::GitToggleAutoPush)
    } else if k == (25nat, 'g', 'o', 'i') {
        Some(CommandId::GitToggleBackupOnQuit)
    } else if k == (21nat, 'g', 'a', 'u') {
        Some(CommandId::GitPauseAutoBackup)
    } else if k == (28nat, 'g', 'e', 'a') {
        Some(CommandId::GitSetAutoCommitInterval)
    } else if k == (17nat, 'g', 't', 'e') {
        Some(CommandId::GistTogglePanel)
    } else if k == (9nat, 'g', 'p', 's') {
        Some(CommandId::GistPush)
    } else if k == (16nat, 'g', 'p', 'i') {
        Some(CommandId::GistPushPublic)
    } else if k == (13nat, 'g', 'c', 'r') {
        Some(CommandId::GistCopyUrl)
    } else if k == (17nat, 'g', 'o', 'e') {
        Some(CommandId::GistOpenInBrowser)
    } else if k == (11nat, 'g', 'a', 'c') {
        Some(CommandId::GistAttach)
    } else if k == (11nat, 'g', 'd', 'c') {
        Some(CommandId::GistDetach)
    } else if k == (11nat, 'g', 'd', 't') {
        Some(CommandId::GistDelete)
    } else if k == (11nat, 'g', 'v', 'f') {
        Some(CommandId::GistVerifyRemote)
    } else if k == (22nat, 't', '.', 'e') {
        Some(CommandId::TrashRestoreSelected)
    } else if k == (20nat, 't', '.', 'e') {
        Some(CommandId::TrashPurgeSelected)
    } else if k == (8nat, 'a', 'u', 'i') {
        Some(CommandId::AppQuit)
    } else {
        None
    }
}

/// A command's slug's key leads back to the command.
proof fn lemma_slug_key_identifies(id: CommandId)
    ensures
        command_of_key(slug_key(slug_of(id))) == Some(id),
{
    match id {
        CommandId::PaletteOpen => {
            reveal_strlit("palette.open");
        },
        CommandId::NavDown => {
            reveal_strlit("nav.down");
        },
        CommandId::NavUp => {
            reveal_strlit("nav.up");
        },
        CommandId::NavFirst => {
            reveal_strlit("nav.first");
        },
        CommandId::NavLast => {
            reveal_strlit("nav.last");
        },
        CommandId::NavPageDown => {
            reveal_strlit("nav.page-down");
        },
        CommandId::NavPageUp => {
            reveal_strlit("nav.page-up");
        },
        CommandId::PaneNext => {
            reveal_strlit("pane.next");
        },
        CommandId::PanePrevious => {
            reveal_strlit("pane.previous");
        },
        CommandId::PaneBack => {
            reveal_strlit("pane.back");
        },
        CommandId::PaneForward => {
            reveal_strlit("pane.forward");
        },
        CommandId::SidebarActivate => {
            reveal_strlit("sidebar.activate");
        },
        CommandId::SidebarToggleFolder => {
            reveal_strlit("sidebar.toggle-folder");
        },
        CommandId::SidebarRename => {
            reveal_strlit("sidebar.rename");
        },
        CommandId::SidebarDelete => {
            reveal_strlit("sidebar.delete");
        },
        CommandId::ListEnterPreview => {
            reveal_strlit("list.enter-preview");
        },
        CommandId::PreviewPreviousItem => {
            reveal_strlit("preview.previous-item");
        },
        CommandId::PreviewNextItem => {
            reveal_strlit("preview.next-item");
        },
        CommandId::PreviewPreviousParagraph => {
            reveal_strlit("preview.previous-paragraph");
        },
        CommandId::PreviewNextParagraph => {
            reveal_strlit("preview.next-paragraph");
        },
        CommandId::PreviewExpandFragments => {
            reveal_strlit("preview.expand-fragments");
        },
        CommandId::PreviewCollapseFragments => {
            reveal_strlit("preview.collapse-fragments");
        },
        CommandId::GrabDrop => {
            reveal_strlit("grab.drop");
        },
        CommandId::UiDismiss => {
            reveal_strlit("ui.dismiss");
        },
        CommandId::SnippetNew => {
            reveal_strlit("snippet.new");
        },
        CommandId::SnippetEditContent => {
            reveal_strlit("snippet.edit-content");
        },
        CommandId::SnippetEditNote => {
            reveal_strlit("snippet.edit-note");
        },
        CommandId::SnippetEditReadme => {
            reveal_strlit("snippet.edit-readme");
        },
        CommandId::SnippetOpenGui => {
            reveal_strlit("snippet.open-gui");
        },
        CommandId::SnippetRename => {
            reveal_strlit("snippet.rename");
        },
        CommandId::SnippetMove => {
            reveal_strlit("snippet.move");
        },
        CommandId::SnippetEditTags => {
            reveal_strlit("snippet.edit-tags");
        },
        CommandId::SnippetEditLanguage => {
            reveal_strlit("snippet.edit-language");
        },
        CommandId::SnippetTogglePin => {
            reveal_strlit("snippet.toggle-pin");
        },
        CommandId::SnippetToggleLock => {
            reveal_strlit("snippet.toggle-lock");
        },
        CommandId::SnippetMoveToTrash => {
            reveal_strlit("snippet.move-to-trash");
        },
        CommandId::FragmentAdd => {
            reveal_strlit("fragment.add");
        },
        CommandId::FragmentRename => {
            reveal_strlit("fragment.rename");
        },
        CommandId::FragmentReorder => {
            reveal_strlit("fragment.reorder");
        },
        CommandId::FragmentRemove => {
            reveal_strlit("fragment.remove");
        },
        CommandId::CopyContent => {
            reveal_strlit("copy.content");
        },
        CommandId::CopySnippetId => {
            reveal_strlit("copy.snippet-id");
        },
        CommandId::CopyManagedPath => {
            reveal_strlit("copy.managed-path");
        },
        CommandId::FolderNew => {
            reveal_strlit("folder.new");
        },
        CommandId::FolderRename => {
            reveal_strlit("folder.rename");
        },
        CommandId::FolderMove => {
            reveal_strlit("folder.move");
        },
        CommandId::FolderDelete => {
            reveal_strlit("folder.delete");
        },
        CommandId::TagRename => {
            reveal_strlit("tag.rename");
        },
        CommandId::TagDelete => {
            reveal_strlit("tag.delete");
        },
        CommandId::ViewCycleSort => {
            reveal_strlit("view.cycle-sort");
        },
        CommandId::ViewSortModified => {
            reveal_strlit("view.sort-modified");
        },
        CommandId::ViewSortTitle => {
            reveal_strlit("view.sort-title");
        },
        CommandId::ViewSortCreated => {
            reveal_strlit("view.sort-created");
        },
        CommandId::ViewToggleLineNumbers => {
            reveal_strlit("view.toggle-line-numbers");
        },
        CommandId::ViewToggleSimplifiedUi => {
            reveal_strlit("view.toggle-simplified-ui");
        },
        CommandId::ViewToggleFragmentList => {
            reveal_strlit("view.toggle-fragment-list");
        },
        CommandId::ViewToggleDensity => {
            reveal_strlit("view.toggle-density");
        },
        CommandId::ViewToggleSidebar => {
            reveal_strlit("view.toggle-sidebar");
        },
        CommandId::ViewCycleAppearance => {
            reveal_strlit("view.cycle-appearance");
        },
        CommandId::ViewClearAppearanceOverride => {
            reveal_strlit("view.clear-appearance-override");
        },
        CommandId::ViewPickTheme => {
            reveal_strlit("view.pick-theme");
        },
        CommandId::ViewToggleHelp => {
            reveal_strlit("view.toggle-help");
        },
        CommandId::HelpFilter => {
            reveal_strlit("help.filter");
        },
        CommandId::HelpToggleScope => {
            reveal_strlit("help.toggle-scope");
        },
        CommandId::HelpCycleSort => {
            reveal_strlit("help.cycle-sort");
        },
        CommandId::LibrarySearch => {
            reveal_strlit("library.search");
        },
        CommandId::LibraryRescan => {
            reveal_strlit("library.rescan");
        },
        CommandId::LibraryToggleTrash => {
            reveal_strlit("library.toggle-trash");
        },
        CommandId::LibraryClearFilter => {
            reveal_strlit("library.clear-filter");
        },
        CommandId::LibraryTogglePublishedFilter => {
            reveal_strlit("library.toggle-published");
        },
        CommandId::GitToggleConsole => {
            reveal_strlit("git.toggle-console");
        },
        CommandId::GitBackup => {
            reveal_strlit("git.backup");
        },
        CommandId::GitCommit => {
            reveal_strlit("git.commit");
        },
        CommandId::GitCommitWithMessage => {
            reveal_strlit("git.commit-message");
        },
        CommandId::GitPush => {
            reveal_strlit("git.push");
        },
        CommandId::GitFetchRemoteStatus => {
            reveal_strlit("git.fetch");
        },
        CommandId::GitPull => {
            reveal_strlit("git.pull");
        },
        CommandId::GitToggleAutoPull => {
            reveal_strlit("git.toggle-auto-pull");
        },
        CommandId::GitRefreshLocalStatus => {
            reveal_strlit("git.refresh");
        },
        CommandId::GitInitRepository => {
            reveal_strlit("git.init");
        },
        CommandId::GitInitOrSetInterval => {
            reveal_strlit("git.init-or-set-interval");
        },
        CommandId::GitToggleAutoPush => {
            reveal_strlit("git.toggle-auto-push");
        },
        CommandId::GitToggleBackupOnQuit => {
            reveal_strlit("git.toggle-backup-on-quit");
        },
        CommandId::GitPauseAutoBackup => {
            reveal_strlit("git.pause-auto-backup");
        },
        CommandId::GitSetAutoCommitInterval => {
            reveal_strlit("git.set-auto-commit-interval");
        },
        CommandId::GistTogglePanel => {
            reveal_strlit("gist.toggle-panel");
        },
        CommandId::GistPush => {
            reveal_strlit("gist.push");
        },
        CommandId::GistPushPublic => {
            reveal_strlit("gist.push-public");
        },
        CommandId::GistCopyUrl => {
            reveal_strlit("gist.copy-url");
        },
        CommandId::GistOpenInBrowser => {
            reveal_strlit("gist.open-browser");
        },
        CommandId::GistAttach => {
            reveal_strlit("gist.attach");
        },
        CommandId::GistDetach => {
            reveal_strlit("gist.detach");
        },
        CommandId::GistDelete => {
            reveal_strlit("gist.delete");
        },
        CommandId::GistVerifyRemote => {
            reveal_strlit("gist.verify");
        },
        CommandId::TrashRestoreSelected => {
            reveal_strlit("trash.restore-selected");
        },
        CommandId::TrashPurgeSelected => {
            reveal_strlit("trash.purge-selected");
        },
        CommandId::AppQuit => {
            reveal_strlit("app.quit");
        },
    }
}

/// Every command is registered.
proof fn lemma_registered(id: CommandId)
    ensures
        all_commands().contains(id),
{
    let all = all_commands();
    match id {
        CommandId::PaletteOpen => {
            assert(all[0] == CommandId::PaletteOpen);
        },
        CommandId::NavDown => {
            assert(all[1] == CommandId::NavDown);
        },
        CommandId::NavUp => {
            assert(all[2] == CommandId::NavUp);
        },
        CommandId::NavFirst => {
            assert(all[3] == CommandId::NavFirst);
        },
        CommandId::NavLast => {
            assert(all[4] == CommandId::NavLast);
        },
        CommandId::NavPageDown => {
            assert(all[5] == CommandId::NavPageDown);
        },
        CommandId::NavPageUp => {
            assert(all[6] == CommandId::NavPageUp);
        },
        CommandId::PaneNext => {
            assert(all[7] == CommandId::PaneNext);
        },
        CommandId::PanePrevious => {
            assert(all[8] == CommandId::PanePrevious);
        },
        CommandId::PaneBack => {
            assert(all[9] == CommandId::PaneBack);
        },
        CommandId::PaneForward => {
            assert(all[10] == CommandId::PaneForward);
        },
        CommandId::SidebarActivate => {
            assert(all[11] == CommandId::SidebarActivate);
        },
        CommandId::SidebarToggleFolder => {
            assert(all[12] == CommandId::SidebarToggleFolder);
        },
        CommandId::SidebarRename => {
            assert(all[13] == CommandId::SidebarRename);
        },
        CommandId::SidebarDelete => {
            assert(all[14] == CommandId::SidebarDelete);
        },
        CommandId::ListEnterPreview => {
            assert(all[15] == CommandId::ListEnterPreview);
        },
        CommandId::PreviewPreviousItem => {
            assert(all[16] == CommandId::PreviewPreviousItem);
        },
        CommandId::PreviewNextItem => {
            assert(all[17] == CommandId::PreviewNextItem);
        },
        CommandId::PreviewPreviousParagraph => {
            assert(all[18] == CommandId::PreviewPreviousParagraph);
        },
        CommandId::PreviewNextParagraph => {
            assert(all[19] == CommandId::PreviewNextParagraph);
        },
        CommandId::PreviewExpandFragments => {
            assert(all[20] == CommandId::PreviewExpandFragments);
        },
        CommandId::PreviewCollapseFragments => {
            assert(all[21] == CommandId::PreviewCollapseFragments);
        },
        CommandId::GrabDrop => {
            assert(all[22] == CommandId::GrabDrop);
        },
        CommandId::UiDismiss => {
            assert(all[23] == CommandId::UiDismiss);
        },
        CommandId::SnippetNew => {
            assert(all[24] == CommandId::SnippetNew);
        },
        CommandId::SnippetEditContent => {
            assert(all[25] == CommandId::SnippetEditContent);
        },
        CommandId::SnippetEditNote => {
            assert(all[26] == CommandId::SnippetEditNote);
        },
        CommandId::SnippetEditReadme => {
            assert(all[27] == CommandId::SnippetEditReadme);
        },
        CommandId::SnippetOpenGui => {
            assert(all[28] == CommandId::SnippetOpenGui);
        },
        CommandId::SnippetRename => {
            assert(all[29] == CommandId::SnippetRename);
        },
        CommandId::SnippetMove => {
            assert(all[30] == CommandId::SnippetMove);
        },
        CommandId::SnippetEditTags => {
            assert(all[31] == CommandId::SnippetEditTags);
        },
        CommandId::SnippetEditLanguage => {
            assert(all[32] == CommandId::SnippetEditLanguage);
        },
        CommandId::SnippetTogglePin => {
            assert(all[33] == CommandId::SnippetTogglePin);
        },
        CommandId::SnippetToggleLock => {
            assert(all[34] == CommandId::SnippetToggleLock);
        },
        CommandId::SnippetMoveToTrash => {
            assert(all[35] == CommandId::SnippetMoveToTrash);
        },
        CommandId::FragmentAdd => {
            assert(all[36] == CommandId::FragmentAdd);
        },
        CommandId::FragmentRename => {
            assert(all[37] == CommandId::FragmentRename);
        },
        CommandId::FragmentReorder => {
            assert(all[38] == CommandId::FragmentReorder);
        },
        CommandId::FragmentRemove => {
            assert(all[39] == CommandId::FragmentRemove);
        },
        CommandId::CopyContent => {
            assert(all[40] == CommandId::CopyContent);
        },
        CommandId::CopySnippetId => {
            assert(all[41] == CommandId::CopySnippetId);
        },
        CommandId::CopyManagedPath => {
            assert(all[42] == CommandId::CopyManagedPath);
        },
        CommandId::FolderNew => {
            assert(all[43] == CommandId::FolderNew);
        },
        CommandId::FolderRename => {
            assert(all[44] == CommandId::FolderRename);
        },
        CommandId::FolderMove => {
            assert(all[45] == CommandId::FolderMove);
        },
        CommandId::FolderDelete => {
            assert(all[46] == CommandId::FolderDelete);
        },
        CommandId::TagRename => {
            assert(all[47] == CommandId::TagRename);
        },
        CommandId::TagDelete => {
            assert(all[48] == CommandId::TagDelete);
        },
        CommandId::ViewCycleSort => {
            assert(all[49] == CommandId::ViewCycleSort);
        },
        CommandId::ViewSortModified => {
            assert(all[50] == CommandId::ViewSortModified);
        },
        CommandId::ViewSortTitle => {
            assert(all[51] == CommandId::ViewSortTitle);
        },
        CommandId::ViewSortCreated => {
            assert(all[52] == CommandId::ViewSortCreated);
        },
        CommandId::ViewToggleLineNumbers => {
            assert(all[53] == CommandId::ViewToggleLineNumbers);
        },
        CommandId::ViewToggleSimplifiedUi => {
            assert(all[54] == CommandId::ViewToggleSimplifiedUi);
        },
        CommandId::ViewToggleFragmentList => {
            assert(all[55] == CommandId::ViewToggleFragmentList);
        },
        CommandId::ViewToggleDensity => {
            assert(all[56] == CommandId::ViewToggleDensity);
        },
        CommandId::ViewToggleSidebar => {
            assert(all[57] == CommandId::ViewToggleSidebar);
        },
        CommandId::ViewCycleAppearance => {
            assert(all[58] == CommandId::ViewCycleAppearance);
        },
        CommandId::ViewClearAppearanceOverride => {
            assert(all[59] == CommandId::ViewClearAppearanceOverride);
        },
        CommandId::ViewPickTheme => {
            assert(all[60] == CommandId::ViewPickTheme);
        },
        CommandId::ViewToggleHelp => {
            assert(all[61] == CommandId::ViewToggleHelp);
        },
        CommandId::HelpFilter => {
            assert(all[62] == CommandId::HelpFilter);
        },
        CommandId::HelpToggleScope => {
            assert(all[63] == CommandId::HelpToggleScope);
        },
        CommandId::HelpCycleSort => {
            assert(all[64] == CommandId::HelpCycleSort);
        },
        CommandId::LibrarySearch => {
            assert(all[65] == CommandId::LibrarySearch);
        },
        CommandId::LibraryRescan => {
            assert(all[66] == CommandId::LibraryRescan);
        },
        CommandId::LibraryToggleTrash => {
            assert(all[67] == CommandId::LibraryToggleTrash);
        },
        CommandId::LibraryClearFilter => {
            assert(all[68] == CommandId::LibraryClearFilter);
        },
        CommandId::LibraryTogglePublishedFilter => {
            assert(all[69] == CommandId::LibraryTogglePublishedFilter);
        },
        CommandId::GitToggleConsole => {
            assert(all[70] == CommandId::GitToggleConsole);
        },
        CommandId::GitBackup => {
            assert(all[71] == CommandId::GitBackup);
        },
        CommandId::GitCommit => {
            assert(all[72] == CommandId::GitCommit);
        },
        CommandId::GitCommitWithMessage => {
            assert(all[73] == CommandId::GitCommitWithMessage);
        },
        CommandId::GitPush => {
            assert(all[74] == CommandId::GitPush);
        },
        CommandId::GitFetchRemoteStatus => {
            assert(all[75] == CommandId::GitFetchRemoteStatus);
        },
        CommandId::GitPull => {
            assert(all[76] == CommandId::GitPull);
        },
        CommandId::GitToggleAutoPull => {
            assert(all[77] == CommandId::GitToggleAutoPull);
        },
        CommandId::GitRefreshLocalStatus => {
            assert(all[78] == CommandId::GitRefreshLocalStatus);
        },
        CommandId::GitInitRepository => {
            assert(all[79] == CommandId::GitInitRepository);
        },
        CommandId::GitInitOrSetInterval => {
            assert(all[80] == CommandId::GitInitOrSetInterval);
        },
        CommandId::GitToggleAutoPush => {
            assert(all[81] == CommandId::GitToggleAutoPush);
        },
        CommandId::GitToggleBackupOnQuit => {
            assert(all[82] == CommandId::GitToggleBackupOnQuit);
        },
        CommandId::GitPauseAutoBackup => {
            assert(all[83] == CommandId::GitPauseAutoBackup);
        },
        CommandId::GitSetAutoCommitInterval => {
            assert(all[84] == CommandId::GitSetAutoCommitInterval);
        },
        CommandId::GistTogglePanel => {
            assert(all[85] == CommandId::GistTogglePanel);
        },
        CommandId::GistPush => {
            assert(all[86] == CommandId::GistPush);
        },
        CommandId::GistPushPublic => {
            assert(all[87] == CommandId::GistPushPublic);
        },
        CommandId::GistCopyUrl => {
            assert(all[88] == CommandId::GistCopyUrl);
        },
        CommandId::GistOpenInBrowser => {
            assert(all[89] == CommandId::GistOpenInBrowser);
        },
        CommandId::GistAttach => {
            assert(all[90] == CommandId::GistAttach);
        },
        CommandId::GistDetach => {
            assert(all[91] == CommandId::GistDetach);
        },
        CommandId::GistDelete => {
            assert(all[92] == CommandId::GistDelete);
        },
        CommandId::GistVerifyRemote => {
            assert(all[93] == CommandId::GistVerifyRemote);
        },
        CommandId::TrashRestoreSelected => {
            assert(all[94] == CommandId::TrashRestoreSelected);
        },
        CommandId::TrashPurgeSelected => {
            assert(all[95] == CommandId::TrashPurgeSelected);
        },
        CommandId::AppQuit => {
            assert(all[96] == CommandId::AppQuit);
        },
    }
}

/// The first command with the slug of `id`, among commands that share it
/// with no other, is `id`.
proof fn lemma_first_with_unique_slug(ids: Seq<CommandId>, id: CommandId)
    requires
        ids.contains(id),
        forall|other: CommandId| #[trigger] slug_of(other) == slug_of(id) ==> other == id,
    ensures
        first_with_slug(ids, slug_of(id)) == Some(id),
    decreases ids.len(),
{
    if ids[0] != id {
        let k = choose|k: int| 0 <= k < ids.len() && ids[k] == id;
        assert(ids.drop_first()[k - 1] == id);
        lemma_first_with_unique_slug(ids.drop_first(), id);
    }
}

/// No two commands share a slug.
pub proof fn law_slugs_are_unique(a: CommandId, b: CommandId)
    ensures
        slug_of(a) == slug_of(b) ==> a == b,
{
    lemma_slug_key_identifies(a);
    lemma_slug_key_identifies(b);
}

/// Looking a command up by its slug finds that command.
pub proof fn law_slug_finds_its_command(id: CommandId)
    ensures
        first_with_slug(all_commands(), slug_of(id)) == Some(id),
{
    lemma_registered(id);
    assert forall|other: CommandId| #[trigger] slug_of(other) == slug_of(id) implies other == id by {
        law_slugs_are_unique(other, id);
    }
    lemma_first_with_unique_slug(all_commands(), id);
}

/// What `shlex::split` makes of a command line: its words, or `None` when
/// the quoting is unbalanced.
pub uninterp spec fn shell_words(line: Seq<char>) -> Option<Seq<Seq<char>>>;

/// Strings, as spec values.
pub open spec fn words_view(words: Seq<String>) -> Seq<Seq<char>> {
    words.map_values(|w: String| w@)
}

/// `shlex::split(line)`.
#[verifier::external_body]
fn split_words(line: &str) -> (r: Option<Vec<String>>)
    ensures
        match r {
            Some(words) => shell_words(line@) == Some(words_view(words@)),
            None => shell_words(line@) is None,
        },
{
    shlex::split(line)
}

/// The name of the configured GUI editor: the stem of the first word of its
/// command line, when that is not empty.
pub open spec fn gui_editor_name_spec(gui_editor: Option<Seq<char>>) -> Option<Seq<char>> {
    match gui_editor {
        None => None,
        Some(line) => match shell_words(line) {
            None => None,
            Some(words) => if words.len() == 0 {
                None
            } else {
                match path_stem(words[0]) {
                    Some(stem) => if stem.len() > 0 {
                        Some(stem)
                    } else {
                        None
                    },
                    None => None,
                }
            },
        },
    }
}

/// The name of the configured GUI editor, for titles such as "Open in zed".
pub fn gui_editor_name(gui_editor: Option<&str>) -> (r: Option<String>)
    ensures
        match r {
            Some(name) => gui_editor_name_spec(
                match gui_editor {
                    Some(g) => Some(g@),
                    None => None,
                },
            ) == Some(name@),
            None => gui_editor_name_spec(
                match gui_editor {
                    Some(g) => Some(g@),
                    None => None,
                },
            ) is None,
        },
{
    let line = match gui_editor {
        Some(g) => g,
        None => {
            return None;
        },
    };
    let words = match split_words(line) {
        Some(w) => w,
        None => {
            return None;
        },
    };
    if words.len() == 0 {
        return None;
    }
    assert(words_view(words@)[0] == words@[0]@);
    match file_stem(words[0].as_str()) {
        Some(stem) => {
            if chars_of(stem.as_str()).len() > 0 {
                Some(stem)
            } else {
                None
            }
        },
        None => None,
    }
}

/// The title a command shows: "Open in" and the GUI editor's name for the
/// GUI-editor command when one is configured, else its registered title.
pub open spec fn display_title_spec(id: CommandId, title: Seq<char>, gui_editor: Option<Seq<char>>) -> Seq<char> {
    if id == CommandId::SnippetOpenGui && gui_editor_name_spec(gui_editor) is Some {
        "Open in "@ + gui_editor_name_spec(gui_editor)->0
    } else {
        title
    }
}

/// The title a command shows, naming the configured GUI editor where it
/// applies.
pub fn display_title(command: &Command, gui_editor: Option<&str>) -> (s: String)
    ensures
        s@ == display_title_spec(
            command.id,
            command.title@,
            match gui_editor {
                Some(g) => Some(g@),
                None => None,
            },
        ),
{
    if command.id == CommandId::SnippetOpenGui {
        if let Some(name) = gui_editor_name(gui_editor) {
            let mut s = String::new();
            push_str(&mut s, "Open in ");
            push_str(&mut s, name.as_str());
            return s;
        }
    }
    copy_string(command.title)
}

} // verus!
