use snip::error::ErrorKind;
use snip::paths::PathPart;
use snip::service::{
    all_names, delete_tag, join_names, doctor, edit_fragment, ensure_hash, ensure_mutable, has_edit_changes, path_to_slashes, rename_tag,
    reorder_fragment, resolve_fragment_index, resolve_trash_entry, validate_folder, DoctorReport, EditOptions,
    Fingerprint, FragmentEditOptions, PackageCheck, TrashEntry, edit_fields, edit_preflight, fragment_change_set, plan_create, plan_reorder,
    check_manifest_replacement, organize_step,
};

const A: u128 = 0x67e5504410b1426f9247bb680e5fe0c8;
const B: u128 = 0x67e55044aaaa426f9247bb680e5fe0c8;
const C: u128 = 0x0123456789abcdef0123456789abcdef;

fn strings(items: &[&str]) -> Vec<String> {
    items.iter().map(|item| (*item).to_owned()).collect()
}

#[test]
fn fragment_selectors_take_indices_and_uuid_prefixes() {
    let ids = vec![A, B, C];
    assert_eq!(resolve_fragment_index(&ids, None).unwrap(), 0);
    assert_eq!(resolve_fragment_index(&ids, Some("2")).unwrap(), 1);
    assert_eq!(resolve_fragment_index(&ids, Some("+3")).unwrap(), 2);
    let zero = resolve_fragment_index(&ids, Some("0")).unwrap_err();
    assert_eq!((zero.kind, zero.to_string().as_str()), (ErrorKind::Usage, "fragment indices start at 1"));
    let far = resolve_fragment_index(&ids, Some("4")).unwrap_err();
    assert_eq!(far.kind, ErrorKind::NotFound);
    assert_eq!(far.to_string(), "fragment index 4 is out of range; snippet has 3 fragments");
    assert_eq!(resolve_fragment_index(&ids, Some("0123-4567")).unwrap(), 2);
    assert_eq!(resolve_fragment_index(&ids, Some("67E55044A")).unwrap(), 1);
    let short = resolve_fragment_index(&ids, Some("67e5")).unwrap_err();
    assert_eq!(
        short.to_string(),
        "fragment selector must be a 1-based index or UUID prefix of at least 8 hex digits"
    );
    assert_eq!(
        resolve_fragment_index(&ids, Some("67e55044")).unwrap_err().to_string(),
        "ambiguous fragment UUID \"67e55044\": 2 matches"
    );
    assert_eq!(
        resolve_fragment_index(&ids, Some("ffffffff")).unwrap_err().to_string(),
        "no fragment UUID matches \"ffffffff\""
    );
}

#[test]
fn reordering_moves_one_fragment() {
    let mut ids = vec![A, B, C];
    reorder_fragment(&mut ids, "3", 1).unwrap();
    assert_eq!(ids, vec![C, A, B]);
    reorder_fragment(&mut ids, "67e55044a", 3).unwrap();
    assert_eq!(ids, vec![C, A, B]);
    reorder_fragment(&mut ids, "1", 2).unwrap();
    assert_eq!(ids, vec![A, C, B]);
    let zero = reorder_fragment(&mut ids, "1", 0).unwrap_err();
    assert_eq!(zero.to_string(), "fragment positions start at 1");
    let far = reorder_fragment(&mut ids, "1", 4).unwrap_err();
    assert_eq!(far.to_string(), "position 4 is out of range; snippet has 3 fragments");
    assert_eq!(ids, vec![A, C, B]);
}

#[test]
fn renaming_a_tag_edits_snippets_and_the_registry() {
    let snippets = vec![strings(&["Rust", "cli"]), strings(&["go"]), strings(&["rust", "RUST"])];
    let registry = strings(&["rust", "cli", "Systems", "systems"]);
    let changes = rename_tag(&snippets, &registry, "RUST", "  systems ").unwrap();
    assert_eq!(changes.changed, 2);
    assert_eq!(changes.edits[0], Some(strings(&["systems", "cli"])));
    assert_eq!(changes.edits[1], None);
    assert_eq!(changes.edits[2], Some(strings(&["systems", "systems"])));
    assert_eq!(changes.registry, Some(strings(&["systems", "cli"])));
    let empty = rename_tag(&snippets, &registry, "rust", "   ").unwrap_err();
    assert_eq!((empty.kind, empty.to_string().as_str()), (ErrorKind::Usage, "new tag cannot be empty"));
}

#[test]
fn deleting_a_tag_edits_snippets_and_the_registry() {
    let snippets = vec![strings(&["Rust", "cli"]), strings(&["go"])];
    let changes = delete_tag(&snippets, &strings(&["rust", "go"]), "RUST");
    assert_eq!(changes.changed, 1);
    assert_eq!(changes.edits, vec![Some(strings(&["cli"])), None]);
    assert_eq!(changes.registry, Some(strings(&["go"])));
    let untouched = delete_tag(&snippets, &strings(&["go"]), "python");
    assert_eq!(untouched.changed, 0);
    assert_eq!(untouched.registry, None);
}

#[test]
fn fragment_edits_become_snippet_edits() {
    let options = FragmentEditOptions {
        title: Some("Main".to_owned()),
        language: None,
        content: Some("fn main() {}".to_owned()),
        note: Some(None),
        if_hash: Some(Fingerprint("abc".to_owned())),
        force: true,
    };
    let edit = edit_fragment("2", &options);
    assert_eq!(edit.fragment_selector.as_deref(), Some("2"));
    assert_eq!(edit.fragment_title.as_deref(), Some("Main"));
    assert_eq!(edit.content.as_deref(), Some("fn main() {}"));
    assert_eq!(edit.note, Some(None));
    assert_eq!(edit.if_hash.map(|hash| hash.0), Some("abc".to_owned()));
    assert!(edit.force);
    assert!(edit.title.is_none() && edit.tags.is_none() && edit.readme.is_none());
    assert!(!has_edit_changes(&EditOptions { fragment_selector: Some("1".to_owned()), force: true, ..EditOptions::default() }));
    assert!(has_edit_changes(&EditOptions { pinned: Some(true), ..EditOptions::default() }));
}

#[test]
fn locks_and_fingerprints_guard_changes() {
    assert!(ensure_mutable(A, false, false).is_ok());
    assert!(ensure_mutable(A, true, true).is_ok());
    let locked = ensure_mutable(A, true, false).unwrap_err();
    assert_eq!(locked.kind, ErrorKind::Conflict);
    assert_eq!(
        locked.to_string(),
        "snippet 67e55044-10b1-426f-9247-bb680e5fe0c8 is locked; pass --force to modify it"
    );
    let current = Fingerprint("new".to_owned());
    assert!(ensure_hash(None, &current).is_ok());
    assert!(ensure_hash(Some(&Fingerprint("new".to_owned())), &current).is_ok());
    assert_eq!(
        ensure_hash(Some(&Fingerprint("old".to_owned())), &current).unwrap_err().to_string(),
        "snippet changed since it was read: expected old, found new"
    );
}

#[test]
fn folders_must_be_plain_relative_paths() {
    assert_eq!(validate_folder("/work/tools/").unwrap(), "work/tools");
    assert_eq!(validate_folder("a").unwrap(), "a");
    assert_eq!(
        validate_folder("../up").unwrap_err().to_string(),
        "folder must be a relative path without . or ..: \"../up\""
    );
    assert!(validate_folder("./here").is_err());
    assert!(validate_folder("a/../b").is_err());
}

#[test]
fn the_health_report_collects_findings_in_order() {
    let report: DoctorReport = doctor(
        true,
        Some("cannot read tags.toml".to_owned()),
        strings(&["t1", "t2"]),
        vec![Ok("rolled back transaction t1".to_owned()), Err("missing transaction.toml".to_owned())],
        Ok(vec![
            PackageCheck { path: "/lib/a".to_owned(), outcome: Ok((A, Some("a".to_owned()), "a".to_owned())) },
            PackageCheck { path: "/lib/b".to_owned(), outcome: Ok((A, Some("b".to_owned()), "bee".to_owned())) },
            PackageCheck { path: "/lib/c".to_owned(), outcome: Err("bad manifest".to_owned()) },
        ]),
        strings(&["t2"]),
    );
    assert_eq!(report.checked, 3);
    assert_eq!(
        report.errors,
        strings(&[
            "cannot read tags.toml",
            "transaction t2: missing transaction.toml",
            "duplicate snippet UUID: 67e55044-10b1-426f-9247-bb680e5fe0c8",
            "/lib/c: bad manifest",
        ])
    );
    assert_eq!(report.warnings, strings(&["/lib/b: package name differs from canonical \"bee\""]));
    assert_eq!(report.repaired, strings(&["rolled back transaction t1"]));
    assert_eq!(report.pending_transactions, strings(&["t2"]));
    assert!(!report.ok);
    let clean = doctor(false, None, Vec::new(), Vec::new(), Ok(Vec::new()), Vec::new());
    assert!(clean.ok);
    assert_eq!(clean.checked, 0);
    let unlisted = doctor(false, None, Vec::new(), Vec::new(), Err("no snippets dir".to_owned()), Vec::new());
    assert_eq!(unlisted.errors, strings(&["no snippets dir"]));
    assert!(!unlisted.ok);
}

fn entry(entry_id: &str, snippet_id: u128, title: &str) -> TrashEntry {
    TrashEntry {
        entry_id: entry_id.to_owned(),
        deleted_at: "2026-01-01T00:00:00Z".to_owned(),
        original_path: "snippets/x".to_owned(),
        snippet_id,
        title: title.to_owned(),
        package_path: "/lib/.snip/trash/x".to_owned(),
    }
}

#[test]
fn trash_selectors_take_ids_uuids_and_titles() {
    let entries = vec![entry("20260101-aaaa", A, "Brewfile"), entry("20260102-bbbb", C, "Dotfiles")];
    assert_eq!(resolve_trash_entry(&entries, "20260102").unwrap(), 1);
    assert_eq!(resolve_trash_entry(&entries, "67E55044-10B1").unwrap(), 0);
    assert_eq!(resolve_trash_entry(&entries, "Dotfiles").unwrap(), 1);
    assert_eq!(
        resolve_trash_entry(&entries, "2026").unwrap_err().to_string(),
        "ambiguous trash selector \"2026\": 2 matches"
    );
    assert_eq!(resolve_trash_entry(&entries, "zzz").unwrap_err().to_string(), "no trash entry matches \"zzz\"");
}

#[test]
fn paths_are_written_with_slashes() {
    assert_eq!(path_to_slashes("snippets/tools/git"), "snippets/tools/git");
    assert_eq!(path_to_slashes("/abs/./path/"), "abs/path");
    assert_eq!(path_to_slashes("a/../b"), "a/b");
    assert_eq!(path_to_slashes(""), "");
}

#[test]
fn folder_components_must_all_be_plain_names() {
    let normal = |name: &str| PathPart::Normal(name.to_owned());
    assert!(all_names(&vec![normal("work"), normal("rust")]));
    assert!(all_names(&Vec::new()));
    assert!(!all_names(&vec![normal("work"), PathPart::ParentDir]));
    assert!(!all_names(&vec![PathPart::CurDir, normal("a")]));
    assert!(!all_names(&vec![PathPart::RootDir, normal("a")]));
}

#[test]
fn plain_names_are_joined_by_slashes() {
    let normal = |name: &str| PathPart::Normal(name.to_owned());
    assert_eq!(join_names(&vec![PathPart::RootDir, normal("home"), normal("me")]), "home/me");
    assert_eq!(join_names(&vec![normal("a"), PathPart::CurDir, PathPart::ParentDir, normal("b")]), "a/b");
    assert_eq!(join_names(&vec![PathPart::Prefix, PathPart::RootDir]), "");
    assert_eq!(join_names(&vec![normal(""), normal("x")]), "/x");
}

#[test]
fn reordering_refuses_in_order_and_leaves_the_fragments_alone() {
    let current = Fingerprint("now".to_owned());
    let stale = Fingerprint("then".to_owned());
    let original = vec![A, B, C];

    let mut ids = original.clone();
    let zero = plan_reorder(A, true, &current, &mut ids, "1", 0, Some(&stale), false).unwrap_err();
    assert_eq!((zero.kind, zero.to_string()), (ErrorKind::Usage, "fragment positions start at 1".to_owned()));
    assert_eq!(ids, original);

    let locked = plan_reorder(A, true, &current, &mut ids, "1", 2, Some(&stale), false).unwrap_err();
    assert_eq!(locked.kind, ErrorKind::Conflict);
    assert!(locked.to_string().ends_with("is locked; pass --force to modify it"));
    assert_eq!(ids, original);

    let changed = plan_reorder(A, true, &current, &mut ids, "1", 2, Some(&stale), true).unwrap_err();
    assert_eq!(changed.to_string(), "snippet changed since it was read: expected then, found now");
    assert_eq!(ids, original);

    let far = plan_reorder(A, false, &current, &mut ids, "1", 4, Some(&current), false).unwrap_err();
    assert_eq!(
        (far.kind, far.to_string()),
        (ErrorKind::NotFound, "position 4 is out of range; snippet has 3 fragments".to_owned())
    );
    assert_eq!(ids, original);

    plan_reorder(A, false, &current, &mut ids, "1", 3, None, false).unwrap();
    assert_eq!(ids, vec![B, C, A]);
}

#[test]
fn a_reorder_reports_its_change_set() {
    let before = Fingerprint("f1".to_owned());
    let after = Fingerprint("f2".to_owned());
    let change = fragment_change_set("fragments.reorder", &before, "/lib/snippets/a", &after, "/lib/snippets/a");
    assert_eq!(change.fields, vec!["fragments.reorder".to_owned()]);
    assert_eq!(change.old_fingerprint.map(|f| f.0), Some("f1".to_owned()));
    assert_eq!(change.new_fingerprint.map(|f| f.0), Some("f2".to_owned()));
    assert_eq!(change.old_path.as_deref(), Some("/lib/snippets/a"));
    assert_eq!(change.new_path.as_deref(), Some("/lib/snippets/a"));
}

#[test]
fn an_edit_that_changes_nothing_is_refused_after_the_lock_and_hash_checks() {
    let current = Fingerprint("now".to_owned());
    let nothing = edit_fragment("2", &FragmentEditOptions::default());
    let refused = edit_preflight(A, false, &current, &nothing).unwrap_err();
    assert_eq!((refused.kind, refused.to_string()), (ErrorKind::Usage, "no changes requested".to_owned()));
    assert_eq!(edit_preflight(A, true, &current, &nothing).unwrap_err().kind, ErrorKind::Conflict);
    let content = FragmentEditOptions { content: Some("x".to_owned()), ..FragmentEditOptions::default() };
    assert!(edit_preflight(A, false, &current, &edit_fragment("2", &content)).is_ok());
    let stale = FragmentEditOptions { if_hash: Some(Fingerprint("then".to_owned())), ..content };
    assert_eq!(edit_preflight(A, false, &current, &edit_fragment("2", &stale)).unwrap_err().kind, ErrorKind::Conflict);
}

#[test]
fn an_edit_lists_the_fields_it_changes_in_order() {
    let options = EditOptions {
        title: Some("New".to_owned()),
        pinned: Some(true),
        readme: Some(None),
        fragment_selector: Some("2".to_owned()),
        language: Some("rust".to_owned()),
        note: Some(Some("n".to_owned())),
        ..EditOptions::default()
    };
    assert_eq!(
        edit_fields(&options, &vec![A, B, C]).unwrap(),
        vec!["title", "pinned", "readme", "fragments[2].language", "fragments[2].note"]
    );
    let first = EditOptions { content: Some("x".to_owned()), ..EditOptions::default() };
    assert_eq!(edit_fields(&first, &vec![A, B]).unwrap(), vec!["fragments[1].content"]);
}

#[test]
fn an_edit_refuses_blank_titles_and_unknown_fragments() {
    let blank = EditOptions { title: Some("  ".to_owned()), ..EditOptions::default() };
    assert_eq!(edit_fields(&blank, &vec![A]).unwrap_err().to_string(), "snippet title cannot be empty");
    let blank_fragment = EditOptions { fragment_title: Some(" ".to_owned()), ..EditOptions::default() };
    assert_eq!(edit_fields(&blank_fragment, &vec![A]).unwrap_err().to_string(), "fragment title cannot be empty");
    let blank_language = EditOptions { language: Some("\t".to_owned()), ..EditOptions::default() };
    assert_eq!(edit_fields(&blank_language, &vec![A]).unwrap_err().to_string(), "fragment language cannot be empty");
    let missing = EditOptions {
        fragment_selector: Some("9".to_owned()),
        content: Some("x".to_owned()),
        ..EditOptions::default()
    };
    assert_eq!(edit_fields(&missing, &vec![A]).unwrap_err().kind, ErrorKind::NotFound);
    assert_eq!(edit_fields(&EditOptions::default(), &vec![A]).unwrap(), Vec::<String>::new());
}

#[test]
fn a_new_snippet_settles_its_title_language_folder_and_fragment() {
    let plan = plan_create("  Deploy  ", "  ", Some("/ops/scripts/"), None).unwrap();
    assert_eq!(plan.title, "Deploy");
    assert_eq!(plan.language, "text");
    assert_eq!(plan.folder, "ops/scripts");
    assert_eq!(plan.fragment_title, "Fragment");
    let named = plan_create("Deploy", " rust ", None, Some("Main")).unwrap();
    assert_eq!((named.language.as_str(), named.folder.as_str(), named.fragment_title.as_str()), ("rust", "", "Main"));
    assert_eq!(plan_create(" ", "rust", Some("../x"), None).unwrap_err().to_string(), "snippet title cannot be empty");
    assert_eq!(plan_create("T", "rust", Some("a/../b"), None).unwrap_err().kind, ErrorKind::Validation);
}

fn refs(items: &[(u128, &str)]) -> Vec<(u128, String)> {
    items.iter().map(|(id, file)| (*id, (*file).to_owned())).collect()
}

#[test]
fn manifest_replacements_keep_the_uuid_and_the_fragments() {
    let current = refs(&[(B, "fragments/main.rs"), (C, "fragments/test.rs")]);
    assert!(check_manifest_replacement(A, &current, A, &current).is_ok());
    let swapped = refs(&[(C, "fragments/test.rs"), (B, "fragments/main.rs")]);
    assert!(check_manifest_replacement(A, &current, A, &swapped).is_ok());

    let other = check_manifest_replacement(A, &current, B, &current).unwrap_err();
    assert_eq!(
        (other.kind, other.to_string()),
        (ErrorKind::Conflict, "editing snippet.toml cannot change the snippet UUID".to_owned())
    );
    let moved = refs(&[(B, "fragments/other.rs"), (C, "fragments/test.rs")]);
    let added = refs(&[(B, "fragments/main.rs"), (C, "fragments/test.rs"), (A, "fragments/new.rs")]);
    for replacement in [&moved, &added] {
        let error = check_manifest_replacement(A, &current, A, replacement).unwrap_err();
        assert_eq!(
            (error.kind, error.to_string()),
            (
                ErrorKind::Conflict,
                "metadata editor cannot add fragments or change fragment file paths; use snip fragment".to_owned()
            )
        );
    }
}

#[test]
fn organizing_moves_packages_to_free_canonical_paths() {
    assert!(!organize_step("snippets/hello-67e55044", "snippets/hello-67e55044", true).unwrap());
    assert!(organize_step("snippets/old-67e55044", "snippets/hello-67e55044", false).unwrap());
    let taken = organize_step("snippets/old-67e55044", "snippets/hello-67e55044", true).unwrap_err();
    assert_eq!(
        (taken.kind, taken.to_string()),
        (ErrorKind::Conflict, "organize target already exists: snippets/hello-67e55044".to_owned())
    );
}
