use snip::tui::app::{grab_down, grab_up, move_list, FragmentGrab};
use snip::tui::preview::{
    clamp_fragment, next_fragment, preview_positions, previous_fragment, select_fragment, PreviewTarget,
};

#[test]
fn switching_wraps_through_the_readme() {
    // A three-fragment snippet that carries a README.
    let (fragments, readme) = (3, true);
    let target = PreviewTarget::Fragment(0);

    let target = previous_fragment(target, fragments, readme).unwrap();
    assert_eq!(target, PreviewTarget::Readme);
    let target = previous_fragment(target, fragments, readme).unwrap();
    assert_eq!(target, PreviewTarget::Fragment(2));

    let target = next_fragment(PreviewTarget::Readme, fragments, readme).unwrap();
    assert_eq!(target, PreviewTarget::Fragment(0));
}

#[test]
fn switching_wraps_without_a_readme() {
    let (fragments, readme) = (3, false);
    let target = previous_fragment(PreviewTarget::Fragment(0), fragments, readme).unwrap();
    assert_eq!(target, PreviewTarget::Fragment(2));
    let target = next_fragment(target, fragments, readme).unwrap();
    assert_eq!(target, PreviewTarget::Fragment(0));
}

#[test]
fn rescan_keeps_the_readme_target() {
    assert_eq!(clamp_fragment(PreviewTarget::Readme, 1, true), PreviewTarget::Readme);
}

#[test]
fn rescan_drops_a_vanished_readme() {
    assert_eq!(clamp_fragment(PreviewTarget::Readme, 1, false), PreviewTarget::Fragment(0));
}

#[test]
fn rescan_cuts_a_fragment_index_to_the_last_fragment() {
    assert_eq!(clamp_fragment(PreviewTarget::Fragment(7), 3, true), PreviewTarget::Fragment(2));
    assert_eq!(clamp_fragment(PreviewTarget::Fragment(1), 3, false), PreviewTarget::Fragment(1));
    assert_eq!(clamp_fragment(PreviewTarget::Fragment(4), 0, false), PreviewTarget::Fragment(0));
}

#[test]
fn positions_count_the_readme_after_the_fragments() {
    assert_eq!(preview_positions(3, true), (3, 4));
    assert_eq!(preview_positions(3, false), (3, 3));
    assert_eq!(preview_positions(0, false), (0, 0));
}

#[test]
fn stepping_a_snippet_with_nothing_to_show_changes_nothing() {
    assert_eq!(next_fragment(PreviewTarget::Fragment(0), 0, false), None);
    assert_eq!(previous_fragment(PreviewTarget::Readme, 0, false), None);
}

#[test]
fn a_lone_readme_steps_onto_itself() {
    assert_eq!(next_fragment(PreviewTarget::Fragment(0), 0, true), Some(PreviewTarget::Readme));
    assert_eq!(previous_fragment(PreviewTarget::Readme, 0, true), Some(PreviewTarget::Readme));
}

#[test]
fn previous_undoes_next_at_every_position() {
    for readme in [false, true] {
        let mut targets: Vec<PreviewTarget> = (0..4).map(PreviewTarget::Fragment).collect();
        if readme {
            targets.push(PreviewTarget::Readme);
        }
        for target in targets {
            let forward = next_fragment(target, 4, readme).unwrap();
            assert_eq!(previous_fragment(forward, 4, readme), Some(target));
            let back = previous_fragment(target, 4, readme).unwrap();
            assert_eq!(next_fragment(back, 4, readme), Some(target));
        }
    }
}

#[test]
fn selecting_switches_only_to_a_new_target_that_exists() {
    let current = PreviewTarget::Fragment(0);
    assert_eq!(select_fragment(current, PreviewTarget::Fragment(2), 3, false), Some(PreviewTarget::Fragment(2)));
    assert_eq!(select_fragment(current, PreviewTarget::Fragment(9), 3, false), Some(PreviewTarget::Fragment(2)));
    assert_eq!(select_fragment(current, PreviewTarget::Fragment(0), 3, false), None);
    assert_eq!(select_fragment(current, PreviewTarget::Readme, 3, false), None);
    assert_eq!(select_fragment(current, PreviewTarget::Readme, 3, true), Some(PreviewTarget::Readme));
    assert_eq!(select_fragment(PreviewTarget::Readme, PreviewTarget::Fragment(1), 0, true), None);
}

#[test]
fn a_held_fragment_moves_within_the_snippet() {
    let grab = FragmentGrab { origin: 1, current: 1 };
    let down = grab_down(grab, 3);
    assert_eq!(down, FragmentGrab { origin: 1, current: 2 });
    assert_eq!(grab_down(down, 3), FragmentGrab { origin: 1, current: 2 });
    let up = grab_up(grab_up(down));
    assert_eq!(up, FragmentGrab { origin: 1, current: 0 });
    assert_eq!(grab_up(up), FragmentGrab { origin: 1, current: 0 });
    assert_eq!(grab_down(FragmentGrab { origin: 0, current: usize::MAX }, 0).current, 0);
}

#[test]
fn list_moves_clamp_to_the_visible_rows() {
    assert_eq!(move_list(Some(2), 5, 1), Some(3));
    assert_eq!(move_list(Some(2), 5, 10), Some(4));
    assert_eq!(move_list(Some(2), 5, -10), Some(0));
    assert_eq!(move_list(None, 5, 1), Some(1));
    assert_eq!(move_list(Some(9), 5, 0), Some(4));
    assert_eq!(move_list(Some(0), 0, 1), None);
    assert_eq!(move_list(Some(usize::MAX), 3, isize::MAX), Some(2));
}
