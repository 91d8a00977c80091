//! The help overlay's state: its scope and sort, the filter, and where the
//! selection and the scroll stand over the rows it shows. Which rows those
//! are (projected from the keymap, sorted and filtered) is worked out by the
//! caller and handed over by their identities.
use vstd::prelude::*;

use crate::text::{chars_of, eq_chars};
use crate::tui::command::CommandId;
use crate::tui::help::{HelpScope, HelpSort, Mode};

verus! {

/// Which help row a visible row is: a command bound in a mode, or one of the
/// rows that are no command binding, by its id.
#[derive(Clone, Copy, Debug, PartialEq, Eq)]
pub enum HelpRowId {
    Command { source_mode: Mode, id: CommandId },
    Extra(&'static str),
}

/// A help row's identity as a spec value.
pub enum RowIdView {
    Command { source_mode: Mode, id: CommandId },
    Extra(Seq<char>),
}

impl View for HelpRowId {
    type V = RowIdView;

    open spec fn view(&self) -> RowIdView {
        match self {
            HelpRowId::Command { source_mode, id } => RowIdView::Command { source_mode: *source_mode, id: *id },
            HelpRowId::Extra(id) => RowIdView::Extra(id@),
        }
    }
}

/// Whether two visible rows are the same help row.
pub fn same_row(a: &HelpRowId, b: &HelpRowId) -> (r: bool)
    ensures
        r == (a@ == b@),
{
    match (a, b) {
        (HelpRowId::Command { source_mode: m1, id: i1 }, HelpRowId::Command { source_mode: m2, id: i2 }) => *m1 == *m2
            && *i1 == *i2,
        (HelpRowId::Extra(x), HelpRowId::Extra(y)) => {
            let xs = chars_of(x);
            let ys = chars_of(y);
            eq_chars(xs.as_slice(), ys.as_slice())
        },
        _ => false,
    }
}

/// The help overlay's state: its scope and the modes of its context, the
/// sort, the filter text and whether it is being typed, the selected row,
/// the first line shown, the lines the viewport holds, the lines each row
/// takes as it was last laid out, and the rows shown.
pub struct HelpState {
    pub scope: HelpScope,
    pub scope_stack: Vec<Mode>,
    pub sort: HelpSort,
    pub filter: String,
    pub filtering: bool,
    pub selected: usize,
    pub scroll: usize,
    pub viewport_lines: usize,
    pub row_line_ranges: Vec<(usize, usize)>,
    pub visible: Vec<HelpRowId>,
}

/// `a + b`, saturating at the largest `usize`.
pub open spec fn sat_add(a: usize, b: usize) -> usize {
    if a + b > usize::MAX {
        usize::MAX
    } else {
        (a + b) as usize
    }
}

/// `a - b`, or 0.
pub open spec fn sat_sub(a: usize, b: usize) -> usize {
    if a >= b {
        (a - b) as usize
    } else {
        0
    }
}

/// The selection and scroll once the selected row is shown: no selection
/// without rows; otherwise the selection is kept among the rows, and where
/// its lines are known the view scrolls up to its first line or down to its
/// last one, as little as it takes.
pub open spec fn ensure_visible_spec(
    selected: usize,
    scroll: usize,
    viewport: usize,
    ranges: Seq<(usize, usize)>,
    count: nat,
) -> (usize, usize) {
    if count == 0 {
        (0, 0)
    } else {
        let sel = if selected < count {
            selected
        } else {
            (count - 1) as usize
        };
        if sel >= ranges.len() {
            (sel, scroll)
        } else {
            let (start, end) = ranges[sel as int];
            if start < scroll {
                (sel, start)
            } else if end > sat_add(scroll, viewport) {
                (sel, sat_sub(end, viewport))
            } else {
                (sel, scroll)
            }
        }
    }
}

/// `v` clamped to `lo..=hi`.
pub open spec fn clamp(v: int, lo: int, hi: int) -> int {
    if v < lo {
        lo
    } else if v > hi {
        hi
    } else {
        v
    }
}

/// The distance between two lines.
pub open spec fn line_distance(a: usize, b: usize) -> int {
    if a >= b {
        a - b
    } else {
        b - a
    }
}

/// The first row whose first line is nearest to `target`.
pub open spec fn nearest_row(ranges: Seq<(usize, usize)>, target: usize) -> int
    decreases ranges.len(),
{
    if ranges.len() <= 1 {
        0
    } else {
        let rest = nearest_row(ranges.drop_last(), target);
        if line_distance(ranges.last().0, target) < line_distance(ranges[rest].0, target) {
            (ranges.len() - 1) as int
        } else {
            rest
        }
    }
}

/// The line half a page up or down from the selected row's first line (or
/// from its index, where its lines are unknown): half the viewport, and at
/// least one line.
pub open spec fn half_page_target(s: HelpState, direction: isize) -> usize {
    let current = if s.selected < s.row_line_ranges@.len() {
        s.row_line_ranges@[s.selected as int].0
    } else {
        s.selected
    };
    let distance = (if s.viewport_lines < 2 {
        2
    } else {
        s.viewport_lines
    }) / 2;
    if direction < 0 {
        sat_sub(current, distance as usize)
    } else {
        sat_add(current, distance as usize)
    }
}

/// The first line after the last row, as the rows were laid out.
pub open spec fn content_lines(ranges: Seq<(usize, usize)>) -> usize {
    if ranges.len() == 0 {
        0
    } else {
        ranges.last().1
    }
}

/// The position of the first row that is `id`, from `i` on.
pub open spec fn position_from(rows: Seq<RowIdView>, id: RowIdView, i: int) -> Option<int>
    decreases rows.len() - i,
{
    if i < 0 || i >= rows.len() {
        None
    } else if rows[i] == id {
        Some(i)
    } else {
        position_from(rows, id, i + 1)
    }
}

/// Row identities as spec values.
pub open spec fn ids_view(ids: Seq<HelpRowId>) -> Seq<RowIdView> {
    ids.map_values(|id: HelpRowId| id@)
}

/// The selection once the rows shown change: the row that was selected,
/// where it is still shown, or else the same position as far as the rows
/// reach.
pub open spec fn reselect_spec(previous: usize, previous_id: Option<RowIdView>, rows: Seq<RowIdView>) -> usize {
    match previous_id {
        Some(id) => match position_from(rows, id, 0) {
            Some(i) => i as usize,
            None => if previous < sat_sub(rows.len() as usize, 1) {
                previous
            } else {
                sat_sub(rows.len() as usize, 1)
            },
        },
        None => if previous < sat_sub(rows.len() as usize, 1) {
            previous
        } else {
            sat_sub(rows.len() as usize, 1)
        },
    }
}

impl Default for HelpState {
    /// A closed overlay with nothing shown: the context scope, sorted by key.
    fn default() -> (s: HelpState)
        ensures
            s.wf(),
            s.scope == HelpScope::Context,
            s.scope_stack@.len() == 0,
            s.sort == HelpSort::Key,
            s.filter@.len() == 0,
            !s.filtering,
            s.selected == 0,
            s.scroll == 0,
            s.viewport_lines == 1,
            s.row_line_ranges@.len() == 0,
            s.visible@.len() == 0,
    {
        HelpState {
            scope: HelpScope::Context,
            scope_stack: Vec::new(),
            sort: HelpSort::Key,
            filter: String::new(),
            filtering: false,
            selected: 0,
            scroll: 0,
            viewport_lines: 1,
            row_line_ranges: Vec::new(),
            visible: Vec::new(),
        }
    }
}

impl HelpState {
    /// The state is consistent: the selection is among the rows (or 0 when
    /// there are none, with the view at the top), the viewport holds a line,
    /// and there are fewer rows than `isize` counts.
    pub open spec fn wf(&self) -> bool {
        &&& self.viewport_lines >= 1
        &&& self.visible@.len() <= isize::MAX
        &&& if self.visible@.len() == 0 {
            self.selected == 0 && self.scroll == 0
        } else {
            self.selected < self.visible@.len()
        }
    }

    /// The rows shown, by their identities.
    pub fn visible_rows(&self) -> (r: &Vec<HelpRowId>)
        ensures
            r@ == self.visible@,
    {
        &self.visible
    }

    /// The rows shown.
    pub fn count(&self) -> (n: usize)
        ensures
            n == self.visible@.len(),
    {
        self.visible.len()
    }

    /// Shows the selected row: keeps the selection among the rows and
    /// scrolls as little as it takes to bring its lines into the viewport.
    pub fn ensure_selected_visible(&mut self)
        ensures
            (final(self).selected, final(self).scroll) == ensure_visible_spec(
                old(self).selected,
                old(self).scroll,
                old(self).viewport_lines,
                old(self).row_line_ranges@,
                old(self).visible@.len(),
            ),
            final(self).visible == old(self).visible,
            final(self).row_line_ranges == old(self).row_line_ranges,
            final(self).viewport_lines == old(self).viewport_lines,
            final(self).scope == old(self).scope,
            final(self).scope_stack == old(self).scope_stack,
            final(self).sort == old(self).sort,
            final(self).filter == old(self).filter,
            final(self).filtering == old(self).filtering,
    {
        if self.visible.len() == 0 {
            self.selected = 0;
            self.scroll = 0;
            return ;
        }
        if self.selected > self.visible.len() - 1 {
            self.selected = self.visible.len() - 1;
        }
        if self.selected >= self.row_line_ranges.len() {
            return ;
        }
        let (start, end) = self.row_line_ranges[self.selected];
        if start < self.scroll {
            self.scroll = start;
        } else if end > self.scroll.saturating_add(self.viewport_lines) {
            self.scroll = end.saturating_sub(self.viewport_lines);
        }
    }

    /// Moves the selection by `delta` rows, stopping at the first and the
    /// last, and shows it.
    pub fn move_selection(&mut self, delta: isize)
        requires
            old(self).wf(),
            isize::MIN <= old(self).selected + delta <= isize::MAX,
        ensures
            final(self).wf(),
            old(self).visible@.len() == 0 ==> final(self).selected == 0 && final(self).scroll == 0,
            old(self).visible@.len() > 0 ==> (final(self).selected, final(self).scroll) == ensure_visible_spec(
                clamp(old(self).selected + delta, 0, old(self).visible@.len() - 1) as usize,
                old(self).scroll,
                old(self).viewport_lines,
                old(self).row_line_ranges@,
                old(self).visible@.len(),
            ),
            final(self).visible == old(self).visible,
            final(self).row_line_ranges == old(self).row_line_ranges,
            final(self).viewport_lines == old(self).viewport_lines,
    {
        if self.visible.len() == 0 {
            self.selected = 0;
            self.scroll = 0;
            return ;
        }
        let last = (self.visible.len() - 1) as isize;
        let moved = self.selected as isize + delta;
        self.selected = if moved < 0 {
            0
        } else if moved > last {
            last as usize
        } else {
            moved as usize
        };
        self.ensure_selected_visible();
    }

    /// Moves the selection half a page up (`direction` below 0) or down, to
    /// the row whose first line is nearest that far, and shows it.
    pub fn move_half_page(&mut self, direction: isize)
        requires
            old(self).wf(),
        ensures
            final(self).wf(),
            old(self).visible@.len() == 0 ==> *final(self) == *old(self),
            old(self).visible@.len() > 0 ==> (final(self).selected, final(self).scroll) == ensure_visible_spec(
                if old(self).row_line_ranges@.len() == 0 {
                    old(self).selected
                } else {
                    nearest_row(old(self).row_line_ranges@, half_page_target(*old(self), direction)) as usize
                },
                old(self).scroll,
                old(self).viewport_lines,
                old(self).row_line_ranges@,
                old(self).visible@.len(),
            ),
            final(self).visible == old(self).visible,
            final(self).row_line_ranges == old(self).row_line_ranges,
            final(self).viewport_lines == old(self).viewport_lines,
    {
        if self.visible.len() == 0 {
            return ;
        }
        let current = if self.selected < self.row_line_ranges.len() {
            self.row_line_ranges[self.selected].0
        } else {
            self.selected
        };
        let distance = (if self.viewport_lines < 2 {
            2
        } else {
            self.viewport_lines
        }) / 2;
        let target = if direction < 0 {
            current.saturating_sub(distance)
        } else {
            current.saturating_add(distance)
        };
        assert(target == half_page_target(*old(self), direction));
        if self.row_line_ranges.len() > 0 {
            let ghost ranges = self.row_line_ranges@;
            let mut best: usize = 0;
            let mut i: usize = 1;
            while i < self.row_line_ranges.len()
                invariant
                    1 <= i <= ranges.len(),
                    ranges == self.row_line_ranges@,
                    best as int == nearest_row(ranges.take(i as int), target),
                    best < i,
                decreases ranges.len() - i,
            {
                let (start, _) = self.row_line_ranges[i];
                let (best_start, _) = self.row_line_ranges[best];
                let d = if start >= target {
                    start - target
                } else {
                    target - start
                };
                let bd = if best_start >= target {
                    best_start - target
                } else {
                    target - best_start
                };
                proof {
                    let next = ranges.take(i + 1);
                    assert(next.drop_last() =~= ranges.take(i as int));
                    assert(next.last() == ranges[i as int]);
                    assert(next[best as int] == ranges[best as int]);
                }
                if d < bd {
                    best = i;
                }
                i = i + 1;
            }
            assert(ranges.take(i as int) =~= ranges);
            self.selected = best;
        }
        self.ensure_selected_visible();
    }

    /// Takes a new layout: the viewport's height (at least one line) and the
    /// lines each row takes. The view is pulled up so that it ends no later
    /// than the last row, then the selected row is shown.
    pub fn update_layout(&mut self, viewport_lines: usize, row_line_ranges: Vec<(usize, usize)>)
        requires
            old(self).wf(),
        ensures
            final(self).wf(),
            final(self).viewport_lines == (if viewport_lines < 1 {
                1
            } else {
                viewport_lines
            }),
            final(self).row_line_ranges@ == row_line_ranges@,
            (final(self).selected, final(self).scroll) == ensure_visible_spec(
                old(self).selected,
                if old(self).scroll < sat_sub(content_lines(row_line_ranges@), final(self).viewport_lines) {
                    old(self).scroll
                } else {
                    sat_sub(content_lines(row_line_ranges@), final(self).viewport_lines)
                },
                final(self).viewport_lines,
                row_line_ranges@,
                old(self).visible@.len(),
            ),
            final(self).visible == old(self).visible,
    {
        self.viewport_lines = if viewport_lines < 1 {
            1
        } else {
            viewport_lines
        };
        self.row_line_ranges = row_line_ranges;
        let content = if self.row_line_ranges.len() == 0 {
            0
        } else {
            self.row_line_ranges[self.row_line_ranges.len() - 1].1
        };
        let limit = content.saturating_sub(self.viewport_lines);
        if self.scroll > limit {
            self.scroll = limit;
        }
        self.ensure_selected_visible();
    }

    /// Shows new rows (after the scope, the sort or the filter changed): the
    /// selected row stays selected where it is still shown, the view goes
    /// back to the top, and the selection is shown.
    pub fn show_rows(&mut self, rows: Vec<HelpRowId>)
        requires
            old(self).wf(),
            rows@.len() <= isize::MAX,
        ensures
            final(self).wf(),
            final(self).visible@ == rows@,
            (final(self).selected, final(self).scroll) == ensure_visible_spec(
                reselect_spec(
                    old(self).selected,
                    if old(self).selected < old(self).visible@.len() {
                        Some(old(self).visible@[old(self).selected as int]@)
                    } else {
                        None
                    },
                    ids_view(rows@),
                ),
                0,
                old(self).viewport_lines,
                old(self).row_line_ranges@,
                rows@.len(),
            ),
            final(self).row_line_ranges == old(self).row_line_ranges,
            final(self).viewport_lines == old(self).viewport_lines,
            final(self).scope == old(self).scope,
            final(self).scope_stack == old(self).scope_stack,
            final(self).sort == old(self).sort,
            final(self).filter == old(self).filter,
            final(self).filtering == old(self).filtering,
    {
        let previous = self.selected;
        let previous_id: Option<HelpRowId> = if self.selected < self.visible.len() {
            Some(self.visible[self.selected])
        } else {
            None
        };
        let ghost rv = ids_view(rows@);
        let last = if rows.len() >= 1 {
            rows.len() - 1
        } else {
            0
        };
        let fallback = if previous < last {
            previous
        } else {
            last
        };
        let mut chosen = fallback;
        match previous_id {
            Some(id) => {
                let mut i: usize = 0;
                let mut found = false;
                while i < rows.len()
                    invariant
                        i <= rows@.len(),
                        rv == ids_view(rows@),
                        !found ==> position_from(rv, id@, 0) == position_from(rv, id@, i as int),
                        found ==> position_from(rv, id@, 0) == Some(chosen as int),
                        !found ==> chosen == fallback,
                    decreases rows@.len() - i,
                {
                    if !found {
                        assert(rv[i as int] == rows@[i as int]@);
                        if same_row(&rows[i], &id) {
                            chosen = i;
                            found = true;
                        }
                    }
                    i = i + 1;
                }
                proof {
                    if !found {
                        assert(position_from(rv, id@, i as int) is None);
                    }
                }
            },
            None => {},
        }
        self.visible = rows;
        self.selected = chosen;
        self.scroll = 0;
        self.ensure_selected_visible();
    }

    /// Opens the overlay for the modes of the current context, with no
    /// filter, the context scope and the first row selected.
    pub fn open(&mut self, scope_stack: Vec<Mode>, rows: Vec<HelpRowId>)
        requires
            old(self).wf(),
            rows@.len() <= isize::MAX,
        ensures
            final(self).wf(),
            final(self).scope == HelpScope::Context,
            final(self).scope_stack@ == scope_stack@,
            final(self).filter@.len() == 0,
            !final(self).filtering,
            final(self).visible@ == rows@,
            (final(self).selected, final(self).scroll) == ensure_visible_spec(
                0,
                0,
                old(self).viewport_lines,
                old(self).row_line_ranges@,
                rows@.len(),
            ),
            final(self).sort == old(self).sort,
    {
        self.scope = HelpScope::Context;
        self.scope_stack = scope_stack;
        self.filter = String::new();
        self.filtering = false;
        self.selected = 0;
        self.scroll = 0;
        self.visible = Vec::new();
        self.show_rows(rows);
    }

    /// Closes the overlay: no filter, the first row selected, the view at
    /// the top.
    pub fn close(&mut self)
        requires
            old(self).wf(),
        ensures
            final(self).wf(),
            !final(self).filtering,
            final(self).filter@.len() == 0,
            final(self).selected == 0,
            final(self).scroll == 0,
            final(self).visible == old(self).visible,
            final(self).scope == old(self).scope,
            final(self).sort == old(self).sort,
    {
        self.filtering = false;
        self.filter = String::new();
        self.selected = 0;
        self.scroll = 0;
    }

    /// Starts typing the filter.
    pub fn start_filtering(&mut self)
        ensures
            final(self).filtering,
            final(self).filter == old(self).filter,
            final(self).selected == old(self).selected,
            final(self).scroll == old(self).scroll,
            final(self).visible == old(self).visible,
            final(self).viewport_lines == old(self).viewport_lines,
    {
        self.filtering = true;
    }

    /// Stops typing the filter, and clears it where asked; the caller then
    /// shows the rows for the cleared filter.
    pub fn leave_filtering(&mut self, clear: bool)
        ensures
            !final(self).filtering,
            clear ==> final(self).filter@.len() == 0,
            !clear ==> final(self).filter == old(self).filter,
            final(self).selected == old(self).selected,
            final(self).scroll == old(self).scroll,
            final(self).visible == old(self).visible,
            final(self).viewport_lines == old(self).viewport_lines,
    {
        self.filtering = false;
        if clear {
            self.filter = String::new();
        }
    }

    /// Switches between the context's rows and all rows; the caller then
    /// shows the rows for the new scope.
    pub fn toggle_scope(&mut self)
        ensures
            final(self).scope == (match old(self).scope {
                HelpScope::Context => HelpScope::All,
                HelpScope::All => HelpScope::Context,
            }),
            final(self).sort == old(self).sort,
            final(self).selected == old(self).selected,
            final(self).visible == old(self).visible,
            final(self).viewport_lines == old(self).viewport_lines,
            final(self).scroll == old(self).scroll,
    {
        self.scope = match self.scope {
            HelpScope::Context => HelpScope::All,
            HelpScope::All => HelpScope::Context,
        };
    }

    /// Switches between sorting by key and by action; the caller then shows
    /// the rows in the new order.
    pub fn cycle_sort(&mut self)
        ensures
            final(self).sort == (match old(self).sort {
                HelpSort::Key => HelpSort::Action,
                HelpSort::Action => HelpSort::Key,
            }),
            final(self).scope == old(self).scope,
            final(self).selected == old(self).selected,
            final(self).visible == old(self).visible,
            final(self).viewport_lines == old(self).viewport_lines,
            final(self).scroll == old(self).scroll,
    {
        self.sort = match self.sort {
            HelpSort::Key => HelpSort::Action,
            HelpSort::Action => HelpSort::Key,
        };
    }
}

/// Once shown, the selected row is one of the rows, and a row that fits in
/// the viewport lies wholly inside it.
pub proof fn law_selected_row_is_shown(
    selected: usize,
    scroll: usize,
    viewport: usize,
    ranges: Seq<(usize, usize)>,
    count: nat,
)
    requires
        count > 0,
    ensures
        ({
            let (sel, top) = ensure_visible_spec(selected, scroll, viewport, ranges, count);
            &&& sel < count
            &&& sel < ranges.len() && ranges[sel as int].0 <= ranges[sel as int].1 && ranges[sel as int].1
                - ranges[sel as int].0 <= viewport ==> top <= ranges[sel as int].0 && ranges[sel as int].1 <= top
                + viewport
        }),
{
}

/// A new layout leaves no blank space below the last row: where no row ends
/// after the last one, the view starts at most a viewport above the end.
pub proof fn law_layout_leaves_no_blank_bottom(
    selected: usize,
    scroll: usize,
    viewport: usize,
    ranges: Seq<(usize, usize)>,
    count: nat,
)
    requires
        forall|i: int| 0 <= i < ranges.len() ==> #[trigger] ranges[i].1 <= content_lines(ranges),
    ensures
        ({
            let limit = sat_sub(content_lines(ranges), viewport);
            let clamped = if scroll < limit {
                scroll
            } else {
                limit
            };
            ensure_visible_spec(selected, clamped, viewport, ranges, count).1 <= limit
        }),
{
    let limit = sat_sub(content_lines(ranges), viewport);
    let clamped = if scroll < limit {
        scroll
    } else {
        limit
    };
    if count > 0 {
        let sel = if selected < count {
            selected
        } else {
            (count - 1) as usize
        };
        if sel < ranges.len() {
            assert(ranges[sel as int].1 <= content_lines(ranges));
        }
    }
}

/// The first position of `id` from `i` on holds `id`.
proof fn lemma_position_from(rows: Seq<RowIdView>, id: RowIdView, i: int)
    requires
        0 <= i,
    ensures
        position_from(rows, id, i) matches Some(k) ==> i <= k < rows.len() && rows[k] == id,
        (exists|k: int| i <= k < rows.len() && rows[k] == id) ==> position_from(rows, id, i) is Some,
    decreases rows.len() - i,
{
    if i < rows.len() {
        lemma_position_from(rows, id, i + 1);
    }
}

/// When the rows shown change, the row that was selected stays selected
/// wherever it is still shown.
pub proof fn law_reshown_row_stays_selected(previous: usize, id: RowIdView, rows: Seq<RowIdView>)
    requires
        rows.contains(id),
        rows.len() <= usize::MAX,
    ensures
        reselect_spec(previous, Some(id), rows) < rows.len(),
        rows[reselect_spec(previous, Some(id), rows) as int] == id,
{
    let k = choose|k: int| 0 <= k < rows.len() && rows[k] == id;
    lemma_position_from(rows, id, 0);
    let p = position_from(rows, id, 0)->0;
    assert(p as usize as int == p);
}

} // verus!
