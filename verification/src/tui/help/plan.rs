//! The help overlay's layout: which lines it draws for the visible rows, in
//! three columns (key, action, description) where the description keeps at
//! least 24 columns, else in two with the action below; group headings
//! between groups, the selected row's note under it, and the lines each row
//! takes. Styling and padding each cell to its column are the drawing's.
use vstd::prelude::*;

use crate::text::{copy_string, decimal, decimal_string, push_str};
use crate::text::chars_of;
use crate::tui::help::{
    char_display_width, char_width, group_label, lines_view, text_display_width, text_width, wrap_words,
    wrapped_lines, HelpGroup, WrappedLine,
};

verus! {

/// A visible help row as the layout reads it: its group, its key as shown,
/// whether the user rebound it, its action's slug and description, and the
/// hidden field (and value) a filter matched, if any.
pub struct PlanRow {
    pub group: HelpGroup,
    pub key: String,
    pub user_modified: bool,
    pub slug: String,
    pub description: String,
    pub hidden: Option<(String, String)>,
}

/// A row as spec values.
pub struct PlanRowView {
    pub group: HelpGroup,
    pub key: Seq<char>,
    pub user_modified: bool,
    pub slug: Seq<char>,
    pub description: Seq<char>,
    pub hidden: Option<(Seq<char>, Seq<char>)>,
}

impl View for PlanRow {
    type V = PlanRowView;

    open spec fn view(&self) -> PlanRowView {
        PlanRowView {
            group: self.group,
            key: self.key@,
            user_modified: self.user_modified,
            slug: self.slug@,
            description: self.description@,
            hidden: match self.hidden {
                Some(h) => Some((h.0@, h.1@)),
                None => None,
            },
        }
    }
}

/// Rows as spec values.
pub open spec fn rows_view(rows: Seq<PlanRow>) -> Seq<PlanRowView> {
    rows.map_values(|r: PlanRow| r@)
}

/// A wrapped piece of a cell: its text and its source range.
pub type Piece = (Seq<char>, (int, int));

/// A wrapped line as a spec value.
pub open spec fn piece(w: WrappedLine) -> Piece {
    (w.text@, (w.source.start as int, w.source.end as int))
}

/// A wrapped line, if any, as a spec value.
pub open spec fn opt_piece(w: Option<WrappedLine>) -> Option<Piece> {
    match w {
        Some(w) => Some(piece(w)),
        None => None,
    }
}

/// One line of the overlay.
pub enum PlanLine {
    Blank,
    /// A group's heading, with how many rows it has, indented to stand in
    /// the middle.
    Header { group: HelpGroup, count: usize, indent: usize },
    /// A line of a row in three columns; a column whose text has ended is
    /// empty.
    Wide { row: usize, key: Option<WrappedLine>, slug: Option<WrappedLine>, description: Option<WrappedLine> },
    /// A line of a row in two columns.
    Narrow { row: usize, key: Option<WrappedLine>, description: Option<WrappedLine> },
    /// A line of a narrow row's action, under the description.
    Slug { row: usize, text: WrappedLine },
    /// A line of the selected row's note, indented.
    Note { row: usize, indent: usize, text: WrappedLine },
}

/// A line as a spec value.
pub enum PlanLineView {
    Blank,
    Header { group: HelpGroup, count: usize, indent: usize },
    Wide { row: usize, key: Option<Piece>, slug: Option<Piece>, description: Option<Piece> },
    Narrow { row: usize, key: Option<Piece>, description: Option<Piece> },
    Slug { row: usize, text: Piece },
    Note { row: usize, indent: usize, text: Piece },
}

impl View for PlanLine {
    type V = PlanLineView;

    open spec fn view(&self) -> PlanLineView {
        match self {
            PlanLine::Blank => PlanLineView::Blank,
            PlanLine::Header { group, count, indent } => PlanLineView::Header {
                group: *group,
                count: *count,
                indent: *indent,
            },
            PlanLine::Wide { row, key, slug, description } => PlanLineView::Wide {
                row: *row,
                key: opt_piece(*key),
                slug: opt_piece(*slug),
                description: opt_piece(*description),
            },
            PlanLine::Narrow { row, key, description } => PlanLineView::Narrow {
                row: *row,
                key: opt_piece(*key),
                description: opt_piece(*description),
            },
            PlanLine::Slug { row, text } => PlanLineView::Slug { row: *row, text: piece(*text) },
            PlanLine::Note { row, indent, text } => PlanLineView::Note { row: *row, indent: *indent, text: piece(*text) },
        }
    }
}

/// Lines as spec values.
pub open spec fn plan_view(lines: Seq<PlanLine>) -> Seq<PlanLineView> {
    lines.map_values(|l: PlanLine| l@)
}

/// The columns' widths, and whether the rows are laid out in three.
#[derive(Clone, Copy, Debug, PartialEq, Eq, Structural)]
pub struct PlanColumns {
    pub wide: bool,
    pub key: usize,
    pub slug: usize,
    pub description: usize,
}

/// The overlay's lines, the lines each row takes (from, to), and the
/// columns.
pub struct HelpPlan {
    pub lines: Vec<PlanLine>,
    pub row_line_ranges: Vec<(usize, usize)>,
    pub columns: PlanColumns,
}

/// `x` held between `lo` and `hi`.
pub open spec fn clamp_nat(x: int, lo: int, hi: int) -> int {
    if x < lo {
        lo
    } else if x > hi {
        hi
    } else {
        x
    }
}

/// The key as the overlay shows it: a rebound key is marked with " *".
pub open spec fn key_label_spec(r: PlanRowView) -> Seq<char> {
    if r.user_modified {
        r.key + " *"@
    } else {
        r.key
    }
}

/// The note under the selected row: the hidden field a filter matched, or
/// that the user rebound the key.
pub open spec fn note_spec(r: PlanRowView) -> Option<Seq<char>> {
    match r.hidden {
        Some((field, value)) => Some("matched "@ + field + ": "@ + value),
        None => if r.user_modified {
            Some("custom binding"@)
        } else {
            None
        },
    }
}

/// The widest key label of the rows (0 for none).
pub open spec fn widest_key(rows: Seq<PlanRowView>) -> nat
    decreases rows.len(),
{
    if rows.len() == 0 {
        0
    } else {
        let w = widest_key(rows.drop_last());
        let here = text_display_width(key_label_spec(rows.last()));
        if here > w {
            here
        } else {
            w
        }
    }
}

/// The widest action slug of the rows (0 for none).
pub open spec fn widest_slug(rows: Seq<PlanRowView>) -> nat
    decreases rows.len(),
{
    if rows.len() == 0 {
        0
    } else {
        let w = widest_slug(rows.drop_last());
        let here = text_display_width(rows.last().slug);
        if here > w {
            here
        } else {
            w
        }
    }
}

/// The columns for `rows` in `width` columns: the key column as wide as the
/// widest key (1 to 20), the action column as the widest slug (1 to 32),
/// and the rest, less two gaps, for the description; three columns where
/// that leaves the description 24 or more.
pub open spec fn columns_spec(rows: Seq<PlanRowView>, width: usize) -> PlanColumns {
    let key = clamp_nat(widest_key(rows) as int, 1, 20);
    let slug = clamp_nat(widest_slug(rows) as int, 1, 32);
    let description = if key + slug + 2 <= width {
        width - (key + slug + 2)
    } else {
        0
    };
    PlanColumns { wide: description >= 24, key: key as usize, slug: slug as usize, description: description as usize }
}

/// The `k`th piece, if there is one.
pub open spec fn piece_at(pieces: Seq<Piece>, k: int) -> Option<Piece> {
    if 0 <= k < pieces.len() {
        Some(pieces[k])
    } else {
        None
    }
}

/// The largest of three.
pub open spec fn max3(a: nat, b: nat, c: nat) -> nat {
    if a >= b && a >= c {
        a
    } else if b >= c {
        b
    } else {
        c
    }
}

/// The note's lines under row `idx`: indented two columns (less where the
/// overlay is narrower), wrapped to the rest.
pub open spec fn note_block(r: PlanRowView, idx: usize, width: usize) -> Seq<PlanLineView> {
    match note_spec(r) {
        Some(note) => {
            let indent: usize = if width >= 3 {
                2
            } else if width >= 1 {
                (width - 1) as usize
            } else {
                0
            };
            let note_width: usize = if width - indent >= 1 {
                (width - indent) as usize
            } else {
                1
            };
            wrapped_lines(note, note_width).map_values(|p: Piece| PlanLineView::Note { row: idx, indent, text: p })
        },
        None => Seq::empty(),
    }
}

/// Row `idx` in three columns, its note after it where it is selected.
pub open spec fn wide_block(r: PlanRowView, idx: usize, c: PlanColumns, width: usize, selected: bool) -> Seq<
    PlanLineView,
> {
    let keys = wrapped_lines(key_label_spec(r), c.key);
    let slugs = wrapped_lines(r.slug, c.slug);
    let descriptions = wrapped_lines(r.description, c.description);
    Seq::new(
        max3(keys.len(), slugs.len(), descriptions.len()),
        |k: int|
            PlanLineView::Wide {
                row: idx,
                key: piece_at(keys, k),
                slug: piece_at(slugs, k),
                description: piece_at(descriptions, k),
            },
    ) + if selected {
        note_block(r, idx, width)
    } else {
        Seq::empty()
    }
}

/// The key column's width for a row laid out in two columns: the key's
/// width, at most 20 and half the overlay, at least 1.
pub open spec fn narrow_key_width_of(label: Seq<char>, width: usize) -> usize {
    let w = text_display_width(label) as int;
    let capped = if w < 20 {
        w
    } else {
        20
    };
    let capped = if capped < width / 2 {
        capped
    } else {
        (width / 2) as int
    };
    (if capped < 1 {
        1
    } else {
        capped
    }) as usize
}

/// The key column's width for row `r` laid out in two columns.
pub open spec fn narrow_key_width(r: PlanRowView, width: usize) -> usize {
    narrow_key_width_of(key_label_spec(r), width)
}

/// The key and description lines of row `idx` in two columns.
pub open spec fn narrow_cells_spec(
    label: Seq<char>,
    description: Seq<char>,
    idx: usize,
    key_width: usize,
    description_width: usize,
) -> Seq<PlanLineView> {
    let keys = wrapped_lines(label, key_width);
    let descriptions = wrapped_lines(description, description_width);
    Seq::new(
        if keys.len() >= descriptions.len() {
            keys.len()
        } else {
            descriptions.len()
        },
        |k: int| PlanLineView::Narrow { row: idx, key: piece_at(keys, k), description: piece_at(descriptions, k) },
    )
}

/// What is left of `width` right of a key column `key` wide and its gap.
pub open spec fn after_key(width: usize, key: usize) -> usize {
    if key + 1 <= width {
        (width - (key + 1)) as usize
    } else {
        0
    }
}

/// Row `idx` in two columns, its action's lines under it where it has one,
/// and its note where it is selected.
pub open spec fn narrow_block(r: PlanRowView, idx: usize, width: usize, selected: bool) -> Seq<PlanLineView> {
    let key_width = narrow_key_width(r, width);
    let rest = after_key(width, key_width);
    let description_width: usize = if rest >= 1 {
        rest
    } else {
        1
    };
    narrow_cells_spec(key_label_spec(r), r.description, idx, key_width, description_width) + (if r.slug.len() > 0 {
        wrapped_lines(r.slug, rest).map_values(|p: Piece| PlanLineView::Slug { row: idx, text: p })
    } else {
        Seq::empty()
    }) + if selected {
        note_block(r, idx, width)
    } else {
        Seq::empty()
    }
}

/// How many of the rows are in `group`.
pub open spec fn group_count(rows: Seq<PlanRowView>, group: HelpGroup) -> nat
    decreases rows.len(),
{
    if rows.len() == 0 {
        0
    } else {
        group_count(rows.drop_last(), group) + if rows.last().group == group {
            1nat
        } else {
            0nat
        }
    }
}

/// The sum of the display widths of the characters.
pub open spec fn char_width_sum(s: Seq<char>) -> nat
    decreases s.len(),
{
    if s.len() == 0 {
        0
    } else {
        (char_width_sum(s.drop_last()) + char_width(s.last())) as nat
    }
}

/// A heading's label: the group's name and its count in brackets.
pub open spec fn header_label(group: HelpGroup, count: nat) -> Seq<char> {
    group_label(group) + " ("@ + decimal(count) + ")"@
}

/// How far a heading is indented to stand in the middle of `width`: half
/// of what its label and the rules on both sides ("── " and " ──", three
/// columns each) leave.
pub open spec fn header_indent(group: HelpGroup, count: nat, width: usize) -> usize {
    let used = char_width_sum(header_label(group, count)) + 6;
    (if used <= width {
        (width - used) / 2
    } else {
        0
    }) as usize
}

/// The heading before row `i`, where it starts a group: after a blank line
/// unless it is the first.
pub open spec fn header_block(rows: Seq<PlanRowView>, i: int, width: usize) -> Seq<PlanLineView> {
    if i == 0 || rows[i - 1].group != rows[i].group {
        let count = group_count(rows, rows[i].group);
        (if i > 0 {
            seq![PlanLineView::Blank]
        } else {
            Seq::empty()
        }) + seq![
            PlanLineView::Header {
                group: rows[i].group,
                count: count as usize,
                indent: header_indent(rows[i].group, count, width),
            },
        ]
    } else {
        Seq::empty()
    }
}

/// The lines of row `i`, in the layout the columns choose.
pub open spec fn row_block(rows: Seq<PlanRowView>, i: int, width: usize, selected: usize) -> Seq<PlanLineView> {
    let c = columns_spec(rows, width);
    if c.wide {
        wide_block(rows[i], i as usize, c, width, i == selected)
    } else {
        narrow_block(rows[i], i as usize, width, i == selected)
    }
}

/// The lines of the first `n` rows, headings included.
pub open spec fn plan_upto(rows: Seq<PlanRowView>, n: int, width: usize, selected: usize) -> Seq<PlanLineView>
    decreases n,
{
    if n <= 0 {
        Seq::empty()
    } else {
        plan_upto(rows, n - 1, width, selected) + header_block(rows, n - 1, width) + row_block(
            rows,
            n - 1,
            width,
            selected,
        )
    }
}

/// The lines row `i` takes: after the lines before it and its heading, up
/// to the end of its own.
pub open spec fn row_range(rows: Seq<PlanRowView>, i: int, width: usize, selected: usize) -> (int, int) {
    (
        (plan_upto(rows, i, width, selected).len() + header_block(rows, i, width).len()) as int,
        plan_upto(rows, i + 1, width, selected).len() as int,
    )
}

/// The key as the overlay shows it.
fn key_label(r: &PlanRow) -> (label: String)
    ensures
        label@ == key_label_spec(r@),
{
    let mut label = copy_string(r.key.as_str());
    if r.user_modified {
        push_str(&mut label, " *");
    }
    label
}

/// The note under the selected row, if it has one.
fn note_text(r: &PlanRow) -> (note: Option<String>)
    ensures
        match note {
            Some(n) => note_spec(r@) == Some(n@),
            None => note_spec(r@) is None,
        },
{
    match &r.hidden {
        Some((field, value)) => {
            let mut n = copy_string("matched ");
            push_str(&mut n, field.as_str());
            push_str(&mut n, ": ");
            push_str(&mut n, value.as_str());
            Some(n)
        },
        None => if r.user_modified {
            Some(copy_string("custom binding"))
        } else {
            None
        },
    }
}

/// The columns for `rows` laid out `width` columns wide.
pub fn plan_columns(rows: &Vec<PlanRow>, width: usize) -> (c: PlanColumns)
    ensures
        c == columns_spec(rows_view(rows@), width),
{
    let ghost all = rows_view(rows@);
    let mut key: usize = 0;
    let mut slug: usize = 0;
    let mut i: usize = 0;
    while i < rows.len()
        invariant
            i <= rows@.len(),
            all == rows_view(rows@),
            key == widest_key(all.take(i as int)),
            slug == widest_slug(all.take(i as int)),
        decreases rows@.len() - i,
    {
        let label = key_label(&rows[i]);
        let kw = text_width(label.as_str());
        let sw = text_width(rows[i].slug.as_str());
        assert(all.take(i + 1).drop_last() =~= all.take(i as int));
        assert(all.take(i + 1).last() == rows@[i as int]@);
        if kw > key {
            key = kw;
        }
        if sw > slug {
            slug = sw;
        }
        i = i + 1;
    }
    assert(all.take(rows@.len() as int) =~= all);
    let key: usize = if key < 1 {
        1
    } else if key > 20 {
        20
    } else {
        key
    };
    let slug: usize = if slug < 1 {
        1
    } else if slug > 32 {
        32
    } else {
        slug
    };
    let description: usize = if key + slug + 2 <= width {
        width - (key + slug + 2)
    } else {
        0
    };
    PlanColumns { wide: description >= 24, key, slug, description }
}

/// The `k`th wrapped line, if there is one.
fn line_at(v: &Vec<WrappedLine>, k: usize) -> (o: Option<WrappedLine>)
    ensures
        opt_piece(o) == piece_at(lines_view(v@), k as int),
{
    if k < v.len() {
        let w = v[k].clone();
        assert(lines_view(v@)[k as int] == piece(v@[k as int]));
        Some(w)
    } else {
        None
    }
}

/// The note's lines under row `idx`.
fn note_lines(r: &PlanRow, idx: usize, width: usize) -> (v: Vec<PlanLine>)
    ensures
        plan_view(v@) == note_block(r@, idx, width),
{
    let mut v: Vec<PlanLine> = Vec::new();
    match note_text(r) {
        None => {
            assert(plan_view(v@) =~= note_block(r@, idx, width));
        },
        Some(note) => {
            let indent: usize = if width >= 3 {
                2
            } else if width >= 1 {
                width - 1
            } else {
                0
            };
            let note_width: usize = if width - indent >= 1 {
                width - indent
            } else {
                1
            };
            let wrapped = wrap_words(note.as_str(), note_width);
            let ghost pieces = lines_view(wrapped@);
            let ghost target = pieces.map_values(|p: Piece| PlanLineView::Note { row: idx, indent, text: p });
            let mut k: usize = 0;
            while k < wrapped.len()
                invariant
                    k <= wrapped@.len(),
                    pieces == lines_view(wrapped@),
                    plan_view(v@) == target.take(k as int),
                    target == pieces.map_values(|p: Piece| PlanLineView::Note { row: idx, indent, text: p }),
                decreases wrapped@.len() - k,
            {
                let text = wrapped[k].clone();
                assert(pieces[k as int] == piece(wrapped@[k as int]));
                let ghost before = plan_view(v@);
                v.push(PlanLine::Note { row: idx, indent, text });
                assert(plan_view(v@) =~= before.push(target[k as int]));
                assert(target.take(k + 1) =~= target.take(k as int).push(target[k as int]));
                k = k + 1;
            }
            assert(target.take(wrapped@.len() as int) =~= target);
            assert(plan_view(v@) =~= note_block(r@, idx, width));
        },
    }
    v
}

/// Appends `more` to `v`.
fn append_lines(v: &mut Vec<PlanLine>, more: Vec<PlanLine>)
    ensures
        plan_view(final(v)@) == plan_view(old(v)@) + plan_view(more@),
{
    let ghost added = more@;
    let mut more = more;
    v.append(&mut more);
    assert(plan_view(v@) =~= plan_view(old(v)@) + plan_view(added)) by {
        assert(v@ =~= old(v)@ + added);
    }
}

/// Row `idx` in three columns, with its note where it is selected.
fn wide_lines(r: &PlanRow, idx: usize, c: PlanColumns, width: usize, selected: bool) -> (v: Vec<PlanLine>)
    ensures
        plan_view(v@) == wide_block(r@, idx, c, width, selected),
{
    let label = key_label(r);
    let keys = wrap_words(label.as_str(), c.key);
    let slugs = wrap_words(r.slug.as_str(), c.slug);
    let descriptions = wrap_words(r.description.as_str(), c.description);
    let (a, b, d) = (keys.len(), slugs.len(), descriptions.len());
    let n: usize = if a >= b && a >= d {
        a
    } else if b >= d {
        b
    } else {
        d
    };
    let ghost kp = lines_view(keys@);
    let ghost sp = lines_view(slugs@);
    let ghost dp = lines_view(descriptions@);
    let ghost target = Seq::new(
        n as nat,
        |k: int| PlanLineView::Wide { row: idx, key: piece_at(kp, k), slug: piece_at(sp, k), description: piece_at(dp, k) },
    );
    let mut v: Vec<PlanLine> = Vec::new();
    let mut k: usize = 0;
    while k < n
        invariant
            k <= n,
            kp == lines_view(keys@),
            sp == lines_view(slugs@),
            dp == lines_view(descriptions@),
            target == Seq::new(
                n as nat,
                |k: int|
                    PlanLineView::Wide {
                        row: idx,
                        key: piece_at(kp, k),
                        slug: piece_at(sp, k),
                        description: piece_at(dp, k),
                    },
            ),
            plan_view(v@) == target.take(k as int),
        decreases n - k,
    {
        let line = PlanLine::Wide {
            row: idx,
            key: line_at(&keys, k),
            slug: line_at(&slugs, k),
            description: line_at(&descriptions, k),
        };
        let ghost before = plan_view(v@);
        v.push(line);
        assert(plan_view(v@) =~= before.push(target[k as int]));
        assert(target.take(k + 1) =~= target.take(k as int).push(target[k as int]));
        k = k + 1;
    }
    assert(target.take(n as int) =~= target);
    if selected {
        let notes = note_lines(r, idx, width);
        append_lines(&mut v, notes);
    }
    assert(plan_view(v@) =~= wide_block(r@, idx, c, width, selected));
    v
}

/// The key column's width for a row in two columns.
fn key_column_width(label: &String, width: usize) -> (w: usize)
    ensures
        w == narrow_key_width_of(label@, width),
{
    let w = text_width(label.as_str());
    let capped = if w < 20 {
        w
    } else {
        20
    };
    let capped = if capped < width / 2 {
        capped
    } else {
        width / 2
    };
    if capped < 1 {
        1
    } else {
        capped
    }
}

/// The action's lines under a row in two columns, where it has an action.
fn slug_lines(r: &PlanRow, idx: usize, rest: usize) -> (v: Vec<PlanLine>)
    ensures
        plan_view(v@) == (if r@.slug.len() > 0 {
            wrapped_lines(r@.slug, rest).map_values(|p: Piece| PlanLineView::Slug { row: idx, text: p })
        } else {
            Seq::empty()
        }),
{
    let mut v: Vec<PlanLine> = Vec::new();
    if r.slug.unicode_len() > 0 {
        let slugs = wrap_words(r.slug.as_str(), rest);
        let ghost sp = lines_view(slugs@);
        let ghost more = sp.map_values(|p: Piece| PlanLineView::Slug { row: idx, text: p });
        let mut j: usize = 0;
        while j < slugs.len()
            invariant
                j <= slugs@.len(),
                sp == lines_view(slugs@),
                more == sp.map_values(|p: Piece| PlanLineView::Slug { row: idx, text: p }),
                plan_view(v@) == more.take(j as int),
            decreases slugs@.len() - j,
        {
            let text = slugs[j].clone();
            assert(sp[j as int] == piece(slugs@[j as int]));
            let ghost before = plan_view(v@);
            v.push(PlanLine::Slug { row: idx, text });
            assert(plan_view(v@) =~= before.push(more[j as int]));
            assert(more.take(j + 1) =~= more.take(j as int).push(more[j as int]));
            j = j + 1;
        }
        assert(more.take(slugs@.len() as int) =~= more);
    } else {
        assert(plan_view(v@) =~= Seq::<PlanLineView>::empty());
    }
    v
}

/// The key and description lines of a row in two columns.
fn narrow_cells(label: &String, description: &String, idx: usize, key_width: usize, description_width: usize) -> (v: Vec<
    PlanLine,
>)
    ensures
        plan_view(v@) == narrow_cells_spec(label@, description@, idx, key_width, description_width),
{
    let keys = wrap_words(label.as_str(), key_width);
    let descriptions = wrap_words(description.as_str(), description_width);
    let n: usize = if keys.len() >= descriptions.len() {
        keys.len()
    } else {
        descriptions.len()
    };
    let ghost kp = lines_view(keys@);
    let ghost dp = lines_view(descriptions@);
    let ghost target = narrow_cells_spec(label@, description@, idx, key_width, description_width);
    let mut v: Vec<PlanLine> = Vec::new();
    let mut k: usize = 0;
    while k < n
        invariant
            k <= n,
            kp == lines_view(keys@),
            dp == lines_view(descriptions@),
            kp == wrapped_lines(label@, key_width),
            dp == wrapped_lines(description@, description_width),
            n == target.len(),
            target == narrow_cells_spec(label@, description@, idx, key_width, description_width),
            plan_view(v@) == target.take(k as int),
        decreases n - k,
    {
        let line = PlanLine::Narrow { row: idx, key: line_at(&keys, k), description: line_at(&descriptions, k) };
        let ghost before = plan_view(v@);
        v.push(line);
        assert(plan_view(v@) =~= before.push(target[k as int]));
        assert(target.take(k + 1) =~= target.take(k as int).push(target[k as int]));
        k = k + 1;
    }
    assert(target.take(n as int) =~= target);
    v
}

/// Row `idx` in two columns, its action under it, its note where it is
/// selected.
fn narrow_lines(r: &PlanRow, idx: usize, width: usize, selected: bool) -> (v: Vec<PlanLine>)
    ensures
        plan_view(v@) == narrow_block(r@, idx, width, selected),
{
    let label = key_label(r);
    let key_width = key_column_width(&label, width);
    let rest: usize = if key_width + 1 <= width {
        width - (key_width + 1)
    } else {
        0
    };
    let description_width: usize = if rest >= 1 {
        rest
    } else {
        1
    };
    let mut v = narrow_cells(&label, &r.description, idx, key_width, description_width);
    let slugs = slug_lines(r, idx, rest);
    append_lines(&mut v, slugs);
    if selected {
        let notes = note_lines(r, idx, width);
        append_lines(&mut v, notes);
    }
    assert(plan_view(v@) =~= narrow_block(r@, idx, width, selected));
    v
}

/// How many of the rows are in `group`.
fn count_in_group(rows: &Vec<PlanRow>, group: HelpGroup) -> (n: usize)
    ensures
        n == group_count(rows_view(rows@), group),
        n <= rows@.len(),
{
    let ghost all = rows_view(rows@);
    let mut n: usize = 0;
    let mut i: usize = 0;
    while i < rows.len()
        invariant
            i <= rows@.len(),
            all == rows_view(rows@),
            n == group_count(all.take(i as int), group),
            n <= i,
        decreases rows@.len() - i,
    {
        assert(all.take(i + 1).drop_last() =~= all.take(i as int));
        assert(all.take(i + 1).last() == rows@[i as int]@);
        if rows[i].group == group {
            n = n + 1;
        }
        i = i + 1;
    }
    assert(all.take(rows@.len() as int) =~= all);
    n
}

/// How far the heading of `group`, with `count` rows, is indented.
fn heading_indent(group: HelpGroup, count: usize, width: usize) -> (indent: usize)
    ensures
        indent == header_indent(group, count as nat, width),
{
    let mut label = copy_string(group.label());
    push_str(&mut label, " (");
    let digits = decimal_string(count as u64);
    push_str(&mut label, digits.as_str());
    push_str(&mut label, ")");
    let chars = chars_of(label.as_str());
    let ghost text = header_label(group, count as nat);
    assert(chars@ == text);
    let mut sum: u128 = 0;
    let mut i: usize = 0;
    while i < chars.len()
        invariant
            i <= chars@.len(),
            chars@ == text,
            sum == char_width_sum(text.take(i as int)),
            sum <= 3 * i,
        decreases chars@.len() - i,
    {
        let w = char_display_width(chars[i]);
        assert(text.take(i + 1).drop_last() =~= text.take(i as int));
        assert(text.take(i + 1).last() == text[i as int]);
        sum = sum + (w as u128);
        i = i + 1;
    }
    assert(text.take(chars@.len() as int) =~= text);
    let used: u128 = sum + 6;
    if used <= (width as u128) {
        (((width as u128) - used) / 2) as usize
    } else {
        0
    }
}

/// The overlay's layout for `rows`, `width` columns wide, with the row at
/// `selected` (if there is one) showing its note: the lines, the lines
/// each row takes, and the columns.
pub fn build_render_plan_with_selection(width: usize, rows: &Vec<PlanRow>, selected: usize) -> (plan: HelpPlan)
    ensures
        plan.columns == columns_spec(rows_view(rows@), width),
        plan_view(plan.lines@) == plan_upto(rows_view(rows@), rows@.len() as int, width, selected),
        plan.row_line_ranges@.len() == rows@.len(),
        forall|i: int|
            0 <= i < rows@.len() ==> (#[trigger] plan.row_line_ranges@[i].0 as int, plan.row_line_ranges@[i].1 as int)
                == row_range(rows_view(rows@), i, width, selected),
{
    let ghost all = rows_view(rows@);
    let columns = plan_columns(rows, width);
    let mut lines: Vec<PlanLine> = Vec::new();
    let mut ranges: Vec<(usize, usize)> = Vec::new();
    let mut i: usize = 0;
    while i < rows.len()
        invariant
            i <= rows@.len(),
            all == rows_view(rows@),
            columns == columns_spec(all, width),
            plan_view(lines@) == plan_upto(all, i as int, width, selected),
            i > 0 ==> lines@.len() > 0,
            ranges@.len() == i,
            forall|k: int|
                0 <= k < i ==> (#[trigger] ranges@[k].0 as int, ranges@[k].1 as int) == row_range(all, k, width, selected),
        decreases rows@.len() - i,
    {
        let ghost before = plan_view(lines@);
        assert(all[i as int] == rows@[i as int]@);
        if i > 0 {
            assert(all[i - 1] == rows@[i - 1]@);
        }
        let starts_group = i == 0 || rows[i - 1].group != rows[i].group;
        if starts_group {
            if i > 0 {
                lines.push(PlanLine::Blank);
            }
            let group = rows[i].group;
            let count = count_in_group(rows, group);
            let indent = heading_indent(group, count, width);
            lines.push(PlanLine::Header { group, count, indent });
        }
        assert(plan_view(lines@) =~= before + header_block(all, i as int, width));
        let start = lines.len();
        let block = if columns.wide {
            wide_lines(&rows[i], i, columns, width, i == selected)
        } else {
            narrow_lines(&rows[i], i, width, i == selected)
        };
        assert(plan_view(block@) == row_block(all, i as int, width, selected));
        append_lines(&mut lines, block);
        assert(plan_view(lines@) =~= plan_upto(all, i + 1, width, selected));
        ranges.push((start, lines.len()));
        assert(row_range(all, i as int, width, selected) == (start as int, lines@.len() as int));
        i = i + 1;
    }
    HelpPlan { lines, row_line_ranges: ranges, columns }
}

/// The overlay's layout with no row selected.
pub fn build_render_plan(width: usize, rows: &Vec<PlanRow>) -> (plan: HelpPlan)
    ensures
        plan.columns == columns_spec(rows_view(rows@), width),
        plan_view(plan.lines@) == plan_upto(rows_view(rows@), rows@.len() as int, width, usize::MAX),
        plan.row_line_ranges@.len() == rows@.len(),
        forall|i: int|
            0 <= i < rows@.len() ==> (#[trigger] plan.row_line_ranges@[i].0 as int, plan.row_line_ranges@[i].1 as int)
                == row_range(rows_view(rows@), i, width, usize::MAX),
{
    build_render_plan_with_selection(width, rows, usize::MAX)
}

/// The lines of fewer rows are a prefix of the lines of more.
proof fn lemma_plan_prefix(rows: Seq<PlanRowView>, n: int, m: int, width: usize, selected: usize)
    requires
        0 <= n <= m,
    ensures
        plan_upto(rows, n, width, selected).len() <= plan_upto(rows, m, width, selected).len(),
        plan_upto(rows, m, width, selected).subrange(0, plan_upto(rows, n, width, selected).len() as int)
            == plan_upto(rows, n, width, selected),
    decreases m - n,
{
    if n < m {
        lemma_plan_prefix(rows, n, m - 1, width, selected);
        let a = plan_upto(rows, n, width, selected);
        let b = plan_upto(rows, m - 1, width, selected);
        let c = plan_upto(rows, m, width, selected);
        assert(c.subrange(0, b.len() as int) =~= b);
        assert(c.subrange(0, a.len() as int) =~= b.subrange(0, a.len() as int));
    } else {
        let a = plan_upto(rows, n, width, selected);
        assert(a.subrange(0, a.len() as int) =~= a);
    }
}

/// The rows take the lines in their order: each row's lines run forward,
/// start no earlier than the lines of the rows before it end, and the last
/// row's lines end with the overlay.
pub proof fn law_row_ranges_run_in_row_order(rows: Seq<PlanRowView>, width: usize, selected: usize)
    ensures
        forall|i: int| 0 <= i < rows.len() ==> #[trigger] row_range(rows, i, width, selected).0 <= row_range(rows, i, width, selected).1,
        forall|i: int, j: int|
            0 <= i < j < rows.len() ==> #[trigger] row_range(rows, i, width, selected).1 <= #[trigger] row_range(
                rows,
                j,
                width,
                selected,
            ).0,
        rows.len() > 0 ==> row_range(rows, rows.len() - 1, width, selected).1 == plan_upto(
            rows,
            rows.len() as int,
            width,
            selected,
        ).len(),
{
    assert forall|i: int, j: int| 0 <= i < j < rows.len() implies #[trigger] row_range(rows, i, width, selected).1
        <= #[trigger] row_range(rows, j, width, selected).0 by {
        lemma_plan_prefix(rows, i + 1, j, width, selected);
    }
}

} // verus!
