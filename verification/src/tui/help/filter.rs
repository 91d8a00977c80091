//! The help overlay's filter: which rows a query matches, on which of their
//! shown fields, or else on which field the overlay does not show. The
//! fuzzy matching itself is `nucleo_matcher`'s.
use vstd::prelude::*;

use nucleo_matcher::pattern::{CaseMatching, Normalization, Pattern};
use nucleo_matcher::{Config, Matcher, Utf32Str};

use crate::text::{copy_string, trim, trim_string};
use crate::tui::help::{group_label, HelpGroup, HelpMatch, HiddenMatch};

verus! {

/// What `nucleo_matcher` finds of `query` in `value`: the positions of the
/// matched characters, or nothing where the query does not match.
pub uninterp spec fn fuzzy_indices(query: Seq<char>, value: Seq<char>) -> Option<Seq<u32>>;

/// `nucleo_matcher`: `Pattern::parse` of `query` (case ignored, smart
/// normalization) matched against `value` by `Pattern::indices`, with a
/// `Matcher` of the default configuration. The result is named, and depends
/// on the query and the value alone.
#[verifier::external_body]
fn pattern_indices(query: &str, value: &str) -> (r: Option<Vec<u32>>)
    ensures
        match r {
            Some(v) => fuzzy_indices(query@, value@) == Some(v@),
            None => fuzzy_indices(query@, value@) is None,
        },
{
    let pattern = Pattern::parse(query, CaseMatching::Ignore, Normalization::Smart);
    let mut matcher = Matcher::new(Config::DEFAULT);
    let mut buffer = Vec::new();
    let mut indices = Vec::new();
    match pattern.indices(Utf32Str::new(value, &mut buffer), &mut matcher, &mut indices) {
        Some(_) => Some(indices),
        None => None,
    }
}

/// The text of a help row that the filter reads: the group's heading, the
/// keys, slug and description it shows, and the title, category, keywords
/// and aliases it does not.
pub struct HelpRowText {
    pub group: HelpGroup,
    pub key: String,
    pub slug: String,
    pub description: String,
    pub title: String,
    pub category: String,
    pub keywords: Vec<String>,
    pub aliases: Vec<String>,
}

/// Where a query matched a row, as a spec value.
pub struct MatchView {
    pub group: Seq<u32>,
    pub key: Seq<u32>,
    pub slug: Seq<u32>,
    pub description: Seq<u32>,
    pub hidden: Option<(Seq<char>, Seq<char>)>,
}

impl View for HelpMatch {
    type V = MatchView;

    open spec fn view(&self) -> MatchView {
        MatchView {
            group: self.group_indices@,
            key: self.key_indices@,
            slug: self.slug_indices@,
            description: self.description_indices@,
            hidden: match self.hidden_reason {
                Some(h) => Some((h.field@, h.value@)),
                None => None,
            },
        }
    }
}

/// Where `query` matches a field: nowhere in an empty one.
pub open spec fn field_spec(query: Seq<char>, value: Seq<char>) -> Option<Seq<u32>> {
    if value.len() == 0 {
        None
    } else {
        fuzzy_indices(query, value)
    }
}

/// The fields a row does not show, in the order the filter tries them.
pub open spec fn hidden_fields(row: HelpRowText) -> Seq<(Seq<char>, Seq<char>)> {
    seq![("title"@, row.title@), ("category"@, row.category@)] + row.keywords@.map_values(
        |k: String| ("keyword"@, k@),
    ) + row.aliases@.map_values(|a: String| ("alias"@, a@))
}

/// The first hidden field, from position `i` on, that `query` matches.
pub open spec fn first_hidden_from(query: Seq<char>, fields: Seq<(Seq<char>, Seq<char>)>, i: int) -> Option<
    (Seq<char>, Seq<char>),
>
    decreases fields.len() - i,
{
    if i < 0 || i >= fields.len() {
        None
    } else if field_spec(query, fields[i].1) is Some {
        Some(fields[i])
    } else {
        first_hidden_from(query, fields, i + 1)
    }
}

/// The positions matched in a field, or none.
pub open spec fn or_none(m: Option<Seq<u32>>) -> Seq<u32> {
    match m {
        Some(v) => v,
        None => Seq::empty(),
    }
}

/// The match made of where a query matched a row's shown fields and, where
/// it matched none of them, the hidden field it matched: none where it
/// matched nothing.
pub open spec fn combine_spec(
    group: Option<Seq<u32>>,
    key: Option<Seq<u32>>,
    slug: Option<Seq<u32>>,
    description: Option<Seq<u32>>,
    hidden: Option<(Seq<char>, Seq<char>)>,
) -> Option<MatchView> {
    let displayed = group is Some || key is Some || slug is Some || description is Some;
    if !displayed && hidden is None {
        None
    } else {
        Some(
            MatchView {
                group: or_none(group),
                key: or_none(key),
                slug: or_none(slug),
                description: or_none(description),
                hidden,
            },
        )
    }
}

/// Whether and where `query` matches a row: on the fields it shows, or else
/// on the first of the fields it hides; not at all where neither matches.
pub open spec fn match_row_spec(row: HelpRowText, query: Seq<char>) -> Option<MatchView> {
    let group = field_spec(query, group_label(row.group));
    let key = field_spec(query, row.key@);
    let slug = field_spec(query, row.slug@);
    let description = field_spec(query, row.description@);
    let displayed = group is Some || key is Some || slug is Some || description is Some;
    combine_spec(
        group,
        key,
        slug,
        description,
        if displayed {
            None
        } else {
            first_hidden_from(query, hidden_fields(row), 0)
        },
    )
}

/// The rows, among the first `n`, that the query matches, each with its
/// position and where it matched; every row, unmatched, for an empty query.
pub open spec fn filter_prefix(rows: Seq<HelpRowText>, query: Seq<char>, n: int) -> Seq<(int, MatchView)>
    decreases n,
{
    if n <= 0 {
        Seq::empty()
    } else {
        let earlier = filter_prefix(rows, query, n - 1);
        if query.len() == 0 {
            earlier.push((n - 1, no_match()))
        } else {
            match match_row_spec(rows[n - 1], query) {
                Some(m) => earlier.push((n - 1, m)),
                None => earlier,
            }
        }
    }
}

/// A match on nothing.
pub open spec fn no_match() -> MatchView {
    MatchView {
        group: Seq::empty(),
        key: Seq::empty(),
        slug: Seq::empty(),
        description: Seq::empty(),
        hidden: None,
    }
}

/// The rows a filter keeps, with where each matched, for the filter text as
/// typed (its surrounding white space ignored).
pub open spec fn filter_spec(rows: Seq<HelpRowText>, filter: Seq<char>) -> Seq<(int, MatchView)> {
    filter_prefix(rows, trim(filter), rows.len() as int)
}

/// Where `query` matches `value`; nowhere in an empty value.
pub fn field_indices(query: &str, value: &str) -> (r: Option<Vec<u32>>)
    ensures
        match field_spec(query@, value@) {
            Some(v) => r matches Some(x) && x@ == v,
            None => r is None,
        },
{
    if value.unicode_len() == 0 {
        return None;
    }
    pattern_indices(query, value)
}

/// Positions matched, or none.
fn indices_or_none(m: Option<Vec<u32>>) -> (r: Vec<u32>)
    ensures
        r@ == or_none(opt_indices(m)),
{
    match m {
        Some(v) => v,
        None => Vec::new(),
    }
}

/// Matched positions as a spec value.
pub open spec fn opt_indices(m: Option<Vec<u32>>) -> Option<Seq<u32>> {
    match m {
        Some(v) => Some(v@),
        None => None,
    }
}

/// A hidden field's name and value, as spec values.
pub open spec fn fields_view(fields: Seq<(&'static str, String)>) -> Seq<(Seq<char>, Seq<char>)> {
    fields.map_values(|f: (&'static str, String)| (f.0@, f.1@))
}

/// The first field, from position `i` on, marked matched.
pub open spec fn first_marked_from(fields: Seq<(Seq<char>, Seq<char>)>, matched: Seq<bool>, i: int) -> Option<
    (Seq<char>, Seq<char>),
>
    decreases fields.len() - i,
{
    if i < 0 || i >= fields.len() {
        None
    } else if matched[i] {
        Some(fields[i])
    } else {
        first_marked_from(fields, matched, i + 1)
    }
}

/// The fields a row hides, in the order the filter tries them: its title,
/// category, keywords and aliases.
pub fn hidden_fields_of(row: &HelpRowText) -> (fields: Vec<(&'static str, String)>)
    ensures
        fields_view(fields@) == hidden_fields(*row),
{
    let mut fields: Vec<(&'static str, String)> = Vec::new();
    fields.push(("title", copy_string(row.title.as_str())));
    fields.push(("category", copy_string(row.category.as_str())));
    let ghost head = seq![("title"@, row.title@), ("category"@, row.category@)];
    assert(fields_view(fields@) =~= head);
    let mut i: usize = 0;
    while i < row.keywords.len()
        invariant
            i <= row.keywords@.len(),
            fields_view(fields@) == head + row.keywords@.map_values(|k: String| ("keyword"@, k@)).take(i as int),
        decreases row.keywords@.len() - i,
    {
        let ghost before = fields_view(fields@);
        fields.push(("keyword", copy_string(row.keywords[i].as_str())));
        proof {
            let kw = row.keywords@.map_values(|k: String| ("keyword"@, k@));
            assert(fields_view(fields@) =~= before.push(("keyword"@, row.keywords@[i as int]@)));
            assert(kw.take(i + 1) =~= kw.take(i as int).push(kw[i as int]));
        }
        i = i + 1;
    }
    let ghost with_keywords = head + row.keywords@.map_values(|k: String| ("keyword"@, k@));
    assert(row.keywords@.map_values(|k: String| ("keyword"@, k@)).take(i as int) =~= row.keywords@.map_values(
        |k: String| ("keyword"@, k@),
    ));
    let mut j: usize = 0;
    while j < row.aliases.len()
        invariant
            j <= row.aliases@.len(),
            fields_view(fields@) == with_keywords + row.aliases@.map_values(|a: String| ("alias"@, a@)).take(j as int),
        decreases row.aliases@.len() - j,
    {
        let ghost before = fields_view(fields@);
        fields.push(("alias", copy_string(row.aliases[j].as_str())));
        proof {
            let al = row.aliases@.map_values(|a: String| ("alias"@, a@));
            assert(fields_view(fields@) =~= before.push(("alias"@, row.aliases@[j as int]@)));
            assert(al.take(j + 1) =~= al.take(j as int).push(al[j as int]));
        }
        j = j + 1;
    }
    assert(row.aliases@.map_values(|a: String| ("alias"@, a@)).take(j as int) =~= row.aliases@.map_values(
        |a: String| ("alias"@, a@),
    ));
    assert(fields_view(fields@) =~= hidden_fields(*row));
    fields
}

/// The first of the fields that is marked matched, as the reason a row
/// matched where it shows nothing that did.
pub fn first_matched(fields: &Vec<(&'static str, String)>, matched: &Vec<bool>) -> (r: Option<HiddenMatch>)
    requires
        matched@.len() == fields@.len(),
    ensures
        match first_marked_from(fields_view(fields@), matched@, 0) {
            Some((field, value)) => r matches Some(h) && h.field@ == field && h.value@ == value,
            None => r is None,
        },
{
    let ghost fv = fields_view(fields@);
    let mut i: usize = 0;
    while i < fields.len()
        invariant
            i <= fields@.len(),
            matched@.len() == fields@.len(),
            fv == fields_view(fields@),
            first_marked_from(fv, matched@, 0) == first_marked_from(fv, matched@, i as int),
        decreases fields@.len() - i,
    {
        if matched[i] {
            assert(fv[i as int] == (fields@[i as int].0@, fields@[i as int].1@));
            return Some(HiddenMatch { field: fields[i].0, value: copy_string(fields[i].1.as_str()) });
        }
        i = i + 1;
    }
    None
}

/// Whether and where a row matched, from where the query matched its shown
/// fields and the hidden field it matched (looked for only where it matched
/// none of the shown ones).
pub fn combine_match(
    group: Option<Vec<u32>>,
    key: Option<Vec<u32>>,
    slug: Option<Vec<u32>>,
    description: Option<Vec<u32>>,
    hidden: Option<HiddenMatch>,
) -> (r: Option<HelpMatch>)
    ensures
        match combine_spec(
            opt_indices(group),
            opt_indices(key),
            opt_indices(slug),
            opt_indices(description),
            match hidden {
                Some(h) => Some((h.field@, h.value@)),
                None => None,
            },
        ) {
            Some(m) => r matches Some(x) && x@ == m,
            None => r is None,
        },
{
    let displayed = group.is_some() || key.is_some() || slug.is_some() || description.is_some();
    if !displayed && hidden.is_none() {
        return None;
    }
    Some(
        HelpMatch {
            group_indices: indices_or_none(group),
            key_indices: indices_or_none(key),
            slug_indices: indices_or_none(slug),
            description_indices: indices_or_none(description),
            hidden_reason: hidden,
        },
    )
}

/// Whether and where `query` matches a row.
pub fn match_row(row: &HelpRowText, query: &str) -> (r: Option<HelpMatch>)
    ensures
        match match_row_spec(*row, query@) {
            Some(m) => r matches Some(x) && x@ == m,
            None => r is None,
        },
{
    let group = field_indices(query, row.group.label());
    let key = field_indices(query, row.key.as_str());
    let slug = field_indices(query, row.slug.as_str());
    let description = field_indices(query, row.description.as_str());
    let displayed = group.is_some() || key.is_some() || slug.is_some() || description.is_some();
    let hidden = if displayed {
        None
    } else {
        let fields = hidden_fields_of(row);
        let ghost fv = fields_view(fields@);
        let mut matched: Vec<bool> = Vec::new();
        let mut i: usize = 0;
        while i < fields.len()
            invariant
                i <= fields@.len(),
                matched@.len() == i,
                fv == fields_view(fields@),
                fv == hidden_fields(*row),
                forall|k: int| 0 <= k < i ==> #[trigger] matched@[k] == (field_spec(query@, fv[k].1) is Some),
            decreases fields@.len() - i,
        {
            assert(fv[i as int].1 == fields@[i as int].1@);
            let m = field_indices(query, fields[i].1.as_str()).is_some();
            matched.push(m);
            i = i + 1;
        }
        proof {
            lemma_first_marked(query@, fv, matched@, 0);
        }
        first_matched(&fields, &matched)
    };
    combine_match(group, key, slug, description, hidden)
}

/// Marking the fields a query matches, the first marked one is the first
/// one the query matches.
proof fn lemma_first_marked(query: Seq<char>, fields: Seq<(Seq<char>, Seq<char>)>, matched: Seq<bool>, i: int)
    requires
        0 <= i,
        matched.len() == fields.len(),
        forall|k: int| 0 <= k < fields.len() ==> #[trigger] matched[k] == (field_spec(query, fields[k].1) is Some),
    ensures
        first_marked_from(fields, matched, i) == first_hidden_from(query, fields, i),
    decreases fields.len() - i,
{
    if i < fields.len() {
        lemma_first_marked(query, fields, matched, i + 1);
    }
}

/// Where the filter kept a row, as a spec value.
pub open spec fn kept_view(kept: Seq<(usize, HelpMatch)>) -> Seq<(int, MatchView)> {
    kept.map_values(|k: (usize, HelpMatch)| (k.0 as int, k.1@))
}

/// The rows the filter text keeps, each by its position with where it
/// matched; every row for a filter of nothing but white space.
pub fn filter_rows(rows: &Vec<HelpRowText>, filter: &str) -> (kept: Vec<(usize, HelpMatch)>)
    ensures
        kept_view(kept@) == filter_spec(rows@, filter@),
{
    let query = trim_string(filter);
    let empty = query.unicode_len() == 0;
    let mut kept: Vec<(usize, HelpMatch)> = Vec::new();
    let mut i: usize = 0;
    while i < rows.len()
        invariant
            i <= rows@.len(),
            query@ == trim(filter@),
            empty == (query@.len() == 0),
            kept_view(kept@) == filter_prefix(rows@, query@, i as int),
        decreases rows@.len() - i,
    {
        let ghost before = kept_view(kept@);
        if empty {
            kept.push(
                (
                    i,
                    HelpMatch {
                        group_indices: Vec::new(),
                        key_indices: Vec::new(),
                        slug_indices: Vec::new(),
                        description_indices: Vec::new(),
                        hidden_reason: None,
                    },
                ),
            );
            assert(kept_view(kept@) =~= before.push((i as int, no_match())));
        } else {
            match match_row(&rows[i], query.as_str()) {
                Some(m) => {
                    let ghost mv = m@;
                    kept.push((i, m));
                    assert(kept_view(kept@) =~= before.push((i as int, mv)));
                },
                None => {},
            }
        }
        i = i + 1;
    }
    kept
}

} // verus!
