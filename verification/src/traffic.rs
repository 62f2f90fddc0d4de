//! Reading the traffic table of the account page, and the warnings that the
//! used share of the daily allowance raises.
use vstd::prelude::*;
use crate::data::{Notice, NotificationState, TrafficUnits, notice, notice_view, opt_view};
use crate::text::{field, remove_all, trimmed, remove_all_of, split_field, trim};

verus! {

// ---------------------------------------------------------------------------
// The HTML parser
// ---------------------------------------------------------------------------

/// Relation between a document `html`, an id `id`, and a result `r` that the `tl`
/// crate may give for the inner HTML of the element with that id. It is a relation,
/// not a function: `tl` writes a tag's attributes in the iteration order of a
/// randomly seeded hash map, so the same document can give different texts.
pub uninterp spec fn tl_inner_html_by_id(html: Seq<char>, id: Seq<char>, r: Option<Seq<char>>) -> bool;

/// Relation between a document `html`, a query selector `selector`, and a result `r`
/// that the `tl` crate may give for the nodes that the selector matches: for each, its
/// inner text and, where it is a tag, the outer HTML of all its descendants in order.
/// A relation for the same reason as `tl_inner_html_by_id`.
pub uninterp spec fn tl_selected_cells(
    html: Seq<char>,
    selector: Seq<char>,
    r: Option<Seq<(Seq<char>, Option<Seq<Seq<char>>>)>>,
) -> bool;

/// Parses `html` with `tl::parse` (default options) and returns the inner HTML of
/// the element whose `id` attribute is `id` (`VDom::get_element_by_id`, then
/// `Node::inner_html`), or `None` where parsing fails or no element has that id.
/// Trusted: the contract only says that the result is one that `tl` may give for
/// these arguments (`tl_inner_html_by_id`); what that text is, is not stated.
#[verifier::external_body]
fn inner_html_by_id<'a>(html: &'a str, id: &'a str) -> (r: Option<String>)
    ensures
        tl_inner_html_by_id(html@, id@, opt_view(r)),
{
    let dom = tl::parse(html, tl::ParserOptions::default()).ok()?;
    let node = dom.get_element_by_id(id)?.get(dom.parser())?;
    Some(node.inner_html(dom.parser()).to_string())
}

/// Parses `html` with `tl::parse` (default options) and, for each node that the
/// query selector `selector` matches (`VDom::query_selector`), returns its inner
/// text (`Node::inner_text`) and, where it is a tag (`Node::children`), the outer
/// HTML (`Node::outer_html`) of every descendant (`Children::all`); `None` where
/// parsing fails, the selector does not parse, or a handle does not resolve.
/// Trusted: the contract only says that the result is one that `tl` may give for
/// these arguments (`tl_selected_cells`); what the texts are, is not stated.
#[verifier::external_body]
fn selected_cells<'a>(html: &'a str, selector: &'a str) -> (r: Option<Vec<(String, Option<Vec<String>>)>>)
    ensures
        tl_selected_cells(html@, selector@, r.deep_view()),
{
    let dom = tl::parse(html, tl::ParserOptions::default()).ok()?;
    let p = dom.parser();
    dom.query_selector(selector)?.map(|h| h.get(p).map(|n| (
        n.inner_text(p).to_string(),
        n.children().map(|c| c.all(p).iter().map(|d| d.outer_html(p).to_string()).collect()),
    ))).collect()
}

// ---------------------------------------------------------------------------
// Cells of the traffic table
// ---------------------------------------------------------------------------

/// One cell of the traffic table: the figure's text and its unit.
pub struct TrafficCell {
    pub figure: String,
    pub unit: String,
}

/// A cell as plain sequences, for contracts.
pub open spec fn cell_view(c: TrafficCell) -> (Seq<char>, Seq<char>) {
    (c.figure@, c.unit@)
}

/// The figure in a cell's inner text: trimmed, with every `&nbsp;` taken out.
pub open spec fn cell_figure(text: Seq<char>) -> Seq<char> {
    remove_all(trimmed(text), "&nbsp;"@)
}

/// The unit in the HTML of the node that holds it: the text after its first `.`
/// up to the next `.` or `"`. `None` where the HTML has no `.`.
pub open spec fn cell_unit(html: Seq<char>) -> Option<Seq<char>> {
    match field(html, '.', 1) {
        Some(f) => field(f, '"', 0),
        None => None,
    }
}

/// A raw cell read into a figure and a unit: the figure from the cell's inner text,
/// the unit from the second of its descendants. `None` where it holds no unit.
pub open spec fn read_cell(raw: (Seq<char>, Option<Seq<Seq<char>>>)) -> Option<(Seq<char>, Seq<char>)> {
    match raw.1 {
        Some(ds) => if ds.len() > 1 {
            match cell_unit(ds[1]) {
                Some(u) => Some((cell_figure(raw.0), u)),
                None => None,
            }
        } else {
            None
        },
        None => None,
    }
}

/// Why the account page could not be read.
#[derive(Clone, Copy, PartialEq, Eq, Structural, Debug)]
pub enum TrafficPageError {
    /// The page has no element with id `content3`.
    NoTrafficTable,
    /// The table could not be searched for its cells.
    NoCells,
    /// The cell at this index holds no unit.
    NoUnit(usize),
}

/// `k` is the first index of `raw` that holds a cell `read_cell` cannot read.
pub open spec fn first_unreadable(raw: Seq<(Seq<char>, Option<Seq<Seq<char>>>)>, k: nat) -> bool {
    &&& k < raw.len()
    &&& read_cell(raw[k as int]) is None
    &&& forall|i: int| 0 <= i < k ==> read_cell(#[trigger] raw[i]) is Some
}

/// The raw cells read: every cell's figure and unit, or the first index whose cell
/// holds no unit.
pub open spec fn read_raw(raw: Seq<(Seq<char>, Option<Seq<Seq<char>>>)>) -> Result<Seq<(Seq<char>, Seq<char>)>, usize> {
    if forall|i: int| 0 <= i < raw.len() ==> read_cell(#[trigger] raw[i]) is Some {
        Ok(Seq::new(raw.len(), |i: int| read_cell(raw[i])->0))
    } else {
        Err((choose|k: nat| first_unreadable(raw, k)) as usize)
    }
}

/// Reads the raw cells of the traffic table. The cell at the first index where
/// `read_cell` fails is reported; otherwise every cell is read.
pub fn cells_from_raw(raw: &Vec<(String, Option<Vec<String>>)>) -> (r: Result<Vec<TrafficCell>, usize>)
    ensures
        match r {
            Ok(cells) => cells@.len() == raw@.len() && forall|i: int|
                0 <= i < raw@.len() ==> read_cell(#[trigger] raw.deep_view()[i]) == Some(
                    cell_view(cells@[i]),
                ),
            Err(k) => first_unreadable(raw.deep_view(), k as nat),
        },
        cells_result_view(r) == read_raw(raw.deep_view()),
{
    let mut cells: Vec<TrafficCell> = Vec::new();
    let mut i: usize = 0;
    let ghost rs = raw.deep_view();
    while i < raw.len()
        invariant
            rs == raw.deep_view(),
            i <= raw@.len(),
            cells@.len() == i,
            forall|j: int|
                0 <= j < i ==> read_cell(#[trigger] rs[j]) == Some(cell_view(cells@[j])),
        decreases raw@.len() - i,
    {
        let ghost d = rs[i as int];
        assert(d == (raw@[i as int].0@, raw@[i as int].1.deep_view()));
        let text = &raw[i].0;
        let html: &String = match &raw[i].1 {
            Some(ds) => {
                if ds.len() > 1 {
                    proof {
                        assert(ds.deep_view()[1] == ds@[1]@);
                    }
                    &ds[1]
                } else {
                    proof {
                        lemma_first_unreadable_unique(rs, i as nat);
                    }
                    return Err(i);
                }
            },
            None => {
                proof {
                    lemma_first_unreadable_unique(rs, i as nat);
                }
                return Err(i);
            },
        };
        let unit = match split_field(html.as_str(), '.', 1) {
            None => {
                proof {
                    lemma_first_unreadable_unique(rs, i as nat);
                }
                return Err(i);
            },
            Some(after_dot) => match split_field(after_dot.as_str(), '"', 0) {
                Some(u) => u,
                None => {
                    proof {
                        lemma_first_unreadable_unique(rs, i as nat);
                    }
                    return Err(i);
                },
            },
        };
        let trimmed_text = trim(text.as_str());
        proof {
            reveal_strlit("&nbsp;");
        }
        let figure = remove_all_of(trimmed_text.as_str(), "&nbsp;");
        cells.push(TrafficCell { figure, unit });
        i += 1;
    }
    proof {
        assert(cells@.map_values(|c: TrafficCell| cell_view(c)) =~= Seq::new(
            rs.len(),
            |j: int| read_cell(rs[j])->0,
        ));
    }
    Ok(cells)
}

proof fn lemma_first_unreadable_unique(raw: Seq<(Seq<char>, Option<Seq<Seq<char>>>)>, k: nat)
    requires
        first_unreadable(raw, k),
    ensures
        read_raw(raw) == Err::<Seq<(Seq<char>, Seq<char>)>, usize>(k as usize),
{
    assert(!(forall|i: int| 0 <= i < raw.len() ==> read_cell(#[trigger] raw[i]) is Some)) by {
        assert(read_cell(raw[k as int]) is None);
    }
    let c = choose|kk: nat| first_unreadable(raw, kk);
    assert(first_unreadable(raw, c));
    if c < k {
        assert(read_cell(raw[c as int]) is Some);
    } else if c > k {
        assert(read_cell(raw[k as int]) is Some);
    }
}

/// A result of reading cells, as plain sequences.
pub open spec fn cells_result_view<E>(r: Result<Vec<TrafficCell>, E>) -> Result<Seq<(Seq<char>, Seq<char>)>, E> {
    match r {
        Ok(cells) => Ok(cells@.map_values(|c: TrafficCell| cell_view(c))),
        Err(e) => Err(e),
    }
}

/// What the HTML parser gave for the account page: no traffic table, no cells
/// found in it, or these raw cells (inner text, and HTML of the second descendant).
pub enum TableOutcome {
    /// No element with the table's id was found.
    NoTable,
    /// The table's inner HTML was found, but no cells could be selected in it.
    NoCells { table: Seq<char> },
    /// The table's inner HTML and the raw cells selected in it.
    Cells { table: Seq<char>, raw: Seq<(Seq<char>, Option<Seq<Seq<char>>>)> },
}

/// `out` is what the HTML parser may give for the account page `page`: the element
/// with id `content3` looked up in the page, then the cells `td.tabletext` selected
/// in that element's inner HTML.
pub open spec fn parser_gave(page: Seq<char>, out: TableOutcome) -> bool {
    match out {
        TableOutcome::NoTable => tl_inner_html_by_id(page, "content3"@, None),
        TableOutcome::NoCells { table } => tl_inner_html_by_id(page, "content3"@, Some(table))
            && tl_selected_cells(table, "td.tabletext"@, None),
        TableOutcome::Cells { table, raw } => tl_inner_html_by_id(page, "content3"@, Some(table))
            && tl_selected_cells(table, "td.tabletext"@, Some(raw)),
    }
}

/// The cells of the traffic table, given what the HTML parser gave.
pub open spec fn spec_read_table(out: TableOutcome) -> Result<Seq<(Seq<char>, Seq<char>)>, TrafficPageError> {
    match out {
        TableOutcome::NoTable => Err(TrafficPageError::NoTrafficTable),
        TableOutcome::NoCells { .. } => Err(TrafficPageError::NoCells),
        TableOutcome::Cells { raw, .. } => match read_raw(raw) {
            Ok(cells) => Ok(cells),
            Err(k) => Err(TrafficPageError::NoUnit(k)),
        },
    }
}

/// Reads the traffic table (element `content3`, cells `td.tabletext`) of the account
/// page. The outcome is that of `spec_read_table` for something the HTML parser may
/// give for `page` (`parser_gave`); which of those it gives is not stated.
pub fn read_traffic_page(page: &str) -> (r: Result<Vec<TrafficCell>, TrafficPageError>)
    ensures
        exists|out: TableOutcome|
            cells_result_view(r) == #[trigger] spec_read_table(out) && parser_gave(page@, out),
{
    let table = match inner_html_by_id(page, "content3") {
        Some(t) => t,
        None => {
            assert(cells_result_view(Err::<Vec<TrafficCell>, TrafficPageError>(TrafficPageError::NoTrafficTable))
                == spec_read_table(TableOutcome::NoTable));
            assert(parser_gave(page@, TableOutcome::NoTable));
            return Err(TrafficPageError::NoTrafficTable);
        },
    };
    let raw = match selected_cells(table.as_str(), "td.tabletext") {
        Some(r) => r,
        None => {
            assert(cells_result_view(Err::<Vec<TrafficCell>, TrafficPageError>(TrafficPageError::NoCells))
                == spec_read_table(TableOutcome::NoCells { table: table@ }));
            assert(parser_gave(page@, TableOutcome::NoCells { table: table@ }));
            return Err(TrafficPageError::NoCells);
        },
    };
    let ghost out = TableOutcome::Cells { table: table@, raw: raw.deep_view() };
    assert(parser_gave(page@, out));
    match cells_from_raw(&raw) {
        Ok(cells) => {
            let r = Ok(cells);
            assert(cells_result_view(r) == spec_read_table(out));
            r
        },
        Err(k) => {
            let r = Err(TrafficPageError::NoUnit(k));
            assert(cells_result_view::<TrafficPageError>(r) == spec_read_table(out));
            r
        },
    }
}

/// The units of the five traffic figures: cells 6 to 10 of the table
/// (total, last, current, used, remaining).
pub fn traffic_units(cells: &Vec<TrafficCell>) -> (u: TrafficUnits)
    requires
        cells@.len() >= 11,
    ensures
        u.total@ == cells@[6].unit@,
        u.last@ == cells@[7].unit@,
        u.current@ == cells@[8].unit@,
        u.used@ == cells@[9].unit@,
        u.remaining@ == cells@[10].unit@,
{
    TrafficUnits {
        total: cells[6].unit.clone(),
        last: cells[7].unit.clone(),
        current: cells[8].unit.clone(),
        used: cells[9].unit.clone(),
        remaining: cells[10].unit.clone(),
    }
}

// ---------------------------------------------------------------------------
// Usage warnings
// ---------------------------------------------------------------------------

/// The warning that reaching `state` raises, if any.
pub open spec fn usage_warning(state: NotificationState) -> Option<(Seq<char>, Option<Seq<char>>)> {
    match state {
        NotificationState::Used50 => Some(("50% data warning!"@, Some("Consider slowing down"@))),
        NotificationState::Used90 => Some(("90% data warning!"@, Some("Tread the interwebs slowly"@))),
        _ => None,
    }
}

/// Moves from the last measured state to the current one: the new state is the
/// current one, and a warning is raised only when the state changed to one that has a warning.
pub fn usage_transition(last: NotificationState, current: NotificationState) -> (r: (
    NotificationState,
    Option<Notice>,
))
    ensures
        r.0 == current,
        match r.1 {
            Some(n) => last != current && usage_warning(current) == Some(notice_view(n)),
            None => last == current || usage_warning(current) is None,
        },
{
    if last != current {
        match current {
            NotificationState::Used50 => (
                current,
                Some(notice("50% data warning!", "Consider slowing down")),
            ),
            NotificationState::Used90 => (
                current,
                Some(notice("90% data warning!", "Tread the interwebs slowly")),
            ),
            _ => (current, None),
        }
    } else {
        (current, None)
    }
}

} // verus!
