//! Data entry grid for one LPI reading: a density row, then one row per step,
//! four ink columns.  Row 1 is the full-tone step and stays locked at 100.
//!
//! Tab order is column-major (all C readings, then M, Y and K), the order in
//! which the scanner reads a chart; the locked row is skipped.

use vstd::prelude::*;
use crate::text::{owned, views};

verus! {

/// A cell of the grid: row 0 is the density row, rows 1.. the steps.
#[derive(Clone, Copy, Debug, PartialEq, Eq, Hash, Structural)]
pub struct CellId {
    pub row: usize,
    pub col: usize,
}

/// State of the grid's text fields.
pub struct WeightGridState {
    /// `[row][col]` texts: row 0 the density row, rows 1.. the steps.
    pub cells: Vec<[String; 4]>,
    pub step_labels: Vec<String>,
    /// Whether the last cell was completed (signals auto-advance to the next reading)
    pub completed: bool,
    /// Which cell should receive focus next
    pub focus_request: Option<CellId>,
    /// Whether the next Tab is swallowed after an automatic advance
    pub advance_ignore_next_tab: bool,
}

pub open spec fn row_view(r: [String; 4]) -> Seq<Seq<char>> {
    views(r@)
}

pub open spec fn grid_view(cells: Seq<[String; 4]>) -> Seq<Seq<Seq<char>>> {
    cells.map_values(|r: [String; 4]| row_view(r))
}

pub open spec fn blank_row() -> Seq<Seq<char>> {
    seq![Seq::<char>::empty(), Seq::<char>::empty(), Seq::<char>::empty(), Seq::<char>::empty()]
}

pub open spec fn locked_row() -> Seq<Seq<char>> {
    seq!["100"@, "100"@, "100"@, "100"@]
}

fn blank() -> (r: [String; 4])
    ensures
        row_view(r) == blank_row(),
{
    let r = [String::new(), String::new(), String::new(), String::new()];
    assert(row_view(r) =~= blank_row());
    r
}

fn locked() -> (r: [String; 4])
    ensures
        row_view(r) == locked_row(),
{
    let r = [owned("100"), owned("100"), owned("100"), owned("100")];
    assert(row_view(r) =~= locked_row());
    r
}

// ── Tab order ────────────────────────────────────────────────────────────────

/// The first `k` rows of column `col` in tab order: every row but the locked one.
pub open spec fn column_cells(col: nat, k: nat) -> Seq<CellId>
    decreases k,
{
    if k == 0 {
        Seq::empty()
    } else if k - 1 == 1 {
        column_cells(col, (k - 1) as nat)
    } else {
        column_cells(col, (k - 1) as nat).push(CellId { row: (k - 1) as usize, col: col as usize })
    }
}

/// Tab order over the first `c` columns of a grid of `num_rows` rows.
pub open spec fn columns_in_order(num_rows: nat, c: nat) -> Seq<CellId>
    decreases c,
{
    if c == 0 {
        Seq::empty()
    } else {
        columns_in_order(num_rows, (c - 1) as nat) + column_cells((c - 1) as nat, num_rows)
    }
}

/// Tab order of a grid with `num_rows` rows: column by column, top to bottom.
pub open spec fn tab_order(num_rows: nat) -> Seq<CellId> {
    columns_in_order(num_rows, 4)
}

/// The cell at `row`, `col`.
pub open spec fn cell_id(row: nat, col: nat) -> CellId {
    CellId { row: row as usize, col: col as usize }
}

/// Cell `a` comes before cell `b` reading column by column.
pub open spec fn before(a: CellId, b: CellId) -> bool {
    a.col < b.col || (a.col == b.col && a.row < b.row)
}

/// The first position at or after `i` where `cur` stands in `order`.
pub open spec fn position_from(order: Seq<CellId>, cur: CellId, i: nat) -> Option<nat>
    decreases order.len() - i,
{
    if i >= order.len() {
        None
    } else if order[i as int] == cur {
        Some(i)
    } else {
        position_from(order, cur, i + 1)
    }
}

/// The cell after `cur` in `order`; none after the last cell or for a cell
/// that is not in the order.
pub open spec fn next_in_order(order: Seq<CellId>, cur: CellId) -> Option<CellId> {
    match position_from(order, cur, 0) {
        Some(p) => if p + 1 < order.len() {
            Some(order[(p + 1) as int])
        } else {
            None
        },
        None => None,
    }
}

impl WeightGridState {
    /// A blank grid for `step_labels`: an empty density row, the locked
    /// full-tone row, and empty rows for the other steps.
    pub fn new(step_labels: &[String]) -> (r: Self)
        ensures
            r.cells@.len() == step_labels@.len() + 1,
            grid_view(r.cells@)[0] == blank_row(),
            step_labels@.len() > 0 ==> grid_view(r.cells@)[1] == locked_row(),
            forall|i: int| 2 <= i < r.cells@.len() ==> #[trigger] grid_view(r.cells@)[i] == blank_row(),
            views(r.step_labels@) == views(step_labels@),
            !r.completed,
            r.focus_request is None,
            !r.advance_ignore_next_tab,
    {
        let mut cells: Vec<[String; 4]> = Vec::new();
        cells.push(blank());
        let mut labels: Vec<String> = Vec::new();
        let mut i: usize = 0;
        while i < step_labels.len()
            invariant
                i <= step_labels@.len(),
                cells@.len() == i + 1,
                grid_view(cells@)[0] == blank_row(),
                i > 0 ==> grid_view(cells@)[1] == locked_row(),
                forall|k: int| 2 <= k < cells@.len() ==> #[trigger] grid_view(cells@)[k] == blank_row(),
                views(labels@) == views(step_labels@.take(i as int)),
            decreases step_labels.len() - i,
        {
            let ghost before_cells = cells@;
            let row = if i == 0 {
                locked()
            } else {
                blank()
            };
            let ghost rv = row_view(row);
            cells.push(row);
            assert(grid_view(cells@) =~= grid_view(before_cells).push(rv));
            let label = step_labels[i].clone();
            proof {
                crate::text::lemma_views_push(labels@, label);
            }
            labels.push(label);
            assert(step_labels@.take(i + 1) =~= step_labels@.take(i as int).push(step_labels@[i as int]));
            assert(views(labels@) =~= views(step_labels@.take(i + 1)));
            i = i + 1;
        }
        assert(step_labels@.take(step_labels@.len() as int) =~= step_labels@);
        WeightGridState {
            cells,
            step_labels: labels,
            completed: false,
            focus_request: None,
            advance_ignore_next_tab: false,
        }
    }

    /// Column-major Tab order: density-C, step2-C, step3-C, ..., density-M,
    /// step2-M, ...  Row 1 (the 100% step) is skipped.
    pub fn flat_order(&self) -> (r: Vec<CellId>)
        ensures
            r@ == tab_order(self.cells@.len() as nat),
    {
        let num_rows = self.cells.len();
        let mut order: Vec<CellId> = Vec::new();
        let mut col: usize = 0;
        while col < 4
            invariant
                col <= 4,
                num_rows == self.cells@.len(),
                order@ == columns_in_order(num_rows as nat, col as nat),
            decreases 4 - col,
        {
            let ghost start = order@;
            let mut row: usize = 0;
            while row < num_rows
                invariant
                    col < 4,
                    row <= num_rows,
                    order@ == start + column_cells(col as nat, row as nat),
                decreases num_rows - row,
            {
                if row != 1 {
                    order.push(CellId { row, col });
                    assert(order@ =~= start + column_cells(col as nat, (row + 1) as nat));
                }
                row = row + 1;
            }
            col = col + 1;
        }
        order
    }

    /// The cell Tab moves to from `current`; none from the last cell.
    pub fn next_cell(&self, current: CellId) -> (r: Option<CellId>)
        ensures
            r == next_in_order(tab_order(self.cells@.len() as nat), current),
    {
        let order = self.flat_order();
        let mut i: usize = 0;
        while i < order.len()
            invariant
                order@ == tab_order(self.cells@.len() as nat),
                i <= order.len(),
                position_from(order@, current, 0) == position_from(order@, current, i as nat),
            decreases order.len() - i,
        {
            if order[i] == current {
                if i + 1 < order.len() {
                    return Some(order[i + 1]);
                } else {
                    return None;
                }
            }
            i = i + 1;
        }
        None
    }

    pub fn focus_first(&mut self)
        ensures
            final(self).focus_request == Some(CellId { row: 0, col: 0 }),
            final(self).cells@ == old(self).cells@,
            final(self).step_labels@ == old(self).step_labels@,
            final(self).completed == old(self).completed,
            final(self).advance_ignore_next_tab == old(self).advance_ignore_next_tab,
    {
        self.focus_request = Some(CellId { row: 0, col: 0 });
    }

    /// Clear all entry fields: blank the density and step rows and re-lock
    /// the 100% row.
    pub fn clear(&mut self)
        ensures
            final(self).cells@.len() == old(self).cells@.len(),
            forall|i: int| 0 <= i < final(self).cells@.len() && i != 1 ==> #[trigger] grid_view(final(self).cells@)[i] == blank_row(),
            final(self).cells@.len() > 1 ==> grid_view(final(self).cells@)[1] == locked_row(),
            final(self).step_labels@ == old(self).step_labels@,
            !final(self).completed,
            final(self).focus_request is None,
            !final(self).advance_ignore_next_tab,
    {
        let n = self.cells.len();
        let mut cells: Vec<[String; 4]> = Vec::new();
        let mut i: usize = 0;
        while i < n
            invariant
                i <= n,
                cells@.len() == i,
                forall|k: int| 0 <= k < i && k != 1 ==> #[trigger] grid_view(cells@)[k] == blank_row(),
                i > 1 ==> grid_view(cells@)[1] == locked_row(),
            decreases n - i,
        {
            let ghost before_cells = cells@;
            let row = if i == 1 {
                locked()
            } else {
                blank()
            };
            let ghost rv = row_view(row);
            cells.push(row);
            assert(grid_view(cells@) =~= grid_view(before_cells).push(rv));
            i = i + 1;
        }
        self.cells = cells;
        self.completed = false;
        self.focus_request = None;
        self.advance_ignore_next_tab = false;
    }
}

// ── Numeric input ────────────────────────────────────────────────────────────

pub open spec fn count_of(s: Seq<char>, c: char) -> nat
    decreases s.len(),
{
    if s.len() == 0 {
        0
    } else {
        count_of(s.drop_last(), c) + if s.last() == c {
            1nat
        } else {
            0nat
        }
    }
}

/// A number being typed: one decimal point, and otherwise only digits and
/// minus signs, such as "2." or "-.5".
pub open spec fn partial_number(s: Seq<char>) -> bool {
    &&& count_of(s, '.') == 1
    &&& forall|i: int| 0 <= i < s.len() ==> #[trigger] s[i] == '.' || s[i] == '-' || ('0' <= s[i] <= '9')
}

/// What the grid accepts while a value is typed: nothing yet, a lone minus
/// sign, a complete number, or a partial one.
pub open spec fn numeric_input_ok(s: Seq<char>, parses_as_number: bool) -> bool {
    s.len() == 0 || s == "-"@ || parses_as_number || partial_number(s)
}

/// Whether `s` is acceptable input for a reading; `parses_as_number` says
/// whether `s` reads as a complete floating-point number.
pub fn is_valid_numeric(s: &str, parses_as_number: bool) -> (r: bool)
    ensures
        r == numeric_input_ok(s@, parses_as_number),
{
    if s.is_empty() || crate::text::str_eq(s, "-") {
        return true;
    }
    if parses_as_number {
        return true;
    }
    let mut dots: usize = 0;
    let mut others_ok = true;
    for c in it: s.chars()
        invariant
            it.seq() == s@,
            dots == if count_of(s@.take(it.index() as int), '.') < 2 {
                count_of(s@.take(it.index() as int), '.')
            } else {
                2
            },
            others_ok == forall|i: int|
                0 <= i < it.index() ==> #[trigger] s@[i] == '.' || s@[i] == '-' || ('0' <= s@[i] <= '9'),
    {
        assert(s@.take(it.index() + 1).drop_last() == s@.take(it.index() as int));
        if c == '.' {
            if dots < 2 {
                dots = dots + 1;
            }
        } else if !(c == '-' || ('0' <= c && c <= '9')) {
            others_ok = false;
        }
    }
    assert(s@.take(s@.len() as int) == s@);
    dots == 1 && others_ok
}

// ── Laws ─────────────────────────────────────────────────────────────────────

proof fn lemma_column_cells(col: nat, k: nat)
    requires
        col < 4,
        k <= usize::MAX,
    ensures
        forall|p: int| 0 <= p < column_cells(col, k).len() ==> {
            let c = #[trigger] column_cells(col, k)[p];
            c.col == col && c.row < k && c.row != 1
        },
        forall|p: int, q: int| 0 <= p < q < column_cells(col, k).len() ==> #[trigger] column_cells(col, k)[p].row
            < #[trigger] column_cells(col, k)[q].row,
        forall|r: nat| r < k && r != 1 ==> #[trigger] column_cells(col, k).contains(cell_id(r, col)),
        column_cells(col, k).len() == if k >= 2 { (k - 1) as nat } else { k },
    decreases k,
{
    if k > 0 {
        lemma_column_cells(col, (k - 1) as nat);
        let prev = column_cells(col, (k - 1) as nat);
        let cur = column_cells(col, k);
        if k - 1 != 1 {
            let last = cell_id((k - 1) as nat, col);
            assert(cur == prev.push(last));
            assert forall|p: int| 0 <= p < cur.len() implies {
                let c = #[trigger] cur[p];
                c.col == col && c.row < k && c.row != 1
            } by {
                if p < prev.len() {
                    assert(cur[p] == prev[p]);
                }
            }
            assert forall|p: int, q: int| 0 <= p < q < cur.len() implies #[trigger] cur[p].row < #[trigger] cur[q].row by {
                assert(cur[p] == prev[p]);
                if q < prev.len() {
                    assert(cur[q] == prev[q]);
                }
            }
            assert forall|r: nat| r < k && r != 1 implies #[trigger] cur.contains(cell_id(r, col)) by {
                if r < k - 1 {
                    assert(prev.contains(cell_id(r, col)));
                    let p = choose|p: int| 0 <= p < prev.len() && prev[p] == cell_id(r, col);
                    assert(cur[p] == prev[p]);
                } else {
                    assert(cur[cur.len() - 1] == cell_id(r, col));
                }
            }
        }
    }
}

proof fn lemma_columns_in_order(n: nat, c: nat)
    requires
        c <= 4,
        n <= usize::MAX,
    ensures
        forall|p: int| 0 <= p < columns_in_order(n, c).len() ==> {
            let x = #[trigger] columns_in_order(n, c)[p];
            x.col < c && x.row < n && x.row != 1
        },
        forall|p: int, q: int| 0 <= p < q < columns_in_order(n, c).len() ==> before(
            #[trigger] columns_in_order(n, c)[p],
            #[trigger] columns_in_order(n, c)[q],
        ),
        forall|r: nat, k: nat| r < n && r != 1 && k < c ==> #[trigger] columns_in_order(n, c).contains(cell_id(r, k)),
    decreases c,
{
    if c > 0 {
        let prev = columns_in_order(n, (c - 1) as nat);
        let col = column_cells((c - 1) as nat, n);
        lemma_columns_in_order(n, (c - 1) as nat);
        lemma_column_cells((c - 1) as nat, n);
        let all = columns_in_order(n, c);
        assert(all == prev + col);
        assert forall|p: int| 0 <= p < all.len() implies {
            let x = #[trigger] all[p];
            x.col < c && x.row < n && x.row != 1
        } by {
            if p < prev.len() {
                assert(all[p] == prev[p]);
            } else {
                assert(all[p] == col[p - prev.len()]);
            }
        }
        assert forall|p: int, q: int| 0 <= p < q < all.len() implies before(#[trigger] all[p], #[trigger] all[q]) by {
            if q < prev.len() {
                assert(all[p] == prev[p] && all[q] == prev[q]);
            } else if p < prev.len() {
                assert(all[p] == prev[p] && all[q] == col[q - prev.len()]);
            } else {
                assert(all[p] == col[p - prev.len()] && all[q] == col[q - prev.len()]);
            }
        }
        assert forall|r: nat, k: nat| r < n && r != 1 && k < c implies #[trigger] all.contains(cell_id(r, k)) by {
            let target = cell_id(r, k);
            if k < c - 1 {
                assert(prev.contains(target));
                let p = choose|p: int| 0 <= p < prev.len() && prev[p] == target;
                assert(all[p] == prev[p]);
            } else {
                assert(col.contains(target));
                let p = choose|p: int| 0 <= p < col.len() && col[p] == target;
                assert(all[prev.len() + p] == col[p]);
            }
        }
    }
}

/// Tab order walks the grid column by column, each column from the density
/// row down: every cell comes before the cells below it and before every cell
/// of the later columns, each editable cell is visited, and the locked
/// full-tone row never is.
pub proof fn lemma_tab_order_column_major(num_rows: nat)
    requires
        num_rows <= usize::MAX,
    ensures
        forall|p: int| 0 <= p < tab_order(num_rows).len() ==> {
            let x = #[trigger] tab_order(num_rows)[p];
            x.col < 4 && x.row < num_rows && x.row != 1
        },
        forall|p: int, q: int| 0 <= p < q < tab_order(num_rows).len() ==> before(
            #[trigger] tab_order(num_rows)[p],
            #[trigger] tab_order(num_rows)[q],
        ),
        forall|r: nat, c: nat| r < num_rows && r != 1 && c < 4 ==> #[trigger] tab_order(num_rows).contains(cell_id(r, c)),
{
    lemma_columns_in_order(num_rows, 4);
}

} // verus!
