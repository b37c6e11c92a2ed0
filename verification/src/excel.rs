//! Spreadsheet export: one sheet per shape and LPI reading.
//!
//! Sheet layout (row numbers):
//!   1   job heading                      │  Avg column: date
//!   2   shape name — LPI label
//!   3   column headers: Step │ inks… │ Avg │ Dev
//!   4   Max Density row
//!   5+  step rows, in the job's step order
//!
//! This module decides every sheet's name and which text goes in which cell;
//! the numbers in the cells are formatted by the caller (`SheetNumbers`).

use vstd::prelude::*;
use crate::models::{process_positions, shape_name, JobConfig, JobModel, ShapeData, ShapeModel, WeightData, WeightModel};
use crate::text::{owned, push_decimal, str_at, str_eq, text_at, views, decimal};

verus! {

// ── Column letters and cell addresses ────────────────────────────────────────

/// The capital letter for `d` in `0..26`.
pub open spec fn letter(d: nat) -> char {
    (65 + d) as char
}

/// Spreadsheet column name of column `n` (1 = "A", 26 = "Z", 27 = "AA");
/// empty for 0.
pub open spec fn column_name(n: nat) -> Seq<char>
    decreases n,
{
    if n == 0 {
        Seq::empty()
    } else {
        column_name(((n - 1) / 26) as nat).push(letter(((n - 1) % 26) as nat))
    }
}

/// The column number a column name stands for.
pub open spec fn column_number(s: Seq<char>) -> int
    decreases s.len(),
{
    if s.len() == 0 {
        0
    } else {
        column_number(s.drop_last()) * 26 + (s.last() as int - 64)
    }
}

/// A cell address such as "B4".
pub open spec fn address(col: nat, row: nat) -> Seq<char> {
    column_name(col) + decimal(row)
}

fn letter_of(d: u32) -> (c: char)
    requires
        d < 26,
    ensures
        c == letter(d as nat),
{
    let b: u8 = 65 + (d as u8);
    b as char
}

/// Spreadsheet column letters for a 1-based column number.
pub fn col_letter(col: u32) -> (r: String)
    ensures
        r@ == column_name(col as nat),
    decreases col,
{
    if col == 0 {
        String::new()
    } else {
        let mut s = col_letter((col - 1) / 26);
        s.push(letter_of((col - 1) % 26));
        s
    }
}

/// The address of the cell at `col`, `row`: column letters then row number.
pub fn addr(col: u32, row: u32) -> (r: String)
    ensures
        r@ == address(col as nat, row as nat),
{
    let mut s = col_letter(col);
    push_decimal(&mut s, row as u128);
    s
}

/// Column names are a one-to-one numbering: every name is made of capital
/// letters, and reading a name back gives the column it was made from.
pub proof fn lemma_column_name_round_trip(n: nat)
    ensures
        column_number(column_name(n)) == n,
        forall|i: int| 0 <= i < column_name(n).len() ==> 'A' <= #[trigger] column_name(n)[i] <= 'Z',
    decreases n,
{
    if n > 0 {
        let q = ((n - 1) / 26) as nat;
        lemma_column_name_round_trip(q);
        let s = column_name(n);
        assert(s.drop_last() =~= column_name(q));
        assert(letter(((n - 1) % 26) as nat) as int == 65 + (n - 1) % 26);
        assert forall|i: int| 0 <= i < s.len() implies 'A' <= #[trigger] s[i] <= 'Z' by {
            if i < s.len() - 1 {
                assert(s[i] == column_name(q)[i]);
            }
        }
    }
}

/// Two different columns never share a name.
pub proof fn lemma_column_names_distinct(a: nat, b: nat)
    requires
        a != b,
    ensures
        column_name(a) != column_name(b),
{
    lemma_column_name_round_trip(a);
    lemma_column_name_round_trip(b);
}

// ── Formatted numbers ────────────────────────────────────────────────────────

pub struct SheetRowModel {
    pub values: Seq<Seq<char>>,
    pub avg: Seq<char>,
    pub dev: Option<Seq<char>>,
}

/// One step row: a text per ink ("" leaves the cell out), the CMYK average,
/// and the deviation from the target when the step has one.
#[derive(Clone, Debug)]
pub struct SheetRow {
    pub values: Vec<String>,
    pub avg: String,
    pub dev: Option<String>,
}

pub open spec fn opt_text(o: Option<String>) -> Option<Seq<char>> {
    match o {
        Some(t) => Some(t@),
        None => None,
    }
}

impl View for SheetRow {
    type V = SheetRowModel;

    open spec fn view(&self) -> SheetRowModel {
        SheetRowModel { values: views(self.values@), avg: self.avg@, dev: opt_text(self.dev) }
    }
}

pub struct SheetNumbersModel {
    pub density: Seq<Seq<char>>,
    pub rows: Seq<SheetRowModel>,
}

/// The formatted numbers of one LPI reading: a text per density value ("" for
/// an empty one) and one row per step label.
#[derive(Clone, Debug)]
pub struct SheetNumbers {
    pub density: Vec<String>,
    pub rows: Vec<SheetRow>,
}

pub open spec fn sheet_row_views(v: Seq<SheetRow>) -> Seq<SheetRowModel> {
    v.map_values(|r: SheetRow| r@)
}

impl View for SheetNumbers {
    type V = SheetNumbersModel;

    open spec fn view(&self) -> SheetNumbersModel {
        SheetNumbersModel { density: views(self.density@), rows: sheet_row_views(self.rows@) }
    }
}

/// The numbers of every reading of a job, indexed by shape and then by reading.
pub open spec fn job_number_views(v: Seq<Vec<SheetNumbers>>) -> Seq<Seq<SheetNumbersModel>> {
    v.map_values(|w: Vec<SheetNumbers>| w@.map_values(|n: SheetNumbers| n@))
}

pub open spec fn sheet_row_at(rows: Seq<SheetRowModel>, i: int) -> SheetRowModel {
    if 0 <= i < rows.len() {
        rows[i]
    } else {
        SheetRowModel { values: Seq::empty(), avg: Seq::empty(), dev: None }
    }
}

pub open spec fn sheet_numbers_at(nums: Seq<Seq<SheetNumbersModel>>, s: int, w: int) -> SheetNumbersModel {
    if 0 <= s < nums.len() && 0 <= w < nums[s].len() {
        nums[s][w]
    } else {
        SheetNumbersModel { density: Seq::empty(), rows: Seq::empty() }
    }
}

// ── Cells ────────────────────────────────────────────────────────────────────

/// A cell to write: its address and its text.
#[derive(Clone, Debug)]
pub struct SheetCell {
    pub address: String,
    pub text: String,
}

pub open spec fn cell_views(v: Seq<SheetCell>) -> Seq<(Seq<char>, Seq<char>)> {
    v.map_values(|c: SheetCell| (c.address@, c.text@))
}

/// `cells` followed by `text` at `col`, `row`.
pub open spec fn put(cells: Seq<(Seq<char>, Seq<char>)>, col: nat, row: nat, text: Seq<char>) -> Seq<
    (Seq<char>, Seq<char>),
> {
    cells.push((address(col, row), text))
}

pub open spec fn put_if(
    cells: Seq<(Seq<char>, Seq<char>)>,
    cond: bool,
    col: nat,
    row: nat,
    text: Seq<char>,
) -> Seq<(Seq<char>, Seq<char>)> {
    if cond {
        put(cells, col, row, text)
    } else {
        cells
    }
}

fn put_cell(cells: &mut Vec<SheetCell>, col: u32, row: u32, text: &str)
    ensures
        cell_views(final(cells)@) == put(cell_views(old(cells)@), col as nat, row as nat, text@),
{
    let c = SheetCell { address: addr(col, row), text: owned(text) };
    cells.push(c);
    assert(cell_views(cells@) =~= put(cell_views(old(cells)@), col as nat, row as nat, text@));
}

/// "CRS 501 — 150#": the shape name and, when there is one, the LPI label.
pub open spec fn shape_label(shape: ShapeModel, w: WeightModel) -> Seq<char> {
    if w.lpi.len() == 0 {
        shape_name(shape.dot_type, shape.dot_number)
    } else {
        shape_name(shape.dot_type, shape.dot_number) + " \u{2014} "@ + w.lpi
    }
}

/// The ink names of the first `k` inks in row 3, from column B on.
pub open spec fn ink_name_cells(
    cells: Seq<(Seq<char>, Seq<char>)>,
    inks: Seq<crate::models::InkModel>,
    k: nat,
) -> Seq<(Seq<char>, Seq<char>)>
    decreases k,
{
    if k == 0 {
        cells
    } else {
        put(ink_name_cells(cells, inks, (k - 1) as nat), k + 1, 3, inks[k - 1].name)
    }
}

/// Rows 1 to 4 up to the density values: heading and date, shape label,
/// column headers, and the "Max Density" label.
pub open spec fn head_cells(job: JobModel, shape: ShapeModel, w: WeightModel) -> Seq<(Seq<char>, Seq<char>)> {
    let avg = job.inks.len() + 2;
    let c = put_if(Seq::empty(), job.heading().len() > 0, 1, 1, job.heading());
    let c = put_if(c, job.date.len() > 0, avg, 1, job.date);
    let c = put(c, 1, 2, shape_label(shape, w));
    let c = put(c, 1, 3, "Step"@);
    let c = ink_name_cells(c, job.inks, job.inks.len());
    let c = put(c, avg, 3, "Avg"@);
    let c = put(c, avg + 1, 3, "Dev"@);
    put(c, 1, 4, "Max Density"@)
}

/// The first `k` density values in row 4, each only when it is not empty.
pub open spec fn density_cells(cells: Seq<(Seq<char>, Seq<char>)>, texts: Seq<Seq<char>>, k: nat) -> Seq<
    (Seq<char>, Seq<char>),
>
    decreases k,
{
    if k == 0 {
        cells
    } else {
        let t = text_at(texts, k - 1);
        put_if(density_cells(cells, texts, (k - 1) as nat), t.len() > 0, k + 1, 4, t)
    }
}

/// The value of ink `ci` on the row labelled `label`: the full-tone row "100"
/// reads 100.0 for every ink; other rows show the recorded text.
pub open spec fn value_text(label: Seq<char>, values: Seq<Seq<char>>, ci: int) -> Seq<char> {
    if label == "100"@ {
        "100.0"@
    } else {
        text_at(values, ci)
    }
}

/// The first `k` ink values of a step row, each only when it is not empty.
pub open spec fn row_value_cells(
    cells: Seq<(Seq<char>, Seq<char>)>,
    label: Seq<char>,
    values: Seq<Seq<char>>,
    row: nat,
    k: nat,
) -> Seq<(Seq<char>, Seq<char>)>
    decreases k,
{
    if k == 0 {
        cells
    } else {
        let t = value_text(label, values, k - 1);
        put_if(row_value_cells(cells, label, values, row, (k - 1) as nat), t.len() > 0, k + 1, row, t)
    }
}

/// Step row `si`: its label, the ink values, and, when the job has process
/// inks, the average and the deviation (when the step has a target).
pub open spec fn step_row_cells(
    cells: Seq<(Seq<char>, Seq<char>)>,
    job: JobModel,
    rn: SheetRowModel,
    si: nat,
) -> Seq<(Seq<char>, Seq<char>)> {
    let n = job.inks.len();
    let row = 5 + si;
    let avg = n + 2;
    let label = job.step_labels[si as int];
    let has_avg = process_positions(job.inks).len() > 0;
    let c = put(cells, 1, row, label);
    let c = row_value_cells(c, label, rn.values, row, n);
    let c = put_if(c, has_avg, avg, row, rn.avg);
    match rn.dev {
        Some(d) => put_if(c, has_avg, avg + 1, row, d),
        None => c,
    }
}

/// The first `k` step rows.
pub open spec fn step_cells(
    cells: Seq<(Seq<char>, Seq<char>)>,
    job: JobModel,
    rows: Seq<SheetRowModel>,
    k: nat,
) -> Seq<(Seq<char>, Seq<char>)>
    decreases k,
{
    if k == 0 {
        cells
    } else {
        step_row_cells(step_cells(cells, job, rows, (k - 1) as nat), job, sheet_row_at(rows, k - 1), (k - 1) as nat)
    }
}

/// Every cell of the sheet of one reading, in writing order.
pub open spec fn sheet_cells(job: JobModel, shape: ShapeModel, w: WeightModel, nums: SheetNumbersModel) -> Seq<
    (Seq<char>, Seq<char>),
> {
    step_cells(
        density_cells(head_cells(job, shape, w), nums.density, w.density.len()),
        job,
        nums.rows,
        job.step_labels.len(),
    )
}

fn ink_name_cells_exec(cells: &mut Vec<SheetCell>, inks: &Vec<crate::models::Ink>)
    requires
        inks.len() + 2 <= u32::MAX,
    ensures
        cell_views(final(cells)@) == ink_name_cells(
            cell_views(old(cells)@),
            crate::models::ink_views(inks@),
            inks.len() as nat,
        ),
{
    let ghost start = cell_views(cells@);
    let mut k: usize = 0;
    while k < inks.len()
        invariant
            k <= inks.len(),
            inks.len() + 2 <= u32::MAX,
            cell_views(cells@) == ink_name_cells(start, crate::models::ink_views(inks@), k as nat),
        decreases inks.len() - k,
    {
        assert(crate::models::ink_views(inks@)[k as int] == inks@[k as int]@);
        put_cell(cells, (k + 2) as u32, 3, inks[k].name.as_str());
        k = k + 1;
    }
}

fn density_cells_exec(cells: &mut Vec<SheetCell>, texts: &Vec<String>, count: usize)
    requires
        count + 2 <= u32::MAX,
    ensures
        cell_views(final(cells)@) == density_cells(cell_views(old(cells)@), views(texts@), count as nat),
{
    let ghost start = cell_views(cells@);
    let mut k: usize = 0;
    while k < count
        invariant
            k <= count,
            count + 2 <= u32::MAX,
            cell_views(cells@) == density_cells(start, views(texts@), k as nat),
        decreases count - k,
    {
        let t = str_at(texts, k);
        if !t.is_empty() {
            put_cell(cells, (k + 2) as u32, 4, t);
        }
        k = k + 1;
    }
}

fn row_value_cells_exec(cells: &mut Vec<SheetCell>, label: &str, values: &Vec<String>, row: u32, n: usize)
    requires
        n + 2 <= u32::MAX,
    ensures
        cell_views(final(cells)@) == row_value_cells(
            cell_views(old(cells)@),
            label@,
            views(values@),
            row as nat,
            n as nat,
        ),
{
    let ghost start = cell_views(cells@);
    let full = str_eq(label, "100");
    let mut k: usize = 0;
    while k < n
        invariant
            k <= n,
            n + 2 <= u32::MAX,
            full == (label@ == "100"@),
            cell_views(cells@) == row_value_cells(start, label@, views(values@), row as nat, k as nat),
        decreases n - k,
    {
        let t: &str = if full {
            "100.0"
        } else {
            str_at(values, k)
        };
        if !t.is_empty() {
            put_cell(cells, (k + 2) as u32, row, t);
        }
        k = k + 1;
    }
}

fn step_row_cells_exec(cells: &mut Vec<SheetCell>, job: &JobConfig, rn: &SheetRow, si: usize, has_avg: bool)
    requires
        si < job.step_labels.len(),
        job.step_labels.len() + 5 <= u32::MAX,
        job.inks.len() + 3 <= u32::MAX,
        has_avg == (process_positions(job@.inks).len() > 0),
    ensures
        cell_views(final(cells)@) == step_row_cells(cell_views(old(cells)@), job@, rn@, si as nat),
{
    let n = job.inks.len();
    let row = (5 + si) as u32;
    let avg = (n + 2) as u32;
    let label = job.step_labels[si].as_str();
    assert(job@.step_labels[si as int] == label@);
    put_cell(cells, 1, row, label);
    row_value_cells_exec(cells, label, &rn.values, row, n);
    if has_avg {
        put_cell(cells, avg, row, rn.avg.as_str());
    }
    match &rn.dev {
        Some(d) => {
            if has_avg {
                put_cell(cells, avg + 1, row, d.as_str());
            }
        },
        None => {},
    }
}

fn step_cells_exec(cells: &mut Vec<SheetCell>, job: &JobConfig, rows: &Vec<SheetRow>)
    requires
        job.step_labels.len() + 5 <= u32::MAX,
        job.inks.len() + 3 <= u32::MAX,
    ensures
        cell_views(final(cells)@) == step_cells(
            cell_views(old(cells)@),
            job@,
            sheet_row_views(rows@),
            job.step_labels.len() as nat,
        ),
{
    let ghost start = cell_views(cells@);
    let has_avg = job.deviation_ink_indices().len() > 0;
    let empty = SheetRow { values: Vec::new(), avg: String::new(), dev: None };
    assert(empty@.values =~= Seq::<Seq<char>>::empty());
    let mut k: usize = 0;
    while k < job.step_labels.len()
        invariant
            k <= job.step_labels.len(),
            job.step_labels.len() + 5 <= u32::MAX,
            job.inks.len() + 3 <= u32::MAX,
            has_avg == (process_positions(job@.inks).len() > 0),
            empty@ == (SheetRowModel { values: Seq::empty(), avg: Seq::empty(), dev: None }),
            cell_views(cells@) == step_cells(start, job@, sheet_row_views(rows@), k as nat),
        decreases job.step_labels.len() - k,
    {
        let rn: &SheetRow = if k < rows.len() {
            &rows[k]
        } else {
            &empty
        };
        assert(rn@ == sheet_row_at(sheet_row_views(rows@), k as int));
        step_row_cells_exec(cells, job, rn, k, has_avg);
        k = k + 1;
    }
}

fn shape_label_text(shape: &ShapeData, weight: &WeightData) -> (r: String)
    ensures
        r@ == shape_label(shape@, weight@),
{
    let mut s = shape.display_name();
    if !weight.lpi.as_str().is_empty() {
        s.push_str(" \u{2014} ");
        s.push_str(weight.lpi.as_str());
    }
    s
}

fn head_cells_exec(job: &JobConfig, shape: &ShapeData, weight: &WeightData) -> (r: Vec<SheetCell>)
    requires
        job.inks.len() + 3 <= u32::MAX,
    ensures
        cell_views(r@) == head_cells(job@, shape@, weight@),
{
    let mut cells: Vec<SheetCell> = Vec::new();
    assert(cell_views(cells@) =~= Seq::<(Seq<char>, Seq<char>)>::empty());
    let avg = (job.inks.len() + 2) as u32;
    let heading = job.heading();
    if !heading.as_str().is_empty() {
        put_cell(&mut cells, 1, 1, heading.as_str());
    }
    if !job.date.as_str().is_empty() {
        put_cell(&mut cells, avg, 1, job.date.as_str());
    }
    let label = shape_label_text(shape, weight);
    put_cell(&mut cells, 1, 2, label.as_str());
    put_cell(&mut cells, 1, 3, "Step");
    ink_name_cells_exec(&mut cells, &job.inks);
    put_cell(&mut cells, avg, 3, "Avg");
    put_cell(&mut cells, avg + 1, 3, "Dev");
    put_cell(&mut cells, 1, 4, "Max Density");
    cells
}

/// The cells of the sheet of one reading, in the order they are written.
pub fn weight_sheet_cells(job: &JobConfig, shape: &ShapeData, weight: &WeightData, nums: &SheetNumbers) -> (r: Vec<
    SheetCell,
>)
    requires
        job.inks.len() + 3 <= u32::MAX,
        job.step_labels.len() + 5 <= u32::MAX,
        weight.density.len() + 2 <= u32::MAX,
    ensures
        cell_views(r@) == sheet_cells(job@, shape@, weight@, nums@),
{
    let mut cells = head_cells_exec(job, shape, weight);
    density_cells_exec(&mut cells, &nums.density, weight.density.len());
    step_cells_exec(&mut cells, job, &nums.rows);
    cells
}

// ── Sheet names ──────────────────────────────────────────────────────────────

/// Characters a sheet name may not hold.
pub open spec fn forbidden_in_name(c: char) -> bool {
    c == '[' || c == ']' || c == ':' || c == '*' || c == '?' || c == '/' || c == '\\'
}

pub open spec fn clean_char(c: char) -> char {
    if forbidden_in_name(c) {
        '_'
    } else {
        c
    }
}

/// "CRS 501 - 150#" with each forbidden character replaced by '_', cut to 31
/// characters, or "Sheet" when that leaves nothing.
pub open spec fn sheet_title(shape: ShapeModel, w: WeightModel) -> Seq<char> {
    let full = if w.lpi.len() == 0 {
        shape_name(shape.dot_type, shape.dot_number)
    } else {
        shape_name(shape.dot_type, shape.dot_number) + " - "@ + w.lpi
    };
    let clean = full.map_values(|c: char| clean_char(c));
    let cut = if clean.len() <= 31 {
        clean
    } else {
        clean.take(31)
    };
    if cut.len() == 0 {
        "Sheet"@
    } else {
        cut
    }
}

fn clean_char_exec(c: char) -> (r: char)
    ensures
        r == clean_char(c),
{
    if c == '[' || c == ']' || c == ':' || c == '*' || c == '?' || c == '/' || c == '\\' {
        '_'
    } else {
        c
    }
}

/// The sheet name of one reading.
pub fn sheet_name(shape: &ShapeData, weight: &WeightData) -> (r: String)
    ensures
        r@ == sheet_title(shape@, weight@),
{
    let mut full = shape.display_name();
    if !weight.lpi.as_str().is_empty() {
        full.push_str(" - ");
        full.push_str(weight.lpi.as_str());
    }
    let chars = crate::text::chars_of(full.as_str());
    let ghost clean = full@.map_values(|c: char| clean_char(c));
    let limit: usize = if chars.len() <= 31 {
        chars.len()
    } else {
        31
    };
    let mut out = String::new();
    let mut i: usize = 0;
    while i < limit
        invariant
            chars@ == full@,
            clean == full@.map_values(|c: char| clean_char(c)),
            limit <= chars.len(),
            i <= limit,
            out@ == clean.take(i as int),
        decreases limit - i,
    {
        out.push(clean_char_exec(chars[i]));
        assert(out@ =~= clean.take(i + 1));
        i = i + 1;
    }
    assert(clean.len() <= 31 ==> clean.take(limit as int) =~= clean);
    if out.as_str().is_empty() {
        owned("Sheet")
    } else {
        out
    }
}

/// A sheet name is never empty, holds at most 31 characters, and none that
/// spreadsheets forbid in a name.
pub proof fn lemma_sheet_title_valid(shape: ShapeModel, w: WeightModel)
    ensures
        1 <= sheet_title(shape, w).len() <= 31,
        forall|i: int| 0 <= i < sheet_title(shape, w).len() ==> !forbidden_in_name(#[trigger] sheet_title(shape, w)[i]),
{
    reveal_strlit("Sheet");
    let t = sheet_title(shape, w);
    assert forall|i: int| 0 <= i < t.len() implies !forbidden_in_name(#[trigger] t[i]) by {
        assert(t[0] == 'S' || !forbidden_in_name(t[i]));
    }
}

// ── Workbook ─────────────────────────────────────────────────────────────────

pub struct SheetPlanModel {
    pub name: Seq<char>,
    pub cells: Seq<(Seq<char>, Seq<char>)>,
}

/// One sheet to write: its name and its cells in writing order.
#[derive(Clone, Debug)]
pub struct SheetPlan {
    pub name: String,
    pub cells: Vec<SheetCell>,
}

impl View for SheetPlan {
    type V = SheetPlanModel;

    open spec fn view(&self) -> SheetPlanModel {
        SheetPlanModel { name: self.name@, cells: cell_views(self.cells@) }
    }
}

pub open spec fn plan_views(v: Seq<SheetPlan>) -> Seq<SheetPlanModel> {
    v.map_values(|p: SheetPlan| p@)
}

/// The sheet of reading `w` of shape `s`.
pub open spec fn sheet_plan(job: JobModel, nums: Seq<Seq<SheetNumbersModel>>, s: int, w: int) -> SheetPlanModel {
    let shape = job.shapes[s];
    SheetPlanModel {
        name: sheet_title(shape, shape.weights[w]),
        cells: sheet_cells(job, shape, shape.weights[w], sheet_numbers_at(nums, s, w)),
    }
}

/// The sheets of the first `k` readings of shape `s`.
pub open spec fn shape_plans(job: JobModel, nums: Seq<Seq<SheetNumbersModel>>, s: int, k: nat) -> Seq<
    SheetPlanModel,
>
    decreases k,
{
    if k == 0 {
        Seq::empty()
    } else {
        shape_plans(job, nums, s, (k - 1) as nat).push(sheet_plan(job, nums, s, k - 1))
    }
}

/// The sheets of every reading of the first `s` shapes, shape by shape.
pub open spec fn workbook_plans(job: JobModel, nums: Seq<Seq<SheetNumbersModel>>, s: nat) -> Seq<
    SheetPlanModel,
>
    decreases s,
{
    if s == 0 {
        Seq::empty()
    } else {
        workbook_plans(job, nums, (s - 1) as nat) + shape_plans(
            job,
            nums,
            s - 1,
            job.shapes[s - 1].weights.len(),
        )
    }
}

/// Every column and row of the sheets fits a spreadsheet address.
pub open spec fn sheet_addresses_fit(job: JobModel) -> bool {
    &&& job.inks.len() + 3 <= u32::MAX
    &&& job.step_labels.len() + 5 <= u32::MAX
    &&& forall|s: int, w: int|
        0 <= s < job.shapes.len() && 0 <= w < job.shapes[s].weights.len() ==> (
        #[trigger] job.shapes[s].weights[w]).density.len() + 2 <= u32::MAX
}

fn push_shape_plans(
    plans: &mut Vec<SheetPlan>,
    job: &JobConfig,
    si: usize,
    numbers: &Vec<Vec<SheetNumbers>>,
)
    requires
        si < job.shapes.len(),
        sheet_addresses_fit(job@),
    ensures
        plan_views(final(plans)@) == plan_views(old(plans)@) + shape_plans(
            job@,
            job_number_views(numbers@),
            si as int,
            job.shapes@[si as int].weights@.len() as nat,
        ),
{
    let ghost nv = job_number_views(numbers@);
    let ghost start = plan_views(plans@);
    let shape = &job.shapes[si];
    assert(job@.shapes[si as int] == shape@);
    let none: Vec<SheetNumbers> = Vec::new();
    let row: &Vec<SheetNumbers> = if si < numbers.len() {
        &numbers[si]
    } else {
        &none
    };
    let empty = SheetNumbers { density: Vec::new(), rows: Vec::new() };
    assert(empty@.density =~= Seq::<Seq<char>>::empty());
    assert(empty@.rows =~= Seq::<SheetRowModel>::empty());
    let mut k: usize = 0;
    while k < shape.weights.len()
        invariant
            si < job.shapes.len(),
            shape == &job.shapes[si as int],
            job@.shapes[si as int] == shape@,
            sheet_addresses_fit(job@),
            nv == job_number_views(numbers@),
            si < numbers.len() ==> row@ == numbers@[si as int]@,
            si >= numbers.len() ==> row@.len() == 0,
            empty@ == (SheetNumbersModel { density: Seq::empty(), rows: Seq::empty() }),
            k <= shape.weights.len(),
            plan_views(plans@) == start + shape_plans(job@, nv, si as int, k as nat),
        decreases shape.weights.len() - k,
    {
        let nums: &SheetNumbers = if k < row.len() {
            &row[k]
        } else {
            &empty
        };
        assert(nums@ == sheet_numbers_at(nv, si as int, k as int));
        let weight = &shape.weights[k];
        assert(shape@.weights[k as int] == weight@);
        assert(job@.shapes[si as int].weights[k as int] == weight@);
        let plan = SheetPlan {
            name: sheet_name(shape, weight),
            cells: weight_sheet_cells(job, shape, weight, nums),
        };
        assert(plan@ == sheet_plan(job@, nv, si as int, k as int));
        let ghost before = plans@;
        plans.push(plan);
        assert(plan_views(plans@) =~= plan_views(before).push(plan@));
        assert(plan_views(plans@) =~= start + shape_plans(job@, nv, si as int, (k + 1) as nat));
        k = k + 1;
    }
}

/// The workbook: one sheet per reading, shape by shape, each with its name
/// and cells.  No readings at all gives no sheets.
pub fn plan_workbook(job: &JobConfig, numbers: &Vec<Vec<SheetNumbers>>) -> (r: Vec<SheetPlan>)
    requires
        sheet_addresses_fit(job@),
    ensures
        plan_views(r@) == workbook_plans(job@, job_number_views(numbers@), job.shapes.len() as nat),
{
    let mut plans: Vec<SheetPlan> = Vec::new();
    assert(plan_views(plans@) =~= Seq::<SheetPlanModel>::empty());
    let mut si: usize = 0;
    while si < job.shapes.len()
        invariant
            si <= job.shapes.len(),
            sheet_addresses_fit(job@),
            plan_views(plans@) == workbook_plans(job@, job_number_views(numbers@), si as nat),
        decreases job.shapes.len() - si,
    {
        push_shape_plans(&mut plans, job, si, numbers);
        assert(job.shapes@[si as int].weights@.len() == job@.shapes[si as int].weights.len());
        si = si + 1;
    }
    plans
}

/// Sheets the first `s` shapes take: one per reading.
pub open spec fn readings_of(shapes: Seq<ShapeModel>, s: nat) -> nat
    decreases s,
{
    if s == 0 {
        0
    } else {
        readings_of(shapes, (s - 1) as nat) + shapes[s - 1].weights.len()
    }
}

proof fn lemma_shape_plans_len(job: JobModel, nums: Seq<Seq<SheetNumbersModel>>, s: int, k: nat)
    ensures
        shape_plans(job, nums, s, k).len() == k,
    decreases k,
{
    if k > 0 {
        lemma_shape_plans_len(job, nums, s, (k - 1) as nat);
    }
}

/// The workbook holds exactly one sheet per LPI reading of every shape.
pub proof fn lemma_one_sheet_per_reading(job: JobModel, nums: Seq<Seq<SheetNumbersModel>>, s: nat)
    requires
        s <= job.shapes.len(),
    ensures
        workbook_plans(job, nums, s).len() == readings_of(job.shapes, s),
    decreases s,
{
    if s > 0 {
        lemma_one_sheet_per_reading(job, nums, (s - 1) as nat);
        lemma_shape_plans_len(job, nums, s - 1, job.shapes[s - 1].weights.len());
    }
}

proof fn lemma_shape_plans_entries(job: JobModel, nums: Seq<Seq<SheetNumbersModel>>, s: int, k: nat)
    requires
        0 <= s < job.shapes.len(),
        k <= job.shapes[s].weights.len(),
    ensures
        shape_plans(job, nums, s, k).len() == k,
        forall|w: int|
            0 <= w < k ==> #[trigger] shape_plans(job, nums, s, k)[w] == (SheetPlanModel {
                name: sheet_title(job.shapes[s], job.shapes[s].weights[w]),
                cells: sheet_cells(
                    job,
                    job.shapes[s],
                    job.shapes[s].weights[w],
                    sheet_numbers_at(nums, s, w),
                ),
            }),
    decreases k,
{
    if k > 0 {
        lemma_shape_plans_entries(job, nums, s, (k - 1) as nat);
    }
}

/// Every reading gets the sheet laid out from its own numbers: in the
/// workbook, after the sheets of the earlier shapes, sheet `w` of shape `s` is
/// named after shape `s` and its reading `w`, and holds the cells of that
/// reading filled from `nums[s][w]`.
pub proof fn lemma_sheet_of_each_reading(
    job: JobModel,
    nums: Seq<Seq<SheetNumbersModel>>,
    n: nat,
    s: int,
    w: int,
)
    requires
        n <= job.shapes.len(),
        0 <= s < n,
        0 <= w < job.shapes[s].weights.len(),
    ensures
        workbook_plans(job, nums, n)[readings_of(job.shapes, s as nat) + w] == (SheetPlanModel {
            name: sheet_title(job.shapes[s], job.shapes[s].weights[w]),
            cells: sheet_cells(job, job.shapes[s], job.shapes[s].weights[w], sheet_numbers_at(nums, s, w)),
        }),
    decreases n,
{
    lemma_one_sheet_per_reading(job, nums, (n - 1) as nat);
    let prev = workbook_plans(job, nums, (n - 1) as nat);
    let last = job.shapes[n - 1].weights.len();
    lemma_shape_plans_entries(job, nums, n - 1, last);
    if s < n - 1 {
        lemma_sheet_of_each_reading(job, nums, (n - 1) as nat, s, w);
        lemma_readings_of_grows(job.shapes, (s + 1) as nat, (n - 1) as nat);
        assert(readings_of(job.shapes, s as nat) + w < readings_of(job.shapes, (s + 1) as nat));
    }
}

proof fn lemma_readings_of_grows(shapes: Seq<ShapeModel>, a: nat, b: nat)
    requires
        a <= b <= shapes.len(),
    ensures
        readings_of(shapes, a) <= readings_of(shapes, b),
    decreases b,
{
    if a < b {
        lemma_readings_of_grows(shapes, a, (b - 1) as nat);
    }
}

} // verus!

