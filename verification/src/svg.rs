//! SVG export: a multi-page drawing in the layout of the press template.
//!
//! Pages are stacked vertically, 595 units apart, each 842 units wide.  A page
//! holds the job header, the shape name, up to three LPI blocks (one column per
//! ink) and the step gutter on the left.  Every coordinate of the layout is a
//! whole number, written with two decimals.
//!
//! The reading values in the cells are formatted by the caller (`ShapeTexts`);
//! a missing text is an empty cell.

use vstd::prelude::*;
use crate::models::{shape_name, InkModel, JobConfig, JobModel, ShapeData, ShapeModel, WeightData, WeightModel};
use crate::text::{
    decimal, esc, escape_seq, join_all, join_seq, lemma_views_push, owned, push_decimal, str_at, text_at, views,
};

verus! {

// ── Formatted cell texts ─────────────────────────────────────────────────────

pub struct WeightTextsModel {
    pub density: Seq<Seq<char>>,
    pub steps: Seq<Seq<Seq<char>>>,
}

/// The formatted values of one LPI reading: one text per ink for the density
/// row, and one row of texts per step.
#[derive(Clone, Debug)]
pub struct WeightTexts {
    pub density: Vec<String>,
    pub steps: Vec<Vec<String>>,
}

pub open spec fn text_rows(v: Seq<Vec<String>>) -> Seq<Seq<Seq<char>>> {
    v.map_values(|r: Vec<String>| views(r@))
}

impl View for WeightTexts {
    type V = WeightTextsModel;

    open spec fn view(&self) -> WeightTextsModel {
        WeightTextsModel { density: views(self.density@), steps: text_rows(self.steps@) }
    }
}

pub struct ShapeTextsModel {
    pub weights: Seq<WeightTextsModel>,
}

/// The formatted values of one dot shape, one entry per LPI reading.
#[derive(Clone, Debug)]
pub struct ShapeTexts {
    pub weights: Vec<WeightTexts>,
}

pub open spec fn weight_text_views(v: Seq<WeightTexts>) -> Seq<WeightTextsModel> {
    v.map_values(|w: WeightTexts| w@)
}

impl View for ShapeTexts {
    type V = ShapeTextsModel;

    open spec fn view(&self) -> ShapeTextsModel {
        ShapeTextsModel { weights: weight_text_views(self.weights@) }
    }
}

pub open spec fn shape_text_views(v: Seq<ShapeTexts>) -> Seq<ShapeTextsModel> {
    v.map_values(|s: ShapeTexts| s@)
}

/// The row of texts at `r`, or no texts past the end.
pub open spec fn row_texts_at(rows: Seq<Seq<Seq<char>>>, r: int) -> Seq<Seq<char>> {
    if 0 <= r < rows.len() {
        rows[r]
    } else {
        Seq::empty()
    }
}

/// The texts of the reading at `i`, or no texts past the end.
pub open spec fn weight_texts_at(ws: Seq<WeightTextsModel>, i: int) -> WeightTextsModel {
    if 0 <= i < ws.len() {
        ws[i]
    } else {
        WeightTextsModel { density: Seq::empty(), steps: Seq::empty() }
    }
}

/// The texts of the shape at `i`, or no texts past the end.
pub open spec fn shape_texts_at(ss: Seq<ShapeTextsModel>, i: int) -> ShapeTextsModel {
    if 0 <= i < ss.len() {
        ss[i]
    } else {
        ShapeTextsModel { weights: Seq::empty() }
    }
}

// ── Layout ───────────────────────────────────────────────────────────────────

/// Data columns per LPI block: one per ink, at least one.
pub open spec fn columns(num_inks: nat) -> nat {
    if num_inks == 0 {
        1
    } else {
        num_inks
    }
}

/// Width of one LPI block: 40 per column.
pub open spec fn block_width(num_inks: nat) -> nat {
    40 * columns(num_inks)
}

/// Width of the step gutter: what the 802-wide content area leaves after three
/// blocks and two gaps of 6, and at least 60.
pub open spec fn gutter_width(num_inks: nat) -> nat {
    if 120 * columns(num_inks) + 60 <= 790 {
        (790 - 120 * columns(num_inks)) as nat
    } else {
        60
    }
}

/// Left edge of the `wi`-th block on a page.
pub open spec fn block_x(num_inks: nat, wi: nat) -> nat {
    20 + gutter_width(num_inks) + wi * (block_width(num_inks) + 6)
}

/// Top edge of step row `r` on the page that starts at `pt`.
pub open spec fn row_y(pt: nat, r: nat) -> nat {
    pt + 110 + 14 * r
}

// ── Cells ────────────────────────────────────────────────────────────────────

/// A whole number written with two decimals.
pub open spec fn coord(n: nat) -> Seq<char> {
    decimal(n) + ".00"@
}

pub open spec fn rect_cell(x: nat, y: nat, w: nat, h: nat) -> Seq<char> {
    "<rect x=\""@ + coord(x) + "\" y=\""@ + coord(y) + "\" width=\""@ + coord(w) + "\" height=\""@
        + coord(h) + "\" fill=\"none\" stroke=\"#000\" stroke-width=\"0.25\"/>"@
}

pub open spec fn weight_word(bold: bool) -> Seq<char> {
    if bold {
        "bold"@
    } else {
        "normal"@
    }
}

pub open spec fn text_element(x: nat, y: nat, h: nat, text: Seq<char>, fs: nat, bold: bool) -> Seq<char> {
    "<text x=\""@ + coord(x + 2) + "\" y=\""@ + coord(y + h / 2) + "\" font-size=\""@ + decimal(fs)
        + "\" font-family=\"Helvetica, Arial, sans-serif\" font-weight=\""@ + weight_word(bold)
        + "\" dominant-baseline=\"middle\">"@ + escape_seq(text) + "</text>"@
}

/// A bordered cell; its text, escaped and vertically centred, when there is any.
pub open spec fn cell(x: nat, y: nat, w: nat, h: nat, text: Seq<char>, fs: nat, bold: bool) -> Seq<char> {
    if text.len() == 0 {
        rect_cell(x, y, w, h)
    } else {
        rect_cell(x, y, w, h) + text_element(x, y, h, text, fs, bold)
    }
}

/// Bound under which every coordinate computed here fits in a `u128`.
pub open spec fn small(n: int) -> bool {
    n < 0x1_0000_0000_0000_0000_0000_0000
}

fn push_coord(out: &mut String, n: u128)
    ensures
        final(out)@ == old(out)@ + coord(n as nat),
{
    let ghost before = out@;
    push_decimal(out, n);
    out.push_str(".00");
    assert(before + decimal(n as nat) + ".00"@ =~= before + coord(n as nat));
}

fn rect_text(x: u128, y: u128, w: u128, h: u128) -> (r: String)
    ensures
        r@ == rect_cell(x as nat, y as nat, w as nat, h as nat),
{
    let mut s = owned("<rect x=\"");
    push_coord(&mut s, x);
    s.push_str("\" y=\"");
    push_coord(&mut s, y);
    s.push_str("\" width=\"");
    push_coord(&mut s, w);
    s.push_str("\" height=\"");
    push_coord(&mut s, h);
    s.push_str("\" fill=\"none\" stroke=\"#000\" stroke-width=\"0.25\"/>");
    s
}

fn text_text(x: u128, y: u128, h: u128, text: &str, fs: u128, bold: bool) -> (r: String)
    requires
        small(x as int),
        small(y as int),
        small(h as int),
    ensures
        r@ == text_element(x as nat, y as nat, h as nat, text@, fs as nat, bold),
{
    let mut s = owned("<text x=\"");
    push_coord(&mut s, x + 2);
    s.push_str("\" y=\"");
    push_coord(&mut s, y + h / 2);
    s.push_str("\" font-size=\"");
    push_decimal(&mut s, fs);
    s.push_str("\" font-family=\"Helvetica, Arial, sans-serif\" font-weight=\"");
    if bold {
        s.push_str("bold");
    } else {
        s.push_str("normal");
    }
    s.push_str("\" dominant-baseline=\"middle\">");
    let e = esc(text);
    s.push_str(e.as_str());
    s.push_str("</text>");
    s
}

fn cell_text(x: u128, y: u128, w: u128, h: u128, text: &str, fs: u128, bold: bool) -> (r: String)
    requires
        small(x as int),
        small(y as int),
        small(h as int),
    ensures
        r@ == cell(x as nat, y as nat, w as nat, h as nat, text@, fs as nat, bold),
{
    let mut s = rect_text(x, y, w, h);
    if !text.is_empty() {
        let t = text_text(x, y, h, text, fs, bold);
        s.push_str(t.as_str());
    }
    s
}

// ── Rows of cells ────────────────────────────────────────────────────────────

/// The ink name headers of the first `k` inks of a block at `wx`.
pub open spec fn ink_headers(inks: Seq<InkModel>, wx: nat, pt: nat, k: nat) -> Seq<char>
    decreases k,
{
    if k == 0 {
        Seq::empty()
    } else {
        ink_headers(inks, wx, pt, (k - 1) as nat) + cell(
            (wx + 40 * (k - 1)) as nat,
            pt + 82,
            40,
            14,
            inks[k - 1].name,
            7,
            true,
        )
    }
}

/// The first `k` value cells of a row at height `y` of a block at `wx`.
pub open spec fn value_cells(texts: Seq<Seq<char>>, wx: nat, y: nat, k: nat) -> Seq<char>
    decreases k,
{
    if k == 0 {
        Seq::empty()
    } else {
        value_cells(texts, wx, y, (k - 1) as nat) + cell(
            (wx + 40 * (k - 1)) as nat,
            y,
            40,
            14,
            text_at(texts, k - 1),
            7,
            false,
        )
    }
}

/// The first `k` step rows of a block at `wx`, `cols` cells each.
pub open spec fn step_rows(rows: Seq<Seq<Seq<char>>>, wx: nat, pt: nat, cols: nat, k: nat) -> Seq<char>
    decreases k,
{
    if k == 0 {
        Seq::empty()
    } else {
        step_rows(rows, wx, pt, cols, (k - 1) as nat) + value_cells(
            row_texts_at(rows, k - 1),
            wx,
            row_y(pt, (k - 1) as nat),
            cols,
        )
    }
}

/// The step labels of the first `k` rows in the gutter of width `gw`.
pub open spec fn label_cells(labels: Seq<Seq<char>>, gw: nat, pt: nat, k: nat) -> Seq<char>
    decreases k,
{
    if k == 0 {
        Seq::empty()
    } else {
        label_cells(labels, gw, pt, (k - 1) as nat) + cell(
            20,
            row_y(pt, (k - 1) as nat),
            gw,
            14,
            labels[k - 1],
            7,
            false,
        )
    }
}

fn ink_headers_text(inks: &Vec<crate::models::Ink>, wx: u128, pt: u128) -> (r: String)
    requires
        small(wx as int + 40 * inks.len()),
        small(pt as int + 102),
    ensures
        r@ == ink_headers(crate::models::ink_views(inks@), wx as nat, pt as nat, inks.len() as nat),
{
    let mut s = String::new();
    let mut k: usize = 0;
    while k < inks.len()
        invariant
            k <= inks.len(),
            small(wx as int + 40 * inks.len()),
            small(pt as int + 102),
            s@ == ink_headers(crate::models::ink_views(inks@), wx as nat, pt as nat, k as nat),
        decreases inks.len() - k,
    {
        assert(crate::models::ink_views(inks@)[k as int] == inks@[k as int]@);
        let c = cell_text(wx + 40 * (k as u128), pt + 82, 40, 14, inks[k].name.as_str(), 7, true);
        s.push_str(c.as_str());
        k = k + 1;
    }
    s
}

fn value_cells_text(texts: &Vec<String>, wx: u128, y: u128, cols: usize) -> (r: String)
    requires
        small(wx as int + 40 * cols),
        small(y as int + 20),
    ensures
        r@ == value_cells(views(texts@), wx as nat, y as nat, cols as nat),
{
    let mut s = String::new();
    let mut k: usize = 0;
    while k < cols
        invariant
            k <= cols,
            small(wx as int + 40 * cols),
            small(y as int + 20),
            s@ == value_cells(views(texts@), wx as nat, y as nat, k as nat),
        decreases cols - k,
    {
        let c = cell_text(wx + 40 * (k as u128), y, 40, 14, str_at(texts, k), 7, false);
        s.push_str(c.as_str());
        k = k + 1;
    }
    s
}

fn step_rows_text(rows: &Vec<Vec<String>>, wx: u128, pt: u128, cols: usize, count: usize) -> (r: String)
    requires
        small(wx as int + 40 * cols),
        small(pt as int + 130 + 14 * count),
    ensures
        r@ == step_rows(text_rows(rows@), wx as nat, pt as nat, cols as nat, count as nat),
{
    let mut s = String::new();
    let mut k: usize = 0;
    let none: Vec<String> = Vec::new();
    assert(views(none@) =~= Seq::<Seq<char>>::empty());
    while k < count
        invariant
            k <= count,
            none@.len() == 0,
            views(none@) == Seq::<Seq<char>>::empty(),
            small(wx as int + 40 * cols),
            small(pt as int + 130 + 14 * count),
            s@ == step_rows(text_rows(rows@), wx as nat, pt as nat, cols as nat, k as nat),
        decreases count - k,
    {
        let y = pt + 110 + 14 * (k as u128);
        let row: &Vec<String> = if k < rows.len() {
            &rows[k]
        } else {
            &none
        };
        assert(views(row@) == row_texts_at(text_rows(rows@), k as int));
        let c = value_cells_text(row, wx, y, cols);
        s.push_str(c.as_str());
        k = k + 1;
    }
    s
}

fn label_cells_text(labels: &Vec<String>, gw: u128, pt: u128) -> (r: String)
    requires
        small(pt as int + 130 + 14 * labels.len()),
    ensures
        r@ == label_cells(views(labels@), gw as nat, pt as nat, labels.len() as nat),
{
    let mut s = String::new();
    let mut k: usize = 0;
    while k < labels.len()
        invariant
            k <= labels.len(),
            small(pt as int + 130 + 14 * labels.len()),
            s@ == label_cells(views(labels@), gw as nat, pt as nat, k as nat),
        decreases labels.len() - k,
    {
        assert(views(labels@)[k as int] == labels@[k as int]@);
        let c = cell_text(20, pt + 110 + 14 * (k as u128), gw, 14, labels[k].as_str(), 7, false);
        s.push_str(c.as_str());
        k = k + 1;
    }
    s
}

// ── Page parts ───────────────────────────────────────────────────────────────

/// Step rows drawn for a reading: one per step label, as far as the reading has rows.
pub open spec fn rows_shown(w: WeightModel, job: JobModel) -> nat {
    if w.steps.len() < job.step_labels.len() {
        w.steps.len()
    } else {
        job.step_labels.len()
    }
}

/// One LPI block: the LPI label, the ink names, the density row and the step rows.
#[verifier::opaque]
pub open spec fn weight_block(job: JobModel, w: WeightModel, wt: WeightTextsModel, wi: nat, pt: nat) -> Seq<char> {
    let n = job.inks.len();
    let wx = block_x(n, wi);
    cell(wx, pt + 64, block_width(n), 18, w.lpi, 8, true) + ink_headers(job.inks, wx, pt, n)
        + value_cells(wt.density, wx, pt + 96, columns(n)) + step_rows(
        wt.steps,
        wx,
        pt,
        columns(n),
        rows_shown(w, job),
    )
}

/// The `k` blocks of readings `start ..= start + k - 1`.
pub open spec fn weight_blocks(
    job: JobModel,
    ws: Seq<WeightModel>,
    wts: Seq<WeightTextsModel>,
    start: nat,
    k: nat,
    pt: nat,
) -> Seq<char>
    decreases k,
{
    if k == 0 {
        Seq::empty()
    } else {
        weight_blocks(job, ws, wts, start, (k - 1) as nat, pt) + weight_block(
            job,
            ws[start + k - 1],
            weight_texts_at(wts, start + k - 1),
            (k - 1) as nat,
            pt,
        )
    }
}

/// The header row: customer, print type, date, set and job number.
pub open spec fn header_cells(job: JobModel, pt: nat) -> Seq<char> {
    cell(20, pt + 20, 200, 22, "CUSTOMER: "@ + job.customer, 9, false) + cell(
        220,
        pt + 20,
        120,
        22,
        "PRINT TYPE: "@ + job.print_type,
        9,
        false,
    ) + cell(340, pt + 20, 120, 22, "DATE: "@ + job.date, 9, false) + cell(
        460,
        pt + 20,
        180,
        22,
        "SET No.: "@ + job.set_number,
        9,
        false,
    ) + cell(640, pt + 20, 182, 22, "JOB No.: "@ + job.job_number, 9, false)
}

/// The left gutter: "D" over the density row, an empty label cell, "Density",
/// and the step labels.
pub open spec fn gutter(job: JobModel, pt: nat) -> Seq<char> {
    let gw = gutter_width(job.inks.len());
    cell(20, pt + 82, gw, 14, "D"@, 7, true) + rect_cell(20, pt + 64, gw, 18) + cell(
        20,
        pt + 96,
        gw,
        14,
        "Density"@,
        7,
        false,
    ) + label_cells(job.step_labels, gw, pt, job.step_labels.len())
}

/// The outer border of the table.
pub open spec fn border(job: JobModel, pt: nat) -> Seq<char> {
    "<rect x=\"20.00\" y=\""@ + coord(pt + 64) + "\" width=\"802.00\" height=\""@ + coord(
        46 + 14 * job.step_labels.len(),
    ) + "\" fill=\"none\" stroke=\"#000\" stroke-width=\"0.5\"/>"@
}

/// Readings on page `c` of a shape with `len` readings: three, or what is left.
pub open spec fn chunk_len(len: nat, c: nat) -> nat {
    if len >= 3 * c + 3 {
        3
    } else {
        (len - 3 * c) as nat
    }
}

/// Pages a shape with `len` readings takes: a page per three readings.
pub open spec fn chunk_count(len: nat) -> nat {
    (len + 2) / 3
}

/// Page `c` of a shape, drawn at height `pt`.
#[verifier::opaque]
pub open spec fn page_svg(
    job: JobModel,
    shape: ShapeModel,
    wts: Seq<WeightTextsModel>,
    c: nat,
    pt: nat,
) -> Seq<char> {
    "<rect x=\"0\" y=\""@ + coord(pt) + "\" width=\"842\" height=\"595\" fill=\"white\"/>"@
        + header_cells(job, pt) + cell(
        20,
        pt + 42,
        802,
        22,
        shape_name(shape.dot_type, shape.dot_number),
        9,
        true,
    ) + weight_blocks(job, shape.weights, wts, 3 * c, chunk_len(shape.weights.len(), c), pt)
        + gutter(job, pt) + border(job, pt)
}

fn gutter_w(n: usize) -> (g: u128)
    ensures
        g == gutter_width(n as nat),
{
    let cols: u128 = if n == 0 {
        1
    } else {
        n as u128
    };
    if 120 * cols + 60 <= 790 {
        790 - 120 * cols
    } else {
        60
    }
}

fn weight_block_text(job: &JobConfig, w: &WeightData, wt: &WeightTexts, wi: usize, pt: u128) -> (r: String)
    requires
        wi <= 2,
        pt < 0x1_0000_0000_0000_0000_0000,
    ensures
        r@ == weight_block(job@, w@, wt@, wi as nat, pt as nat),
{
    proof {
        reveal(weight_block);
    }
    let n = job.inks.len();
    let cols: usize = if n == 0 {
        1
    } else {
        n
    };
    let bw: u128 = 40 * (cols as u128);
    let gw = gutter_w(n);
    assert((wi as int) * (bw + 6) <= 2 * (bw + 6)) by (nonlinear_arith)
        requires
            wi <= 2,
    ;
    let wx: u128 = 20 + gw + (wi as u128) * (bw + 6);
    let mut s = cell_text(wx, pt + 64, bw, 18, w.lpi.as_str(), 8, true);
    let heads = ink_headers_text(&job.inks, wx, pt);
    s.push_str(heads.as_str());
    let dens = value_cells_text(&wt.density, wx, pt + 96, cols);
    s.push_str(dens.as_str());
    let shown: usize = if w.steps.len() < job.step_labels.len() {
        w.steps.len()
    } else {
        job.step_labels.len()
    };
    let rows = step_rows_text(&wt.steps, wx, pt, cols, shown);
    s.push_str(rows.as_str());
    s
}

fn labelled_cell(x: u128, pt: u128, w: u128, label: &str, value: &str) -> (r: String)
    requires
        x < 1000,
        pt < 0x1_0000_0000_0000_0000_0000,
    ensures
        r@ == cell(x as nat, pt as nat + 20, w as nat, 22, label@ + value@, 9, false),
{
    let mut text = owned(label);
    text.push_str(value);
    cell_text(x, pt + 20, w, 22, text.as_str(), 9, false)
}

fn header_text(job: &JobConfig, pt: u128) -> (r: String)
    requires
        pt < 0x1_0000_0000_0000_0000_0000,
    ensures
        r@ == header_cells(job@, pt as nat),
{
    let mut s = labelled_cell(20, pt, 200, "CUSTOMER: ", job.customer.as_str());
    let c = labelled_cell(220, pt, 120, "PRINT TYPE: ", job.print_type.as_str());
    s.push_str(c.as_str());
    let c = labelled_cell(340, pt, 120, "DATE: ", job.date.as_str());
    s.push_str(c.as_str());
    let c = labelled_cell(460, pt, 180, "SET No.: ", job.set_number.as_str());
    s.push_str(c.as_str());
    let c = labelled_cell(640, pt, 182, "JOB No.: ", job.job_number.as_str());
    s.push_str(c.as_str());
    s
}

fn gutter_text(job: &JobConfig, pt: u128) -> (r: String)
    requires
        pt < 0x1_0000_0000_0000_0000_0000,
    ensures
        r@ == gutter(job@, pt as nat),
{
    let gw = gutter_w(job.inks.len());
    let mut s = cell_text(20, pt + 82, gw, 14, "D", 7, true);
    let c = rect_text(20, pt + 64, gw, 18);
    s.push_str(c.as_str());
    let c = cell_text(20, pt + 96, gw, 14, "Density", 7, false);
    s.push_str(c.as_str());
    let c = label_cells_text(&job.step_labels, gw, pt);
    s.push_str(c.as_str());
    s
}

fn border_text(job: &JobConfig, pt: u128) -> (r: String)
    requires
        pt < 0x1_0000_0000_0000_0000_0000,
    ensures
        r@ == border(job@, pt as nat),
{
    let mut s = owned("<rect x=\"20.00\" y=\"");
    push_coord(&mut s, pt + 64);
    s.push_str("\" width=\"802.00\" height=\"");
    push_coord(&mut s, 46 + 14 * (job.step_labels.len() as u128));
    s.push_str("\" fill=\"none\" stroke=\"#000\" stroke-width=\"0.5\"/>");
    s
}

fn weight_blocks_text(
    job: &JobConfig,
    shape: &ShapeData,
    wts: &Vec<WeightTexts>,
    start: usize,
    count: usize,
    pt: u128,
) -> (r: String)
    requires
        count <= 3,
        start + count <= shape.weights.len(),
        pt < 0x1_0000_0000_0000_0000_0000,
    ensures
        r@ == weight_blocks(
            job@,
            shape@.weights,
            weight_text_views(wts@),
            start as nat,
            count as nat,
            pt as nat,
        ),
{
    let none = WeightTexts { density: Vec::new(), steps: Vec::new() };
    assert(none@.density =~= Seq::<Seq<char>>::empty());
    assert(none@.steps =~= Seq::<Seq<Seq<char>>>::empty());
    let mut s = String::new();
    let mut k: usize = 0;
    while k < count
        invariant
            k <= count,
            count <= 3,
            start + count <= shape.weights.len(),
            pt < 0x1_0000_0000_0000_0000_0000,
            none@ == (WeightTextsModel { density: Seq::empty(), steps: Seq::empty() }),
            s@ == weight_blocks(
                job@,
                shape@.weights,
                weight_text_views(wts@),
                start as nat,
                k as nat,
                pt as nat,
            ),
        decreases count - k,
    {
        let i = start + k;
        let wt: &WeightTexts = if i < wts.len() {
            &wts[i]
        } else {
            &none
        };
        assert(wt@ == weight_texts_at(weight_text_views(wts@), i as int));
        assert(shape@.weights[i as int] == shape.weights@[i as int]@);
        let b = weight_block_text(job, &shape.weights[i], wt, k, pt);
        s.push_str(b.as_str());
        k = k + 1;
    }
    s
}

fn page_text(job: &JobConfig, shape: &ShapeData, wts: &Vec<WeightTexts>, c: usize, pt: u128) -> (r: String)
    requires
        c < chunk_count(shape.weights.len() as nat),
        pt < 0x1_0000_0000_0000_0000_0000,
    ensures
        r@ == page_svg(job@, shape@, weight_text_views(wts@), c as nat, pt as nat),
{
    let len = shape.weights.len();
    let start: usize = 3 * c;
    let count: usize = if len - start >= 3 {
        3
    } else {
        len - start
    };
    proof {
        reveal(page_svg);
    }
    let mut s = owned("<rect x=\"0\" y=\"");
    push_coord(&mut s, pt);
    s.push_str("\" width=\"842\" height=\"595\" fill=\"white\"/>");
    let part = header_text(job, pt);
    s.push_str(part.as_str());
    let name = shape.display_name();
    let part = cell_text(20, pt + 42, 802, 22, name.as_str(), 9, true);
    s.push_str(part.as_str());
    let part = weight_blocks_text(job, shape, wts, start, count, pt);
    s.push_str(part.as_str());
    let part = gutter_text(job, pt);
    s.push_str(part.as_str());
    let part = border_text(job, pt);
    s.push_str(part.as_str());
    s
}

// ── Document ─────────────────────────────────────────────────────────────────

/// A page wrapped in its group, numbered from 0 down the document.
pub open spec fn page_group(index: nat, body: Seq<char>) -> Seq<char> {
    "<g id=\"page"@ + decimal(index) + "\">"@ + body + "</g>"@
}

/// The first `k` pages of shape `s`, numbered from `start`.
pub open spec fn shape_pages(job: JobModel, texts: Seq<ShapeTextsModel>, s: int, start: nat, k: nat) -> Seq<
    Seq<char>,
>
    decreases k,
{
    if k == 0 {
        Seq::empty()
    } else {
        shape_pages(job, texts, s, start, (k - 1) as nat).push(
            page_group(
                (start + k - 1) as nat,
                page_svg(
                    job,
                    job.shapes[s],
                    shape_texts_at(texts, s).weights,
                    (k - 1) as nat,
                    ((start + k - 1) * 595) as nat,
                ),
            ),
        )
    }
}

/// The pages of the first `s` shapes, in order.
pub open spec fn all_pages(job: JobModel, texts: Seq<ShapeTextsModel>, s: nat) -> Seq<Seq<char>>
    decreases s,
{
    if s == 0 {
        Seq::empty()
    } else {
        let prev = all_pages(job, texts, (s - 1) as nat);
        prev + shape_pages(
            job,
            texts,
            s - 1,
            prev.len(),
            chunk_count(job.shapes[s - 1].weights.len()),
        )
    }
}

/// The page drawn when the job has no readings at all.
pub open spec fn blank_page() -> Seq<char> {
    "<g id=\"page0\"><rect x=\"0\" y=\"0\" width=\"842\" height=\"595\" fill=\"white\"/></g>"@
}

/// The SVG document: every page, stacked, in a drawing as tall as all of them.
pub open spec fn svg_document(job: JobModel, texts: Seq<ShapeTextsModel>) -> Seq<char> {
    let pages = all_pages(job, texts, job.shapes.len());
    let count: nat = if pages.len() == 0 {
        1
    } else {
        pages.len()
    };
    let body = if pages.len() == 0 {
        blank_page()
    } else {
        join_seq(pages, "\n"@)
    };
    "<?xml version=\"1.0\" encoding=\"UTF-8\"?>\n<svg width=\"842\" height=\""@ + coord(count * 595)
        + "\" viewBox=\"0 0 842 "@ + coord(count * 595)
        + "\"\n     xmlns=\"http://www.w3.org/2000/svg\">\n<style>text { font-family: Helvetica, Arial, sans-serif; }</style>\n"@
        + body + "\n</svg>"@
}

fn page_group_text(index: usize, body: &str) -> (r: String)
    ensures
        r@ == page_group(index as nat, body@),
{
    let mut g = owned("<g id=\"page");
    push_decimal(&mut g, index as u128);
    g.push_str("\">");
    g.push_str(body);
    g.push_str("</g>");
    g
}

fn push_shape_pages(
    pages: &mut Vec<String>,
    job: &JobConfig,
    si: usize,
    wts: &Vec<WeightTexts>,
    Ghost(tv): Ghost<Seq<ShapeTextsModel>>,
)
    requires
        si < job.shapes.len(),
        weight_text_views(wts@) == shape_texts_at(tv, si as int).weights,
    ensures
        views(final(pages)@) == views(old(pages)@) + shape_pages(
            job@,
            tv,
            si as int,
            old(pages)@.len(),
            chunk_count(job.shapes@[si as int].weights@.len() as nat),
        ),
{
    let shape = &job.shapes[si];
    assert(job@.shapes[si as int] == shape@);
    let len = shape.weights.len();
    let chunks: usize = len / 3 + if len % 3 == 0 {
        0
    } else {
        1
    };
    assert(chunks == chunk_count(len as nat));
    let ghost prev = views(pages@);
    let ghost start = pages@.len();
    let mut c: usize = 0;
    while c < chunks
        invariant
            si < job.shapes.len(),
            shape == &job.shapes[si as int],
            job@.shapes[si as int] == shape@,
            chunks == chunk_count(shape.weights.len() as nat),
            c <= chunks,
            weight_text_views(wts@) == shape_texts_at(tv, si as int).weights,
            pages@.len() == start + c,
            views(pages@) == prev + shape_pages(job@, tv, si as int, start, c as nat),
        decreases chunks - c,
    {
        let index = pages.len();
        let pt: u128 = (index as u128) * 595;
        let body = page_text(job, shape, wts, c, pt);
        let g = page_group_text(index, body.as_str());
        proof {
            lemma_views_push(pages@, g);
        }
        pages.push(g);
        assert(views(pages@) =~= prev + shape_pages(job@, tv, si as int, start, (c + 1) as nat));
        c = c + 1;
    }
}

fn collect_pages(job: &JobConfig, texts: &Vec<ShapeTexts>) -> (pages: Vec<String>)
    ensures
        views(pages@) == all_pages(job@, shape_text_views(texts@), job.shapes.len() as nat),
{
    let ghost tv = shape_text_views(texts@);
    let none: Vec<WeightTexts> = Vec::new();
    assert(weight_text_views(none@) =~= Seq::<WeightTextsModel>::empty());
    let mut pages: Vec<String> = Vec::new();
    assert(views(pages@) =~= Seq::<Seq<char>>::empty());
    let mut si: usize = 0;
    while si < job.shapes.len()
        invariant
            si <= job.shapes.len(),
            tv == shape_text_views(texts@),
            weight_text_views(none@) == Seq::<WeightTextsModel>::empty(),
            views(pages@) == all_pages(job@, tv, si as nat),
        decreases job.shapes.len() - si,
    {
        let wts: &Vec<WeightTexts> = if si < texts.len() {
            &texts[si].weights
        } else {
            &none
        };
        assert(weight_text_views(wts@) == shape_texts_at(tv, si as int).weights);
        assert(job@.shapes[si as int] == job.shapes@[si as int]@);
        push_shape_pages(&mut pages, job, si, wts, Ghost(tv));
        si = si + 1;
    }
    pages
}

/// The SVG drawing of a job: for each shape, a page per three LPI readings,
/// numbered down the document; a single blank page when there are none.
pub fn export_svg(job: &JobConfig, texts: &Vec<ShapeTexts>) -> (r: String)
    ensures
        r@ == svg_document(job@, shape_text_views(texts@)),
{
    let pages = collect_pages(job, texts);
    let count = pages.len();
    let body = if count == 0 {
        owned("<g id=\"page0\"><rect x=\"0\" y=\"0\" width=\"842\" height=\"595\" fill=\"white\"/></g>")
    } else {
        join_all(&pages, "\n")
    };
    let total: u128 = if count == 0 {
        595
    } else {
        (count as u128) * 595
    };
    let mut s = owned("<?xml version=\"1.0\" encoding=\"UTF-8\"?>\n<svg width=\"842\" height=\"");
    push_coord(&mut s, total);
    s.push_str("\" viewBox=\"0 0 842 ");
    push_coord(&mut s, total);
    s.push_str(
        "\"\n     xmlns=\"http://www.w3.org/2000/svg\">\n<style>text { font-family: Helvetica, Arial, sans-serif; }</style>\n",
    );
    s.push_str(body.as_str());
    s.push_str("\n</svg>");
    s
}

/// The download name of a job's drawing: its job number, or "export".
pub open spec fn file_name(job_number: Seq<char>) -> Seq<char> {
    if job_number.len() == 0 {
        "export.svg"@
    } else {
        job_number + ".svg"@
    }
}

/// The file name a job's drawing is offered under.
pub fn export_file_name(job: &JobConfig) -> (r: String)
    ensures
        r@ == file_name(job@.job_number),
{
    if job.job_number.as_str().is_empty() {
        owned("export.svg")
    } else {
        let mut s = job.job_number.clone();
        s.push_str(".svg");
        s
    }
}

// ── Laws ─────────────────────────────────────────────────────────────────────

/// Pages the first `s` shapes take.
pub open spec fn pages_needed(shapes: Seq<ShapeModel>, s: nat) -> nat
    decreases s,
{
    if s == 0 {
        0
    } else {
        pages_needed(shapes, (s - 1) as nat) + chunk_count(shapes[s - 1].weights.len())
    }
}

/// Readings placed on the first `k` pages of a shape with `len` readings.
pub open spec fn readings_placed(len: nat, k: nat) -> nat
    decreases k,
{
    if k == 0 {
        0
    } else {
        readings_placed(len, (k - 1) as nat) + chunk_len(len, (k - 1) as nat)
    }
}

proof fn lemma_shape_pages_len(job: JobModel, texts: Seq<ShapeTextsModel>, s: int, start: nat, k: nat)
    ensures
        shape_pages(job, texts, s, start, k).len() == k,
    decreases k,
{
    if k > 0 {
        lemma_shape_pages_len(job, texts, s, start, (k - 1) as nat);
    }
}

/// Each shape takes a page per three of its readings, rounded up, and the
/// pages of all shapes follow one another: the document holds as many pages
/// as the shapes need together.
pub proof fn lemma_page_count(job: JobModel, texts: Seq<ShapeTextsModel>, s: nat)
    requires
        s <= job.shapes.len(),
    ensures
        all_pages(job, texts, s).len() == pages_needed(job.shapes, s),
    decreases s,
{
    if s > 0 {
        lemma_page_count(job, texts, (s - 1) as nat);
        let prev = all_pages(job, texts, (s - 1) as nat);
        lemma_shape_pages_len(job, texts, s - 1, prev.len(), chunk_count(job.shapes[s - 1].weights.len()));
    }
}

/// A shape's pages hold its readings in order, one to three per page, each
/// reading on exactly one page: page `c` starts at reading `3 * c`, and the
/// pages together hold all `len` of them.
pub proof fn lemma_pages_cover_readings(len: nat)
    ensures
        forall|c: nat| c < chunk_count(len) ==> 1 <= #[trigger] chunk_len(len, c) <= 3,
        forall|c: nat| c < chunk_count(len) ==> readings_placed(len, c) == 3 * c,
        readings_placed(len, chunk_count(len)) == len,
{
    assert forall|c: nat| c < chunk_count(len) implies readings_placed(len, c) == 3 * c by {
        lemma_placed_before(len, c);
    }
    if chunk_count(len) > 0 {
        let last = (chunk_count(len) - 1) as nat;
        lemma_placed_before(len, last);
    }
}

proof fn lemma_placed_before(len: nat, c: nat)
    requires
        c <= chunk_count(len),
    ensures
        c < chunk_count(len) ==> readings_placed(len, c) == 3 * c,
        c == chunk_count(len) ==> readings_placed(len, c) == len,
    decreases c,
{
    if c > 0 {
        lemma_placed_before(len, (c - 1) as nat);
    }
}

/// Every page opens with its white background and then the header row on the
/// line at `pt + 20`: the customer at x = 20, the print type at x = 220, the
/// job's date at x = 340, its set number at x = 460 and its job number at
/// x = 640, each cell labelled with what it holds.
pub proof fn lemma_page_header_fields(
    job: JobModel,
    shape: ShapeModel,
    wts: Seq<WeightTextsModel>,
    c: nat,
    pt: nat,
)
    ensures
        ("<rect x=\"0\" y=\""@ + coord(pt) + "\" width=\"842\" height=\"595\" fill=\"white\"/>"@
            + cell(20, pt + 20, 200, 22, "CUSTOMER: "@ + job.customer, 9, false)
            + cell(220, pt + 20, 120, 22, "PRINT TYPE: "@ + job.print_type, 9, false)
            + cell(340, pt + 20, 120, 22, "DATE: "@ + job.date, 9, false)
            + cell(460, pt + 20, 180, 22, "SET No.: "@ + job.set_number, 9, false)
            + cell(640, pt + 20, 182, 22, "JOB No.: "@ + job.job_number, 9, false)).is_prefix_of(
            page_svg(job, shape, wts, c, pt),
        ),
{
    reveal(page_svg);
    let bg = "<rect x=\"0\" y=\""@ + coord(pt) + "\" width=\"842\" height=\"595\" fill=\"white\"/>"@;
    let c1 = cell(20, pt + 20, 200, 22, "CUSTOMER: "@ + job.customer, 9, false);
    let c2 = cell(220, pt + 20, 120, 22, "PRINT TYPE: "@ + job.print_type, 9, false);
    let c3 = cell(340, pt + 20, 120, 22, "DATE: "@ + job.date, 9, false);
    let c4 = cell(460, pt + 20, 180, 22, "SET No.: "@ + job.set_number, 9, false);
    let c5 = cell(640, pt + 20, 182, 22, "JOB No.: "@ + job.job_number, 9, false);
    let name = cell(20, pt + 42, 802, 22, shape_name(shape.dot_type, shape.dot_number), 9, true);
    let blocks = weight_blocks(job, shape.weights, wts, 3 * c, chunk_len(shape.weights.len(), c), pt);
    assert(header_cells(job, pt) == c1 + c2 + c3 + c4 + c5);
    assert(page_svg(job, shape, wts, c, pt) == bg + header_cells(job, pt) + name + blocks + gutter(job, pt)
        + border(job, pt));
    lemma_head_is_prefix(bg, c1, c2, c3, c4, c5, name + blocks + gutter(job, pt) + border(job, pt));
    assert(bg + header_cells(job, pt) + name + blocks + gutter(job, pt) + border(job, pt) =~= bg + (c1 + c2
        + c3 + c4 + c5) + (name + blocks + gutter(job, pt) + border(job, pt)));
}

proof fn lemma_head_is_prefix(
    bg: Seq<char>,
    c1: Seq<char>,
    c2: Seq<char>,
    c3: Seq<char>,
    c4: Seq<char>,
    c5: Seq<char>,
    rest: Seq<char>,
)
    ensures
        (bg + c1 + c2 + c3 + c4 + c5).is_prefix_of(bg + (c1 + c2 + c3 + c4 + c5) + rest),
{
    let head = bg + c1 + c2 + c3 + c4 + c5;
    assert(bg + (c1 + c2 + c3 + c4 + c5) + rest =~= head + rest);
    assert((head + rest).subrange(0, head.len() as int) =~= head);
}

} // verus!

