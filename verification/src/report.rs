//! Print-ready HTML report: a header of the job name and "Label: Value" tags,
//! one full-width table per dot shape (one column group per LPI reading,
//! average and deviation columns for the CMYK inks, a target column), on A4
//! pages in the orientation the settings choose: shapes side by side in
//! landscape, stacked in portrait.
//!
//! The numbers in the cells are formatted by the caller (`ReportNumbers`):
//! this module lays out the document around them.

use vstd::prelude::*;
use crate::models::{
    process_positions, shape_name, InkKind, InkModel, JobConfig, JobModel, ShapeData, ShapeModel,
};
use crate::settings::ReportOrientation;
use crate::pantone::{catalogue, first_hex, is_light, light, pantone_hex, pantone_key};
use crate::text::{
    escape_seq, join_non_empty, lemma_assoc, lemma_add_empty, lemma_empty_add, join_seq, keep_non_empty, lemma_escape_empty, lpi_last, owned,
    push_decimal, push_escaped, push_lpi_last, push_wrapped_escaped, str_at, text_at, views,
    wrapped, decimal, esc,
};

verus! {

pub const CSS: &'static str = r#"
*, *::before, *::after { box-sizing: border-box; margin: 0; padding: 0; }

body {
  font-family: 'Helvetica Neue', Helvetica, Arial, sans-serif;
  font-size: 11pt;
  color: #1a1a1a;
  background: #fff;
  -webkit-print-color-adjust: exact;
  print-color-adjust: exact;
}

/* ── Screen-only UI ── */
.no-print {
  position: fixed; top: 10px; right: 10px; z-index: 100;
  display: flex; gap: 6px;
}
.no-print button {
  padding: 6px 16px;
  background: #1e293b; color: #fff;
  border: none; border-radius: 4px;
  font-size: 12px; cursor: pointer; font-family: inherit;
}
.no-print button:hover { background: #334155; }
@media print { .no-print { display: none !important; } }

/* ── Header ── */
.report-header { margin-bottom: 8mm; }
.accent-bar { height: 6px; background: #1e293b; }
.header-inner {
  padding: 7mm 17mm 7mm;
  border-bottom: 1pt solid #1e293b;
}
.job-title {
  font-size: 22pt; font-weight: 700; color: #1e293b;
  letter-spacing: -0.4px; line-height: 1.1; margin-bottom: 5pt;
}
.tag-row { display: flex; flex-wrap: wrap; gap: 4pt; }
.tag {
  display: inline-block;
  background: #f1f5f9; border: 0.5pt solid #cbd5e1; border-radius: 3px;
  padding: 2.5pt 7pt; font-size: 10pt; font-weight: 600; color: #1e293b;
}
.tag-label { font-weight: 500; color: #64748b; }

/* ── Shapes: stacked in portrait, side by side in landscape ── */
body.landscape .shapes { display: flex; align-items: flex-start; gap: 6mm; padding: 0 12mm; }
body.landscape .shapes .shape-section { flex: 1 1 0; min-width: 0; padding: 0; }

/* ── Shape section ── */
.shape-section {
  padding: 0 17mm;
  margin-bottom: 8mm;
  page-break-inside: avoid;
}
.shape-heading {
  display: flex; align-items: center; gap: 6pt; margin-bottom: 5pt;
}
.shape-heading::after {
  content: ''; flex: 1; height: 0.5pt; background: #cbd5e1;
}
.shape-label {
  font-size: 9.5pt; font-weight: 700; text-transform: uppercase;
  letter-spacing: 0.8px; color: #1e293b;
  background: #f1f5f9; border: 0.5pt solid #cbd5e1; border-radius: 3px;
  padding: 2.5pt 8pt; white-space: nowrap;
}
.empty-note { font-size: 8.5pt; color: #9ca3af; font-style: italic; padding: 4pt 17mm; }

/* ── Data table ── */
.data-table {
  border-collapse: collapse;
  table-layout: fixed;
  width: 100%;
  font-size: 9.5pt;
  font-variant-numeric: tabular-nums;
}

/* Header cells */
th {
  padding: 3.5pt 5pt;
  text-align: center;
  font-size: 7.5pt;
  font-weight: 700;
  letter-spacing: 0.2px;
  background: #1e293b;
  color: #94a3b8;
  border: 0.5pt solid #334155;
  white-space: nowrap;
}
th.th-corner {
  text-align: left; padding-left: 5pt;
  background: #0f172a; color: #64748b;
  font-size: 7pt; text-transform: uppercase; letter-spacing: 0.5px;
}
th.th-target {
  background: #0f172a; color: #64748b;
  font-size: 7pt; text-transform: uppercase; letter-spacing: 0.5px;
  border-left: 1pt solid #475569;
}
span.lpi-tag {
  display: block; font-size: 6.5pt; font-weight: 600; color: #94a3b8;
  letter-spacing: 0.6px; margin-bottom: 1pt;
}
th.th-lpi-group {
  background: #263347; color: #cbd5e1;
  font-size: 8pt; font-weight: 700; letter-spacing: 0.5px;
  border-bottom: 1.5pt solid #475569; padding: 4pt 5pt;
}

/* Ink name headers — coloured on dark background */
th.th-ink            { background: #1a2535; font-size: 8pt; font-weight: 700; }
th.ink-c             { color: #38bdf8; }
th.ink-m             { color: #f472b6; }
th.ink-y             { color: #fbbf24; }
th.ink-k             { color: #e2e8f0; }
th.ink-w             { color: #f1f5f9; }
th.ink-spot          { color: #c4b5fd; }  /* fallback if no Pantone match */

th.th-avg  { background: #1a2535; color: #86efac; font-size: 7pt; }
th.th-dev  { background: #1a2535; color: #a5b4fc; font-size: 7pt; }

/* LPI group separator */
th.lpi-last, td.lpi-last {
  border-right: 2pt solid #64748b !important;
}

/* Body cells */
td {
  padding: 2.5pt 5pt;
  text-align: right;
  border: 0.5pt solid #e5e7eb;
  white-space: nowrap;
}
td.td-step {
  text-align: left; padding-left: 5pt;
  background: #f8fafc !important;
  color: #374151; font-size: 8pt; font-weight: 500;
  border-right: 1pt solid #cbd5e1;
}
td.td-target {
  background: #f0f4ff !important;
  color: #4b5563; font-style: italic;
  border-left: 1pt solid #c7d2fe;
}
td.td-avg  { color: #15803d; }
td.td-dev  { color: #374151; }
td.td-data { color: #111827; }

/* Density row */
tr.row-density td           { background: #f1f5f9; }
tr.row-density td.td-step   { background: #e2e8f0 !important; font-weight: 700; }
tr.row-density td.td-target { background: #e8edfa !important; }

/* Alternating shading */
tr:nth-child(even):not(.row-density) td.td-data { background: #fafafa; }
tr:nth-child(even):not(.row-density) td.td-avg  { background: #f0fdf4; }

/* ── Combined report — compact overrides ── */
body.combined .report-header { margin-bottom: 2mm; }
body.combined .accent-bar    { height: 4px; }
body.combined .header-inner  { padding: 3mm 12mm 3mm; }
body.combined .job-title     { font-size: 14pt; margin-bottom: 3pt; }
body.combined .tag           { font-size: 8.5pt; padding: 1.5pt 5pt; }
body.combined .shape-section { padding: 0 12mm; margin-bottom: 3mm; }
body.combined .shape-label   { font-size: 8pt; padding: 2pt 6pt; }
body.combined .job-section   { margin-bottom: 0; }
body.combined .job-section + .job-section { page-break-before: always; break-before: page; }
body.combined .job-section .accent-bar { display: none; }
body.combined .job-section .header-inner { border-bottom: none; padding-top: 1mm; }
body.combined .shared-banner .header-inner { padding: 3mm 12mm; }
body.combined .shared-banner .job-title    { font-size: 16pt; }
"#;


// ── Formatted numbers ────────────────────────────────────────────────────────

pub struct RowNumbersModel {
    pub values: Seq<Seq<char>>,
    pub avg: Seq<char>,
    pub dev: Seq<char>,
}

/// One step row of one LPI column group: a value per ink, the CMYK average
/// and the deviation from the target, each already formatted.
#[derive(Clone, Debug)]
pub struct RowNumbers {
    pub values: Vec<String>,
    pub avg: String,
    pub dev: String,
}

impl View for RowNumbers {
    type V = RowNumbersModel;

    open spec fn view(&self) -> RowNumbersModel {
        RowNumbersModel { values: views(self.values@), avg: self.avg@, dev: self.dev@ }
    }
}

pub struct WeightNumbersModel {
    pub density: Seq<Seq<char>>,
    pub rows: Seq<RowNumbersModel>,
}

/// The formatted numbers of one LPI reading: a density per ink and one row per step.
#[derive(Clone, Debug)]
pub struct WeightNumbers {
    pub density: Vec<String>,
    pub rows: Vec<RowNumbers>,
}

impl View for WeightNumbers {
    type V = WeightNumbersModel;

    open spec fn view(&self) -> WeightNumbersModel {
        WeightNumbersModel {
            density: views(self.density@),
            rows: self.rows@.map_values(|r: RowNumbers| r@),
        }
    }
}

pub struct ShapeNumbersModel {
    pub weights: Seq<WeightNumbersModel>,
}

/// The formatted numbers of one dot shape, one entry per LPI reading.
#[derive(Clone, Debug)]
pub struct ShapeNumbers {
    pub weights: Vec<WeightNumbers>,
}

impl View for ShapeNumbers {
    type V = ShapeNumbersModel;

    open spec fn view(&self) -> ShapeNumbersModel {
        ShapeNumbersModel { weights: self.weights@.map_values(|w: WeightNumbers| w@) }
    }
}

pub struct ReportNumbersModel {
    pub shapes: Seq<ShapeNumbersModel>,
    pub targets: Seq<Seq<char>>,
}

/// The formatted numbers of a job: one entry per shape, and the dot gain
/// target shown for each step label ("" where the step has none).
#[derive(Clone, Debug)]
pub struct ReportNumbers {
    pub shapes: Vec<ShapeNumbers>,
    pub targets: Vec<String>,
}

impl View for ReportNumbers {
    type V = ReportNumbersModel;

    open spec fn view(&self) -> ReportNumbersModel {
        ReportNumbersModel {
            shapes: self.shapes@.map_values(|s: ShapeNumbers| s@),
            targets: views(self.targets@),
        }
    }
}

/// The row at `i`, or an empty row past the end.
pub open spec fn row_at(rows: Seq<RowNumbersModel>, i: int) -> RowNumbersModel {
    if 0 <= i < rows.len() {
        rows[i]
    } else {
        RowNumbersModel { values: Seq::empty(), avg: Seq::empty(), dev: Seq::empty() }
    }
}

/// The numbers of the reading at `i`, or empty numbers past the end.
pub open spec fn weight_numbers_at(ws: Seq<WeightNumbersModel>, i: int) -> WeightNumbersModel {
    if 0 <= i < ws.len() {
        ws[i]
    } else {
        WeightNumbersModel { density: Seq::empty(), rows: Seq::empty() }
    }
}

/// The numbers of the shape at `i`, or empty numbers past the end.
pub open spec fn shape_numbers_at(ss: Seq<ShapeNumbersModel>, i: int) -> ShapeNumbersModel {
    if 0 <= i < ss.len() {
        ss[i]
    } else {
        ShapeNumbersModel { weights: Seq::empty() }
    }
}

// ── Ink colour helpers ───────────────────────────────────────────────────────

/// The CSS class of an ink column header.
pub open spec fn class_name(kind: InkKind) -> Seq<char> {
    match kind {
        InkKind::Cyan => "ink-c"@,
        InkKind::Magenta => "ink-m"@,
        InkKind::Yellow => "ink-y"@,
        InkKind::Black => "ink-k"@,
        InkKind::White => "ink-w"@,
        InkKind::Spot => "ink-spot"@,
    }
}

pub fn ink_class(kind: &InkKind) -> (r: &'static str)
    ensures
        r@ == class_name(*kind),
{
    match kind {
        InkKind::Cyan => "ink-c",
        InkKind::Magenta => "ink-m",
        InkKind::Yellow => "ink-y",
        InkKind::Black => "ink-k",
        InkKind::White => "ink-w",
        InkKind::Spot => "ink-spot",
    }
}

/// The inline style of an ink column header: for a spot ink whose name holds
/// a catalogue Pantone number, the catalogue colour as background and dark or
/// white text to suit it; nothing otherwise.
pub open spec fn header_style(kind: InkKind, name: Seq<char>) -> Seq<char> {
    if kind != InkKind::Spot {
        Seq::empty()
    } else {
        match first_hex(catalogue(), pantone_key(name)) {
            Some(hex) => " style=\"background-color:#"@ + hex + ";color:"@ + (if light(
                vstd::utf8::encode_utf8(hex),
            ) {
                "#1a1a1a"@
            } else {
                "#ffffff"@
            }) + ";\""@,
            None => Seq::empty(),
        }
    }
}

pub fn ink_header_style(kind: &InkKind, name: &str) -> (r: String)
    ensures
        r@ == header_style(*kind, name@),
{
    if *kind != InkKind::Spot {
        return String::new();
    }
    match pantone_hex(name) {
        Some(hex) => {
            proof {
                crate::pantone::lemma_first_hex_found(catalogue(), pantone_key(name@));
                crate::pantone::lemma_catalogue_codes();
                let i = choose|i: int| 0 <= i < catalogue().len() && #[trigger] catalogue()[i].1 == hex@;
                assert(crate::pantone::colour_code(catalogue()[i].1));
                crate::pantone::lemma_colour_code_parts(hex@);
            }
            let dark = is_light(hex);
            let mut s = String::new();
            s.push_str(" style=\"background-color:#");
            s.push_str(hex);
            s.push_str(";color:");
            if dark {
                s.push_str("#1a1a1a");
            } else {
                s.push_str("#ffffff");
            }
            s.push_str(";\"");
            s
        },
        None => String::new(),
    }
}

// ── Header ───────────────────────────────────────────────────────────────────

/// A "Label: Value" tag holding `value_html`.
pub open spec fn tag_html(label: Seq<char>, value_html: Seq<char>) -> Seq<char> {
    "<span class=\"tag\"><span class=\"tag-label\">"@ + label + ":</span> "@ + value_html + "</span>"@
}

/// The tag of a text value, escaped; nothing for an empty value.
pub open spec fn tag(label: Seq<char>, value: Seq<char>) -> Seq<char> {
    if value.len() == 0 {
        Seq::empty()
    } else {
        tag_html(label, escape_seq(value))
    }
}

/// The Plate/Press value: plate technology, press system and screening spec,
/// space-joined, empty ones dropped.
pub open spec fn plate_press(plate: Seq<char>, press: Seq<char>, esxr: Seq<char>) -> Seq<char> {
    join_seq(keep_non_empty(seq![plate, press, esxr]), " "@)
}

/// The job name as the report's heading; nothing for an empty name.
pub open spec fn title_html(name: Seq<char>) -> Seq<char> {
    wrapped(escape_seq(name), "<h1 class=\"job-title\">"@, "</h1>"@)
}

/// The header tags, in order Job Number, Customer, Plate/Press, Print Type,
/// Date, Set; an empty field gets no tag.
pub open spec fn header_tags(j: JobModel) -> Seq<char> {
    tag("Job Number"@, j.job_number) + tag("Customer"@, j.customer) + tag(
        "Plate/Press"@,
        plate_press(j.plate_tech, j.press_system, j.esxr_number),
    ) + tag("Print Type"@, j.print_type) + tag("Date"@, j.date) + tag("Set"@, j.set_number)
}

/// The report header: the job name as a heading, then the row of tags.
pub open spec fn header_html(j: JobModel) -> Seq<char> {
    "<header class=\"report-header\"><div class=\"accent-bar\"></div><div class=\"header-inner\">"@
        + title_html(j.job_name) + wrapped(header_tags(j), "<div class=\"tag-row\">"@, "</div>"@)
        + "</div></header>"@
}

/// Appends `tag_html(label, value_html)`.
fn push_tag_html(out: &mut String, label: &str, value_html: &str)
    ensures
        final(out)@ == old(out)@ + tag_html(label@, value_html@),
{
    let mut t = owned("<span class=\"tag\"><span class=\"tag-label\">");
    t.push_str(label);
    t.push_str(":</span> ");
    t.push_str(value_html);
    t.push_str("</span>");
    out.push_str(t.as_str());
}

/// Appends the tag of `value`, when `keep` holds.
fn push_tag_if(out: &mut String, keep: bool, label: &str, value: &str)
    ensures
        final(out)@ == old(out)@ + when(keep, tag(label@, value@)),
{
    if keep && !value.is_empty() {
        let e = esc(value);
        push_tag_html(out, label, e.as_str());
    } else {
        assert(old(out)@ + when(keep, tag(label@, value@)) =~= old(out)@);
    }
}

fn plate_press_text(plate: &str, press: &str, esxr: &str) -> (r: String)
    ensures
        r@ == plate_press(plate@, press@, esxr@),
{
    let mut parts: Vec<String> = Vec::new();
    parts.push(owned(plate));
    parts.push(owned(press));
    parts.push(owned(esxr));
    assert(views(parts@) =~= seq![plate@, press@, esxr@]);
    join_non_empty(&parts, " ")
}

fn header_tags_text(job: &JobConfig) -> (r: String)
    ensures
        r@ == header_tags(job@),
{
    let mut s = String::new();
    push_tag_if(&mut s, true, "Job Number", job.job_number.as_str());
    proof {
        lemma_empty_add(tag("Job Number"@, job@.job_number));
    }
    push_tag_if(&mut s, true, "Customer", job.customer.as_str());
    let pp = plate_press_text(job.plate_tech.as_str(), job.press_system.as_str(), job.esxr_number.as_str());
    push_tag_if(&mut s, true, "Plate/Press", pp.as_str());
    push_tag_if(&mut s, true, "Print Type", job.print_type.as_str());
    push_tag_if(&mut s, true, "Date", job.date.as_str());
    push_tag_if(&mut s, true, "Set", job.set_number.as_str());
    s
}

/// Appends `open + s + close` when `s` is non-empty.
fn push_wrapped(out: &mut String, s: &str, open: &str, close: &str)
    ensures
        final(out)@ == old(out)@ + wrapped(s@, open@, close@),
{
    if !s.is_empty() {
        out.push_str(open);
        out.push_str(s);
        out.push_str(close);
        assert(final(out)@ =~= old(out)@ + wrapped(s@, open@, close@));
    } else {
        assert(old(out)@ + wrapped(s@, open@, close@) =~= old(out)@);
    }
}

fn build_header(job: &JobConfig) -> (r: String)
    ensures
        r@ == header_html(job@),
{
    let mut h = owned(
        "<header class=\"report-header\"><div class=\"accent-bar\"></div><div class=\"header-inner\">",
    );
    push_wrapped_escaped(&mut h, job.job_name.as_str(), "<h1 class=\"job-title\">", "</h1>");
    let tags = header_tags_text(job);
    push_wrapped(&mut h, tags.as_str(), "<div class=\"tag-row\">", "</div>");
    h.push_str("</div></header>");
    h
}


// ── Shape table ──────────────────────────────────────────────────────────────

/// Whether the job has inks that enter the CMYK average (then every LPI group
/// carries Avg and Dev columns).
pub open spec fn shows_average(j: JobModel) -> bool {
    process_positions(j.inks).len() > 0
}

/// The separator class on the last ink column of a group that is not the last
/// group, when that group has no Avg / Dev columns.
pub open spec fn ink_boundary(j: JobModel, ci: int, last_group: bool) -> Seq<char> {
    lpi_last(!last_group && ci == j.inks.len() - 1 && !shows_average(j))
}

/// Row 1, one LPI group: a header cell spanning the group's columns, a small
/// "LPI" tag above the ruling.
pub open spec fn group_th(sh: ShapeModel, cols: nat, wi: int) -> Seq<char> {
    "<th colspan=\""@ + decimal(cols) + "\" class=\"th-lpi-group"@ + lpi_last(
        wi != sh.weights.len() - 1,
    ) + "\"><span class=\"lpi-tag\">LPI</span>"@ + escape_seq(sh.weights[wi].lpi) + "</th>"@
}

pub open spec fn group_ths(sh: ShapeModel, cols: nat, n: nat) -> Seq<char>
    decreases n,
{
    if n == 0 {
        Seq::empty()
    } else {
        group_ths(sh, cols, (n - 1) as nat) + group_th(sh, cols, n - 1)
    }
}

/// Row 2: the header of one ink column.
pub open spec fn ink_th(j: JobModel, last_group: bool, ci: int) -> Seq<char> {
    "<th class=\"th-ink "@ + class_name(j.inks[ci].kind) + ink_boundary(j, ci, last_group) + "\""@
        + header_style(j.inks[ci].kind, j.inks[ci].name) + ">"@ + escape_seq(j.inks[ci].name)
        + "</th>"@
}

pub open spec fn ink_ths(j: JobModel, last_group: bool, n: nat) -> Seq<char>
    decreases n,
{
    if n == 0 {
        Seq::empty()
    } else {
        ink_ths(j, last_group, (n - 1) as nat) + ink_th(j, last_group, n - 1)
    }
}

/// Row 2: the Avg and Dev headers of one group, when shown.
pub open spec fn avg_dev_ths(j: JobModel, last_group: bool) -> Seq<char> {
    if shows_average(j) {
        "<th class=\"th-avg\">Avg</th>"@ + "<th class=\"th-dev"@ + lpi_last(!last_group)
            + "\">Dev</th>"@
    } else {
        Seq::empty()
    }
}

/// Row 2, one group: the ink headers, then Avg and Dev when shown.
pub open spec fn group_header(j: JobModel, last_group: bool) -> Seq<char> {
    ink_ths(j, last_group, j.inks.len()) + avg_dev_ths(j, last_group)
}

pub open spec fn group_headers(j: JobModel, groups: nat, n: nat) -> Seq<char>
    decreases n,
{
    if n == 0 {
        Seq::empty()
    } else {
        group_headers(j, groups, (n - 1) as nat) + group_header(j, n - 1 == groups - 1)
    }
}

/// One data cell.
pub open spec fn data_td(j: JobModel, texts: Seq<Seq<char>>, last_group: bool, ci: int) -> Seq<char> {
    "<td class=\"td-data"@ + ink_boundary(j, ci, last_group) + "\">"@ + text_at(texts, ci)
        + "</td>"@
}

/// The data cells of one row of one group.
pub open spec fn data_tds(j: JobModel, texts: Seq<Seq<char>>, last_group: bool, n: nat) -> Seq<char>
    decreases n,
{
    if n == 0 {
        Seq::empty()
    } else {
        data_tds(j, texts, last_group, (n - 1) as nat) + data_td(j, texts, last_group, n - 1)
    }
}

/// The empty Avg and Dev cells of the density row, when shown.
pub open spec fn density_avg_dev(j: JobModel, last_group: bool) -> Seq<char> {
    if shows_average(j) {
        "<td class=\"td-avg\"></td>"@ + "<td class=\"td-dev"@ + lpi_last(!last_group)
            + "\"></td>"@
    } else {
        Seq::empty()
    }
}

/// The density cells of one group: the densities, then empty Avg and Dev.
pub open spec fn density_group(j: JobModel, wn: WeightNumbersModel, last_group: bool) -> Seq<char> {
    data_tds(j, wn.density, last_group, j.inks.len()) + density_avg_dev(j, last_group)
}

pub open spec fn density_groups(j: JobModel, sn: ShapeNumbersModel, groups: nat, n: nat) -> Seq<char>
    decreases n,
{
    if n == 0 {
        Seq::empty()
    } else {
        density_groups(j, sn, groups, (n - 1) as nat) + density_group(
            j,
            weight_numbers_at(sn.weights, n - 1),
            n - 1 == groups - 1,
        )
    }
}

/// The Avg and Dev cells of one step row of one group, when shown.
pub open spec fn step_avg_dev(j: JobModel, row: RowNumbersModel, last_group: bool) -> Seq<char> {
    if shows_average(j) {
        "<td class=\"td-avg\">"@ + row.avg + "</td>"@ + "<td class=\"td-dev"@ + lpi_last(
            !last_group,
        ) + "\">"@ + row.dev + "</td>"@
    } else {
        Seq::empty()
    }
}

/// The value texts of a step row: the full-tone row "100" reads 100.0 for
/// every ink; other rows show the recorded values.
pub open spec fn row_texts(label: Seq<char>, values: Seq<Seq<char>>, num_inks: nat) -> Seq<Seq<char>> {
    if label == "100"@ {
        Seq::new(num_inks, |i: int| "100.0"@)
    } else {
        values
    }
}

/// The step cells of one group: the values, then the average and deviation.
pub open spec fn step_group(j: JobModel, label: Seq<char>, row: RowNumbersModel, last_group: bool) -> Seq<char> {
    data_tds(j, row_texts(label, row.values, j.inks.len()), last_group, j.inks.len()) + step_avg_dev(
        j,
        row,
        last_group,
    )
}

pub open spec fn step_groups(
    j: JobModel,
    sn: ShapeNumbersModel,
    si: int,
    groups: nat,
    n: nat,
) -> Seq<char>
    decreases n,
{
    if n == 0 {
        Seq::empty()
    } else {
        step_groups(j, sn, si, groups, (n - 1) as nat) + step_group(
            j,
            j.step_labels[si],
            row_at(weight_numbers_at(sn.weights, n - 1).rows, si),
            n - 1 == groups - 1,
        )
    }
}

/// One step row: the step label, every group's cells, and the target.
pub open spec fn step_row(
    j: JobModel,
    sn: ShapeNumbersModel,
    targets: Seq<Seq<char>>,
    groups: nat,
    si: int,
) -> Seq<char> {
    "<tr>"@ + "<td class=\"td-step\">"@ + escape_seq(j.step_labels[si]) + "%</td>"@ + step_groups(
        j,
        sn,
        si,
        groups,
        groups,
    ) + "<td class=\"td-target\">"@ + text_at(targets, si) + "</td>"@ + "</tr>"@
}

pub open spec fn step_rows(
    j: JobModel,
    sn: ShapeNumbersModel,
    targets: Seq<Seq<char>>,
    groups: nat,
    n: nat,
) -> Seq<char>
    decreases n,
{
    if n == 0 {
        Seq::empty()
    } else {
        step_rows(j, sn, targets, groups, (n - 1) as nat) + step_row(j, sn, targets, groups, n - 1)
    }
}

/// Columns per LPI group: one per ink, plus Avg and Dev when shown.
pub open spec fn group_columns(j: JobModel) -> nat {
    j.inks.len() + if shows_average(j) { 2nat } else { 0nat }
}

/// The table of one shape: a column group per LPI reading (a column per ink,
/// then Avg and Dev when the job has process inks), a density row, a row per
/// step label, and the target column; a note when the shape has no readings.
pub open spec fn table_html(
    j: JobModel,
    sh: ShapeModel,
    sn: ShapeNumbersModel,
    targets: Seq<Seq<char>>,
) -> Seq<char> {
    let groups = sh.weights.len();
    if groups == 0 {
        "<p class=\"empty-note\">No LPI data.</p>"@
    } else {
        "<table class=\"data-table\"><thead>"@ + "<tr>"@
            + "<th rowspan=\"2\" class=\"th-corner\">Step</th>"@ + group_ths(
            sh,
            group_columns(j),
            groups,
        ) + "<th rowspan=\"2\" class=\"th-target\">Target</th></tr>"@ + "<tr>"@ + group_headers(
            j,
            groups,
            groups,
        ) + "</tr></thead><tbody>"@ + "<tr class=\"row-density\"><td class=\"td-step\">D</td>"@
            + density_groups(j, sn, groups, groups) + "<td class=\"td-target\"></td></tr>"@
            + step_rows(j, sn, targets, groups, j.step_labels.len()) + "</tbody></table>"@
    }
}

pub open spec fn opt_weight_numbers(o: Option<&WeightNumbers>) -> WeightNumbersModel {
    match o {
        Some(w) => w@,
        None => WeightNumbersModel { density: Seq::empty(), rows: Seq::empty() },
    }
}

pub open spec fn opt_row_numbers(o: Option<&RowNumbers>) -> RowNumbersModel {
    match o {
        Some(r) => r@,
        None => RowNumbersModel { values: Seq::empty(), avg: Seq::empty(), dev: Seq::empty() },
    }
}

pub open spec fn opt_shape_numbers(o: Option<&ShapeNumbers>) -> ShapeNumbersModel {
    match o {
        Some(s) => s@,
        None => ShapeNumbersModel { weights: Seq::empty() },
    }
}

fn weight_numbers_get(sn: &ShapeNumbers, i: usize) -> (r: Option<&WeightNumbers>)
    ensures
        opt_weight_numbers(r) == weight_numbers_at(sn@.weights, i as int),
{
    if i < sn.weights.len() {
        Some(&sn.weights[i])
    } else {
        None
    }
}

fn row_numbers_get(wn: Option<&WeightNumbers>, i: usize) -> (r: Option<&RowNumbers>)
    ensures
        opt_row_numbers(r) == row_at(opt_weight_numbers(wn).rows, i as int),
{
    match wn {
        Some(w) => if i < w.rows.len() {
            Some(&w.rows[i])
        } else {
            None
        },
        None => None,
    }
}

fn shape_numbers_get(nums: &ReportNumbers, i: usize) -> (r: Option<&ShapeNumbers>)
    ensures
        opt_shape_numbers(r) == shape_numbers_at(nums@.shapes, i as int),
{
    if i < nums.shapes.len() {
        Some(&nums.shapes[i])
    } else {
        None
    }
}

fn group_th_text(shape: &ShapeData, cols: usize, wi: usize) -> (r: String)
    requires
        wi < shape.weights.len(),
    ensures
        r@ == group_th(shape@, cols as nat, wi as int),
{
    let mut s = owned("<th colspan=\"");
    push_decimal(&mut s, cols as u128);
    s.push_str("\" class=\"th-lpi-group");
    push_lpi_last(&mut s, wi != shape.weights.len() - 1);
    s.push_str("\"><span class=\"lpi-tag\">LPI</span>");
    push_escaped(&mut s, shape.weights[wi].lpi.as_str());
    s.push_str("</th>");
    proof {
        assert(shape@.weights[wi as int] == shape.weights@[wi as int]@);
    }
    s
}

fn ink_th_text(job: &JobConfig, show: bool, last_group: bool, ci: usize) -> (r: String)
    requires
        ci < job.inks.len(),
        show == shows_average(job@),
    ensures
        r@ == ink_th(job@, last_group, ci as int),
{
    let ink = &job.inks[ci];
    let mut s = owned("<th class=\"th-ink ");
    s.push_str(ink_class(&ink.kind));
    push_lpi_last(&mut s, !last_group && ci == job.inks.len() - 1 && !show);
    s.push_str("\"");
    let style = ink_header_style(&ink.kind, ink.name.as_str());
    s.push_str(style.as_str());
    s.push_str(">");
    push_escaped(&mut s, ink.name.as_str());
    s.push_str("</th>");
    proof {
        assert(job@.inks[ci as int] == job.inks@[ci as int]@);
    }
    s
}

fn avg_dev_ths_text(job: &JobConfig, show: bool, last_group: bool) -> (r: String)
    requires
        show == shows_average(job@),
    ensures
        r@ == avg_dev_ths(job@, last_group),
{
    if show {
        let mut s = owned("<th class=\"th-avg\">Avg</th>");
        s.push_str("<th class=\"th-dev");
        push_lpi_last(&mut s, !last_group);
        s.push_str("\">Dev</th>");
        s
    } else {
        String::new()
    }
}

fn group_header_text(job: &JobConfig, show: bool, last_group: bool) -> (r: String)
    requires
        show == shows_average(job@),
    ensures
        r@ == group_header(job@, last_group),
{
    let mut s = String::new();
    let n = job.inks.len();
    let mut ci: usize = 0;
    while ci < n
        invariant
            n == job.inks.len(),
            ci <= n,
            show == shows_average(job@),
            s@ == ink_ths(job@, last_group, ci as nat),
        decreases n - ci,
    {
        let cell = ink_th_text(job, show, last_group, ci);
        s.push_str(cell.as_str());
        ci = ci + 1;
    }
    let tail = avg_dev_ths_text(job, show, last_group);
    s.push_str(tail.as_str());
    s
}

fn data_td_text(job: &JobConfig, show: bool, texts: &Vec<String>, last_group: bool, ci: usize) -> (r: String)
    requires
        ci < job.inks.len(),
        show == shows_average(job@),
    ensures
        r@ == data_td(job@, views(texts@), last_group, ci as int),
{
    let mut s = owned("<td class=\"td-data");
    push_lpi_last(&mut s, !last_group && ci == job.inks.len() - 1 && !show);
    s.push_str("\">");
    s.push_str(str_at(texts, ci));
    s.push_str("</td>");
    s
}

fn data_tds_text(job: &JobConfig, show: bool, texts: &Vec<String>, last_group: bool) -> (r: String)
    requires
        show == shows_average(job@),
    ensures
        r@ == data_tds(job@, views(texts@), last_group, job@.inks.len()),
{
    let mut s = String::new();
    let n = job.inks.len();
    let mut ci: usize = 0;
    while ci < n
        invariant
            n == job.inks.len(),
            ci <= n,
            show == shows_average(job@),
            s@ == data_tds(job@, views(texts@), last_group, ci as nat),
        decreases n - ci,
    {
        let cell = data_td_text(job, show, texts, last_group, ci);
        s.push_str(cell.as_str());
        ci = ci + 1;
    }
    s
}

fn density_group_text(job: &JobConfig, show: bool, wn: Option<&WeightNumbers>, last_group: bool) -> (r: String)
    requires
        show == shows_average(job@),
    ensures
        r@ == density_group(job@, opt_weight_numbers(wn), last_group),
{
    let none: Vec<String> = Vec::new();
    let texts: &Vec<String> = match wn {
        Some(w) => &w.density,
        None => &none,
    };
    assert(views(texts@) == opt_weight_numbers(wn).density) by {
        if wn is None {
            assert(views(none@) =~= Seq::<Seq<char>>::empty());
        }
    }
    let mut s = data_tds_text(job, show, texts, last_group);
    let tail = if show {
        let mut t = owned("<td class=\"td-avg\"></td>");
        t.push_str("<td class=\"td-dev");
        push_lpi_last(&mut t, !last_group);
        t.push_str("\"></td>");
        t
    } else {
        String::new()
    };
    s.push_str(tail.as_str());
    s
}

/// `n` texts "100.0": the values of the full-tone row.
fn full_tone_texts(n: usize) -> (r: Vec<String>)
    ensures
        views(r@) == Seq::new(n as nat, |i: int| "100.0"@),
{
    let mut v: Vec<String> = Vec::new();
    let mut i: usize = 0;
    while i < n
        invariant
            i <= n,
            views(v@) == Seq::new(i as nat, |k: int| "100.0"@),
        decreases n - i,
    {
        let t = owned("100.0");
        proof {
            crate::text::lemma_views_push(v@, t);
        }
        v.push(t);
        i = i + 1;
        assert(views(v@) =~= Seq::new(i as nat, |k: int| "100.0"@));
    }
    v
}

/// Whether a step label names the full-tone row, which reads 100 for every ink.
pub fn is_full_tone(label: &str) -> (b: bool)
    ensures
        b == (label@ == "100"@),
{
    crate::text::str_eq(label, "100")
}

fn step_group_text(
    job: &JobConfig,
    show: bool,
    label: &str,
    row: Option<&RowNumbers>,
    last_group: bool,
) -> (r: String)
    requires
        show == shows_average(job@),
    ensures
        r@ == step_group(job@, label@, opt_row_numbers(row), last_group),
{
    let none: Vec<String> = Vec::new();
    let full = full_tone_texts(job.inks.len());
    let texts: &Vec<String> = if is_full_tone(label) {
        &full
    } else {
        match row {
            Some(r) => &r.values,
            None => &none,
        }
    };
    assert(views(texts@) == row_texts(label@, opt_row_numbers(row).values, job@.inks.len())) by {
        if row is None {
            assert(views(none@) =~= Seq::<Seq<char>>::empty());
        }
    }
    let mut s = data_tds_text(job, show, texts, last_group);
    let tail = if show {
        let (avg, dev) = match row {
            Some(r) => (r.avg.as_str(), r.dev.as_str()),
            None => {
                proof { reveal_strlit(""); }
                ("", "")
            },
        };
        let mut t = owned("<td class=\"td-avg\">");
        t.push_str(avg);
        t.push_str("</td>");
        t.push_str("<td class=\"td-dev");
        push_lpi_last(&mut t, !last_group);
        t.push_str("\">");
        t.push_str(dev);
        t.push_str("</td>");
        t
    } else {
        String::new()
    };
    s.push_str(tail.as_str());
    s
}

fn step_row_text(
    job: &JobConfig,
    show: bool,
    numbers: &ShapeNumbers,
    targets: &Vec<String>,
    groups: usize,
    si: usize,
) -> (r: String)
    requires
        show == shows_average(job@),
        si < job.step_labels.len(),
    ensures
        r@ == step_row(job@, numbers@, views(targets@), groups as nat, si as int),
{
    let mut s = owned("<tr>");
    s.push_str("<td class=\"td-step\">");
    push_escaped(&mut s, job.step_labels[si].as_str());
    s.push_str("%</td>");
    let ghost head = s@;
    let mut cells = String::new();
    let mut wi: usize = 0;
    while wi < groups
        invariant
            wi <= groups,
            si < job.step_labels.len(),
            show == shows_average(job@),
            cells@ == step_groups(job@, numbers@, si as int, groups as nat, wi as nat),
        decreases groups - wi,
    {
        let wn = weight_numbers_get(numbers, wi);
        let row = row_numbers_get(wn, si);
        let cell = step_group_text(job, show, job.step_labels[si].as_str(), row, wi == groups - 1);
        cells.push_str(cell.as_str());
        wi = wi + 1;
    }
    s.push_str(cells.as_str());
    s.push_str("<td class=\"td-target\">");
    s.push_str(str_at(targets, si));
    s.push_str("</td>");
    s.push_str("</tr>");
    proof {
        assert(job@.step_labels[si as int] == job.step_labels@[si as int]@);
    }
    s
}

fn table_text(job: &JobConfig, shape: &ShapeData, numbers: &ShapeNumbers, targets: &Vec<String>) -> (r: String)
    requires
        job@.inks.len() + 2 <= usize::MAX,
    ensures
        r@ == table_html(job@, shape@, numbers@, views(targets@)),
{
    let groups = shape.weights.len();
    if groups == 0 {
        return owned("<p class=\"empty-note\">No LPI data.</p>");
    }
    let dev = job.deviation_ink_indices();
    let show = dev.len() > 0;
    let cols = job.inks.len() + if show { 2 } else { 0 };

    let mut t = owned("<table class=\"data-table\"><thead>");
    t.push_str("<tr>");
    t.push_str("<th rowspan=\"2\" class=\"th-corner\">Step</th>");
    let mut part = String::new();
    let mut wi: usize = 0;
    while wi < groups
        invariant
            groups == shape.weights.len(),
            wi <= groups,
            part@ == group_ths(shape@, cols as nat, wi as nat),
        decreases groups - wi,
    {
        let cell = group_th_text(shape, cols, wi);
        part.push_str(cell.as_str());
        wi = wi + 1;
    }
    t.push_str(part.as_str());
    t.push_str("<th rowspan=\"2\" class=\"th-target\">Target</th></tr>");
    t.push_str("<tr>");
    let mut part = String::new();
    let mut wi: usize = 0;
    while wi < groups
        invariant
            wi <= groups,
            show == shows_average(job@),
            part@ == group_headers(job@, groups as nat, wi as nat),
        decreases groups - wi,
    {
        let cell = group_header_text(job, show, wi == groups - 1);
        part.push_str(cell.as_str());
        wi = wi + 1;
    }
    t.push_str(part.as_str());
    t.push_str("</tr></thead><tbody>");
    t.push_str("<tr class=\"row-density\"><td class=\"td-step\">D</td>");
    let mut part = String::new();
    let mut wi: usize = 0;
    while wi < groups
        invariant
            wi <= groups,
            show == shows_average(job@),
            part@ == density_groups(job@, numbers@, groups as nat, wi as nat),
        decreases groups - wi,
    {
        let wn = weight_numbers_get(numbers, wi);
        let cell = density_group_text(job, show, wn, wi == groups - 1);
        part.push_str(cell.as_str());
        wi = wi + 1;
    }
    t.push_str(part.as_str());
    t.push_str("<td class=\"td-target\"></td></tr>");
    let mut part = String::new();
    let num_steps = job.step_labels.len();
    let mut si: usize = 0;
    while si < num_steps
        invariant
            num_steps == job.step_labels.len(),
            si <= num_steps,
            show == shows_average(job@),
            part@ == step_rows(job@, numbers@, views(targets@), groups as nat, si as nat),
        decreases num_steps - si,
    {
        let row = step_row_text(job, show, numbers, targets, groups, si);
        part.push_str(row.as_str());
        si = si + 1;
    }
    t.push_str(part.as_str());
    t.push_str("</tbody></table>");
    t
}


// ── Body and document ────────────────────────────────────────────────────────

/// One shape's section: its name as a label, then its table.
pub open spec fn section_html(j: JobModel, nums: ReportNumbersModel, si: int) -> Seq<char> {
    "<section class=\"shape-section\">\n<div class=\"shape-heading\"><span class=\"shape-label\">"@
        + escape_seq(shape_name(j.shapes[si].dot_type, j.shapes[si].dot_number))
        + "</span></div>\n"@ + table_html(
        j,
        j.shapes[si],
        shape_numbers_at(nums.shapes, si),
        nums.targets,
    ) + "\n</section>"@
}

/// The first `n` sections, separated by newlines.
pub open spec fn sections_html(j: JobModel, nums: ReportNumbersModel, n: nat) -> Seq<char>
    decreases n,
{
    if n == 0 {
        Seq::empty()
    } else if n == 1 {
        section_html(j, nums, 0)
    } else {
        sections_html(j, nums, (n - 1) as nat) + "\n"@ + section_html(j, nums, n - 1)
    }
}

/// Every shape's section inside the shapes container, or a note when the job
/// has no shapes.
pub open spec fn body_html(j: JobModel, nums: ReportNumbersModel) -> Seq<char> {
    if j.shapes.len() == 0 {
        "<p class=\"empty-note\">No data recorded.</p>"@
    } else {
        "<div class=\"shapes\">\n"@ + sections_html(j, nums, j.shapes.len()) + "\n</div>"@
    }
}

/// The orientation's name, as the page rule and the body class spell it.
pub open spec fn orientation_name(o: ReportOrientation) -> Seq<char> {
    match o {
        ReportOrientation::Landscape => "landscape"@,
        ReportOrientation::Portrait => "portrait"@,
    }
}

/// The page rule: an A4 page in the chosen orientation.
pub open spec fn page_rule(o: ReportOrientation) -> Seq<char> {
    "@page { size: A4 "@ + orientation_name(o) + "; margin: 0; }\n"@
}

fn orientation_text(o: ReportOrientation) -> (r: &'static str)
    ensures
        r@ == orientation_name(o),
{
    match o {
        ReportOrientation::Landscape => "landscape",
        ReportOrientation::Portrait => "portrait",
    }
}

fn page_rule_text(o: ReportOrientation) -> (r: String)
    ensures
        r@ == page_rule(o),
{
    let mut s = owned("@page { size: A4 ");
    s.push_str(orientation_text(o));
    s.push_str("; margin: 0; }\n");
    s
}

/// The document title: the job heading, or "Ink Density Report" without one.
pub open spec fn report_title(j: JobModel) -> Seq<char> {
    if j.heading().len() == 0 {
        "Ink Density Report"@
    } else {
        j.heading()
    }
}

/// Every job in a report fits the machine's column arithmetic.
pub open spec fn columns_fit(j: JobModel) -> bool {
    j.inks.len() + 2 <= usize::MAX
}

/// The report document: the style sheet with the page rule of `o`, the body
/// classed by `o`, the header and the shapes.
pub open spec fn report_html(j: JobModel, nums: ReportNumbersModel, o: ReportOrientation) -> Seq<char> {
    "<!DOCTYPE html>\n<html lang=\"en\">\n<head>\n<meta charset=\"UTF-8\">\n<title>"@
        + escape_seq(report_title(j)) + "</title>\n<style>"@ + CSS@ + page_rule(o)
        + "</style>\n</head>\n<body class=\""@ + orientation_name(o) + "\">\n<div class=\"no-print\">\n  <button onclick=\"window.print()\">Print / Save PDF</button>\n  <button onclick=\"window.close()\">Close</button>\n</div>\n"@
        + header_html(j) + "\n"@ + body_html(j, nums) + "\n</body>\n</html>"@
}

fn section_text(job: &JobConfig, nums: &ReportNumbers, si: usize) -> (r: String)
    requires
        si < job.shapes.len(),
        columns_fit(job@),
    ensures
        r@ == section_html(job@, nums@, si as int),
{
    let shape = &job.shapes[si];
    let empty_numbers = ShapeNumbers { weights: Vec::new() };
    let sn = shape_numbers_get(nums, si);
    let numbers: &ShapeNumbers = match sn {
        Some(x) => x,
        None => &empty_numbers,
    };
    assert(numbers@ == shape_numbers_at(nums@.shapes, si as int)) by {
        if sn is None {
            assert(numbers@.weights =~= Seq::<WeightNumbersModel>::empty());
        }
    }
    let mut s = owned(
        "<section class=\"shape-section\">\n<div class=\"shape-heading\"><span class=\"shape-label\">",
    );
    let name = shape.display_name();
    push_escaped(&mut s, name.as_str());
    s.push_str("</span></div>\n");
    let table = table_text(job, shape, numbers, &nums.targets);
    s.push_str(table.as_str());
    s.push_str("\n</section>");
    proof {
        assert(job@.shapes[si as int] == job.shapes@[si as int]@);
    }
    s
}

fn body_text(job: &JobConfig, nums: &ReportNumbers) -> (r: String)
    requires
        columns_fit(job@),
    ensures
        r@ == body_html(job@, nums@),
{
    let n = job.shapes.len();
    if n == 0 {
        return owned("<p class=\"empty-note\">No data recorded.</p>");
    }
    let mut s = String::new();
    let mut i: usize = 0;
    while i < n
        invariant
            n == job.shapes.len(),
            i <= n,
            columns_fit(job@),
            s@ == sections_html(job@, nums@, i as nat),
        decreases n - i,
    {
        let sec = section_text(job, nums, i);
        if i > 0 {
            s.push_str("\n");
            s.push_str(sec.as_str());
        } else {
            s.push_str(sec.as_str());
            proof { lemma_empty_add(sec@); }
        }
        i = i + 1;
    }
    let mut r = owned("<div class=\"shapes\">\n");
    r.push_str(s.as_str());
    r.push_str("\n</div>");
    r
}

/// The print-ready report of one job, laid out for `orientation`.
pub fn generate_report(job: &JobConfig, numbers: &ReportNumbers, orientation: ReportOrientation) -> (r: String)
    requires
        columns_fit(job@),
    ensures
        r@ == report_html(job@, numbers@, orientation),
{
    let h = job.heading();
    let title = if h.as_str().is_empty() {
        owned("Ink Density Report")
    } else {
        h
    };
    let mut s = owned("<!DOCTYPE html>\n<html lang=\"en\">\n<head>\n<meta charset=\"UTF-8\">\n<title>");
    push_escaped(&mut s, title.as_str());
    s.push_str("</title>\n<style>");
    s.push_str(CSS);
    let rule = page_rule_text(orientation);
    s.push_str(rule.as_str());
    s.push_str("</style>\n</head>\n<body class=\"");
    s.push_str(orientation_text(orientation));
    s.push_str(
        "\">\n<div class=\"no-print\">\n  <button onclick=\"window.print()\">Print / Save PDF</button>\n  <button onclick=\"window.close()\">Close</button>\n</div>\n",
    );
    let header = build_header(job);
    s.push_str(header.as_str());
    s.push_str("\n");
    let body = body_text(job, numbers);
    s.push_str(body.as_str());
    s.push_str("\n</body>\n</html>");
    s
}


// ── Combined multi-job report ────────────────────────────────────────────────

/// The header fields compared across the jobs of a combined report.
#[derive(Clone, Copy, Debug, PartialEq, Eq, Structural)]
pub enum HeaderField {
    Customer,
    JobName,
    PlateTech,
    EsxrNumber,
    PressSystem,
    PrintType,
    Date,
    SetNumber,
}

pub open spec fn field_text(j: JobModel, f: HeaderField) -> Seq<char> {
    match f {
        HeaderField::Customer => j.customer,
        HeaderField::JobName => j.job_name,
        HeaderField::PlateTech => j.plate_tech,
        HeaderField::EsxrNumber => j.esxr_number,
        HeaderField::PressSystem => j.press_system,
        HeaderField::PrintType => j.print_type,
        HeaderField::Date => j.date,
        HeaderField::SetNumber => j.set_number,
    }
}

pub open spec fn job_views(v: Seq<JobConfig>) -> Seq<JobModel> {
    v.map_values(|j: JobConfig| j@)
}

/// The field is non-empty in the first job and identical in every job.
pub open spec fn all_same_field(jobs: Seq<JobModel>, f: HeaderField) -> bool {
    &&& jobs.len() > 0
    &&& field_text(jobs[0], f).len() > 0
    &&& forall|i: int| 0 <= i < jobs.len() ==> field_text(#[trigger] jobs[i], f) == field_text(jobs[0], f)
}

pub open spec fn ink_names(inks: Seq<InkModel>) -> Seq<Seq<char>> {
    inks.map_values(|i: InkModel| i.name)
}

/// The ink names joined by `sep`.
pub open spec fn inks_text(j: JobModel, sep: Seq<char>) -> Seq<char> {
    join_seq(ink_names(j.inks), sep)
}

/// The jobs use the same ink list (compared as comma-joined names), and the
/// first job's list is not empty.
pub open spec fn all_same_inks(jobs: Seq<JobModel>) -> bool {
    &&& jobs.len() > 0
    &&& inks_text(jobs[0], ","@).len() > 0
    &&& forall|i: int| 0 <= i < jobs.len() ==> inks_text(#[trigger] jobs[i], ","@) == inks_text(jobs[0], ","@)
}

/// `v` when `keep` holds, "" otherwise.
pub open spec fn when(keep: bool, v: Seq<char>) -> Seq<char> {
    if keep {
        v
    } else {
        Seq::empty()
    }
}

/// The tags of the shared banner: the fields every job shares (customer,
/// the shared parts of Plate/Press, print type, date, set and the ink list),
/// and the number of jobs.
pub open spec fn banner_tags(jobs: Seq<JobModel>) -> Seq<char> {
    let first = jobs[0];
    when(all_same_field(jobs, HeaderField::Customer), tag("Customer"@, first.customer)) + tag(
        "Plate/Press"@,
        plate_press(
            when(all_same_field(jobs, HeaderField::PlateTech), first.plate_tech),
            when(all_same_field(jobs, HeaderField::PressSystem), first.press_system),
            when(all_same_field(jobs, HeaderField::EsxrNumber), first.esxr_number),
        ),
    ) + when(all_same_field(jobs, HeaderField::PrintType), tag("Print Type"@, first.print_type))
        + when(all_same_field(jobs, HeaderField::Date), tag("Date"@, first.date)) + when(
        all_same_field(jobs, HeaderField::SetNumber),
        tag("Set"@, first.set_number),
    ) + when(all_same_inks(jobs), tag("Inks"@, inks_text(first, ", "@))) + tag_html(
        "Jobs"@,
        decimal(jobs.len()),
    )
}

/// The shared banner: the shared job name as heading, then the shared tags.
pub open spec fn shared_banner(jobs: Seq<JobModel>) -> Seq<char> {
    "<header class=\"report-header shared-banner\"><div class=\"accent-bar\"></div><div class=\"header-inner\">"@
        + when(all_same_field(jobs, HeaderField::JobName), title_html(jobs[0].job_name))
        + "<div class=\"tag-row\">"@ + banner_tags(jobs) + "</div>"@ + "</div></header>"@
}

/// The tags of one job's own header: its job number, and the fields that are
/// not shared by every job.
pub open spec fn job_tags(jobs: Seq<JobModel>, j: JobModel) -> Seq<char> {
    tag("Job Number"@, j.job_number) + when(
        !all_same_field(jobs, HeaderField::Customer),
        tag("Customer"@, j.customer),
    ) + tag(
        "Plate/Press"@,
        plate_press(
            when(!all_same_field(jobs, HeaderField::PlateTech), j.plate_tech),
            when(!all_same_field(jobs, HeaderField::PressSystem), j.press_system),
            when(!all_same_field(jobs, HeaderField::EsxrNumber), j.esxr_number),
        ),
    ) + when(!all_same_field(jobs, HeaderField::PrintType), tag("Print Type"@, j.print_type)) + when(
        !all_same_field(jobs, HeaderField::Date),
        tag("Date"@, j.date),
    ) + when(!all_same_field(jobs, HeaderField::SetNumber), tag("Set"@, j.set_number))
}

/// One job's own header: the job name when it is not shared, then its own
/// tags; nothing when there is nothing of its own to show.
pub open spec fn job_header(jobs: Seq<JobModel>, j: JobModel) -> Seq<char> {
    let title = when(!all_same_field(jobs, HeaderField::JobName), title_html(j.job_name));
    let tags = job_tags(jobs, j);
    if title.len() == 0 && tags.len() == 0 {
        Seq::empty()
    } else {
        "<header class=\"report-header\"><div class=\"accent-bar\"></div><div class=\"header-inner\">"@
            + title + wrapped(tags, "<div class=\"tag-row\">"@, "</div>"@) + "</div></header>"@
    }
}

/// The numbers of the job at `i`, or none past the end.
pub open spec fn numbers_at(ns: Seq<ReportNumbersModel>, i: int) -> ReportNumbersModel {
    if 0 <= i < ns.len() {
        ns[i]
    } else {
        ReportNumbersModel { shapes: Seq::empty(), targets: Seq::empty() }
    }
}

pub open spec fn job_section(jobs: Seq<JobModel>, ns: Seq<ReportNumbersModel>, i: int) -> Seq<char> {
    "<div class=\"job-section\">"@ + job_header(jobs, jobs[i]) + body_html(jobs[i], numbers_at(ns, i))
        + "</div>"@
}

pub open spec fn job_sections(jobs: Seq<JobModel>, ns: Seq<ReportNumbersModel>, n: nat) -> Seq<char>
    decreases n,
{
    if n == 0 {
        Seq::empty()
    } else {
        job_sections(jobs, ns, (n - 1) as nat) + job_section(jobs, ns, n - 1)
    }
}

pub open spec fn numbers_views(v: Seq<ReportNumbers>) -> Seq<ReportNumbersModel> {
    v.map_values(|n: ReportNumbers| n@)
}

/// One document holding every job's report: a shared banner with the fields
/// common to all jobs, then each job's own header and tables.
pub open spec fn comparison_html(jobs: Seq<JobModel>, ns: Seq<ReportNumbersModel>, o: ReportOrientation) -> Seq<
    char,
> {
    if jobs.len() == 0 {
        "<html><body><p>No jobs provided.</p></body></html>"@
    } else {
        "<!DOCTYPE html>\n<html lang=\"en\">\n<head>\n<meta charset=\"UTF-8\">\n<title>"@
            + escape_seq("Combined Report ("@ + decimal(jobs.len()) + " jobs)"@)
            + "</title>\n<style>"@ + CSS@ + page_rule(o) + "</style>\n</head>\n<body class=\"combined "@
            + orientation_name(o)
            + "\">\n<div class=\"no-print\">\n  <button onclick=\"window.print()\">Print / Save PDF</button>\n  <button onclick=\"window.close()\">Close</button>\n</div>\n"@
            + shared_banner(jobs) + "\n"@ + job_sections(jobs, ns, jobs.len())
            + "\n</body>\n</html>"@
    }
}

fn field_of(job: &JobConfig, f: HeaderField) -> (r: &str)
    ensures
        r@ == field_text(job@, f),
{
    match f {
        HeaderField::Customer => job.customer.as_str(),
        HeaderField::JobName => job.job_name.as_str(),
        HeaderField::PlateTech => job.plate_tech.as_str(),
        HeaderField::EsxrNumber => job.esxr_number.as_str(),
        HeaderField::PressSystem => job.press_system.as_str(),
        HeaderField::PrintType => job.print_type.as_str(),
        HeaderField::Date => job.date.as_str(),
        HeaderField::SetNumber => job.set_number.as_str(),
    }
}

/// Returns true if the field is non-empty and identical across every job.
fn all_same(jobs: &[JobConfig], f: HeaderField) -> (r: bool)
    ensures
        r == all_same_field(job_views(jobs@), f),
{
    if jobs.len() == 0 {
        return false;
    }
    let first = field_of(&jobs[0], f);
    if first.is_empty() {
        return false;
    }
    let mut i: usize = 1;
    while i < jobs.len()
        invariant
            1 <= i <= jobs.len(),
            first@ == field_text(jobs@[0]@, f),
            forall|k: int| 0 <= k < i ==> field_text(#[trigger] jobs@[k]@, f) == first@,
        decreases jobs.len() - i,
    {
        if !crate::text::str_eq(field_of(&jobs[i], f), first) {
            assert(job_views(jobs@)[i as int] == jobs@[i as int]@);
            return false;
        }
        i = i + 1;
    }
    assert forall|k: int| 0 <= k < jobs.len() implies field_text(#[trigger] job_views(jobs@)[k], f)
        == field_text(job_views(jobs@)[0], f) by {
        assert(job_views(jobs@)[k] == jobs@[k]@);
    }
    true
}

/// The job's ink names joined by `sep`.
fn inks_joined(job: &JobConfig, sep: &str) -> (r: String)
    ensures
        r@ == inks_text(job@, sep@),
{
    let mut s = String::new();
    let n = job.inks.len();
    let mut i: usize = 0;
    while i < n
        invariant
            n == job.inks.len(),
            i <= n,
            s@ == join_seq(ink_names(job@.inks).take(i as int), sep@),
        decreases n - i,
    {
        let ghost names = ink_names(job@.inks);
        assert(names.take(i + 1).drop_last() =~= names.take(i as int));
        assert(names[i as int] == job.inks@[i as int].name@);
        if i > 0 {
            s.push_str(sep);
            s.push_str(job.inks[i].name.as_str());
        } else {
            s.push_str(job.inks[i].name.as_str());
            proof { lemma_empty_add(job.inks@[i as int].name@); }
        }
        i = i + 1;
    }
    assert(ink_names(job@.inks).take(n as int) =~= ink_names(job@.inks));
    s
}

fn all_same_ink_list(jobs: &[JobConfig]) -> (r: bool)
    ensures
        r == all_same_inks(job_views(jobs@)),
{
    if jobs.len() == 0 {
        return false;
    }
    let first = inks_joined(&jobs[0], ",");
    if first.as_str().is_empty() {
        return false;
    }
    let mut i: usize = 1;
    while i < jobs.len()
        invariant
            1 <= i <= jobs.len(),
            first@ == inks_text(jobs@[0]@, ","@),
            forall|k: int| 0 <= k < i ==> inks_text(#[trigger] jobs@[k]@, ","@) == first@,
        decreases jobs.len() - i,
    {
        let other = inks_joined(&jobs[i], ",");
        if other != first {
            assert(job_views(jobs@)[i as int] == jobs@[i as int]@);
            return false;
        }
        i = i + 1;
    }
    assert forall|k: int| 0 <= k < jobs.len() implies inks_text(#[trigger] job_views(jobs@)[k], ","@)
        == inks_text(job_views(jobs@)[0], ","@) by {
        assert(job_views(jobs@)[k] == jobs@[k]@);
    }
    true
}

/// Which header fields are shared by every job.
struct Shared {
    customer: bool,
    job_name: bool,
    plate_tech: bool,
    esxr_number: bool,
    press_system: bool,
    print_type: bool,
    date: bool,
    set_number: bool,
    inks: bool,
}

spec fn shared_matches(s: Shared, jobs: Seq<JobModel>) -> bool {
    &&& s.customer == all_same_field(jobs, HeaderField::Customer)
    &&& s.job_name == all_same_field(jobs, HeaderField::JobName)
    &&& s.plate_tech == all_same_field(jobs, HeaderField::PlateTech)
    &&& s.esxr_number == all_same_field(jobs, HeaderField::EsxrNumber)
    &&& s.press_system == all_same_field(jobs, HeaderField::PressSystem)
    &&& s.print_type == all_same_field(jobs, HeaderField::PrintType)
    &&& s.date == all_same_field(jobs, HeaderField::Date)
    &&& s.set_number == all_same_field(jobs, HeaderField::SetNumber)
    &&& s.inks == all_same_inks(jobs)
}

fn keep_or_empty(keep: bool, v: &str) -> (r: &str)
    ensures
        r@ == when(keep, v@),
{
    if keep {
        v
    } else {
        proof { reveal_strlit(""); }
        ""
    }
}

fn wrapped_escaped_text(s: &str, open: &str, close: &str) -> (r: String)
    ensures
        r@ == wrapped(escape_seq(s@), open@, close@),
{
    let mut r = String::new();
    push_wrapped_escaped(&mut r, s, open, close);
    proof { lemma_empty_add(wrapped(escape_seq(s@), open@, close@)); }
    r
}

fn when_text(keep: bool, v: String) -> (r: String)
    ensures
        r@ == when(keep, v@),
{
    if keep {
        v
    } else {
        String::new()
    }
}

fn banner_tags_text(jobs: &[JobConfig], sh: &Shared) -> (r: String)
    requires
        jobs.len() > 0,
        shared_matches(*sh, job_views(jobs@)),
    ensures
        r@ == banner_tags(job_views(jobs@)),
{
    let first = &jobs[0];
    assert(job_views(jobs@)[0] == first@);
    let mut s = String::new();
    push_tag_if(&mut s, sh.customer, "Customer", first.customer.as_str());
    proof {
        lemma_empty_add(when(sh.customer, tag("Customer"@, first@.customer)));
    }
    let pp = plate_press_text(
        keep_or_empty(sh.plate_tech, first.plate_tech.as_str()),
        keep_or_empty(sh.press_system, first.press_system.as_str()),
        keep_or_empty(sh.esxr_number, first.esxr_number.as_str()),
    );
    push_tag_if(&mut s, true, "Plate/Press", pp.as_str());
    push_tag_if(&mut s, sh.print_type, "Print Type", first.print_type.as_str());
    push_tag_if(&mut s, sh.date, "Date", first.date.as_str());
    push_tag_if(&mut s, sh.set_number, "Set", first.set_number.as_str());
    let names = inks_joined(first, ", ");
    push_tag_if(&mut s, sh.inks, "Inks", names.as_str());
    let mut count = String::new();
    push_decimal(&mut count, jobs.len() as u128);
    proof {
        lemma_empty_add(decimal(jobs.len() as nat));
    }
    push_tag_html(&mut s, "Jobs", count.as_str());
    s
}

fn shared_banner_text(jobs: &[JobConfig], sh: &Shared) -> (r: String)
    requires
        jobs.len() > 0,
        shared_matches(*sh, job_views(jobs@)),
    ensures
        r@ == shared_banner(job_views(jobs@)),
{
    let first = &jobs[0];
    assert(job_views(jobs@)[0] == first@);
    let mut b = owned(
        "<header class=\"report-header shared-banner\"><div class=\"accent-bar\"></div><div class=\"header-inner\">",
    );
    let title = when_text(
        sh.job_name,
        wrapped_escaped_text(first.job_name.as_str(), "<h1 class=\"job-title\">", "</h1>"),
    );
    b.push_str(title.as_str());
    b.push_str("<div class=\"tag-row\">");
    let tags = banner_tags_text(jobs, sh);
    b.push_str(tags.as_str());
    b.push_str("</div>");
    b.push_str("</div></header>");
    b
}

fn job_tags_text(jobs: &[JobConfig], sh: &Shared, job: &JobConfig) -> (r: String)
    requires
        shared_matches(*sh, job_views(jobs@)),
    ensures
        r@ == job_tags(job_views(jobs@), job@),
{
    let mut s = String::new();
    push_tag_if(&mut s, true, "Job Number", job.job_number.as_str());
    proof {
        lemma_empty_add(tag("Job Number"@, job@.job_number));
    }
    push_tag_if(&mut s, !sh.customer, "Customer", job.customer.as_str());
    let pp = plate_press_text(
        keep_or_empty(!sh.plate_tech, job.plate_tech.as_str()),
        keep_or_empty(!sh.press_system, job.press_system.as_str()),
        keep_or_empty(!sh.esxr_number, job.esxr_number.as_str()),
    );
    push_tag_if(&mut s, true, "Plate/Press", pp.as_str());
    push_tag_if(&mut s, !sh.print_type, "Print Type", job.print_type.as_str());
    push_tag_if(&mut s, !sh.date, "Date", job.date.as_str());
    push_tag_if(&mut s, !sh.set_number, "Set", job.set_number.as_str());
    s
}

fn job_header_text(jobs: &[JobConfig], sh: &Shared, job: &JobConfig) -> (r: String)
    requires
        shared_matches(*sh, job_views(jobs@)),
    ensures
        r@ == job_header(job_views(jobs@), job@),
{
    let title = when_text(
        !sh.job_name,
        wrapped_escaped_text(job.job_name.as_str(), "<h1 class=\"job-title\">", "</h1>"),
    );
    let tags = job_tags_text(jobs, sh, job);
    if title.as_str().is_empty() && tags.as_str().is_empty() {
        return String::new();
    }
    let mut b = owned(
        "<header class=\"report-header\"><div class=\"accent-bar\"></div><div class=\"header-inner\">",
    );
    b.push_str(title.as_str());
    push_wrapped(&mut b, tags.as_str(), "<div class=\"tag-row\">", "</div>");
    b.push_str("</div></header>");
    b
}

/// Which header fields every job shares.
fn shared_fields(jobs: &[JobConfig]) -> (sh: Shared)
    ensures
        shared_matches(sh, job_views(jobs@)),
{
    Shared {
        customer: all_same(jobs, HeaderField::Customer),
        job_name: all_same(jobs, HeaderField::JobName),
        plate_tech: all_same(jobs, HeaderField::PlateTech),
        esxr_number: all_same(jobs, HeaderField::EsxrNumber),
        press_system: all_same(jobs, HeaderField::PressSystem),
        print_type: all_same(jobs, HeaderField::PrintType),
        date: all_same(jobs, HeaderField::Date),
        set_number: all_same(jobs, HeaderField::SetNumber),
        inks: all_same_ink_list(jobs),
    }
}

/// One job's section of the combined document: its header and its tables.
fn job_section_text(jobs: &[JobConfig], sh: &Shared, numbers: &[ReportNumbers], i: usize) -> (r: String)
    requires
        i < jobs.len(),
        shared_matches(*sh, job_views(jobs@)),
        columns_fit(jobs@[i as int]@),
    ensures
        r@ == job_section(job_views(jobs@), numbers_views(numbers@), i as int),
{
    let job = &jobs[i];
    assert(job_views(jobs@)[i as int] == job@);
    let mut sec = owned("<div class=\"job-section\">");
    let header = job_header_text(jobs, sh, job);
    sec.push_str(header.as_str());
    let body = if i < numbers.len() {
        assert(numbers_views(numbers@)[i as int] == numbers@[i as int]@);
        body_text(job, &numbers[i])
    } else {
        let empty = ReportNumbers { shapes: Vec::new(), targets: Vec::new() };
        assert(empty@.shapes =~= Seq::<ShapeNumbersModel>::empty());
        assert(empty@.targets =~= Seq::<Seq<char>>::empty());
        body_text(job, &empty)
    };
    sec.push_str(body.as_str());
    sec.push_str("</div>");
    sec
}

fn comparison_document(count: usize, banner: &str, sections: &str, o: ReportOrientation) -> (r: String)
    ensures
        r@ == "<!DOCTYPE html>\n<html lang=\"en\">\n<head>\n<meta charset=\"UTF-8\">\n<title>"@
            + escape_seq("Combined Report ("@ + decimal(count as nat) + " jobs)"@)
            + "</title>\n<style>"@ + CSS@ + page_rule(o) + "</style>\n</head>\n<body class=\"combined "@
            + orientation_name(o) + "\">\n<div class=\"no-print\">\n  <button onclick=\"window.print()\">Print / Save PDF</button>\n  <button onclick=\"window.close()\">Close</button>\n</div>\n"@
            + banner@ + "\n"@ + sections@ + "\n</body>\n</html>"@,
{
    let mut title = owned("Combined Report (");
    push_decimal(&mut title, count as u128);
    title.push_str(" jobs)");
    let mut s = owned("<!DOCTYPE html>\n<html lang=\"en\">\n<head>\n<meta charset=\"UTF-8\">\n<title>");
    push_escaped(&mut s, title.as_str());
    s.push_str("</title>\n<style>");
    s.push_str(CSS);
    let rule = page_rule_text(o);
    s.push_str(rule.as_str());
    s.push_str("</style>\n</head>\n<body class=\"combined ");
    s.push_str(orientation_text(o));
    s.push_str(
        "\">\n<div class=\"no-print\">\n  <button onclick=\"window.print()\">Print / Save PDF</button>\n  <button onclick=\"window.close()\">Close</button>\n</div>\n",
    );
    s.push_str(banner);
    s.push_str("\n");
    s.push_str(sections);
    s.push_str("\n</body>\n</html>");
    s
}

/// Generate a single print-ready HTML document containing the full report for
/// every job.  Fields identical across all jobs are shown once in a shared
/// banner at the top; the rest appear in each job's own header.  Each job
/// after the first starts on a new printed page.
#[verifier::rlimit(80)]
pub fn generate_comparison_report(
    jobs: &[JobConfig],
    numbers: &[ReportNumbers],
    orientation: ReportOrientation,
) -> (r: String)
    requires
        forall|i: int| 0 <= i < jobs@.len() ==> columns_fit(#[trigger] jobs@[i]@),
    ensures
        r@ == comparison_html(job_views(jobs@), numbers_views(numbers@), orientation),
{
    if jobs.len() == 0 {
        return owned("<html><body><p>No jobs provided.</p></body></html>");
    }
    let sh = shared_fields(jobs);
    let banner = shared_banner_text(jobs, &sh);
    let mut sections = String::new();
    let mut i: usize = 0;
    while i < jobs.len()
        invariant
            i <= jobs.len(),
            shared_matches(sh, job_views(jobs@)),
            forall|k: int| 0 <= k < jobs@.len() ==> columns_fit(#[trigger] jobs@[k]@),
            sections@ == job_sections(job_views(jobs@), numbers_views(numbers@), i as nat),
        decreases jobs.len() - i,
    {
        assert(columns_fit(jobs@[i as int]@));
        let sec = job_section_text(jobs, &sh, numbers, i);
        sections.push_str(sec.as_str());
        i = i + 1;
    }
    comparison_document(jobs.len(), banner.as_str(), sections.as_str(), orientation)
}

// ── Laws ─────────────────────────────────────────────────────────────────────

/// The texts of `parts`, one after another.
pub open spec fn concat_all(parts: Seq<Seq<char>>) -> Seq<char>
    decreases parts.len(),
{
    if parts.len() == 0 {
        Seq::empty()
    } else {
        concat_all(parts.drop_last()) + parts.last()
    }
}

proof fn lemma_step_groups_in_order(j: JobModel, sn: ShapeNumbersModel, si: int, groups: nat, n: nat)
    ensures
        step_groups(j, sn, si, groups, n) == concat_all(
            Seq::new(n, |wi: int|
                step_group(
                    j,
                    j.step_labels[si],
                    row_at(weight_numbers_at(sn.weights, wi).rows, si),
                    wi == groups - 1,
                )),
        ),
    decreases n,
{
    if n > 0 {
        lemma_step_groups_in_order(j, sn, si, groups, (n - 1) as nat);
        let parts = Seq::new(n, |wi: int|
                step_group(
                    j,
                    j.step_labels[si],
                    row_at(weight_numbers_at(sn.weights, wi).rows, si),
                    wi == groups - 1,
                ));
        assert(parts.drop_last() =~= Seq::new(
            (n - 1) as nat,
            |wi: int|
                step_group(
                    j,
                    j.step_labels[si],
                    row_at(weight_numbers_at(sn.weights, wi).rows, si),
                    wi == groups - 1,
                ),
        ));
    }
}

/// Each LPI reading has its own column group: the row of step `si` holds the
/// step label, then, for every reading `wi` in order, the cells of row `si` of
/// reading `wi`'s numbers, then the step's target.
pub proof fn lemma_step_row_groups_follow_readings(
    j: JobModel,
    sn: ShapeNumbersModel,
    targets: Seq<Seq<char>>,
    groups: nat,
    si: int,
)
    ensures
        step_row(j, sn, targets, groups, si) == "<tr>"@ + "<td class=\"td-step\">"@ + escape_seq(
            j.step_labels[si],
        ) + "%</td>"@ + concat_all(
            Seq::new(groups, |wi: int|
                step_group(
                    j,
                    j.step_labels[si],
                    row_at(weight_numbers_at(sn.weights, wi).rows, si),
                    wi == groups - 1,
                )),
        ) + "<td class=\"td-target\">"@ + text_at(targets, si) + "</td>"@ + "</tr>"@,
{
    lemma_step_groups_in_order(j, sn, si, groups, groups);
}

/// `j` with header field `f` left empty.
pub open spec fn without_field(j: JobModel, f: HeaderField) -> JobModel {
    match f {
        HeaderField::Customer => JobModel { customer: Seq::empty(), ..j },
        HeaderField::JobName => JobModel { job_name: Seq::empty(), ..j },
        HeaderField::PlateTech => JobModel { plate_tech: Seq::empty(), ..j },
        HeaderField::EsxrNumber => JobModel { esxr_number: Seq::empty(), ..j },
        HeaderField::PressSystem => JobModel { press_system: Seq::empty(), ..j },
        HeaderField::PrintType => JobModel { print_type: Seq::empty(), ..j },
        HeaderField::Date => JobModel { date: Seq::empty(), ..j },
        HeaderField::SetNumber => JobModel { set_number: Seq::empty(), ..j },
    }
}

/// A header field that is filled in and identical in every job is shared:
/// the banner shows it, no job header repeats it.
pub proof fn lemma_equal_field_is_shared(jobs: Seq<JobModel>, f: HeaderField)
    requires
        jobs.len() > 0,
        field_text(jobs[0], f).len() > 0,
        forall|i: int, k: int|
            0 <= i < jobs.len() && 0 <= k < jobs.len() ==> field_text(#[trigger] jobs[i], f)
                == field_text(#[trigger] jobs[k], f),
    ensures
        all_same_field(jobs, f),
{
    assert forall|i: int| 0 <= i < jobs.len() implies field_text(#[trigger] jobs[i], f) == field_text(
        jobs[0],
        f,
    ) by {
        assert(field_text(jobs[i], f) == field_text(jobs[0], f));
    }
}

proof fn lemma_clearing_keeps_other_field(jobs: Seq<JobModel>, f: HeaderField, g: HeaderField)
    requires
        g != f,
    ensures
        all_same_field(jobs.map_values(|j: JobModel| without_field(j, f)), g) == all_same_field(jobs, g),
{
    let cleared = jobs.map_values(|j: JobModel| without_field(j, f));
    assert forall|m: int| 0 <= m < jobs.len() implies field_text(#[trigger] cleared[m], g) == field_text(
        jobs[m],
        g,
    ) by {}
    if all_same_field(jobs, g) {
        assert forall|m: int| 0 <= m < cleared.len() implies field_text(#[trigger] cleared[m], g)
            == field_text(cleared[0], g) by {
            assert(field_text(jobs[m], g) == field_text(jobs[0], g));
        }
    }
    if all_same_field(cleared, g) {
        assert forall|m: int| 0 <= m < jobs.len() implies field_text(#[trigger] jobs[m], g)
            == field_text(jobs[0], g) by {
            assert(field_text(cleared[m], g) == field_text(cleared[0], g));
        }
    }
}

proof fn lemma_clearing_keeps_inks(jobs: Seq<JobModel>, f: HeaderField)
    ensures
        all_same_inks(jobs.map_values(|j: JobModel| without_field(j, f))) == all_same_inks(jobs),
{
    let cleared = jobs.map_values(|j: JobModel| without_field(j, f));
    assert forall|m: int| 0 <= m < jobs.len() implies inks_text(#[trigger] cleared[m], ","@) == inks_text(
        jobs[m],
        ","@,
    ) by {}
    if all_same_inks(jobs) {
        assert forall|m: int| 0 <= m < cleared.len() implies inks_text(#[trigger] cleared[m], ","@)
            == inks_text(cleared[0], ","@) by {
            assert(inks_text(jobs[m], ","@) == inks_text(jobs[0], ","@));
        }
    }
    if all_same_inks(cleared) {
        assert forall|m: int| 0 <= m < jobs.len() implies inks_text(#[trigger] jobs[m], ","@)
            == inks_text(jobs[0], ","@) by {
            assert(inks_text(cleared[m], ","@) == inks_text(cleared[0], ","@));
        }
    }
}

proof fn lemma_banner_ignores_unshared(jobs: Seq<JobModel>, f: HeaderField)
    requires
        jobs.len() > 0,
        !all_same_field(jobs, f),
    ensures
        shared_banner(jobs) == shared_banner(jobs.map_values(|j: JobModel| without_field(j, f))),
{
    let cleared = jobs.map_values(|j: JobModel| without_field(j, f));
    assert(!all_same_field(cleared, f));
    lemma_clearing_keeps_inks(jobs, f);
    if f != HeaderField::Customer { lemma_clearing_keeps_other_field(jobs, f, HeaderField::Customer); }
    if f != HeaderField::JobName { lemma_clearing_keeps_other_field(jobs, f, HeaderField::JobName); }
    if f != HeaderField::PlateTech { lemma_clearing_keeps_other_field(jobs, f, HeaderField::PlateTech); }
    if f != HeaderField::EsxrNumber { lemma_clearing_keeps_other_field(jobs, f, HeaderField::EsxrNumber); }
    if f != HeaderField::PressSystem { lemma_clearing_keeps_other_field(jobs, f, HeaderField::PressSystem); }
    if f != HeaderField::PrintType { lemma_clearing_keeps_other_field(jobs, f, HeaderField::PrintType); }
    if f != HeaderField::Date { lemma_clearing_keeps_other_field(jobs, f, HeaderField::Date); }
    if f != HeaderField::SetNumber { lemma_clearing_keeps_other_field(jobs, f, HeaderField::SetNumber); }
    assert(cleared[0] == without_field(jobs[0], f));
    assert(inks_text(cleared[0], ", "@) == inks_text(jobs[0], ", "@));
}

/// When two jobs differ in a header field, the shared banner leaves that field
/// out (it reads the same whatever the jobs hold there), and every job's own
/// header shows that job's value of it.
pub proof fn lemma_differing_field_stays_with_each_job(jobs: Seq<JobModel>, f: HeaderField, i: int, k: int)
    requires
        0 <= i < jobs.len(),
        0 <= k < jobs.len(),
        field_text(jobs[i], f) != field_text(jobs[k], f),
    ensures
        !all_same_field(jobs, f),
        shared_banner(jobs) == shared_banner(jobs.map_values(|j: JobModel| without_field(j, f))),
        f == HeaderField::Customer ==> exists|pre: Seq<char>, post: Seq<char>|
            job_tags(jobs, jobs[i]) == pre + tag("Customer"@, jobs[i].customer) + post,
        f == HeaderField::PrintType ==> exists|pre: Seq<char>, post: Seq<char>|
            job_tags(jobs, jobs[i]) == pre + tag("Print Type"@, jobs[i].print_type) + post,
        f == HeaderField::Date ==> exists|pre: Seq<char>, post: Seq<char>|
            job_tags(jobs, jobs[i]) == pre + tag("Date"@, jobs[i].date) + post,
        f == HeaderField::SetNumber ==> exists|pre: Seq<char>, post: Seq<char>|
            job_tags(jobs, jobs[i]) == pre + tag("Set"@, jobs[i].set_number) + post,
{
    assert(!all_same_field(jobs, f)) by {
        if all_same_field(jobs, f) {
            assert(field_text(jobs[i], f) == field_text(jobs[0], f));
            assert(field_text(jobs[k], f) == field_text(jobs[0], f));
        }
    }
    lemma_banner_ignores_unshared(jobs, f);
    let j = jobs[i];
    let a = tag("Job Number"@, j.job_number);
    let pp = tag(
        "Plate/Press"@,
        plate_press(
            when(!all_same_field(jobs, HeaderField::PlateTech), j.plate_tech),
            when(!all_same_field(jobs, HeaderField::PressSystem), j.press_system),
            when(!all_same_field(jobs, HeaderField::EsxrNumber), j.esxr_number),
        ),
    );
    let c = when(!all_same_field(jobs, HeaderField::Customer), tag("Customer"@, j.customer));
    let pt = when(!all_same_field(jobs, HeaderField::PrintType), tag("Print Type"@, j.print_type));
    let d = when(!all_same_field(jobs, HeaderField::Date), tag("Date"@, j.date));
    let st = when(!all_same_field(jobs, HeaderField::SetNumber), tag("Set"@, j.set_number));
    assert(job_tags(jobs, j) == a + c + pp + pt + d + st);
    if f == HeaderField::Customer {
        lemma_assoc(a + c, pp + pt + d, st);
        assert(job_tags(jobs, j) == a + c + (pp + pt + d + st));
    }
    if f == HeaderField::PrintType {
        assert(job_tags(jobs, j) == (a + c + pp) + pt + (d + st));
    }
    if f == HeaderField::Date {
        assert(job_tags(jobs, j) == (a + c + pp + pt) + d + st);
    }
    if f == HeaderField::SetNumber {
        lemma_add_empty(a + c + pp + pt + d + st);
        assert(job_tags(jobs, j) == (a + c + pp + pt + d) + st + Seq::<char>::empty());
    }
}

} // verus!


