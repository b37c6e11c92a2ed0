//! Core data model: a job is a set of metadata strings, the active inks, the
//! step labels in scan order, and the dot shapes with their LPI readings.
//!
//! A density reading is held as the IEEE-754 binary64 bit pattern of the value
//! the instrument reported (`Reading`); `0` is the pattern of `0.0`, which marks
//! an empty cell.  The library moves readings around but never does arithmetic
//! on them.

use vstd::prelude::*;
use crate::text::{join_non_empty, join_seq, keep_non_empty, owned, views};

verus! {

/// Bit pattern of one recorded density value; `0` is an empty cell.
pub type Reading = u64;

// ── Ink ──────────────────────────────────────────────────────────────────────

#[derive(Clone, Copy, Debug, PartialEq, Eq, Structural)]
pub enum InkKind {
    Cyan,
    Magenta,
    Yellow,
    Black,
    White,
    Spot,
}

impl InkKind {
    /// The process colours: the kinds that enter the CMYK deviation average.
    pub open spec fn is_process(self) -> bool {
        self is Cyan || self is Magenta || self is Yellow || self is Black
    }

    /// Whether this ink kind is included in the CMYK deviation average.
    pub fn in_deviation_average(&self) -> (b: bool)
        ensures
            b == self.is_process(),
    {
        match self {
            InkKind::Cyan | InkKind::Magenta | InkKind::Yellow | InkKind::Black => true,
            _ => false,
        }
    }
}

pub struct InkModel {
    pub kind: InkKind,
    pub name: Seq<char>,
}

#[derive(Clone, Debug)]
pub struct Ink {
    pub kind: InkKind,
    /// Display name: "C", "M", "Y", "K", "W", "PMS 485", etc.
    pub name: String,
}

impl View for Ink {
    type V = InkModel;

    open spec fn view(&self) -> InkModel {
        InkModel { kind: self.kind, name: self.name@ }
    }
}

impl Ink {
    pub fn cyan() -> (r: Self)
        ensures
            r@ == (InkModel { kind: InkKind::Cyan, name: "C"@ }),
    {
        Ink { kind: InkKind::Cyan, name: owned("C") }
    }

    pub fn magenta() -> (r: Self)
        ensures
            r@ == (InkModel { kind: InkKind::Magenta, name: "M"@ }),
    {
        Ink { kind: InkKind::Magenta, name: owned("M") }
    }

    pub fn yellow() -> (r: Self)
        ensures
            r@ == (InkModel { kind: InkKind::Yellow, name: "Y"@ }),
    {
        Ink { kind: InkKind::Yellow, name: owned("Y") }
    }

    pub fn black() -> (r: Self)
        ensures
            r@ == (InkModel { kind: InkKind::Black, name: "K"@ }),
    {
        Ink { kind: InkKind::Black, name: owned("K") }
    }

    pub fn white() -> (r: Self)
        ensures
            r@ == (InkModel { kind: InkKind::White, name: "W"@ }),
    {
        Ink { kind: InkKind::White, name: owned("W") }
    }

    pub fn spot(name: &str) -> (r: Self)
        ensures
            r@ == (InkModel { kind: InkKind::Spot, name: name@ }),
    {
        Ink { kind: InkKind::Spot, name: owned(name) }
    }

    /// A copy of this ink.
    pub fn duplicate(&self) -> (r: Self)
        ensures
            r@ == self@,
    {
        Ink { kind: self.kind, name: self.name.clone() }
    }
}

/// The default ink set: C, M, Y, K.
pub open spec fn cmyk() -> Seq<InkModel> {
    seq![
        InkModel { kind: InkKind::Cyan, name: "C"@ },
        InkModel { kind: InkKind::Magenta, name: "M"@ },
        InkModel { kind: InkKind::Yellow, name: "Y"@ },
        InkModel { kind: InkKind::Black, name: "K"@ },
    ]
}

pub open spec fn ink_views(v: Seq<Ink>) -> Seq<InkModel> {
    v.map_values(|i: Ink| i@)
}

/// Default ink set: CMYK.
pub fn default_inks() -> (r: Vec<Ink>)
    ensures
        ink_views(r@) == cmyk(),
{
    let mut v = Vec::new();
    v.push(Ink::cyan());
    v.push(Ink::magenta());
    v.push(Ink::yellow());
    v.push(Ink::black());
    assert(ink_views(v@) =~= cmyk());
    v
}

// ── Readings ─────────────────────────────────────────────────────────────────

/// Whether a reading is a finite number (its exponent bits are not all set).
pub open spec fn is_finite(r: Reading) -> bool {
    (r >> 52u64) & 0x7ffu64 != 0x7ffu64
}

/// `s` cut to `len` values, or extended with empty readings up to `len`.
pub open spec fn fit(s: Seq<Reading>, len: nat) -> Seq<Reading> {
    Seq::new(len, |i: int| if i < s.len() { s[i] } else { 0u64 })
}

/// `len` empty readings.
pub open spec fn zeros(len: nat) -> Seq<Reading> {
    Seq::new(len, |i: int| 0u64)
}

/// Pads or trims a list of readings to exactly `len` values.
pub fn pad_readings(v: &Vec<Reading>, len: usize) -> (r: Vec<Reading>)
    ensures
        r@ == fit(v@, len as nat),
{
    let mut out: Vec<Reading> = Vec::new();
    let mut i: usize = 0;
    while i < len
        invariant
            i <= len,
            out@ == fit(v@, len as nat).take(i as int),
        decreases len - i,
    {
        if i < v.len() {
            out.push(v[i]);
        } else {
            out.push(0);
        }
        i = i + 1;
        assert(out@ =~= fit(v@, len as nat).take(i as int));
    }
    assert(out@ =~= fit(v@, len as nat));
    out
}

// ── Weight (LPI reading) ─────────────────────────────────────────────────────

pub struct WeightModel {
    pub lpi: Seq<char>,
    pub density: Seq<Reading>,
    pub steps: Seq<Seq<Reading>>,
}

/// One LPI reading: max density + per-step values.
/// Column count matches the number of inks in the parent `JobConfig`.
#[derive(Clone, Debug)]
pub struct WeightData {
    /// Lines-per-inch label, e.g. "120#", "150#", "200#".
    pub lpi: String,
    /// Max density per ink: one value per ink channel.
    pub density: Vec<Reading>,
    /// Step readings: `steps[step_idx][ink_idx]`.
    pub steps: Vec<Vec<Reading>>,
}

pub open spec fn row_views(v: Seq<Vec<Reading>>) -> Seq<Seq<Reading>> {
    v.map_values(|r: Vec<Reading>| r@)
}

pub proof fn lemma_row_views_push(s: Seq<Vec<Reading>>, r: Vec<Reading>)
    ensures
        row_views(s.push(r)) == row_views(s).push(r@),
{
    assert(row_views(s.push(r)) =~= row_views(s).push(r@));
}

impl View for WeightData {
    type V = WeightModel;

    open spec fn view(&self) -> WeightModel {
        WeightModel { lpi: self.lpi@, density: self.density@, steps: row_views(self.steps@) }
    }
}

impl WeightModel {
    /// Every row, and the density row, has one value per ink; there is one row per step.
    pub open spec fn fits(self, num_inks: nat, num_steps: nat) -> bool {
        &&& self.density.len() == num_inks
        &&& self.steps.len() == num_steps
        &&& forall|i: int| 0 <= i < num_steps ==> #[trigger] self.steps[i].len() == num_inks
    }
}

impl WeightData {
    pub fn new(lpi: &str, num_inks: usize, num_steps: usize) -> (r: Self)
        ensures
            r@.lpi == lpi@,
            r@.density == zeros(num_inks as nat),
            r@.steps == Seq::new(num_steps as nat, |i: int| zeros(num_inks as nat)),
    {
        let empty: Vec<Reading> = Vec::new();
        let density = pad_readings(&empty, num_inks);
        let mut steps: Vec<Vec<Reading>> = Vec::new();
        let mut i: usize = 0;
        while i < num_steps
            invariant
                i <= num_steps,
                empty@.len() == 0,
                row_views(steps@) == Seq::new(i as nat, |k: int| zeros(num_inks as nat)),
            decreases num_steps - i,
        {
            let row = pad_readings(&empty, num_inks);
            assert(row@ =~= zeros(num_inks as nat));
            proof { lemma_row_views_push(steps@, row); }
            steps.push(row);
            i = i + 1;
            assert(row_views(steps@) =~= Seq::new(i as nat, |k: int| zeros(num_inks as nat)));
        }
        assert(density@ =~= zeros(num_inks as nat));
        WeightData { lpi: owned(lpi), density, steps }
    }

    /// Resize density and step vectors to match a new ink count.
    /// New columns are zero-filled; excess columns are dropped.
    pub fn resize_inks(&mut self, num_inks: usize)
        ensures
            final(self)@.lpi == old(self)@.lpi,
            final(self)@.density == fit(old(self)@.density, num_inks as nat),
            final(self)@.steps == old(self)@.steps.map_values(
                |r: Seq<Reading>| fit(r, num_inks as nat),
            ),
    {
        self.density = pad_readings(&self.density, num_inks);
        let mut rows: Vec<Vec<Reading>> = Vec::new();
        let mut i: usize = 0;
        while i < self.steps.len()
            invariant
                i <= self.steps.len(),
                self.steps@ == old(self).steps@,
                row_views(rows@) == row_views(self.steps@).take(i as int).map_values(
                    |r: Seq<Reading>| fit(r, num_inks as nat),
                ),
            decreases self.steps.len() - i,
        {
            let row = pad_readings(&self.steps[i], num_inks);
            proof { lemma_row_views_push(rows@, row); }
            rows.push(row);
            i = i + 1;
            assert(row_views(rows@) =~= row_views(self.steps@).take(i as int).map_values(
                |r: Seq<Reading>| fit(r, num_inks as nat),
            ));
        }
        assert(row_views(self.steps@).take(self.steps.len() as int) == row_views(self.steps@));
        self.steps = rows;
    }

    /// Resize step rows to match a new step count and ink count.
    /// Kept rows are padded or trimmed to `num_inks` readings; new rows are
    /// zero-filled; excess rows are dropped.
    pub fn resize_steps(&mut self, num_steps: usize, num_inks: usize)
        ensures
            final(self)@.lpi == old(self)@.lpi,
            final(self)@.density == old(self)@.density,
            final(self)@.steps == Seq::new(
                num_steps as nat,
                |i: int|
                    if i < old(self)@.steps.len() {
                        fit(old(self)@.steps[i], num_inks as nat)
                    } else {
                        zeros(num_inks as nat)
                    },
            ),
            final(self)@.steps.len() == num_steps,
            forall|i: int|
                0 <= i < num_steps ==> #[trigger] final(self)@.steps[i].len() == num_inks,
    {
        let empty: Vec<Reading> = Vec::new();
        let mut rows: Vec<Vec<Reading>> = Vec::new();
        let mut i: usize = 0;
        while i < num_steps
            invariant
                i <= num_steps,
                empty@.len() == 0,
                self.steps@ == old(self).steps@,
                row_views(rows@) == Seq::new(
                    i as nat,
                    |k: int|
                        if k < old(self)@.steps.len() {
                            fit(old(self)@.steps[k], num_inks as nat)
                        } else {
                            zeros(num_inks as nat)
                        },
                ),
            decreases num_steps - i,
        {
            let row = if i < self.steps.len() {
                pad_readings(&self.steps[i], num_inks)
            } else {
                let r = pad_readings(&empty, num_inks);
                assert(r@ =~= zeros(num_inks as nat));
                r
            };
            proof { lemma_row_views_push(rows@, row); }
            rows.push(row);
            i = i + 1;
            assert(row_views(rows@) =~= Seq::new(
                i as nat,
                |k: int|
                    if k < old(self)@.steps.len() {
                        fit(old(self)@.steps[k], num_inks as nat)
                    } else {
                        zeros(num_inks as nat)
                    },
            ));
        }
        self.steps = rows;
    }
}


// ── Shape (dot shape) ────────────────────────────────────────────────────────

pub struct ShapeModel {
    pub dot_type: Seq<char>,
    pub dot_number: Seq<char>,
    pub weights: Seq<WeightModel>,
}

/// One dot shape, containing one or more LPI weight readings.
#[derive(Clone, Debug)]
pub struct ShapeData {
    /// Dot type abbreviation: "CRS", "HD", "ESXR", "QUA", etc.
    pub dot_type: String,
    /// Dot number / ruling: "501", "16", "01", etc.
    pub dot_number: String,
    /// LPI readings for this shape.
    pub weights: Vec<WeightData>,
}

pub open spec fn weight_views(v: Seq<WeightData>) -> Seq<WeightModel> {
    v.map_values(|w: WeightData| w@)
}

pub proof fn lemma_weight_views_push(v: Seq<WeightData>, w: WeightData)
    ensures
        weight_views(v.push(w)) == weight_views(v).push(w@),
{
    assert(weight_views(v.push(w)) =~= weight_views(v).push(w@));
}

impl View for ShapeData {
    type V = ShapeModel;

    open spec fn view(&self) -> ShapeModel {
        ShapeModel {
            dot_type: self.dot_type@,
            dot_number: self.dot_number@,
            weights: weight_views(self.weights@),
        }
    }
}

/// "CRS 501", or just the dot type when there is no number.
pub open spec fn shape_name(dot_type: Seq<char>, dot_number: Seq<char>) -> Seq<char> {
    if dot_number.len() == 0 {
        dot_type
    } else {
        dot_type + seq![' '] + dot_number
    }
}

impl ShapeData {
    pub fn display_name(&self) -> (r: String)
        ensures
            r@ == shape_name(self.dot_type@, self.dot_number@),
    {
        let mut s = self.dot_type.clone();
        if !self.dot_number.as_str().is_empty() {
            s.push(' ');
            s.push_str(self.dot_number.as_str());
        }
        s
    }
}

// ── JobConfig ────────────────────────────────────────────────────────────────

pub struct JobModel {
    pub preset_name: Seq<char>,
    pub job_name: Seq<char>,
    pub job_number: Seq<char>,
    pub customer: Seq<char>,
    pub plate_tech: Seq<char>,
    pub press_system: Seq<char>,
    pub esxr_number: Seq<char>,
    pub print_type: Seq<char>,
    pub date: Seq<char>,
    pub set_number: Seq<char>,
    pub inks: Seq<InkModel>,
    pub step_labels: Seq<Seq<char>>,
    pub shapes: Seq<ShapeModel>,
}

/// Full job: metadata, ink configuration, and all shape/LPI readings.
#[derive(Clone, Debug)]
pub struct JobConfig {
    /// Name of the preset used to create this job (informational).
    pub preset_name: String,
    pub job_name: String,
    pub job_number: String,
    pub customer: String,
    /// Plate technology: "CRS" (Crystal) | "QUA" (Quartz) | ""
    pub plate_tech: String,
    /// Press system: "XPS" | "ITP" | ""
    pub press_system: String,
    /// Optional screening spec number, e.g. "3245".
    pub esxr_number: String,
    /// Print type: "RP" | "SP" | "CBW SP" | ""
    pub print_type: String,
    pub date: String,
    pub set_number: String,
    /// Active ink channels: one data column per ink.
    pub inks: Vec<Ink>,
    /// Step percentage labels in scan order, e.g. ["100","95",...,"1"].
    pub step_labels: Vec<String>,
    /// Dot shapes, each with one or more LPI weight readings.
    pub shapes: Vec<ShapeData>,
}

pub open spec fn shape_views(v: Seq<ShapeData>) -> Seq<ShapeModel> {
    v.map_values(|s: ShapeData| s@)
}

pub proof fn lemma_shape_views_push(v: Seq<ShapeData>, s: ShapeData)
    ensures
        shape_views(v.push(s)) == shape_views(v).push(s@),
{
    assert(shape_views(v.push(s)) =~= shape_views(v).push(s@));
}

impl View for JobConfig {
    type V = JobModel;

    open spec fn view(&self) -> JobModel {
        JobModel {
            preset_name: self.preset_name@,
            job_name: self.job_name@,
            job_number: self.job_number@,
            customer: self.customer@,
            plate_tech: self.plate_tech@,
            press_system: self.press_system@,
            esxr_number: self.esxr_number@,
            print_type: self.print_type@,
            date: self.date@,
            set_number: self.set_number@,
            inks: ink_views(self.inks@),
            step_labels: views(self.step_labels@),
            shapes: shape_views(self.shapes@),
        }
    }
}

/// The standard 14-step scale, 100 down to 1.
pub open spec fn standard_steps() -> Seq<Seq<char>> {
    seq![
        "100"@, "95"@, "90"@, "80"@, "70"@, "60"@, "50"@,
        "40"@, "30"@, "20"@, "10"@, "5"@, "3"@, "1"@,
    ]
}

/// The extended 16-step scale: the standard steps followed by 0.8 and 0.4.
pub open spec fn extended_steps() -> Seq<Seq<char>> {
    standard_steps() + seq!["0.8"@, "0.4"@]
}

/// The standard 14 step labels as owned strings.
pub fn default_step_labels() -> (r: Vec<String>)
    ensures
        views(r@) == standard_steps(),
{
    let mut v: Vec<String> = Vec::new();
    v.push(owned("100"));
    v.push(owned("95"));
    v.push(owned("90"));
    v.push(owned("80"));
    v.push(owned("70"));
    v.push(owned("60"));
    v.push(owned("50"));
    v.push(owned("40"));
    v.push(owned("30"));
    v.push(owned("20"));
    v.push(owned("10"));
    v.push(owned("5"));
    v.push(owned("3"));
    v.push(owned("1"));
    assert(views(v@) =~= standard_steps());
    v
}

impl JobModel {
    /// "Customer — CRS XPS 3245 — RP": the customer, the space-joined
    /// plate / press / screening spec, and the print type, each only when
    /// non-empty, joined by " — ".
    pub open spec fn heading(self) -> Seq<char> {
        join_seq(
            keep_non_empty(
                seq![
                    self.customer,
                    join_seq(
                        keep_non_empty(seq![self.plate_tech, self.press_system, self.esxr_number]),
                        " "@,
                    ),
                    self.print_type,
                ],
            ),
            " \u{2014} "@,
        )
    }

    /// Every recorded reading is a finite number.
    pub open spec fn readings_finite(self) -> bool {
        forall|s: int, w: int|
            0 <= s < self.shapes.len() && 0 <= w < self.shapes[s].weights.len() ==> {
                let wm = #[trigger] self.shapes[s].weights[w];
                &&& forall|c: int| 0 <= c < wm.density.len() ==> is_finite(#[trigger] wm.density[c])
                &&& forall|r: int, c: int|
                    0 <= r < wm.steps.len() && 0 <= c < wm.steps[r].len() ==> is_finite(
                        #[trigger] wm.steps[r][c],
                    )
            }
    }

    /// Every weight of every shape has one density per ink and one row of one
    /// value per ink for each step label.
    pub open spec fn well_formed(self) -> bool {
        forall|s: int, w: int|
            0 <= s < self.shapes.len() && 0 <= w < self.shapes[s].weights.len() ==> (
            #[trigger] self.shapes[s].weights[w]).fits(self.inks.len(), self.step_labels.len())
    }
}

/// Positions of the process-colour inks among `inks`, ascending.
pub open spec fn process_positions(inks: Seq<InkModel>) -> Seq<usize>
    decreases inks.len(),
{
    if inks.len() == 0 {
        Seq::empty()
    } else if inks.last().kind.is_process() {
        process_positions(inks.drop_last()).push((inks.len() - 1) as usize)
    } else {
        process_positions(inks.drop_last())
    }
}

/// The deviation average covers exactly the process inks: every listed
/// position holds a C, M, Y or K ink, positions ascend, and every process ink
/// is listed (white and spot inks never are).
pub proof fn lemma_process_positions(inks: Seq<InkModel>)
    requires
        inks.len() <= usize::MAX,
    ensures
        forall|k: int|
            0 <= k < process_positions(inks).len() ==> {
                let p = #[trigger] process_positions(inks)[k];
                p < inks.len() && inks[p as int].kind.is_process()
            },
        forall|a: int, b: int|
            0 <= a < b < process_positions(inks).len() ==> #[trigger] process_positions(inks)[a]
                < #[trigger] process_positions(inks)[b],
        forall|j: int|
            0 <= j < inks.len() && #[trigger] inks[j].kind.is_process() ==> process_positions(
                inks,
            ).contains(j as usize),
    decreases inks.len(),
{
    if inks.len() > 0 {
        let rest = inks.drop_last();
        lemma_process_positions(rest);
        let r = process_positions(rest);
        let all = process_positions(inks);
        assert forall|j: int| 0 <= j < rest.len() implies rest[j] == inks[j] by {}
        assert forall|k: int| 0 <= k < all.len() implies {
            let p = #[trigger] all[k];
            p < inks.len() && inks[p as int].kind.is_process()
        } by {
            if k < r.len() {
                assert(all[k] == r[k]);
            }
        }
        assert forall|a: int, b: int| 0 <= a < b < all.len() implies #[trigger] all[a] < #[trigger] all[b] by {
            if b < r.len() {
                assert(all[a] == r[a] && all[b] == r[b]);
            } else {
                assert(all[a] == r[a]);
            }
        }
        assert forall|j: int|
            0 <= j < inks.len() && #[trigger] inks[j].kind.is_process() implies process_positions(
                inks,
            ).contains(j as usize) by {
            if j < rest.len() {
                assert(rest[j].kind.is_process());
                let k = choose|k: int| 0 <= k < r.len() && r[k] == j as usize;
                if inks.last().kind.is_process() {
                    assert(process_positions(inks)[k] == j as usize);
                } else {
                    assert(process_positions(inks)[k] == j as usize);
                }
            } else {
                assert(process_positions(inks).last() == j as usize);
            }
        }
    }
}

impl Default for JobConfig {
    fn default() -> (r: Self)
        ensures
            r@.preset_name.len() == 0 && r@.job_name.len() == 0 && r@.job_number.len() == 0,
            r@.customer.len() == 0 && r@.plate_tech.len() == 0 && r@.press_system.len() == 0,
            r@.esxr_number.len() == 0 && r@.print_type.len() == 0,
            r@.date.len() == 0 && r@.set_number.len() == 0,
            r@.inks == cmyk(),
            r@.step_labels == standard_steps(),
            r@.shapes.len() == 0,
    {
        JobConfig {
            preset_name: String::new(),
            job_name: String::new(),
            job_number: String::new(),
            customer: String::new(),
            plate_tech: String::new(),
            press_system: String::new(),
            esxr_number: String::new(),
            print_type: String::new(),
            date: String::new(),
            set_number: String::new(),
            inks: default_inks(),
            step_labels: default_step_labels(),
            shapes: Vec::new(),
        }
    }
}

impl JobConfig {
    /// Auto-assembled heading: "Customer — CRS XPS ESXR — RP".
    /// Only includes non-empty components.
    pub fn heading(&self) -> (r: String)
        ensures
            r@ == self@.heading(),
    {
        let mut spec_parts: Vec<String> = Vec::new();
        spec_parts.push(self.plate_tech.clone());
        spec_parts.push(self.press_system.clone());
        spec_parts.push(self.esxr_number.clone());
        assert(views(spec_parts@) =~= seq![self.plate_tech@, self.press_system@, self.esxr_number@]);
        let spec_line = join_non_empty(&spec_parts, " ");
        let mut parts: Vec<String> = Vec::new();
        parts.push(self.customer.clone());
        parts.push(spec_line);
        parts.push(self.print_type.clone());
        assert(views(parts@) =~= seq![self.customer@, spec_line@, self.print_type@]);
        join_non_empty(&parts, " \u{2014} ")
    }

    pub fn num_inks(&self) -> (n: usize)
        ensures
            n == self@.inks.len(),
    {
        self.inks.len()
    }

    pub fn num_steps(&self) -> (n: usize)
        ensures
            n == self@.step_labels.len(),
    {
        self.step_labels.len()
    }

    /// Indices of inks included in the deviation average (CMYK only).
    pub fn deviation_ink_indices(&self) -> (r: Vec<usize>)
        ensures
            r@ == process_positions(self@.inks),
    {
        let mut r: Vec<usize> = Vec::new();
        let mut i: usize = 0;
        while i < self.inks.len()
            invariant
                i <= self.inks.len(),
                r@ == process_positions(self@.inks.take(i as int)),
            decreases self.inks.len() - i,
        {
            assert(self@.inks.take(i + 1).drop_last() =~= self@.inks.take(i as int));
            if self.inks[i].kind.in_deviation_average() {
                r.push(i);
            }
            i = i + 1;
        }
        assert(self@.inks.take(self.inks.len() as int) =~= self@.inks);
        r
    }
}

} // verus!
