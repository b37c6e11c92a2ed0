//! Lenient session loading and session writing.
//!
//! A session is a JSON document.  Loading is deliberately forgiving: missing
//! fields get defaults, an old-format `colour_names` list stands in for the
//! ink list, old `name` / `label` keys stand in for `dot_type` / `lpi`, and
//! every reading list is padded or trimmed to the job's ink and step counts.
//!
//! `JsonValue` is a JSON document as plain values: numbers are kept as the
//! bit pattern of their `f64` value (`None` when the number has none).

use vstd::prelude::*;
use crate::models::{
    cmyk, default_inks, is_finite, lemma_row_views_push, lemma_shape_views_push, lemma_weight_views_push, default_step_labels, fit, ink_views, pad_readings, row_views,
    shape_views, standard_steps, weight_views, zeros, Ink, InkKind, InkModel, JobConfig,
    JobModel, Reading, ShapeData, ShapeModel, WeightData, WeightModel,
};
use crate::text::{lemma_views_push, owned, str_eq, views};

verus! {

broadcast use vstd::std_specs::vec::axiom_vec_index_decreases;

/// A JSON document.
#[derive(Debug)]
pub enum JsonValue {
    Null,
    Bool(bool),
    /// The number's `f64` value as a bit pattern, when it has one.
    Number(Option<Reading>),
    Text(String),
    Array(Vec<JsonValue>),
    /// Members in document order.
    Object(Vec<(String, JsonValue)>),
}

/// The value of the first member named `key`.
pub open spec fn lookup(members: Seq<(String, JsonValue)>, key: Seq<char>) -> Option<JsonValue>
    decreases members.len(),
{
    if members.len() == 0 {
        None
    } else if members[0].0@ == key {
        Some(members[0].1)
    } else {
        lookup(members.drop_first(), key)
    }
}

/// The member `key` of an object; nothing for any other value.
pub open spec fn member(v: JsonValue, key: Seq<char>) -> Option<JsonValue> {
    match v {
        JsonValue::Object(m) => lookup(m@, key),
        _ => None,
    }
}

pub open spec fn deref(o: Option<&JsonValue>) -> Option<JsonValue> {
    match o {
        Some(v) => Some(*v),
        None => None,
    }
}

impl JsonValue {
    /// The member `key` of an object, or `None` for any other value.
    pub fn get(&self, key: &str) -> (r: Option<&JsonValue>)
        ensures
            deref(r) == member(*self, key@),
    {
        match self {
            JsonValue::Object(members) => {
                let ghost m = members@;
                assert(m.skip(0) =~= m);
                let mut i: usize = 0;
                while i < members.len()
                    invariant
                        *self == JsonValue::Object(*members),
                        m == members@,
                        i <= members.len(),
                        lookup(m, key@) == lookup(m.skip(i as int), key@),
                    decreases members.len() - i,
                {
                    assert(m.skip(i as int).drop_first() =~= m.skip(i + 1));
                    if str_eq(members[i].0.as_str(), key) {
                        return Some(&members[i].1);
                    }
                    i = i + 1;
                }
                None
            },
            _ => None,
        }
    }
}

// ── Field readers ────────────────────────────────────────────────────────────

/// A string member's text, or "" for anything else.
pub open spec fn text_or_empty(v: Option<JsonValue>) -> Seq<char> {
    match v {
        Some(JsonValue::Text(s)) => s@,
        _ => Seq::empty(),
    }
}

/// A string array's texts (non-strings read as ""), or `defaults` when the
/// member is not an array.
pub open spec fn texts_or(v: Option<JsonValue>, defaults: Seq<Seq<char>>) -> Seq<Seq<char>> {
    match v {
        Some(JsonValue::Array(a)) => a@.map_values(|e: JsonValue| text_or_empty(Some(e))),
        _ => defaults,
    }
}

/// A number's reading, or an empty reading for anything else.
pub open spec fn reading_or_empty(v: JsonValue) -> Reading {
    match v {
        JsonValue::Number(Some(b)) => b,
        _ => 0u64,
    }
}

/// The readings of a number array, or nothing when the value is not an array.
pub open spec fn readings_of(v: Option<JsonValue>) -> Seq<Reading> {
    match v {
        Some(JsonValue::Array(a)) => a@.map_values(|e: JsonValue| reading_or_empty(e)),
        _ => Seq::empty(),
    }
}

fn text_of(v: Option<&JsonValue>) -> (r: String)
    ensures
        r@ == text_or_empty(deref(v)),
{
    match v {
        Some(JsonValue::Text(s)) => s.clone(),
        _ => String::new(),
    }
}

fn texts_of(v: Option<&JsonValue>, defaults: Vec<String>) -> (r: Vec<String>)
    ensures
        views(r@) == texts_or(deref(v), views(defaults@)),
{
    match v {
        Some(JsonValue::Array(a)) => {
            let ghost m = a@;
            let mut out: Vec<String> = Vec::new();
            let mut i: usize = 0;
            while i < a.len()
                invariant
                    m == a@,
                    i <= a.len(),
                    views(out@) == m.take(i as int).map_values(|e: JsonValue| text_or_empty(Some(e))),
                decreases a.len() - i,
            {
                let t = text_of(Some(&a[i]));
                proof { lemma_views_push(out@, t); }
                out.push(t);
                i = i + 1;
                assert(views(out@) =~= m.take(i as int).map_values(|e: JsonValue| text_or_empty(Some(e))));
            }
            assert(m.take(a.len() as int) =~= m);
            out
        },
        _ => defaults,
    }
}

fn reading_of(v: &JsonValue) -> (r: Reading)
    ensures
        r == reading_or_empty(*v),
{
    match v {
        JsonValue::Number(Some(b)) => *b,
        _ => 0,
    }
}

fn readings_from(v: Option<&JsonValue>) -> (r: Vec<Reading>)
    ensures
        r@ == readings_of(deref(v)),
{
    match v {
        Some(JsonValue::Array(a)) => {
            let ghost m = a@;
            let mut out: Vec<Reading> = Vec::new();
            let mut i: usize = 0;
            while i < a.len()
                invariant
                    m == a@,
                    i <= a.len(),
                    out@ == m.take(i as int).map_values(|e: JsonValue| reading_or_empty(e)),
                decreases a.len() - i,
            {
                out.push(reading_of(&a[i]));
                i = i + 1;
                assert(out@ =~= m.take(i as int).map_values(|e: JsonValue| reading_or_empty(e)));
            }
            assert(m.take(a.len() as int) =~= m);
            out
        },
        _ => Vec::new(),
    }
}


// ── Inks ─────────────────────────────────────────────────────────────────────

/// The ink kind spelled by a session's lowercase `kind` text.
pub open spec fn kind_named(s: Seq<char>) -> Option<InkKind> {
    if s == "cyan"@ {
        Some(InkKind::Cyan)
    } else if s == "magenta"@ {
        Some(InkKind::Magenta)
    } else if s == "yellow"@ {
        Some(InkKind::Yellow)
    } else if s == "black"@ {
        Some(InkKind::Black)
    } else if s == "white"@ {
        Some(InkKind::White)
    } else if s == "spot"@ {
        Some(InkKind::Spot)
    } else {
        None
    }
}

/// An ink object: both `name` and `kind` must be texts and the kind known.
pub open spec fn load_ink(v: JsonValue) -> Option<InkModel> {
    match (member(v, "name"@), member(v, "kind"@)) {
        (Some(JsonValue::Text(n)), Some(JsonValue::Text(k))) => match kind_named(k@) {
            Some(kind) => Some(InkModel { kind, name: n@ }),
            None => None,
        },
        _ => None,
    }
}

/// Old-format colour names: C, M, Y, K and W name the process inks and white;
/// any other name is a spot ink of that name.
pub open spec fn ink_named(name: Seq<char>) -> InkModel {
    if name == "C"@ {
        InkModel { kind: InkKind::Cyan, name: "C"@ }
    } else if name == "M"@ {
        InkModel { kind: InkKind::Magenta, name: "M"@ }
    } else if name == "Y"@ {
        InkModel { kind: InkKind::Yellow, name: "Y"@ }
    } else if name == "K"@ {
        InkModel { kind: InkKind::Black, name: "K"@ }
    } else if name == "W"@ {
        InkModel { kind: InkKind::White, name: "W"@ }
    } else {
        InkModel { kind: InkKind::Spot, name: name }
    }
}

/// The present values, in order.
pub open spec fn somes(s: Seq<Option<InkModel>>) -> Seq<InkModel>
    decreases s.len(),
{
    if s.len() == 0 {
        Seq::empty()
    } else {
        match s.last() {
            Some(x) => somes(s.drop_last()).push(x),
            None => somes(s.drop_last()),
        }
    }
}

pub open spec fn cmyk_names() -> Seq<Seq<char>> {
    seq!["C"@, "M"@, "Y"@, "K"@]
}

/// The inks a session lists: the readable members of `inks`, or else the old
/// `colour_names` (default C, M, Y, K); when that leaves none, CMYK.
pub open spec fn load_inks(v: JsonValue) -> Seq<InkModel> {
    let listed = match member(v, "inks"@) {
        Some(JsonValue::Array(a)) => somes(a@.map_values(|e: JsonValue| load_ink(e))),
        _ => texts_or(member(v, "colour_names"@), cmyk_names()).map_values(
            |n: Seq<char>| ink_named(n),
        ),
    };
    if listed.len() == 0 {
        cmyk()
    } else {
        listed
    }
}

pub open spec fn ink_opt_view(o: Option<Ink>) -> Option<InkModel> {
    match o {
        Some(i) => Some(i@),
        None => None,
    }
}

/// Parse an Ink object from JSON (new format).
pub fn ink_from_value(v: &JsonValue) -> (r: Option<Ink>)
    ensures
        ink_opt_view(r) == load_ink(*v),
{
    let name = match v.get("name") {
        Some(JsonValue::Text(n)) => n,
        _ => return None,
    };
    let kind_text = match v.get("kind") {
        Some(JsonValue::Text(k)) => k,
        _ => return None,
    };
    let kind = if str_eq(kind_text.as_str(), "cyan") {
        InkKind::Cyan
    } else if str_eq(kind_text.as_str(), "magenta") {
        InkKind::Magenta
    } else if str_eq(kind_text.as_str(), "yellow") {
        InkKind::Yellow
    } else if str_eq(kind_text.as_str(), "black") {
        InkKind::Black
    } else if str_eq(kind_text.as_str(), "white") {
        InkKind::White
    } else if str_eq(kind_text.as_str(), "spot") {
        InkKind::Spot
    } else {
        return None;
    };
    Some(Ink { kind, name: name.clone() })
}

/// Map old colour_names strings to Ink values (old format fallback).
pub fn ink_from_name(name: &str) -> (r: Ink)
    ensures
        r@ == ink_named(name@),
{
    if str_eq(name, "C") {
        Ink::cyan()
    } else if str_eq(name, "M") {
        Ink::magenta()
    } else if str_eq(name, "Y") {
        Ink::yellow()
    } else if str_eq(name, "K") {
        Ink::black()
    } else if str_eq(name, "W") {
        Ink::white()
    } else {
        Ink::spot(name)
    }
}

fn cmyk_name_strings() -> (r: Vec<String>)
    ensures
        views(r@) == cmyk_names(),
{
    let mut v: Vec<String> = Vec::new();
    v.push(owned("C"));
    v.push(owned("M"));
    v.push(owned("Y"));
    v.push(owned("K"));
    assert(views(v@) =~= cmyk_names());
    v
}

proof fn lemma_ink_views_push(v: Seq<Ink>, i: Ink)
    ensures
        ink_views(v.push(i)) == ink_views(v).push(i@),
{
    assert(ink_views(v.push(i)) =~= ink_views(v).push(i@));
}

fn inks_from_value(v: &JsonValue) -> (r: Vec<Ink>)
    ensures
        ink_views(r@) == load_inks(*v),
{
    let mut listed: Vec<Ink> = Vec::new();
    match v.get("inks") {
        Some(JsonValue::Array(arr)) => {
            let ghost m = arr@.map_values(|e: JsonValue| load_ink(e));
            let mut i: usize = 0;
            while i < arr.len()
                invariant
                    m == arr@.map_values(|e: JsonValue| load_ink(e)),
                    i <= arr.len(),
                    ink_views(listed@) == somes(m.take(i as int)),
                decreases arr.len() - i,
            {
                assert(m.take(i + 1).drop_last() =~= m.take(i as int));
                let parsed = ink_from_value(&arr[i]);
                match parsed {
                    Some(ink) => {
                        proof { lemma_ink_views_push(listed@, ink); }
                        listed.push(ink);
                    },
                    None => {},
                }
                i = i + 1;
            }
            assert(m.take(arr.len() as int) =~= m);
        },
        _ => {
            let names = texts_of(v.get("colour_names"), cmyk_name_strings());
            let ghost t = views(names@);
            let mut i: usize = 0;
            while i < names.len()
                invariant
                    t == views(names@),
                    i <= names.len(),
                    ink_views(listed@) == t.take(i as int).map_values(|n: Seq<char>| ink_named(n)),
                decreases names.len() - i,
            {
                let ink = ink_from_name(names[i].as_str());
                proof { lemma_ink_views_push(listed@, ink); }
                listed.push(ink);
                i = i + 1;
                assert(ink_views(listed@) =~= t.take(i as int).map_values(|n: Seq<char>| ink_named(n)));
            }
            assert(t.take(names.len() as int) =~= t);
        },
    }
    if listed.len() == 0 {
        default_inks()
    } else {
        listed
    }
}

// ── Weights and shapes ───────────────────────────────────────────────────────

/// One LPI reading: the `lpi` text (old sessions: `label`, consulted only when
/// `lpi` is absent), the density list and step rows fitted to `num_inks`
/// values, and the rows cut or extended with empty rows to `num_steps`.
pub open spec fn load_weight(v: JsonValue, num_inks: nat, num_steps: nat) -> WeightModel {
    let rows = match member(v, "steps"@) {
        Some(JsonValue::Array(a)) => a@.map_values(
            |r: JsonValue| fit(readings_of(Some(r)), num_inks),
        ),
        _ => Seq::empty(),
    };
    WeightModel {
        lpi: match member(v, "lpi"@) {
            Some(x) => text_or_empty(Some(x)),
            None => text_or_empty(member(v, "label"@)),
        },
        density: fit(readings_of(member(v, "density"@)), num_inks),
        steps: Seq::new(
            num_steps,
            |i: int| if i < rows.len() { rows[i] } else { zeros(num_inks) },
        ),
    }
}

/// One dot shape: `dot_type` (old sessions: `name`), `dot_number`, and its weights.
pub open spec fn load_shape(v: JsonValue, num_inks: nat, num_steps: nat) -> ShapeModel {
    ShapeModel {
        dot_type: match member(v, "dot_type"@) {
            Some(JsonValue::Text(s)) => s@,
            _ => text_or_empty(member(v, "name"@)),
        },
        dot_number: text_or_empty(member(v, "dot_number"@)),
        weights: match member(v, "weights"@) {
            Some(JsonValue::Array(a)) => a@.map_values(
                |w: JsonValue| load_weight(w, num_inks, num_steps),
            ),
            _ => Seq::empty(),
        },
    }
}

/// A whole session.
pub open spec fn load_job(v: JsonValue) -> JobModel {
    let inks = load_inks(v);
    let step_labels = texts_or(member(v, "step_labels"@), standard_steps());
    JobModel {
        preset_name: text_or_empty(member(v, "preset_name"@)),
        job_name: text_or_empty(member(v, "job_name"@)),
        job_number: text_or_empty(member(v, "job_number"@)),
        customer: text_or_empty(member(v, "customer"@)),
        plate_tech: text_or_empty(member(v, "plate_tech"@)),
        press_system: text_or_empty(member(v, "press_system"@)),
        esxr_number: text_or_empty(member(v, "esxr_number"@)),
        print_type: text_or_empty(member(v, "print_type"@)),
        date: text_or_empty(member(v, "date"@)),
        set_number: text_or_empty(member(v, "set_number"@)),
        inks,
        step_labels,
        shapes: match member(v, "shapes"@) {
            Some(JsonValue::Array(a)) => a@.map_values(
                |s: JsonValue| load_shape(s, inks.len(), step_labels.len()),
            ),
            _ => Seq::empty(),
        },
    }
}

pub fn weight_from_value(v: &JsonValue, num_inks: usize, num_steps: usize) -> (r: WeightData)
    ensures
        r@ == load_weight(*v, num_inks as nat, num_steps as nat),
{
    let lpi = match v.get("lpi") {
        Some(x) => text_of(Some(x)),
        None => text_of(v.get("label")),
    };
    let density = pad_readings(&readings_from(v.get("density")), num_inks);
    let mut steps: Vec<Vec<Reading>> = Vec::new();
    let ghost rows = match member(*v, "steps"@) {
        Some(JsonValue::Array(a)) => a@.map_values(
            |r: JsonValue| fit(readings_of(Some(r)), num_inks as nat),
        ),
        _ => Seq::empty(),
    };
    match v.get("steps") {
        Some(JsonValue::Array(arr)) => {
            let mut i: usize = 0;
            while i < arr.len()
                invariant
                    rows == arr@.map_values(|r: JsonValue| fit(readings_of(Some(r)), num_inks as nat)),
                    i <= arr.len(),
                    row_views(steps@) == rows.take(i as int),
                decreases arr.len() - i,
            {
                let row = pad_readings(&readings_from(Some(&arr[i])), num_inks);
                proof { lemma_row_views_push(steps@, row); }
                steps.push(row);
                i = i + 1;
                assert(row_views(steps@) =~= rows.take(i as int));
            }
            assert(rows.take(arr.len() as int) =~= rows);
        },
        _ => {
            assert(row_views(steps@) =~= rows);
        },
    }
    let mut w = WeightData { lpi, density, steps };
    w.resize_steps(num_steps, num_inks);
    proof {
        let target = load_weight(*v, num_inks as nat, num_steps as nat);
        assert forall|i: int| 0 <= i < rows.len() implies fit(
            rows[i],
            num_inks as nat,
        ) == rows[i] by {
            assert(fit(rows[i], num_inks as nat) =~= rows[i]);
        }
        assert(w@.steps =~= target.steps);
    }
    w
}

pub fn shape_from_value(v: &JsonValue, num_inks: usize, num_steps: usize) -> (r: ShapeData)
    ensures
        r@ == load_shape(*v, num_inks as nat, num_steps as nat),
{
    let dot_type = match v.get("dot_type") {
        Some(JsonValue::Text(s)) => s.clone(),
        _ => text_of(v.get("name")),
    };
    let dot_number = text_of(v.get("dot_number"));
    let mut weights: Vec<WeightData> = Vec::new();
    let ghost target = load_shape(*v, num_inks as nat, num_steps as nat).weights;
    match v.get("weights") {
        Some(JsonValue::Array(arr)) => {
            let mut i: usize = 0;
            while i < arr.len()
                invariant
                    target == arr@.map_values(
                        |w: JsonValue| load_weight(w, num_inks as nat, num_steps as nat),
                    ),
                    i <= arr.len(),
                    weight_views(weights@) == target.take(i as int),
                decreases arr.len() - i,
            {
                let w = weight_from_value(&arr[i], num_inks, num_steps);
                proof { lemma_weight_views_push(weights@, w); }
                weights.push(w);
                i = i + 1;
                assert(weight_views(weights@) =~= target.take(i as int));
            }
            assert(target.take(arr.len() as int) =~= target);
        },
        _ => {
            assert(weight_views(weights@) =~= target);
        },
    }
    ShapeData { dot_type, dot_number, weights }
}

/// Build a job from a session document, defaulting whatever is missing.
pub fn job_from_value(v: &JsonValue) -> (r: JobConfig)
    ensures
        r@ == load_job(*v),
{
    let inks = inks_from_value(v);
    let num_inks = inks.len();
    let step_labels = texts_of(v.get("step_labels"), default_step_labels());
    let num_steps = step_labels.len();
    let mut shapes: Vec<ShapeData> = Vec::new();
    let ghost target = load_job(*v).shapes;
    match v.get("shapes") {
        Some(JsonValue::Array(arr)) => {
            let mut i: usize = 0;
            while i < arr.len()
                invariant
                    target == arr@.map_values(
                        |s: JsonValue| load_shape(s, num_inks as nat, num_steps as nat),
                    ),
                    i <= arr.len(),
                    shape_views(shapes@) == target.take(i as int),
                decreases arr.len() - i,
            {
                let s = shape_from_value(&arr[i], num_inks, num_steps);
                proof { lemma_shape_views_push(shapes@, s); }
                shapes.push(s);
                i = i + 1;
                assert(shape_views(shapes@) =~= target.take(i as int));
            }
            assert(target.take(arr.len() as int) =~= target);
        },
        _ => {
            assert(shape_views(shapes@) =~= target);
        },
    }
    JobConfig {
        preset_name: text_of(v.get("preset_name")),
        job_name: text_of(v.get("job_name")),
        job_number: text_of(v.get("job_number")),
        customer: text_of(v.get("customer")),
        plate_tech: text_of(v.get("plate_tech")),
        press_system: text_of(v.get("press_system")),
        esxr_number: text_of(v.get("esxr_number")),
        print_type: text_of(v.get("print_type")),
        date: text_of(v.get("date")),
        set_number: text_of(v.get("set_number")),
        inks,
        step_labels,
        shapes,
    }
}


// ── Writing ──────────────────────────────────────────────────────────────────

/// The lowercase `kind` text a session stores for an ink kind.
pub open spec fn kind_label(k: InkKind) -> Seq<char> {
    match k {
        InkKind::Cyan => "cyan"@,
        InkKind::Magenta => "magenta"@,
        InkKind::Yellow => "yellow"@,
        InkKind::Black => "black"@,
        InkKind::White => "white"@,
        InkKind::Spot => "spot"@,
    }
}

/// `v` is the text `s`.
pub open spec fn text_is(v: JsonValue, s: Seq<char>) -> bool {
    v is Text && v->Text_0@ == s
}

/// `v` is the array of texts `ss`.
pub open spec fn texts_are(v: JsonValue, ss: Seq<Seq<char>>) -> bool {
    &&& v is Array
    &&& v->Array_0@.len() == ss.len()
    &&& forall|i: int| 0 <= i < ss.len() ==> text_is(#[trigger] v->Array_0@[i], ss[i])
}

/// How a reading is written: its number, or `null` when it is not finite.
pub open spec fn reading_is(v: JsonValue, r: Reading) -> bool {
    if is_finite(r) {
        v == JsonValue::Number(Some(r))
    } else {
        v is Null
    }
}

/// `v` is the array of readings `rs`.
pub open spec fn readings_are(v: JsonValue, rs: Seq<Reading>) -> bool {
    &&& v is Array
    &&& v->Array_0@.len() == rs.len()
    &&& forall|i: int| 0 <= i < rs.len() ==> reading_is(#[trigger] v->Array_0@[i], rs[i])
}

/// `v` is an object whose members are named `keys`, in that order.
pub open spec fn keys_are(v: JsonValue, keys: Seq<Seq<char>>) -> bool {
    &&& v is Object
    &&& v->Object_0@.len() == keys.len()
    &&& forall|i: int| 0 <= i < keys.len() ==> (#[trigger] v->Object_0@[i]).0@ == keys[i]
}

pub open spec fn field(v: JsonValue, i: int) -> JsonValue {
    v->Object_0@[i].1
}

/// An ink is written as `{"kind": <kind label>, "name": <name>}`.
pub open spec fn ink_is(v: JsonValue, ink: InkModel) -> bool {
    &&& keys_are(v, seq!["kind"@, "name"@])
    &&& text_is(field(v, 0), kind_label(ink.kind))
    &&& text_is(field(v, 1), ink.name)
}

/// A weight is written as `{"lpi", "density", "steps"}`.
pub open spec fn weight_is(v: JsonValue, w: WeightModel) -> bool {
    &&& keys_are(v, seq!["lpi"@, "density"@, "steps"@])
    &&& text_is(field(v, 0), w.lpi)
    &&& readings_are(field(v, 1), w.density)
    &&& field(v, 2) is Array
    &&& field(v, 2)->Array_0@.len() == w.steps.len()
    &&& forall|i: int|
        0 <= i < w.steps.len() ==> readings_are(#[trigger] field(v, 2)->Array_0@[i], w.steps[i])
}

/// A shape is written as `{"dot_type", "dot_number", "weights"}`.
pub open spec fn shape_is(v: JsonValue, s: ShapeModel) -> bool {
    &&& keys_are(v, seq!["dot_type"@, "dot_number"@, "weights"@])
    &&& text_is(field(v, 0), s.dot_type)
    &&& text_is(field(v, 1), s.dot_number)
    &&& field(v, 2) is Array
    &&& field(v, 2)->Array_0@.len() == s.weights.len()
    &&& forall|i: int|
        0 <= i < s.weights.len() ==> weight_is(#[trigger] field(v, 2)->Array_0@[i], s.weights[i])
}

pub open spec fn job_keys() -> Seq<Seq<char>> {
    seq![
        "preset_name"@, "job_name"@, "job_number"@, "customer"@, "plate_tech"@,
        "press_system"@, "esxr_number"@, "print_type"@, "date"@, "set_number"@,
        "inks"@, "step_labels"@, "shapes"@,
    ]
}

/// A job is written as an object with one member per field, in field order.
pub open spec fn job_is(v: JsonValue, j: JobModel) -> bool {
    &&& keys_are(v, job_keys())
    &&& text_is(field(v, 0), j.preset_name)
    &&& text_is(field(v, 1), j.job_name)
    &&& text_is(field(v, 2), j.job_number)
    &&& text_is(field(v, 3), j.customer)
    &&& text_is(field(v, 4), j.plate_tech)
    &&& text_is(field(v, 5), j.press_system)
    &&& text_is(field(v, 6), j.esxr_number)
    &&& text_is(field(v, 7), j.print_type)
    &&& text_is(field(v, 8), j.date)
    &&& text_is(field(v, 9), j.set_number)
    &&& field(v, 10) is Array
    &&& field(v, 10)->Array_0@.len() == j.inks.len()
    &&& forall|i: int| 0 <= i < j.inks.len() ==> ink_is(#[trigger] field(v, 10)->Array_0@[i], j.inks[i])
    &&& texts_are(field(v, 11), j.step_labels)
    &&& field(v, 12) is Array
    &&& field(v, 12)->Array_0@.len() == j.shapes.len()
    &&& forall|i: int|
        0 <= i < j.shapes.len() ==> shape_is(#[trigger] field(v, 12)->Array_0@[i], j.shapes[i])
}

fn text_value(s: &String) -> (v: JsonValue)
    ensures
        text_is(v, s@),
{
    JsonValue::Text(s.clone())
}

fn text_member(key: &str, s: &String) -> (m: (String, JsonValue))
    ensures
        m.0@ == key@,
        text_is(m.1, s@),
{
    (owned(key), text_value(s))
}

fn texts_value(v: &Vec<String>) -> (r: JsonValue)
    ensures
        texts_are(r, views(v@)),
{
    let mut out: Vec<JsonValue> = Vec::new();
    let mut i: usize = 0;
    while i < v.len()
        invariant
            i <= v.len(),
            out@.len() == i,
            forall|k: int| 0 <= k < i ==> text_is(#[trigger] out@[k], v@[k]@),
        decreases v.len() - i,
    {
        out.push(text_value(&v[i]));
        i = i + 1;
    }
    JsonValue::Array(out)
}

fn reading_value(r: Reading) -> (v: JsonValue)
    ensures
        reading_is(v, r),
{
    if (r >> 52u64) & 0x7ffu64 != 0x7ffu64 {
        JsonValue::Number(Some(r))
    } else {
        JsonValue::Null
    }
}

fn readings_value(rs: &Vec<Reading>) -> (v: JsonValue)
    ensures
        readings_are(v, rs@),
{
    let mut out: Vec<JsonValue> = Vec::new();
    let mut i: usize = 0;
    while i < rs.len()
        invariant
            i <= rs.len(),
            out@.len() == i,
            forall|k: int| 0 <= k < i ==> reading_is(#[trigger] out@[k], rs@[k]),
        decreases rs.len() - i,
    {
        out.push(reading_value(rs[i]));
        i = i + 1;
    }
    JsonValue::Array(out)
}

fn kind_text(k: InkKind) -> (s: String)
    ensures
        s@ == kind_label(k),
{
    match k {
        InkKind::Cyan => owned("cyan"),
        InkKind::Magenta => owned("magenta"),
        InkKind::Yellow => owned("yellow"),
        InkKind::Black => owned("black"),
        InkKind::White => owned("white"),
        InkKind::Spot => owned("spot"),
    }
}

fn ink_value(ink: &Ink) -> (v: JsonValue)
    ensures
        ink_is(v, ink@),
{
    let mut m: Vec<(String, JsonValue)> = Vec::new();
    let kind = kind_text(ink.kind);
    m.push((owned("kind"), JsonValue::Text(kind)));
    m.push(text_member("name", &ink.name));
    let v = JsonValue::Object(m);
    assert(keys_are(v, seq!["kind"@, "name"@]));
    v
}

fn weight_value(w: &WeightData) -> (v: JsonValue)
    ensures
        weight_is(v, w@),
{
    let mut rows: Vec<JsonValue> = Vec::new();
    let mut i: usize = 0;
    while i < w.steps.len()
        invariant
            i <= w.steps.len(),
            rows@.len() == i,
            forall|k: int| 0 <= k < i ==> readings_are(#[trigger] rows@[k], w@.steps[k]),
        decreases w.steps.len() - i,
    {
        rows.push(readings_value(&w.steps[i]));
        i = i + 1;
    }
    let mut m: Vec<(String, JsonValue)> = Vec::new();
    m.push(text_member("lpi", &w.lpi));
    m.push((owned("density"), readings_value(&w.density)));
    m.push((owned("steps"), JsonValue::Array(rows)));
    let v = JsonValue::Object(m);
    assert(keys_are(v, seq!["lpi"@, "density"@, "steps"@]));
    v
}

fn shape_value(s: &ShapeData) -> (v: JsonValue)
    ensures
        shape_is(v, s@),
{
    let mut ws: Vec<JsonValue> = Vec::new();
    let mut i: usize = 0;
    while i < s.weights.len()
        invariant
            i <= s.weights.len(),
            ws@.len() == i,
            forall|k: int| 0 <= k < i ==> weight_is(#[trigger] ws@[k], s@.weights[k]),
        decreases s.weights.len() - i,
    {
        ws.push(weight_value(&s.weights[i]));
        i = i + 1;
    }
    let mut m: Vec<(String, JsonValue)> = Vec::new();
    m.push(text_member("dot_type", &s.dot_type));
    m.push(text_member("dot_number", &s.dot_number));
    m.push((owned("weights"), JsonValue::Array(ws)));
    let v = JsonValue::Object(m);
    assert(keys_are(v, seq!["dot_type"@, "dot_number"@, "weights"@]));
    v
}

/// The session document for a job: one member per field, in field order.
pub fn job_to_value(job: &JobConfig) -> (v: JsonValue)
    ensures
        job_is(v, job@),
{
    let mut inks: Vec<JsonValue> = Vec::new();
    let mut i: usize = 0;
    while i < job.inks.len()
        invariant
            i <= job.inks.len(),
            inks@.len() == i,
            forall|k: int| 0 <= k < i ==> ink_is(#[trigger] inks@[k], job@.inks[k]),
        decreases job.inks.len() - i,
    {
        inks.push(ink_value(&job.inks[i]));
        i = i + 1;
    }
    let mut shapes: Vec<JsonValue> = Vec::new();
    let mut i: usize = 0;
    while i < job.shapes.len()
        invariant
            i <= job.shapes.len(),
            shapes@.len() == i,
            forall|k: int| 0 <= k < i ==> shape_is(#[trigger] shapes@[k], job@.shapes[k]),
        decreases job.shapes.len() - i,
    {
        shapes.push(shape_value(&job.shapes[i]));
        i = i + 1;
    }
    let mut m: Vec<(String, JsonValue)> = Vec::new();
    m.push(text_member("preset_name", &job.preset_name));
    m.push(text_member("job_name", &job.job_name));
    m.push(text_member("job_number", &job.job_number));
    m.push(text_member("customer", &job.customer));
    m.push(text_member("plate_tech", &job.plate_tech));
    m.push(text_member("press_system", &job.press_system));
    m.push(text_member("esxr_number", &job.esxr_number));
    m.push(text_member("print_type", &job.print_type));
    m.push(text_member("date", &job.date));
    m.push(text_member("set_number", &job.set_number));
    m.push((owned("inks"), JsonValue::Array(inks)));
    m.push((owned("step_labels"), texts_value(&job.step_labels)));
    m.push((owned("shapes"), JsonValue::Array(shapes)));
    let v = JsonValue::Object(m);
    assert(keys_are(v, job_keys()));
    v
}


// ── Reading back what was written ────────────────────────────────────────────

pub open spec fn distinct(keys: Seq<Seq<char>>) -> bool {
    forall|a: int, b: int| 0 <= a < keys.len() && 0 <= b < keys.len() && a != b ==> keys[a] != keys[b]
}

proof fn lemma_lookup_named(m: Seq<(String, JsonValue)>, keys: Seq<Seq<char>>, i: int)
    requires
        m.len() == keys.len(),
        forall|k: int| 0 <= k < keys.len() ==> (#[trigger] m[k]).0@ == keys[k],
        distinct(keys),
        0 <= i < keys.len(),
    ensures
        lookup(m, keys[i]) == Some(m[i].1),
    decreases i,
{
    if i > 0 {
        assert(m[0].0@ == keys[0]);
        assert(keys[0] != keys[i]);
        let m2 = m.drop_first();
        let k2 = keys.drop_first();
        assert forall|a: int, b: int| 0 <= a < k2.len() && 0 <= b < k2.len() && a != b implies k2[a] != k2[b] by {
            assert(k2[a] == keys[a + 1]);
            assert(k2[b] == keys[b + 1]);
        }
        assert forall|k: int| 0 <= k < k2.len() implies (#[trigger] m2[k]).0@ == k2[k] by {
            assert(m2[k] == m[k + 1]);
        }
        lemma_lookup_named(m2, k2, i - 1);
        assert(k2[i - 1] == keys[i]);
    }
}

proof fn lemma_member_named(v: JsonValue, keys: Seq<Seq<char>>, i: int)
    requires
        keys_are(v, keys),
        distinct(keys),
        0 <= i < keys.len(),
    ensures
        member(v, keys[i]) == Some(field(v, i)),
{
    lemma_lookup_named(v->Object_0@, keys, i);
}

proof fn lemma_kind_round_trip(k: InkKind)
    ensures
        kind_named(kind_label(k)) == Some(k),
{
    reveal_strlit("cyan");
    reveal_strlit("magenta");
    reveal_strlit("yellow");
    reveal_strlit("black");
    reveal_strlit("white");
    reveal_strlit("spot");
    assert("cyan"@.len() == 4);
    assert("cyan"@[0] == 'c');
    assert("magenta"@.len() == 7);
    assert("magenta"@[0] == 'm');
    assert("yellow"@.len() == 6);
    assert("yellow"@[0] == 'y');
    assert("black"@.len() == 5);
    assert("black"@[0] == 'b');
    assert("white"@.len() == 5);
    assert("white"@[0] == 'w');
    assert("spot"@.len() == 4);
    assert("spot"@[0] == 's');
}

proof fn lemma_ink_round_trip(v: JsonValue, ink: InkModel)
    requires
        ink_is(v, ink),
    ensures
        load_ink(v) == Some(ink),
{
    reveal_strlit("kind");
    reveal_strlit("name");
    assert("kind"@.len() == 4);
    assert("kind"@[0] == 'k');
    assert("name"@.len() == 4);
    assert("name"@[0] == 'n');
    let keys = seq!["kind"@, "name"@];
    assert(keys[0] != keys[1]);
    lemma_member_named(v, keys, 0);
    lemma_member_named(v, keys, 1);
    lemma_kind_round_trip(ink.kind);
}

proof fn lemma_somes_all(s: Seq<Option<InkModel>>, x: Seq<InkModel>)
    requires
        s.len() == x.len(),
        forall|i: int| 0 <= i < s.len() ==> s[i] == Some(#[trigger] x[i]),
    ensures
        somes(s) == x,
    decreases s.len(),
{
    if s.len() > 0 {
        lemma_somes_all(s.drop_last(), x.drop_last());
        assert(somes(s.drop_last()).push(x.last()) =~= x);
    }
}

proof fn lemma_readings_round_trip(v: JsonValue, rs: Seq<Reading>)
    requires
        readings_are(v, rs),
        forall|c: int| 0 <= c < rs.len() ==> is_finite(#[trigger] rs[c]),
    ensures
        readings_of(Some(v)) == rs,
        fit(readings_of(Some(v)), rs.len()) == rs,
{
    assert(readings_of(Some(v)) =~= rs);
    assert(fit(rs, rs.len()) =~= rs);
}

proof fn lemma_weight_round_trip(v: JsonValue, w: WeightModel, num_inks: nat, num_steps: nat)
    requires
        weight_is(v, w),
        w.fits(num_inks, num_steps),
        forall|c: int| 0 <= c < w.density.len() ==> is_finite(#[trigger] w.density[c]),
        forall|r: int, c: int|
            0 <= r < w.steps.len() && 0 <= c < w.steps[r].len() ==> is_finite(#[trigger] w.steps[r][c]),
    ensures
        load_weight(v, num_inks, num_steps) == w,
{
    reveal_strlit("lpi");
    reveal_strlit("density");
    reveal_strlit("steps");
    assert("lpi"@.len() == 3);
    assert("lpi"@[0] == 'l');
    assert("density"@.len() == 7);
    assert("density"@[0] == 'd');
    assert("steps"@.len() == 5);
    assert("steps"@[0] == 's');
    let keys = seq!["lpi"@, "density"@, "steps"@];
    assert(distinct(keys));
    lemma_member_named(v, keys, 0);
    lemma_member_named(v, keys, 1);
    lemma_member_named(v, keys, 2);
    lemma_readings_round_trip(field(v, 1), w.density);
    let a = field(v, 2)->Array_0@;
    let rows = a.map_values(|r: JsonValue| fit(readings_of(Some(r)), num_inks));
    assert forall|i: int| 0 <= i < rows.len() implies rows[i] == w.steps[i] by {
        assert forall|c: int| 0 <= c < w.steps[i].len() implies is_finite(#[trigger] w.steps[i][c]) by {}
        lemma_readings_round_trip(a[i], w.steps[i]);
    }
    let got = load_weight(v, num_inks, num_steps);
    assert(got.steps =~= w.steps);
}

proof fn lemma_shape_round_trip(v: JsonValue, s: ShapeModel, num_inks: nat, num_steps: nat)
    requires
        shape_is(v, s),
        forall|w: int| 0 <= w < s.weights.len() ==> {
            let wm = #[trigger] s.weights[w];
            &&& wm.fits(num_inks, num_steps)
            &&& forall|c: int| 0 <= c < wm.density.len() ==> is_finite(#[trigger] wm.density[c])
            &&& forall|r: int, c: int|
                0 <= r < wm.steps.len() && 0 <= c < wm.steps[r].len() ==> is_finite(
                    #[trigger] wm.steps[r][c],
                )
        },
    ensures
        load_shape(v, num_inks, num_steps) == s,
{
    reveal_strlit("dot_type");
    reveal_strlit("dot_number");
    reveal_strlit("weights");
    assert("dot_type"@.len() == 8);
    assert("dot_type"@[0] == 'd');
    assert("dot_number"@.len() == 10);
    assert("dot_number"@[0] == 'd');
    assert("weights"@.len() == 7);
    assert("weights"@[0] == 'w');
    let keys = seq!["dot_type"@, "dot_number"@, "weights"@];
    assert(distinct(keys));
    lemma_member_named(v, keys, 0);
    lemma_member_named(v, keys, 1);
    lemma_member_named(v, keys, 2);
    let a = field(v, 2)->Array_0@;
    let got = load_shape(v, num_inks, num_steps);
    assert forall|i: int| 0 <= i < s.weights.len() implies got.weights[i] == s.weights[i] by {
        let wm = s.weights[i];
        lemma_weight_round_trip(a[i], wm, num_inks, num_steps);
    }
    assert(got.weights =~= s.weights);
}

/// Reading a session back: loading the document that `job_to_value` writes
/// for a job gives back that job, when the job has at least one ink, every
/// reading list matches the ink and step counts, and every reading is finite
/// (a non-finite reading is written as `null` and reads back empty).
pub proof fn lemma_session_round_trip(v: JsonValue, j: JobModel)
    requires
        job_is(v, j),
        j.inks.len() > 0,
        j.well_formed(),
        j.readings_finite(),
    ensures
        load_job(v) == j,
{
    reveal_strlit("preset_name");
    reveal_strlit("job_name");
    reveal_strlit("job_number");
    reveal_strlit("customer");
    reveal_strlit("plate_tech");
    reveal_strlit("press_system");
    reveal_strlit("esxr_number");
    reveal_strlit("print_type");
    reveal_strlit("date");
    reveal_strlit("set_number");
    reveal_strlit("inks");
    reveal_strlit("step_labels");
    reveal_strlit("shapes");
    assert("preset_name"@.len() == 11);
    assert("preset_name"@[0] == 'p');
    assert("job_name"@.len() == 8);
    assert("job_name"@[0] == 'j');
    assert("job_number"@.len() == 10);
    assert("job_number"@[0] == 'j');
    assert("customer"@.len() == 8);
    assert("customer"@[0] == 'c');
    assert("plate_tech"@.len() == 10);
    assert("plate_tech"@[0] == 'p');
    assert("press_system"@.len() == 12);
    assert("press_system"@[0] == 'p');
    assert("esxr_number"@.len() == 11);
    assert("esxr_number"@[0] == 'e');
    assert("print_type"@.len() == 10);
    assert("print_type"@[0] == 'p');
    assert("date"@.len() == 4);
    assert("date"@[0] == 'd');
    assert("set_number"@.len() == 10);
    assert("set_number"@[0] == 's');
    assert("inks"@.len() == 4);
    assert("inks"@[0] == 'i');
    assert("step_labels"@.len() == 11);
    assert("step_labels"@[0] == 's');
    assert("shapes"@.len() == 6);
    assert("shapes"@[0] == 's');
    assert("plate_tech"@[1] == 'l');
    assert("print_type"@[1] == 'r');
    let keys = job_keys();
    assert(distinct(keys));
    assert forall|k: int| 0 <= k < 13 implies member(v, #[trigger] keys[k]) == Some(field(v, k)) by {
        lemma_member_named(v, keys, k);
    }
    // Inks.
    let ia = field(v, 10)->Array_0@;
    let parsed = ia.map_values(|e: JsonValue| load_ink(e));
    assert forall|i: int| 0 <= i < parsed.len() implies parsed[i] == Some(#[trigger] j.inks[i]) by {
        lemma_ink_round_trip(ia[i], j.inks[i]);
    }
    lemma_somes_all(parsed, j.inks);
    assert(load_inks(v) == j.inks);
    // Step labels.
    assert(texts_or(member(v, "step_labels"@), standard_steps()) =~= j.step_labels);
    // Shapes.
    let sa = field(v, 12)->Array_0@;
    let got = load_job(v);
    assert forall|i: int| 0 <= i < j.shapes.len() implies got.shapes[i] == j.shapes[i] by {
        let sm = j.shapes[i];
        assert forall|w: int| 0 <= w < sm.weights.len() implies {
            let wm = #[trigger] sm.weights[w];
            &&& wm.fits(j.inks.len(), j.step_labels.len())
            &&& forall|c: int| 0 <= c < wm.density.len() ==> is_finite(#[trigger] wm.density[c])
            &&& forall|r: int, c: int|
                0 <= r < wm.steps.len() && 0 <= c < wm.steps[r].len() ==> is_finite(
                    #[trigger] wm.steps[r][c],
                )
        } by {
            assert(j.shapes[i].weights[w] == sm.weights[w]);
        }
        lemma_shape_round_trip(sa[i], sm, j.inks.len(), j.step_labels.len());
    }
    assert(got.shapes =~= j.shapes);
}

/// Whatever the document, a loaded job has at least one ink and every weight
/// has exactly one density per ink and one row of one value per ink for each
/// step label.
pub proof fn lemma_loaded_job_well_formed(v: JsonValue)
    ensures
        load_job(v).inks.len() > 0,
        load_job(v).well_formed(),
{
    let j = load_job(v);
    assert forall|s: int, w: int|
        0 <= s < j.shapes.len() && 0 <= w < j.shapes[s].weights.len() implies (
        #[trigger] j.shapes[s].weights[w]).fits(j.inks.len(), j.step_labels.len()) by {
        let wm = j.shapes[s].weights[w];
        assert forall|i: int| 0 <= i < j.step_labels.len() implies #[trigger] wm.steps[i].len()
            == j.inks.len() by {}
    }
}

proof fn lemma_colour_letters_distinct()
    ensures
        "C"@ != "M"@, "C"@ != "Y"@, "C"@ != "K"@, "C"@ != "W"@,
        "M"@ != "Y"@, "M"@ != "K"@, "M"@ != "W"@,
        "Y"@ != "K"@, "Y"@ != "W"@, "K"@ != "W"@,
{
    reveal_strlit("C");
    reveal_strlit("M");
    reveal_strlit("Y");
    reveal_strlit("K");
    reveal_strlit("W");
    assert("C"@[0] == 'C');
    assert("M"@[0] == 'M');
    assert("Y"@[0] == 'Y');
    assert("K"@[0] == 'K');
    assert("W"@[0] == 'W');
}

/// Old sessions name their inks in `colour_names`: when a document has no
/// `inks` array but a non-empty `colour_names` array, the job gets one ink per
/// name, in order, named as listed; "C", "M", "Y", "K" and "W" are the cyan,
/// magenta, yellow, black and white inks, any other name a spot ink.  With no
/// `colour_names` either, the inks are C, M, Y, K.
pub proof fn lemma_colour_names_give_inks(v: JsonValue, names: Vec<JsonValue>)
    requires
        !(member(v, "inks"@) matches Some(JsonValue::Array(_))),
        member(v, "colour_names"@) == Some(JsonValue::Array(names)),
        names@.len() > 0,
    ensures
        load_job(v).inks.len() == names@.len(),
        forall|i: int| 0 <= i < names@.len() ==> {
            let n = text_or_empty(Some(names@[i]));
            let ink = #[trigger] load_job(v).inks[i];
            &&& ink.name == n
            &&& n == "C"@ ==> ink.kind == InkKind::Cyan
            &&& n == "M"@ ==> ink.kind == InkKind::Magenta
            &&& n == "Y"@ ==> ink.kind == InkKind::Yellow
            &&& n == "K"@ ==> ink.kind == InkKind::Black
            &&& n == "W"@ ==> ink.kind == InkKind::White
            &&& (n != "C"@ && n != "M"@ && n != "Y"@ && n != "K"@ && n != "W"@) ==> ink.kind
                == InkKind::Spot
        },
{
    lemma_colour_letters_distinct();
    let listed = texts_or(member(v, "colour_names"@), cmyk_names()).map_values(
        |n: Seq<char>| ink_named(n),
    );
    assert(listed.len() == names@.len());
    assert(load_inks(v) == listed);
}

/// With neither an `inks` nor a `colour_names` array, a session's inks are the
/// four process inks C, M, Y, K.
pub proof fn lemma_no_ink_list_gives_cmyk(v: JsonValue)
    requires
        !(member(v, "inks"@) matches Some(JsonValue::Array(_))),
        !(member(v, "colour_names"@) matches Some(JsonValue::Array(_))),
    ensures
        load_job(v).inks == seq![
            InkModel { kind: InkKind::Cyan, name: "C"@ },
            InkModel { kind: InkKind::Magenta, name: "M"@ },
            InkModel { kind: InkKind::Yellow, name: "Y"@ },
            InkModel { kind: InkKind::Black, name: "K"@ },
        ],
{
    lemma_colour_letters_distinct();
    let listed = cmyk_names().map_values(|n: Seq<char>| ink_named(n));
    assert(listed.len() == 4);
    assert(load_inks(v) == listed);
    assert(load_job(v).inks =~= seq![
        InkModel { kind: InkKind::Cyan, name: "C"@ },
        InkModel { kind: InkKind::Magenta, name: "M"@ },
        InkModel { kind: InkKind::Yellow, name: "Y"@ },
        InkModel { kind: InkKind::Black, name: "K"@ },
    ]);
}

} // verus!

