//! Application settings: job presets, step presets, picker options and the
//! few flat path settings.  Reading and writing the settings file is the
//! caller's part; this module holds the defaults, the preset lookups, the
//! flat key access and the rule by which a read is kept and reused.

use vstd::prelude::*;
use crate::models::{extended_steps, standard_steps};
use crate::text::{lemma_views_push, owned, str_eq, views};

verus! {

// ── Preset types ─────────────────────────────────────────────────────────────

/// Controls which metadata fields are visible in the UI for a given job.
#[derive(Clone, Copy, Debug, PartialEq, Eq, Structural)]
pub struct FieldVisibility {
    pub job_name: bool,
    pub job_number: bool,
    pub customer: bool,
    pub plate_tech: bool,
    pub press_system: bool,
    pub esxr_number: bool,
    pub print_type: bool,
    pub date: bool,
    pub set_number: bool,
    pub inks: bool,
    pub lpis: bool,
    pub steps: bool,
}

/// The value a missing visibility flag defaults to.
pub fn yes() -> (b: bool)
    ensures
        b,
{
    true
}

impl Default for FieldVisibility {
    /// Every field shown except the screening spec number.
    fn default() -> (r: Self)
        ensures
            r == (FieldVisibility {
                job_name: true, job_number: true, customer: true,
                plate_tech: true, press_system: true, esxr_number: false,
                print_type: true, date: true, set_number: true,
                inks: true, lpis: true, steps: true,
            }),
    {
        FieldVisibility {
            job_name: true, job_number: true, customer: true,
            plate_tech: true, press_system: true, esxr_number: false,
            print_type: true, date: true, set_number: true,
            inks: true, lpis: true, steps: true,
        }
    }
}

/// How the data entry grid is presented in the UI.
#[derive(Clone, Copy, Debug, PartialEq, Eq, Structural)]
pub enum GridLayout {
    /// Shape tabs → LPI tabs → grid. For multi-shape, multi-LPI jobs.
    Tabbed,
    /// Single flat grid, no tab hierarchy. For quick single-combo scans.
    Flat,
}

impl Default for GridLayout {
    fn default() -> (r: Self)
        ensures
            r == GridLayout::Tabbed,
    {
        GridLayout::Tabbed
    }
}

/// How the export report is laid out.
#[derive(Clone, Copy, Debug, PartialEq, Eq, Structural)]
pub enum ReportLayout {
    Single,
    /// Two sessions side by side / stacked on the same report sheet.
    DualComparison,
}

impl Default for ReportLayout {
    fn default() -> (r: Self)
        ensures
            r == ReportLayout::Single,
    {
        ReportLayout::Single
    }
}

pub struct JobPresetModel {
    pub name: Seq<char>,
    pub fields: FieldVisibility,
    pub grid_layout: GridLayout,
    pub report_layout: ReportLayout,
    pub default_step_preset: Option<Seq<char>>,
}

/// A saved job configuration preset.
#[derive(Clone, Debug)]
pub struct JobPreset {
    pub name: String,
    pub fields: FieldVisibility,
    pub grid_layout: GridLayout,
    pub report_layout: ReportLayout,
    /// Step preset to activate when this job preset is loaded.
    pub default_step_preset: Option<String>,
}

pub open spec fn opt_text(o: Option<String>) -> Option<Seq<char>> {
    match o {
        Some(s) => Some(s@),
        None => None,
    }
}

impl View for JobPreset {
    type V = JobPresetModel;

    open spec fn view(&self) -> JobPresetModel {
        JobPresetModel {
            name: self.name@,
            fields: self.fields,
            grid_layout: self.grid_layout,
            report_layout: self.report_layout,
            default_step_preset: opt_text(self.default_step_preset),
        }
    }
}

impl JobPreset {
    /// A copy of this preset.
    pub fn duplicate(&self) -> (r: Self)
        ensures
            r@ == self@,
    {
        JobPreset {
            name: self.name.clone(),
            fields: self.fields,
            grid_layout: self.grid_layout,
            report_layout: self.report_layout,
            default_step_preset: match &self.default_step_preset {
                Some(s) => Some(s.clone()),
                None => None,
            },
        }
    }
}

pub struct StepPresetModel {
    pub name: Seq<char>,
    pub steps: Seq<Seq<char>>,
}

/// A named, reusable list of step percentage values.
#[derive(Clone, Debug)]
pub struct StepPreset {
    pub name: String,
    /// e.g. ["100","75","50","25","10","2"]
    pub steps: Vec<String>,
}

impl View for StepPreset {
    type V = StepPresetModel;

    open spec fn view(&self) -> StepPresetModel {
        StepPresetModel { name: self.name@, steps: views(self.steps@) }
    }
}

fn copy_texts(v: &Vec<String>) -> (r: Vec<String>)
    ensures
        views(r@) == views(v@),
{
    let mut out: Vec<String> = Vec::new();
    let mut i: usize = 0;
    while i < v.len()
        invariant
            i <= v.len(),
            views(out@) == views(v@).take(i as int),
        decreases v.len() - i,
    {
        let s = v[i].clone();
        proof { lemma_views_push(out@, s); }
        out.push(s);
        i = i + 1;
        assert(views(out@) =~= views(v@).take(i as int));
    }
    assert(views(v@).take(v.len() as int) =~= views(v@));
    out
}

fn texts_from(labels: &[&str]) -> (r: Vec<String>)
    ensures
        r@.len() == labels@.len(),
        forall|i: int| 0 <= i < labels@.len() ==> #[trigger] r@[i]@ == labels@[i]@,
{
    let mut out: Vec<String> = Vec::new();
    let mut i: usize = 0;
    while i < labels.len()
        invariant
            i <= labels.len(),
            out@.len() == i,
            forall|k: int| 0 <= k < i ==> #[trigger] out@[k]@ == labels@[k]@,
        decreases labels.len() - i,
    {
        out.push(owned(labels[i]));
        i = i + 1;
    }
    out
}

impl StepPreset {
    pub fn standard_14() -> (r: Self)
        ensures
            r@.name == "Standard 14"@,
            r@.steps == standard_steps(),
    {
        let steps = texts_from(
            &["100", "95", "90", "80", "70", "60", "50", "40", "30", "20", "10", "5", "3", "1"],
        );
        assert(views(steps@) =~= standard_steps());
        StepPreset { name: owned("Standard 14"), steps }
    }

    pub fn extended_16() -> (r: Self)
        ensures
            r@.name == "Extended 16"@,
            r@.steps == extended_steps(),
    {
        let steps = texts_from(
            &[
                "100", "95", "90", "80", "70", "60", "50", "40", "30", "20", "10", "5", "3", "1",
                "0.8", "0.4",
            ],
        );
        assert(views(steps@) =~= extended_steps());
        StepPreset { name: owned("Extended 16"), steps }
    }

    /// A copy of this preset.
    pub fn duplicate(&self) -> (r: Self)
        ensures
            r@ == self@,
    {
        StepPreset { name: self.name.clone(), steps: copy_texts(&self.steps) }
    }
}


// ── Report orientation ───────────────────────────────────────────────────────

/// Page orientation of the HTML report: landscape sets the shapes side by
/// side, portrait stacks them.
#[derive(Clone, Copy, Debug, PartialEq, Eq, Structural)]
pub enum ReportOrientation {
    Landscape,
    Portrait,
}

impl Default for ReportOrientation {
    fn default() -> (r: Self)
        ensures
            r == ReportOrientation::Landscape,
    {
        ReportOrientation::Landscape
    }
}

// ── Settings root ────────────────────────────────────────────────────────────

pub struct SettingsModel {
    pub job_presets: Seq<JobPresetModel>,
    pub step_presets: Seq<StepPresetModel>,
    pub dot_types: Seq<Seq<char>>,
    pub lpi_values: Seq<Seq<char>>,
    pub last_session_path: Seq<char>,
    pub illustrator_path: Seq<char>,
    pub ai_template: Seq<char>,
    pub ai_template_extended: Seq<char>,
    pub report_orientation: ReportOrientation,
}

#[derive(Clone, Debug)]
pub struct Settings {
    pub job_presets: Vec<JobPreset>,
    pub step_presets: Vec<StepPreset>,
    /// Saved dot type options shown in the shape picker (e.g. "CRS", "HD").
    pub dot_types: Vec<String>,
    /// Saved LPI values shown in the LPI picker (e.g. "150#", "175#").
    pub lpi_values: Vec<String>,
    pub last_session_path: String,
    /// Illustrator bridge paths.
    pub illustrator_path: String,
    pub ai_template: String,
    pub ai_template_extended: String,
    /// Page orientation of the HTML report.
    pub report_orientation: ReportOrientation,
}

pub open spec fn job_preset_views(v: Seq<JobPreset>) -> Seq<JobPresetModel> {
    v.map_values(|p: JobPreset| p@)
}

pub open spec fn step_preset_views(v: Seq<StepPreset>) -> Seq<StepPresetModel> {
    v.map_values(|p: StepPreset| p@)
}

proof fn lemma_job_preset_views_push(v: Seq<JobPreset>, p: JobPreset)
    ensures
        job_preset_views(v.push(p)) == job_preset_views(v).push(p@),
{
    assert(job_preset_views(v.push(p)) =~= job_preset_views(v).push(p@));
}

proof fn lemma_step_preset_views_push(v: Seq<StepPreset>, p: StepPreset)
    ensures
        step_preset_views(v.push(p)) == step_preset_views(v).push(p@),
{
    assert(step_preset_views(v.push(p)) =~= step_preset_views(v).push(p@));
}

impl View for Settings {
    type V = SettingsModel;

    open spec fn view(&self) -> SettingsModel {
        SettingsModel {
            job_presets: job_preset_views(self.job_presets@),
            step_presets: step_preset_views(self.step_presets@),
            dot_types: views(self.dot_types@),
            lpi_values: views(self.lpi_values@),
            last_session_path: self.last_session_path@,
            illustrator_path: self.illustrator_path@,
            ai_template: self.ai_template@,
            ai_template_extended: self.ai_template_extended@,
            report_orientation: self.report_orientation,
        }
    }
}

pub open spec fn default_dot_type_names() -> Seq<Seq<char>> {
    seq!["CRS"@, "HD"@, "ESXR"@, "QUA"@, "SQUA"@]
}

pub open spec fn default_lpi_names() -> Seq<Seq<char>> {
    seq!["120#"@, "150#"@, "175#"@, "200#"@]
}

/// The built-in job presets: "Gradation Strip" (tabbed grid, standard steps)
/// and "Sample Scan" (flat grid, no default step preset).
pub open spec fn builtin_job_presets() -> Seq<JobPresetModel> {
    seq![
        JobPresetModel {
            name: "Gradation Strip"@,
            fields: FieldVisibility {
                job_name: false, job_number: true, customer: true,
                plate_tech: true, press_system: true, esxr_number: false,
                print_type: true, date: true, set_number: true,
                inks: false, lpis: true, steps: true,
            },
            grid_layout: GridLayout::Tabbed,
            report_layout: ReportLayout::Single,
            default_step_preset: Some("Standard 14"@),
        },
        JobPresetModel {
            name: "Sample Scan"@,
            fields: FieldVisibility {
                job_name: true, job_number: true, customer: true,
                plate_tech: true, press_system: true, esxr_number: true,
                print_type: true, date: true, set_number: false,
                inks: true, lpis: false, steps: true,
            },
            grid_layout: GridLayout::Flat,
            report_layout: ReportLayout::Single,
            default_step_preset: None,
        },
    ]
}

/// The built-in step presets: "Standard 14" and "Extended 16".
pub open spec fn builtin_step_presets() -> Seq<StepPresetModel> {
    seq![
        StepPresetModel { name: "Standard 14"@, steps: standard_steps() },
        StepPresetModel { name: "Extended 16"@, steps: extended_steps() },
    ]
}

pub fn default_dot_types() -> (r: Vec<String>)
    ensures
        views(r@) == default_dot_type_names(),
{
    let r = texts_from(&["CRS", "HD", "ESXR", "QUA", "SQUA"]);
    assert(views(r@) =~= default_dot_type_names());
    r
}

pub fn default_lpi_values() -> (r: Vec<String>)
    ensures
        views(r@) == default_lpi_names(),
{
    let r = texts_from(&["120#", "150#", "175#", "200#"]);
    assert(views(r@) =~= default_lpi_names());
    r
}

pub fn default_job_presets() -> (r: Vec<JobPreset>)
    ensures
        job_preset_views(r@) == builtin_job_presets(),
{
    let mut v: Vec<JobPreset> = Vec::new();
    v.push(JobPreset {
        name: owned("Gradation Strip"),
        fields: FieldVisibility {
            job_name: false, job_number: true, customer: true,
            plate_tech: true, press_system: true, esxr_number: false,
            print_type: true, date: true, set_number: true,
            inks: false, lpis: true, steps: true,
        },
        grid_layout: GridLayout::Tabbed,
        report_layout: ReportLayout::Single,
        default_step_preset: Some(owned("Standard 14")),
    });
    v.push(JobPreset {
        name: owned("Sample Scan"),
        fields: FieldVisibility {
            job_name: true, job_number: true, customer: true,
            plate_tech: true, press_system: true, esxr_number: true,
            print_type: true, date: true, set_number: false,
            inks: true, lpis: false, steps: true,
        },
        grid_layout: GridLayout::Flat,
        report_layout: ReportLayout::Single,
        default_step_preset: None,
    });
    assert(job_preset_views(v@) =~= builtin_job_presets());
    v
}

pub fn default_step_presets() -> (r: Vec<StepPreset>)
    ensures
        step_preset_views(r@) == builtin_step_presets(),
{
    let mut v: Vec<StepPreset> = Vec::new();
    v.push(StepPreset::standard_14());
    v.push(StepPreset::extended_16());
    assert(step_preset_views(v@) =~= builtin_step_presets());
    v
}

impl Default for Settings {
    fn default() -> (r: Self)
        ensures
            r@ == Settings::default_model(),
    {
        Settings {
            job_presets: default_job_presets(),
            step_presets: default_step_presets(),
            dot_types: default_dot_types(),
            lpi_values: default_lpi_values(),
            last_session_path: String::new(),
            illustrator_path: String::new(),
            ai_template: String::new(),
            ai_template_extended: String::new(),
            report_orientation: ReportOrientation::Landscape,
        }
    }
}

/// The first step preset named `name`.
pub open spec fn step_preset_named(ps: Seq<StepPresetModel>, name: Seq<char>) -> Option<StepPresetModel>
    decreases ps.len(),
{
    if ps.len() == 0 {
        None
    } else if ps[0].name == name {
        Some(ps[0])
    } else {
        step_preset_named(ps.drop_first(), name)
    }
}

/// The first job preset named `name`.
pub open spec fn job_preset_named(ps: Seq<JobPresetModel>, name: Seq<char>) -> Option<JobPresetModel>
    decreases ps.len(),
{
    if ps.len() == 0 {
        None
    } else if ps[0].name == name {
        Some(ps[0])
    } else {
        job_preset_named(ps.drop_first(), name)
    }
}

pub open spec fn opt_step_view(o: Option<&StepPreset>) -> Option<StepPresetModel> {
    match o {
        Some(p) => Some(p@),
        None => None,
    }
}

pub open spec fn opt_job_view(o: Option<&JobPreset>) -> Option<JobPresetModel> {
    match o {
        Some(p) => Some(p@),
        None => None,
    }
}

/// The four flat path settings reachable by key.
pub open spec fn flat_value(s: SettingsModel, key: Seq<char>) -> Option<Seq<char>> {
    if key == "last_session_path"@ {
        Some(s.last_session_path)
    } else if key == "illustrator_path"@ {
        Some(s.illustrator_path)
    } else if key == "ai_template"@ {
        Some(s.ai_template)
    } else if key == "ai_template_extended"@ {
        Some(s.ai_template_extended)
    } else {
        None
    }
}

/// `s` with the flat setting `key` set to `value`; unknown keys change nothing.
pub open spec fn patched(s: SettingsModel, key: Seq<char>, value: Seq<char>) -> SettingsModel {
    if key == "last_session_path"@ {
        SettingsModel { last_session_path: value, ..s }
    } else if key == "illustrator_path"@ {
        SettingsModel { illustrator_path: value, ..s }
    } else if key == "ai_template"@ {
        SettingsModel { ai_template: value, ..s }
    } else if key == "ai_template_extended"@ {
        SettingsModel { ai_template_extended: value, ..s }
    } else {
        s
    }
}

impl Settings {
    pub fn find_step_preset(&self, name: &str) -> (r: Option<&StepPreset>)
        ensures
            opt_step_view(r) == step_preset_named(self@.step_presets, name@),
    {
        let ghost ps = self@.step_presets;
        assert(ps.skip(0) =~= ps);
        let mut i: usize = 0;
        while i < self.step_presets.len()
            invariant
                ps == self@.step_presets,
                i <= self.step_presets.len(),
                step_preset_named(ps, name@) == step_preset_named(ps.skip(i as int), name@),
            decreases self.step_presets.len() - i,
        {
            assert(ps.skip(i as int).drop_first() =~= ps.skip(i + 1));
            if str_eq(self.step_presets[i].name.as_str(), name) {
                return Some(&self.step_presets[i]);
            }
            i = i + 1;
        }
        None
    }

    pub fn find_job_preset(&self, name: &str) -> (r: Option<&JobPreset>)
        ensures
            opt_job_view(r) == job_preset_named(self@.job_presets, name@),
    {
        let ghost ps = self@.job_presets;
        assert(ps.skip(0) =~= ps);
        let mut i: usize = 0;
        while i < self.job_presets.len()
            invariant
                ps == self@.job_presets,
                i <= self.job_presets.len(),
                job_preset_named(ps, name@) == job_preset_named(ps.skip(i as int), name@),
            decreases self.job_presets.len() - i,
        {
            assert(ps.skip(i as int).drop_first() =~= ps.skip(i + 1));
            if str_eq(self.job_presets[i].name.as_str(), name) {
                return Some(&self.job_presets[i]);
            }
            i = i + 1;
        }
        None
    }

    /// A copy of these settings.
    pub fn duplicate(&self) -> (r: Self)
        ensures
            r@ == self@,
    {
        let mut jp: Vec<JobPreset> = Vec::new();
        let mut i: usize = 0;
        while i < self.job_presets.len()
            invariant
                i <= self.job_presets.len(),
                job_preset_views(jp@) == job_preset_views(self.job_presets@).take(i as int),
            decreases self.job_presets.len() - i,
        {
            let p = self.job_presets[i].duplicate();
            proof { lemma_job_preset_views_push(jp@, p); }
            jp.push(p);
            i = i + 1;
            assert(job_preset_views(jp@) =~= job_preset_views(self.job_presets@).take(i as int));
        }
        let mut sp: Vec<StepPreset> = Vec::new();
        let mut i: usize = 0;
        while i < self.step_presets.len()
            invariant
                i <= self.step_presets.len(),
                job_preset_views(jp@) == job_preset_views(self.job_presets@),
                step_preset_views(sp@) == step_preset_views(self.step_presets@).take(i as int),
            decreases self.step_presets.len() - i,
        {
            let p = self.step_presets[i].duplicate();
            proof { lemma_step_preset_views_push(sp@, p); }
            sp.push(p);
            i = i + 1;
            assert(step_preset_views(sp@) =~= step_preset_views(self.step_presets@).take(i as int));
        }
        proof {
            assert(job_preset_views(self.job_presets@).take(self.job_presets.len() as int)
                =~= job_preset_views(self.job_presets@));
            assert(step_preset_views(self.step_presets@).take(self.step_presets.len() as int)
                =~= step_preset_views(self.step_presets@));
        }
        Settings {
            job_presets: jp,
            step_presets: sp,
            dot_types: copy_texts(&self.dot_types),
            lpi_values: copy_texts(&self.lpi_values),
            last_session_path: self.last_session_path.clone(),
            illustrator_path: self.illustrator_path.clone(),
            ai_template: self.ai_template.clone(),
            ai_template_extended: self.ai_template_extended.clone(),
            report_orientation: self.report_orientation,
        }
    }
}

// ── Flat key access ──────────────────────────────────────────────────────────

/// The flat string settings, in key order.
pub open spec fn flat_keys() -> Seq<Seq<char>> {
    seq!["last_session_path"@, "illustrator_path"@, "ai_template"@, "ai_template_extended"@]
}

impl Settings {
    /// Every flat string setting with its key: the map the web API offers.
    pub fn to_flat_map(&self) -> (r: Vec<(String, String)>)
        ensures
            r@.len() == flat_keys().len(),
            forall|i: int|
                0 <= i < r@.len() ==> (#[trigger] r@[i]).0@ == flat_keys()[i] && flat_value(self@, flat_keys()[i])
                    == Some(r@[i].1@),
    {
        let mut m: Vec<(String, String)> = Vec::new();
        m.push((owned("last_session_path"), self.last_session_path.clone()));
        m.push((owned("illustrator_path"), self.illustrator_path.clone()));
        m.push((owned("ai_template"), self.ai_template.clone()));
        m.push((owned("ai_template_extended"), self.ai_template_extended.clone()));
        proof {
            reveal_strlit("last_session_path");
            reveal_strlit("illustrator_path");
            reveal_strlit("ai_template");
            reveal_strlit("ai_template_extended");
        }
        m
    }
}

/// Read a single flat string setting; "" for an unknown key.
pub fn get_str(settings: &Settings, key: &str) -> (r: String)
    ensures
        r@ == match flat_value(settings@, key@) {
            Some(v) => v,
            None => Seq::<char>::empty(),
        },
{
    if str_eq(key, "last_session_path") {
        settings.last_session_path.clone()
    } else if str_eq(key, "illustrator_path") {
        settings.illustrator_path.clone()
    } else if str_eq(key, "ai_template") {
        settings.ai_template.clone()
    } else if str_eq(key, "ai_template_extended") {
        settings.ai_template_extended.clone()
    } else {
        String::new()
    }
}

/// Set a flat string setting; a value that is not a string sets "", and an
/// unknown key changes nothing.
pub fn patch(settings: &mut Settings, key: &str, value: Option<&str>)
    ensures
        final(settings)@ == patched(
            old(settings)@,
            key@,
            match value {
                Some(v) => v@,
                None => Seq::<char>::empty(),
            },
        ),
{
    let text = match value {
        Some(v) => owned(v),
        None => String::new(),
    };
    if str_eq(key, "last_session_path") {
        settings.last_session_path = text;
    } else if str_eq(key, "illustrator_path") {
        settings.illustrator_path = text;
    } else if str_eq(key, "ai_template") {
        settings.ai_template = text;
    } else if str_eq(key, "ai_template_extended") {
        settings.ai_template_extended = text;
    }
}

// ── Reading once ─────────────────────────────────────────────────────────────

pub open spec fn opt_settings_view(o: Option<Settings>) -> Option<SettingsModel> {
    match o {
        Some(s) => Some(s@),
        None => None,
    }
}

/// The settings read so far: a copy of the kept settings, or `None` when
/// nothing has been read yet and the caller must read the file.
pub fn load(cache: &Option<Settings>) -> (r: Option<Settings>)
    ensures
        opt_settings_view(r) == opt_settings_view(*cache),
{
    match cache {
        Some(s) => Some(s.duplicate()),
        None => None,
    }
}

/// What a read of the settings file yields: the parsed settings, or the
/// defaults when there is no settings location, no readable file, or the
/// file does not parse.
pub fn read_or_default(parsed: Option<Settings>) -> (r: Settings)
    ensures
        match parsed {
            Some(s) => r@ == s@,
            None => r@ == Settings::default_model(),
        },
{
    match parsed {
        Some(s) => s,
        None => Settings::default(),
    }
}

/// Keeps `s` as the settings later `load` calls return, and hands back a copy.
pub fn keep(cache: &mut Option<Settings>, s: Settings) -> (r: Settings)
    ensures
        opt_settings_view(*final(cache)) == Some(s@),
        r@ == s@,
{
    let copy = s.duplicate();
    *cache = Some(s);
    copy
}

impl Settings {
    pub open spec fn default_model() -> SettingsModel {
        SettingsModel {
            job_presets: builtin_job_presets(),
            step_presets: builtin_step_presets(),
            dot_types: default_dot_type_names(),
            lpi_values: default_lpi_names(),
            last_session_path: Seq::empty(),
            illustrator_path: Seq::empty(),
            ai_template: Seq::empty(),
            ai_template_extended: Seq::empty(),
            report_orientation: ReportOrientation::Landscape,
        }
    }
}


// ── Laws ─────────────────────────────────────────────────────────────────────

proof fn lemma_flat_keys_distinct()
    ensures
        "last_session_path"@ != "illustrator_path"@,
        "last_session_path"@ != "ai_template"@,
        "last_session_path"@ != "ai_template_extended"@,
        "illustrator_path"@ != "ai_template"@,
        "illustrator_path"@ != "ai_template_extended"@,
        "ai_template"@ != "ai_template_extended"@,
{
    reveal_strlit("last_session_path");
    reveal_strlit("illustrator_path");
    reveal_strlit("ai_template");
    reveal_strlit("ai_template_extended");
    assert("last_session_path"@.len() == 17);
    assert("illustrator_path"@.len() == 16);
    assert("ai_template"@.len() == 11);
    assert("ai_template_extended"@.len() == 20);
}

/// Patching a flat setting and reading it back gives the patched value; every
/// other flat setting, and everything else in the settings, is unchanged.
pub proof fn lemma_patch_then_get(s: SettingsModel, key: Seq<char>, value: Seq<char>)
    requires
        flat_value(s, key) is Some,
    ensures
        flat_value(patched(s, key, value), key) == Some(value),
        forall|other: Seq<char>| other != key ==> #[trigger] flat_value(patched(s, key, value), other)
            == flat_value(s, other),
        patched(s, key, value).job_presets == s.job_presets,
        patched(s, key, value).step_presets == s.step_presets,
        patched(s, key, value).dot_types == s.dot_types,
        patched(s, key, value).lpi_values == s.lpi_values,
{
    lemma_flat_keys_distinct();
}

/// An unknown key reads as nothing and patching it changes nothing.
pub proof fn lemma_patch_unknown_key(s: SettingsModel, key: Seq<char>, value: Seq<char>)
    requires
        flat_value(s, key) is None,
    ensures
        patched(s, key, value) == s,
{
}

/// The extended scale is the standard scale followed by 0.8 and 0.4.
pub proof fn lemma_extended_extends_standard()
    ensures
        extended_steps().len() == 16,
        standard_steps().len() == 14,
        extended_steps().take(14) == standard_steps(),
        extended_steps()[14] == "0.8"@,
        extended_steps()[15] == "0.4"@,
{
    assert(extended_steps().take(14) =~= standard_steps());
}

} // verus!
