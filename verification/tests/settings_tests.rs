use ink_density::settings::ReportOrientation;
use ink_density::settings::{
    default_dot_types, default_job_presets, default_lpi_values, default_step_presets, get_str, keep, load, patch,
    read_or_default, yes, FieldVisibility, GridLayout, ReportLayout, Settings, StepPreset,
};

#[test]
fn step_presets_standard_and_extended() {
    let s = StepPreset::standard_14();
    assert_eq!(s.name, "Standard 14");
    assert_eq!(s.steps.len(), 14);
    let e = StepPreset::extended_16();
    assert_eq!(e.name, "Extended 16");
    assert_eq!(e.steps.len(), 16);
    assert_eq!(&e.steps[..14], &s.steps[..]);
    assert_eq!(e.steps[14], "0.8");
    assert_eq!(e.steps[15], "0.4");
}

#[test]
fn default_lists() {
    assert_eq!(default_dot_types(), vec!["CRS", "HD", "ESXR", "QUA", "SQUA"]);
    assert_eq!(default_lpi_values(), vec!["120#", "150#", "175#", "200#"]);
    let steps = default_step_presets();
    assert_eq!(steps.len(), 2);
    assert_eq!(steps[0].name, "Standard 14");
    assert_eq!(steps[1].name, "Extended 16");
    assert!(yes());
}

#[test]
fn default_job_presets_match_the_shipped_ones() {
    let p = default_job_presets();
    assert_eq!(p.len(), 2);
    assert_eq!(p[0].name, "Gradation Strip");
    assert!(!p[0].fields.job_name && p[0].fields.job_number && !p[0].fields.inks);
    assert_eq!(p[0].grid_layout, GridLayout::Tabbed);
    assert_eq!(p[0].report_layout, ReportLayout::Single);
    assert_eq!(p[0].default_step_preset.as_deref(), Some("Standard 14"));
    assert_eq!(p[1].name, "Sample Scan");
    assert!(p[1].fields.esxr_number && !p[1].fields.set_number && !p[1].fields.lpis);
    assert_eq!(p[1].grid_layout, GridLayout::Flat);
    assert_eq!(p[1].default_step_preset, None);
}

#[test]
fn field_visibility_default_hides_only_esxr() {
    let f = FieldVisibility::default();
    assert!(f.job_name && f.job_number && f.customer && f.plate_tech && f.press_system);
    assert!(!f.esxr_number);
    assert!(f.print_type && f.date && f.set_number && f.inks && f.lpis && f.steps);
    assert_eq!(GridLayout::default(), GridLayout::Tabbed);
    assert_eq!(ReportLayout::default(), ReportLayout::Single);
}

#[test]
fn default_settings() {
    let s = Settings::default();
    assert_eq!(s.job_presets.len(), 2);
    assert_eq!(s.step_presets.len(), 2);
    assert_eq!(s.dot_types.len(), 5);
    assert_eq!(s.lpi_values.len(), 4);
    assert_eq!(s.last_session_path, "");
    assert_eq!(s.illustrator_path, "");
}

#[test]
fn find_presets_by_name() {
    let s = Settings::default();
    assert_eq!(s.find_step_preset("Extended 16").map(|p| p.steps.len()), Some(16));
    assert!(s.find_step_preset("Nope").is_none());
    assert_eq!(s.find_job_preset("Sample Scan").map(|p| p.grid_layout.clone()), Some(GridLayout::Flat));
    assert!(s.find_job_preset("sample scan").is_none());
}

#[test]
fn find_returns_the_first_of_equal_names() {
    let mut s = Settings::default();
    let mut dup = StepPreset::standard_14();
    dup.steps.truncate(3);
    s.step_presets.push(dup);
    assert_eq!(s.find_step_preset("Standard 14").map(|p| p.steps.len()), Some(14));
}

#[test]
fn patch_then_get_str() {
    let mut s = Settings::default();
    patch(&mut s, "last_session_path", Some("/tmp/job.json"));
    assert_eq!(get_str(&s, "last_session_path"), "/tmp/job.json");
    patch(&mut s, "ai_template", Some("C:/t.ai"));
    assert_eq!(get_str(&s, "ai_template"), "C:/t.ai");
    assert_eq!(get_str(&s, "last_session_path"), "/tmp/job.json");
    patch(&mut s, "illustrator_path", None);
    assert_eq!(get_str(&s, "illustrator_path"), "");
}

#[test]
fn unknown_keys_read_empty_and_patch_nothing() {
    let mut s = Settings::default();
    patch(&mut s, "colour", Some("red"));
    assert_eq!(get_str(&s, "colour"), "");
    assert_eq!(get_str(&s, "last_session_path"), "");
    assert_eq!(get_str(&s, "ai_template_extended"), "");
}

#[test]
fn settings_are_read_once() {
    let mut cache: Option<Settings> = None;
    assert!(load(&cache).is_none());
    let mut read = read_or_default(None);
    read.last_session_path = "/a".into();
    let first = keep(&mut cache, read);
    assert_eq!(first.last_session_path, "/a");
    let again = load(&cache).expect("kept settings are loaded");
    assert_eq!(again.last_session_path, "/a");
}

#[test]
fn read_or_default_uses_parsed_settings() {
    let mut parsed = Settings::default();
    parsed.dot_types = vec!["X".into()];
    assert_eq!(read_or_default(Some(parsed)).dot_types, vec!["X"]);
    assert_eq!(read_or_default(None).dot_types.len(), 5);
}

#[test]
fn flat_map_lists_every_string_setting() {
    let mut s = Settings::default();
    s.ai_template = "t.ai".into();
    let m = s.to_flat_map();
    let pairs: Vec<(&str, &str)> = m.iter().map(|(k, v)| (k.as_str(), v.as_str())).collect();
    assert_eq!(
        pairs,
        vec![("last_session_path", ""), ("illustrator_path", ""), ("ai_template", "t.ai"), ("ai_template_extended", "")]
    );
}

#[test]
fn report_orientation_defaults_to_landscape() {
    assert_eq!(Settings::default().report_orientation, ReportOrientation::Landscape);
    assert_eq!(ReportOrientation::default(), ReportOrientation::Landscape);
    let mut cache: Option<Settings> = None;
    let mut s = Settings::default();
    s.report_orientation = ReportOrientation::Portrait;
    keep(&mut cache, s);
    assert_eq!(load(&cache).unwrap().report_orientation, ReportOrientation::Portrait);
}
