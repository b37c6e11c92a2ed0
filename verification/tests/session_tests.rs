use ink_density::models::{Ink, InkKind, JobConfig, ShapeData, WeightData};
use ink_density::session::{
    ink_from_name, ink_from_value, job_from_value, job_to_value, shape_from_value, weight_from_value, JsonValue,
};

fn text(s: &str) -> JsonValue {
    JsonValue::Text(s.to_string())
}

fn member(k: &str, v: JsonValue) -> (String, JsonValue) {
    (k.to_string(), v)
}

fn num(x: f64) -> JsonValue {
    JsonValue::Number(Some(x.to_bits()))
}

fn make_job() -> JobConfig {
    let mut job = JobConfig::default();
    job.customer = "Acme".into();
    job.plate_tech = "CRS".into();
    job.press_system = "XPS".into();
    job.print_type = "RP".into();
    job.shapes = vec![ShapeData {
        dot_type: "CRS".into(),
        dot_number: "501".into(),
        weights: vec![WeightData::new("150#", 4, 14)],
    }];
    job
}

fn set_member(v: &mut JsonValue, key: &str, value: JsonValue) {
    if let JsonValue::Object(members) = v {
        for m in members.iter_mut() {
            if m.0 == key {
                m.1 = value;
                return;
            }
        }
        members.push((key.to_string(), value));
    }
}

#[test]
fn round_trip() {
    let job = make_job();
    let saved = job_to_value(&job);
    let loaded = job_from_value(&saved);

    assert_eq!(loaded.customer, "Acme");
    assert_eq!(loaded.plate_tech, "CRS");
    assert_eq!(loaded.print_type, "RP");
    assert_eq!(loaded.shapes[0].dot_type, "CRS");
    assert_eq!(loaded.shapes[0].dot_number, "501");
    assert_eq!(loaded.shapes[0].weights[0].lpi, "150#");
    assert_eq!(loaded.shapes[0].weights[0].steps.len(), 14);
    assert_eq!(loaded.shapes[0].weights[0].density.len(), 4);
}

#[test]
fn old_format_colour_names() {
    // An old-format session with colour_names instead of inks.
    let json = JsonValue::Object(vec![
        member("customer", text("OldCo")),
        member("colour_names", JsonValue::Array(vec![text("C"), text("M"), text("Y"), text("K")])),
        member("shapes", JsonValue::Array(vec![])),
    ]);
    let job = job_from_value(&json);
    assert_eq!(job.inks.len(), 4);
    assert_eq!(job.inks[0].name, "C");
}

#[test]
fn step_resize_on_load() {
    // Session saved with 14 steps, loaded into a 16-step context.
    let job = make_job();
    let mut raw = job_to_value(&job);
    let labels = [
        "100", "95", "90", "80", "70", "60", "50", "40", "30", "20", "10", "5", "3", "1", "0.8", "0.4",
    ];
    set_member(&mut raw, "step_labels", JsonValue::Array(labels.iter().map(|s| text(s)).collect()));
    let loaded = job_from_value(&raw);
    assert_eq!(loaded.shapes[0].weights[0].steps.len(), 16);
}

#[test]
fn round_trip_keeps_readings_and_spot_inks() {
    let mut job = make_job();
    job.inks.push(Ink::spot("PMS 485"));
    job.shapes[0].weights[0].resize_inks(5);
    job.shapes[0].weights[0].density[4] = 1.23f64.to_bits();
    job.shapes[0].weights[0].steps[3][2] = 45.5f64.to_bits();
    let loaded = job_from_value(&job_to_value(&job));
    assert_eq!(loaded.inks.len(), 5);
    assert_eq!(loaded.inks[4].kind, InkKind::Spot);
    assert_eq!(loaded.inks[4].name, "PMS 485");
    assert_eq!(loaded.shapes[0].weights[0].density[4], 1.23f64.to_bits());
    assert_eq!(loaded.shapes[0].weights[0].steps[3][2], 45.5f64.to_bits());
    assert_eq!(loaded.step_labels, job.step_labels);
}

#[test]
fn saved_document_lists_fields_in_order() {
    let v = job_to_value(&make_job());
    match v {
        JsonValue::Object(members) => {
            let keys: Vec<&str> = members.iter().map(|m| m.0.as_str()).collect();
            assert_eq!(
                keys,
                vec![
                    "preset_name", "job_name", "job_number", "customer", "plate_tech", "press_system",
                    "esxr_number", "print_type", "date", "set_number", "inks", "step_labels", "shapes"
                ]
            );
        },
        _ => panic!("a job is saved as an object"),
    }
}

#[test]
fn missing_fields_get_defaults() {
    let job = job_from_value(&JsonValue::Object(vec![]));
    assert_eq!(job.customer, "");
    assert_eq!(job.inks.len(), 4);
    assert_eq!(job.inks[3].name, "K");
    assert_eq!(job.step_labels.len(), 14);
    assert!(job.shapes.is_empty());
}

#[test]
fn non_object_document_loads_as_default_job() {
    let job = job_from_value(&JsonValue::Null);
    assert_eq!(job.inks.len(), 4);
    assert_eq!(job.step_labels.len(), 14);
    assert!(job.shapes.is_empty());
}

#[test]
fn unknown_ink_kinds_are_skipped_and_empty_ink_list_defaults() {
    let bad = JsonValue::Object(vec![member("name", text("X")), member("kind", text("purple"))]);
    let json = JsonValue::Object(vec![member("inks", JsonValue::Array(vec![bad]))]);
    let job = job_from_value(&json);
    assert_eq!(job.inks.len(), 4);
    assert_eq!(job.inks[0].name, "C");
}

#[test]
fn ink_from_value_reads_each_kind() {
    for (label, kind) in [
        ("cyan", InkKind::Cyan),
        ("magenta", InkKind::Magenta),
        ("yellow", InkKind::Yellow),
        ("black", InkKind::Black),
        ("white", InkKind::White),
        ("spot", InkKind::Spot),
    ] {
        let v = JsonValue::Object(vec![member("name", text("N")), member("kind", text(label))]);
        let ink = ink_from_value(&v).expect("known kind");
        assert_eq!(ink.kind, kind);
        assert_eq!(ink.name, "N");
    }
    let no_name = JsonValue::Object(vec![member("kind", text("cyan"))]);
    assert!(ink_from_value(&no_name).is_none());
}

#[test]
fn ink_from_name_maps_process_letters() {
    assert_eq!(ink_from_name("C").kind, InkKind::Cyan);
    assert_eq!(ink_from_name("M").kind, InkKind::Magenta);
    assert_eq!(ink_from_name("Y").kind, InkKind::Yellow);
    assert_eq!(ink_from_name("K").kind, InkKind::Black);
    assert_eq!(ink_from_name("W").kind, InkKind::White);
    let spot = ink_from_name("PMS 185");
    assert_eq!(spot.kind, InkKind::Spot);
    assert_eq!(spot.name, "PMS 185");
}

#[test]
fn weight_from_value_pads_and_trims() {
    let v = JsonValue::Object(vec![
        member("lpi", text("175#")),
        member("density", JsonValue::Array(vec![num(1.5), num(1.6), num(1.7), num(1.8), num(1.9)])),
        member("steps", JsonValue::Array(vec![JsonValue::Array(vec![num(100.0)])])),
    ]);
    let w = weight_from_value(&v, 4, 3);
    assert_eq!(w.lpi, "175#");
    assert_eq!(w.density, vec![1.5f64.to_bits(), 1.6f64.to_bits(), 1.7f64.to_bits(), 1.8f64.to_bits()]);
    assert_eq!(w.steps.len(), 3);
    assert_eq!(w.steps[0], vec![100.0f64.to_bits(), 0, 0, 0]);
    assert_eq!(w.steps[2], vec![0u64; 4]);
}

#[test]
fn shape_from_value_reads_names_and_weights() {
    let w = JsonValue::Object(vec![member("lpi", text("150#"))]);
    let v = JsonValue::Object(vec![
        member("dot_type", text("HD")),
        member("dot_number", text("16")),
        member("weights", JsonValue::Array(vec![w])),
    ]);
    let s = shape_from_value(&v, 2, 2);
    assert_eq!(s.display_name(), "HD 16");
    assert_eq!(s.weights.len(), 1);
    assert_eq!(s.weights[0].density, vec![0u64, 0u64]);
}

#[test]
fn old_shape_name_and_weight_label_fields() {
    let w = JsonValue::Object(vec![member("label", text("120#"))]);
    let v = JsonValue::Object(vec![member("name", text("CRS 501")), member("weights", JsonValue::Array(vec![w]))]);
    let s = shape_from_value(&v, 4, 14);
    assert_eq!(s.dot_type, "CRS 501");
    assert_eq!(s.dot_number, "");
    assert_eq!(s.weights[0].lpi, "120#");
    assert_eq!(s.weights[0].steps.len(), 14);
}

#[test]
fn non_numeric_readings_load_as_empty() {
    let v = JsonValue::Object(vec![
        member("lpi", text("150#")),
        member("density", JsonValue::Array(vec![text("x"), JsonValue::Null, num(2.0)])),
    ]);
    let w = weight_from_value(&v, 3, 0);
    assert_eq!(w.density, vec![0u64, 0u64, 2.0f64.to_bits()]);
    assert!(w.steps.is_empty());
}
