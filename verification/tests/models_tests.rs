use ink_density::models::{default_inks, default_step_labels, pad_readings, Ink, InkKind, JobConfig, ShapeData, WeightData};

#[test]
fn heading_all_fields() {
    let mut job = JobConfig::default();
    job.customer = "Acme".into();
    job.plate_tech = "CRS".into();
    job.press_system = "XPS".into();
    job.print_type = "RP".into();
    assert_eq!(job.heading(), "Acme — CRS XPS — RP");
}

#[test]
fn heading_with_esxr() {
    let mut job = JobConfig::default();
    job.customer = "TestCo".into();
    job.plate_tech = "QUA".into();
    job.press_system = "XPS".into();
    job.esxr_number = "3245".into();
    job.print_type = "SP".into();
    assert_eq!(job.heading(), "TestCo — QUA XPS 3245 — SP");
}

#[test]
fn heading_partial() {
    let mut job = JobConfig::default();
    job.customer = "Acme".into();
    job.print_type = "RP".into();
    assert_eq!(job.heading(), "Acme — RP");
}

#[test]
fn deviation_excludes_spots() {
    let mut job = JobConfig::default();
    job.inks.push(Ink::spot("PMS 485"));
    // CMYK = indices 0-3, spot = index 4
    let indices = job.deviation_ink_indices();
    assert_eq!(indices, vec![0, 1, 2, 3]);
    assert!(!indices.contains(&4));
}

#[test]
fn weight_resize() {
    let mut w = WeightData::new("150#", 4, 14);
    assert_eq!(w.density.len(), 4);
    w.resize_inks(5);
    assert_eq!(w.density.len(), 5);
    assert_eq!(w.steps[0].len(), 5);
}

#[test]
fn heading_empty_job_is_empty() {
    let job = JobConfig::default();
    assert_eq!(job.heading(), "");
}

#[test]
fn heading_without_customer() {
    let mut job = JobConfig::default();
    job.press_system = "ITP".into();
    job.print_type = "CBW SP".into();
    assert_eq!(job.heading(), "ITP — CBW SP");
}

#[test]
fn default_job_has_cmyk_and_fourteen_steps() {
    let job = JobConfig::default();
    assert_eq!(job.num_inks(), 4);
    assert_eq!(job.num_steps(), 14);
    let names: Vec<&str> = job.inks.iter().map(|i| i.name.as_str()).collect();
    assert_eq!(names, vec!["C", "M", "Y", "K"]);
    assert_eq!(job.step_labels.first().map(|s| s.as_str()), Some("100"));
    assert_eq!(job.step_labels.last().map(|s| s.as_str()), Some("1"));
    assert!(job.shapes.is_empty());
}

#[test]
fn default_step_labels_are_the_standard_scale() {
    let labels = default_step_labels();
    assert_eq!(
        labels,
        vec!["100", "95", "90", "80", "70", "60", "50", "40", "30", "20", "10", "5", "3", "1"]
    );
}

#[test]
fn ink_constructors_and_kinds() {
    assert_eq!(Ink::cyan().name, "C");
    assert_eq!(Ink::magenta().name, "M");
    assert_eq!(Ink::yellow().name, "Y");
    assert_eq!(Ink::black().name, "K");
    assert_eq!(Ink::white().name, "W");
    assert_eq!(Ink::white().kind, InkKind::White);
    assert_eq!(Ink::spot("PMS 485").kind, InkKind::Spot);
    assert!(InkKind::Black.in_deviation_average());
    assert!(!InkKind::White.in_deviation_average());
    assert!(!InkKind::Spot.in_deviation_average());
    assert_eq!(default_inks().len(), 4);
}

#[test]
fn white_and_spot_are_excluded_from_deviation() {
    let mut job = JobConfig::default();
    job.inks = vec![Ink::spot("PMS 1"), Ink::cyan(), Ink::white(), Ink::black()];
    assert_eq!(job.deviation_ink_indices(), vec![1, 3]);
}

#[test]
fn weight_new_is_empty() {
    let w = WeightData::new("120#", 3, 2);
    assert_eq!(w.lpi, "120#");
    assert_eq!(w.density, vec![0u64; 3]);
    assert_eq!(w.steps, vec![vec![0u64; 3], vec![0u64; 3]]);
}

#[test]
fn weight_resize_inks_trims_and_keeps_values() {
    let mut w = WeightData::new("150#", 3, 1);
    w.density = vec![1.5f64.to_bits(), 2.0f64.to_bits(), 3.0f64.to_bits()];
    w.resize_inks(2);
    assert_eq!(w.density, vec![1.5f64.to_bits(), 2.0f64.to_bits()]);
    assert_eq!(w.steps[0].len(), 2);
}

#[test]
fn weight_resize_steps_pads_and_trims() {
    let mut w = WeightData::new("150#", 2, 2);
    w.steps[1][0] = 7.0f64.to_bits();
    w.resize_steps(4, 2);
    assert_eq!(w.steps.len(), 4);
    assert_eq!(w.steps[1][0], 7.0f64.to_bits());
    assert_eq!(w.steps[3], vec![0u64, 0u64]);
    w.resize_steps(1, 2);
    assert_eq!(w.steps.len(), 1);
}

#[test]
fn weight_resize_steps_fits_rows_to_more_inks() {
    let one = 1.0f64.to_bits();
    let mut w = WeightData { lpi: String::new(), density: vec![0u64; 4], steps: vec![vec![one; 4]] };
    w.resize_steps(2, 5);
    assert_eq!(w.steps.len(), 2);
    assert!(w.steps.iter().all(|r| r.len() == 5));
    assert_eq!(w.steps[0][..4], [one; 4]);
    assert_eq!(w.steps[0][4], 0u64);
    assert_eq!(w.steps[1], vec![0u64; 5]);
    assert_eq!(w.density, vec![0u64; 4]);
}

#[test]
fn weight_resize_steps_fits_rows_to_fewer_inks() {
    let a = 2.5f64.to_bits();
    let b = 0.75f64.to_bits();
    let mut w = WeightData { lpi: "200#".into(), density: vec![a; 3], steps: vec![vec![a, b, a, b, a], vec![b; 2]] };
    w.resize_steps(3, 3);
    assert_eq!(w.steps, vec![vec![a, b, a], vec![b, b, 0u64], vec![0u64; 3]]);
    assert_eq!(w.lpi, "200#");
}

#[test]
fn pad_readings_pads_with_empty_cells() {
    let v = vec![1u64, 2u64];
    assert_eq!(pad_readings(&v, 4), vec![1u64, 2u64, 0u64, 0u64]);
    assert_eq!(pad_readings(&v, 1), vec![1u64]);
}

#[test]
fn shape_display_name() {
    let s = ShapeData { dot_type: "CRS".into(), dot_number: "501".into(), weights: vec![] };
    assert_eq!(s.display_name(), "CRS 501");
    let t = ShapeData { dot_type: "HD".into(), dot_number: String::new(), weights: vec![] };
    assert_eq!(t.display_name(), "HD");
}
