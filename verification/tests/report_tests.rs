use ink_density::models::{Ink, InkKind, JobConfig, ShapeData, WeightData};
use ink_density::pantone::{catalogue_entries, is_light, pantone_hex};
use ink_density::report::{
    generate_comparison_report, generate_report, ink_class, ink_header_style, ReportNumbers, RowNumbers, ShapeNumbers,
    WeightNumbers,
};
use ink_density::settings::ReportOrientation;
use ink_density::text::esc;

fn spot_job() -> JobConfig {
    let mut job = JobConfig::default();
    job.inks = vec![Ink::spot("PMS 485")];
    job.step_labels = vec!["100".into(), "50".into()];
    job.shapes = vec![ShapeData {
        dot_type: "CRS".into(),
        dot_number: "501".into(),
        weights: vec![WeightData::new("150#", 1, 2)],
    }];
    job
}

fn row(values: &[&str], avg: &str, dev: &str) -> RowNumbers {
    RowNumbers { values: values.iter().map(|s| s.to_string()).collect(), avg: avg.into(), dev: dev.into() }
}

fn spot_numbers() -> ReportNumbers {
    ReportNumbers {
        shapes: vec![ShapeNumbers {
            weights: vec![WeightNumbers {
                density: vec!["1.50".into()],
                rows: vec![row(&["100.0"], "", ""), row(&["45.0"], "", "")],
            }],
        }],
        targets: vec!["100.0".into(), "72.0".into()],
    }
}

#[test]
fn empty_job_report() {
    let job = JobConfig::default();
    let nums = ReportNumbers { shapes: vec![], targets: vec![] };
    let html = generate_report(&job, &nums, ReportOrientation::Portrait);
    assert!(html.starts_with("<!DOCTYPE html>\n<html lang=\"en\">\n<head>\n<meta charset=\"UTF-8\">\n<title>Ink Density Report</title>\n<style>"));
    assert!(html.contains("@page { size: A4 portrait; margin: 0; }\n</style>\n</head>\n<body class=\"portrait\">\n"));
    assert!(html.contains("<header class=\"report-header\"><div class=\"accent-bar\"></div><div class=\"header-inner\"></div></header>\n<p class=\"empty-note\">No data recorded.</p>\n</body>\n</html>"));
}

#[test]
fn report_title_is_the_escaped_heading() {
    let mut job = JobConfig::default();
    job.customer = "A&B <Co>".into();
    job.print_type = "RP".into();
    let nums = ReportNumbers { shapes: vec![], targets: vec![] };
    let html = generate_report(&job, &nums, ReportOrientation::Portrait);
    assert!(html.contains("<title>A&amp;B &lt;Co&gt; — RP</title>"));
    assert!(html.contains("<div class=\"tag-row\"><span class=\"tag\"><span class=\"tag-label\">Customer:</span> A&amp;B &lt;Co&gt;</span><span class=\"tag\"><span class=\"tag-label\">Print Type:</span> RP</span></div>"));
}

#[test]
fn header_is_job_name_then_label_value_tags() {
    let mut job = JobConfig::default();
    job.job_name = "Gradation <A>".into();
    job.job_number = "J1".into();
    job.set_number = "S2".into();
    job.date = "2024-05-06".into();
    let nums = ReportNumbers { shapes: vec![], targets: vec![] };
    let html = generate_report(&job, &nums, ReportOrientation::Portrait);
    assert!(html.contains(
        "<div class=\"header-inner\"><h1 class=\"job-title\">Gradation &lt;A&gt;</h1><div class=\"tag-row\"><span class=\"tag\"><span class=\"tag-label\">Job Number:</span> J1</span><span class=\"tag\"><span class=\"tag-label\">Date:</span> 2024-05-06</span><span class=\"tag\"><span class=\"tag-label\">Set:</span> S2</span></div></div></header>"
    ));
}

#[test]
fn plate_press_tag_joins_and_empty_fields_are_skipped() {
    let mut job = JobConfig::default();
    job.customer = "Acme".into();
    job.plate_tech = "CRS".into();
    job.press_system = "XPS".into();
    let nums = ReportNumbers { shapes: vec![], targets: vec![] };
    let html = generate_report(&job, &nums, ReportOrientation::Landscape);
    assert!(html.contains(
        "<div class=\"header-inner\"><div class=\"tag-row\"><span class=\"tag\"><span class=\"tag-label\">Customer:</span> Acme</span><span class=\"tag\"><span class=\"tag-label\">Plate/Press:</span> CRS XPS</span></div></div></header>"
    ));
    assert_eq!(html.matches("class=\"tag\"").count(), 2);
    assert!(!html.contains("<h1"));
    job.esxr_number = "3245".into();
    let html = generate_report(&job, &nums, ReportOrientation::Landscape);
    assert!(html.contains("<span class=\"tag-label\">Plate/Press:</span> CRS XPS 3245</span>"));
}

#[test]
fn orientation_sets_the_page_and_body() {
    let job = spot_job();
    let land = generate_report(&job, &spot_numbers(), ReportOrientation::Landscape);
    assert!(land.contains("@page { size: A4 landscape; margin: 0; }\n</style>"));
    assert!(land.contains("<body class=\"landscape\">"));
    assert!(!land.contains("A4 portrait"));
    let port = generate_report(&job, &spot_numbers(), ReportOrientation::Portrait);
    assert!(port.contains("@page { size: A4 portrait; margin: 0; }\n</style>"));
    assert!(port.contains("<body class=\"portrait\">"));
    for html in [&land, &port] {
        assert!(html.contains(".data-table {\n  border-collapse: collapse;\n  table-layout: fixed;\n  width: 100%;"));
        assert!(html.contains("<div class=\"shapes\">\n<section class=\"shape-section\">"));
        assert!(html.contains("</section>\n</div>\n</body>"));
    }
    assert!(land.contains("body.landscape .shapes { display: flex;"));
}

#[test]
fn spot_ink_table() {
    let html = generate_report(&spot_job(), &spot_numbers(), ReportOrientation::Portrait);
    let expected = "<section class=\"shape-section\">\n<div class=\"shape-heading\"><span class=\"shape-label\">CRS 501</span></div>\n<table class=\"data-table\"><thead><tr><th rowspan=\"2\" class=\"th-corner\">Step</th><th colspan=\"1\" class=\"th-lpi-group\"><span class=\"lpi-tag\">LPI</span>150#</th><th rowspan=\"2\" class=\"th-target\">Target</th></tr><tr><th class=\"th-ink ink-spot\" style=\"background-color:#DA291C;color:#ffffff;\">PMS 485</th></tr></thead><tbody><tr class=\"row-density\"><td class=\"td-step\">D</td><td class=\"td-data\">1.50</td><td class=\"td-target\"></td></tr><tr><td class=\"td-step\">100%</td><td class=\"td-data\">100.0</td><td class=\"td-target\">100.0</td></tr><tr><td class=\"td-step\">50%</td><td class=\"td-data\">45.0</td><td class=\"td-target\">72.0</td></tr></tbody></table>\n</section>";
    assert!(html.contains(expected), "{html}");
}

#[test]
fn cmyk_table_has_average_and_deviation_columns() {
    let mut job = JobConfig::default();
    job.step_labels = vec!["50".into()];
    job.shapes = vec![ShapeData {
        dot_type: "HD".into(),
        dot_number: String::new(),
        weights: vec![WeightData::new("120#", 4, 1), WeightData::new("150#", 4, 1)],
    }];
    let w = |d: &str| WeightNumbers {
        density: vec![d.into(), d.into(), d.into(), d.into()],
        rows: vec![row(&["70.0", "71.0", "72.0", "73.0"], "71.5", "-0.5")],
    };
    let nums = ReportNumbers { shapes: vec![ShapeNumbers { weights: vec![w("1.00"), w("2.00")] }], targets: vec!["72.0".into()] };
    let html = generate_report(&job, &nums, ReportOrientation::Portrait);
    assert!(html.contains("<th colspan=\"6\" class=\"th-lpi-group lpi-last\"><span class=\"lpi-tag\">LPI</span>120#</th><th colspan=\"6\" class=\"th-lpi-group\"><span class=\"lpi-tag\">LPI</span>150#</th>"));
    assert!(html.contains("<th class=\"th-avg\">Avg</th><th class=\"th-dev lpi-last\">Dev</th>"));
    assert!(html.contains("<td class=\"td-avg\">71.5</td><td class=\"td-dev lpi-last\">-0.5</td>"));
    assert!(html.contains("<td class=\"td-avg\">71.5</td><td class=\"td-dev\">-0.5</td><td class=\"td-target\">72.0</td></tr>"));
    assert!(html.contains("<td class=\"td-avg\"></td><td class=\"td-dev lpi-last\"></td>"));
}

#[test]
fn shape_without_readings() {
    let mut job = JobConfig::default();
    job.shapes = vec![ShapeData { dot_type: "QUA".into(), dot_number: "7".into(), weights: vec![] }];
    let nums = ReportNumbers { shapes: vec![], targets: vec![] };
    let html = generate_report(&job, &nums, ReportOrientation::Portrait);
    assert!(html.contains("<span class=\"shape-label\">QUA 7</span></div>\n<p class=\"empty-note\">No LPI data.</p>\n</section>"));
}

#[test]
fn ink_classes() {
    assert_eq!(ink_class(&InkKind::Cyan), "ink-c");
    assert_eq!(ink_class(&InkKind::Magenta), "ink-m");
    assert_eq!(ink_class(&InkKind::Yellow), "ink-y");
    assert_eq!(ink_class(&InkKind::Black), "ink-k");
    assert_eq!(ink_class(&InkKind::White), "ink-w");
    assert_eq!(ink_class(&InkKind::Spot), "ink-spot");
}

#[test]
fn spot_header_styles() {
    assert_eq!(ink_header_style(&InkKind::Spot, "PMS 485"), " style=\"background-color:#DA291C;color:#ffffff;\"");
    assert_eq!(ink_header_style(&InkKind::Spot, "Pantone 100 C"), " style=\"background-color:#F4ED7C;color:#1a1a1a;\"");
    assert_eq!(ink_header_style(&InkKind::Spot, "Mystery"), "");
    assert_eq!(ink_header_style(&InkKind::Cyan, "PMS 485"), "");
}

#[test]
fn pantone_lookup_strips_prefixes_and_suffixes() {
    assert_eq!(pantone_hex("485"), Some("DA291C"));
    assert_eq!(pantone_hex("  PMS 485  "), Some("DA291C"));
    assert_eq!(pantone_hex("pms 485 C"), Some("DA291C"));
    assert_eq!(pantone_hex("Pantone® 485 UP"), Some("DA291C"));
    assert_eq!(pantone_hex("Pantone Yellow"), Some("FEDD00"));
    assert_eq!(pantone_hex("PMS 485X"), None);
    assert_eq!(pantone_hex(""), None);
}

fn light_f32(r: u8, g: u8, b: u8) -> bool {
    0.299f32 * r as f32 + 0.587f32 * g as f32 + 0.114f32 * b as f32 > 140.0
}

#[test]
fn is_light_matches_single_precision_weights_near_the_threshold() {
    for r in 0..=255u32 {
        for g in 0..=255u32 {
            for b in 0..=255u32 {
                let w = 299 * r + 587 * g + 114 * b;
                if w + 1500 < 140000 || w > 141500 {
                    continue;
                }
                let hex = format!("{:02X}{:02x}{:02X}", r, g, b);
                assert_eq!(is_light(&hex), light_f32(r as u8, g as u8, b as u8), "{hex}");
            }
        }
    }
}

#[test]
fn is_light_on_the_catalogue_and_extremes() {
    for (name, hex) in catalogue_entries() {
        let r = u8::from_str_radix(&hex[0..2], 16).unwrap();
        let g = u8::from_str_radix(&hex[2..4], 16).unwrap();
        let b = u8::from_str_radix(&hex[4..6], 16).unwrap();
        assert_eq!(is_light(hex), light_f32(r, g, b), "{name}");
    }
    assert!(is_light("FFFFFF"));
    assert!(!is_light("000000"));
    assert!(!is_light("zzzzzz"));
    assert!(!is_light("+F+F+F"));
    assert!(is_light("F8624900"));
}

#[test]
fn escaping() {
    assert_eq!(esc("a<b>&\"c\""), "a&lt;b&gt;&amp;&quot;c&quot;");
    assert_eq!(esc("plain"), "plain");
}

#[test]
fn comparison_of_no_jobs() {
    assert_eq!(
        generate_comparison_report(&[], &[], ReportOrientation::Portrait),
        "<html><body><p>No jobs provided.</p></body></html>"
    );
}

#[test]
fn comparison_shares_common_fields() {
    let mut a = JobConfig::default();
    a.customer = "Acme".into();
    a.job_number = "1".into();
    let mut b = a.clone();
    b.job_number = "2".into();
    let html = generate_comparison_report(&[a, b], &[], ReportOrientation::Landscape);
    assert!(html.contains("<title>Combined Report (2 jobs)</title>"));
    assert!(html.contains("<body class=\"combined landscape\">"));
    assert!(html.contains(
        "<header class=\"report-header shared-banner\"><div class=\"accent-bar\"></div><div class=\"header-inner\"><div class=\"tag-row\"><span class=\"tag\"><span class=\"tag-label\">Customer:</span> Acme</span><span class=\"tag\"><span class=\"tag-label\">Inks:</span> C, M, Y, K</span><span class=\"tag\"><span class=\"tag-label\">Jobs:</span> 2</span></div></div></header>"
    ));
    assert_eq!(html.matches("<span class=\"tag-label\">Customer:</span>").count(), 1);
    assert_eq!(html.matches("<div class=\"job-section\">").count(), 2);
    assert!(html.contains("<div class=\"job-section\"><header class=\"report-header\"><div class=\"accent-bar\"></div><div class=\"header-inner\"><div class=\"tag-row\"><span class=\"tag\"><span class=\"tag-label\">Job Number:</span> 1</span></div></div></header>"));
    assert!(html.contains("<span class=\"tag-label\">Job Number:</span> 2</span>"));
    assert!(html.contains("body.combined .job-section + .job-section { page-break-before: always; break-before: page; }"));
}

#[test]
fn full_tone_row_reads_one_hundred() {
    let mut job = JobConfig::default();
    job.step_labels = vec!["100".into()];
    job.inks = vec![Ink::spot("X"), Ink::spot("Y")];
    job.shapes = vec![ShapeData { dot_type: "HD".into(), dot_number: String::new(), weights: vec![WeightData::new("120#", 2, 1)] }];
    let nums = ReportNumbers {
        shapes: vec![ShapeNumbers { weights: vec![WeightNumbers { density: vec![], rows: vec![row(&["7.0"], "", "")] }] }],
        targets: vec![],
    };
    let html = generate_report(&job, &nums, ReportOrientation::Portrait);
    assert!(html.contains("<td class=\"td-step\">100%</td><td class=\"td-data\">100.0</td><td class=\"td-data\">100.0</td><td class=\"td-target\"></td>"));
    assert!(ink_density::report::is_full_tone("100"));
    assert!(!ink_density::report::is_full_tone("100.0"));
}
