use ink_density::models::{JobConfig, ShapeData, WeightData};
use ink_density::svg::{export_svg, ShapeTexts, WeightTexts};

fn job_with_weights(n: usize) -> JobConfig {
    let mut job = JobConfig::default();
    job.customer = "Acme".into();
    job.shapes = vec![ShapeData {
        dot_type: "CRS".into(),
        dot_number: "501".into(),
        weights: (0..n).map(|i| WeightData::new(&format!("{}#", 120 + 10 * i), 4, 14)).collect(),
    }];
    job
}

#[test]
fn empty_job_is_one_blank_page() {
    let svg = export_svg(&JobConfig::default(), &vec![]);
    assert_eq!(
        svg,
        "<?xml version=\"1.0\" encoding=\"UTF-8\"?>\n<svg width=\"842\" height=\"595.00\" viewBox=\"0 0 842 595.00\"\n     xmlns=\"http://www.w3.org/2000/svg\">\n<style>text { font-family: Helvetica, Arial, sans-serif; }</style>\n<g id=\"page0\"><rect x=\"0\" y=\"0\" width=\"842\" height=\"595\" fill=\"white\"/></g>\n</svg>"
    );
}

#[test]
fn shape_without_readings_adds_no_page() {
    let mut job = JobConfig::default();
    job.shapes = vec![ShapeData { dot_type: "HD".into(), dot_number: String::new(), weights: vec![] }];
    let svg = export_svg(&job, &vec![]);
    assert!(svg.contains("height=\"595.00\""));
    assert!(svg.contains("<g id=\"page0\"><rect x=\"0\" y=\"0\" width=\"842\" height=\"595\" fill=\"white\"/></g>"));
}

#[test]
fn three_readings_per_page() {
    let job = job_with_weights(4);
    let svg = export_svg(&job, &vec![]);
    assert!(svg.contains("<svg width=\"842\" height=\"1190.00\" viewBox=\"0 0 842 1190.00\""));
    assert_eq!(svg.matches("<g id=\"page").count(), 2);
    assert!(svg.contains("<g id=\"page0\"><rect x=\"0\" y=\"0.00\" width=\"842\" height=\"595\" fill=\"white\"/>"));
    assert!(svg.contains("</g>\n<g id=\"page1\"><rect x=\"0\" y=\"595.00\" width=\"842\" height=\"595\" fill=\"white\"/>"));
    // LPI label cells: three on the first page, one on the second.
    assert!(svg.contains("<rect x=\"330.00\" y=\"64.00\" width=\"160.00\" height=\"18.00\" fill=\"none\" stroke=\"#000\" stroke-width=\"0.25\"/><text x=\"332.00\" y=\"73.00\" font-size=\"8\" font-family=\"Helvetica, Arial, sans-serif\" font-weight=\"bold\" dominant-baseline=\"middle\">120#</text>"));
    assert!(svg.contains("<rect x=\"496.00\" y=\"64.00\" width=\"160.00\" height=\"18.00\""));
    assert!(svg.contains("<rect x=\"662.00\" y=\"64.00\" width=\"160.00\" height=\"18.00\""));
    assert!(svg.contains("<rect x=\"330.00\" y=\"659.00\" width=\"160.00\" height=\"18.00\" fill=\"none\" stroke=\"#000\" stroke-width=\"0.25\"/><text x=\"332.00\" y=\"668.00\" font-size=\"8\" font-family=\"Helvetica, Arial, sans-serif\" font-weight=\"bold\" dominant-baseline=\"middle\">150#</text>"));
    assert!(!svg.contains("<rect x=\"496.00\" y=\"659.00\""));
}

#[test]
fn header_gutter_and_border() {
    let job = job_with_weights(1);
    let svg = export_svg(&job, &vec![]);
    assert!(svg.contains("<rect x=\"20.00\" y=\"20.00\" width=\"200.00\" height=\"22.00\" fill=\"none\" stroke=\"#000\" stroke-width=\"0.25\"/><text x=\"22.00\" y=\"31.00\" font-size=\"9\" font-family=\"Helvetica, Arial, sans-serif\" font-weight=\"normal\" dominant-baseline=\"middle\">CUSTOMER: Acme</text>"));
    assert!(svg.contains("<text x=\"642.00\" y=\"31.00\" font-size=\"9\" font-family=\"Helvetica, Arial, sans-serif\" font-weight=\"normal\" dominant-baseline=\"middle\">JOB No.: </text>"));
    assert!(svg.contains("<rect x=\"20.00\" y=\"42.00\" width=\"802.00\" height=\"22.00\" fill=\"none\" stroke=\"#000\" stroke-width=\"0.25\"/><text x=\"22.00\" y=\"53.00\" font-size=\"9\" font-family=\"Helvetica, Arial, sans-serif\" font-weight=\"bold\" dominant-baseline=\"middle\">CRS 501</text>"));
    assert!(svg.contains("<rect x=\"20.00\" y=\"82.00\" width=\"310.00\" height=\"14.00\" fill=\"none\" stroke=\"#000\" stroke-width=\"0.25\"/><text x=\"22.00\" y=\"89.00\" font-size=\"7\" font-family=\"Helvetica, Arial, sans-serif\" font-weight=\"bold\" dominant-baseline=\"middle\">D</text><rect x=\"20.00\" y=\"64.00\" width=\"310.00\" height=\"18.00\" fill=\"none\" stroke=\"#000\" stroke-width=\"0.25\"/><rect x=\"20.00\" y=\"96.00\""));
    assert!(svg.contains("<text x=\"22.00\" y=\"299.00\" font-size=\"7\" font-family=\"Helvetica, Arial, sans-serif\" font-weight=\"normal\" dominant-baseline=\"middle\">1</text>"));
    assert!(svg.ends_with("<rect x=\"20.00\" y=\"64.00\" width=\"802.00\" height=\"242.00\" fill=\"none\" stroke=\"#000\" stroke-width=\"0.5\"/></g>\n</svg>"));
}

#[test]
fn reading_texts_fill_cells_and_are_escaped() {
    let job = job_with_weights(1);
    let mut steps = vec![vec![]; 14];
    steps[1] = vec!["95.0".to_string(), String::new(), "<x>".to_string()];
    let texts = vec![ShapeTexts {
        weights: vec![WeightTexts { density: vec!["1.50".into(), "1.60".into()], steps }],
    }];
    let svg = export_svg(&job, &texts);
    // Density for C at the first column of the block.
    assert!(svg.contains("<rect x=\"330.00\" y=\"96.00\" width=\"40.00\" height=\"14.00\" fill=\"none\" stroke=\"#000\" stroke-width=\"0.25\"/><text x=\"332.00\" y=\"103.00\" font-size=\"7\" font-family=\"Helvetica, Arial, sans-serif\" font-weight=\"normal\" dominant-baseline=\"middle\">1.50</text>"));
    // Missing density for Y: an empty cell.
    assert!(svg.contains("<rect x=\"410.00\" y=\"96.00\" width=\"40.00\" height=\"14.00\" fill=\"none\" stroke=\"#000\" stroke-width=\"0.25\"/><rect x=\"450.00\" y=\"96.00\""));
    // Step row 1 (95%) is drawn at 110 + 14.
    assert!(svg.contains("<text x=\"332.00\" y=\"131.00\" font-size=\"7\" font-family=\"Helvetica, Arial, sans-serif\" font-weight=\"normal\" dominant-baseline=\"middle\">95.0</text>"));
    assert!(svg.contains(">&lt;x&gt;</text>"));
}

#[test]
fn many_inks_keep_a_sixty_unit_gutter() {
    let mut job = job_with_weights(1);
    job.inks = (0..7).map(|i| ink_density::models::Ink::spot(&format!("S{i}"))).collect();
    let svg = export_svg(&job, &vec![]);
    assert!(svg.contains("<rect x=\"20.00\" y=\"82.00\" width=\"60.00\" height=\"14.00\""));
    assert!(svg.contains("<rect x=\"80.00\" y=\"64.00\" width=\"280.00\" height=\"18.00\""));
}

#[test]
fn download_names() {
    let mut job = JobConfig::default();
    assert_eq!(ink_density::svg::export_file_name(&job), "export.svg");
    job.job_number = "J-42".into();
    assert_eq!(ink_density::svg::export_file_name(&job), "J-42.svg");
}
