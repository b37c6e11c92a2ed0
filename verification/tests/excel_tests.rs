use ink_density::excel::{addr, col_letter, plan_workbook, sheet_name, weight_sheet_cells, SheetNumbers, SheetRow};
use ink_density::models::{Ink, JobConfig, ShapeData, WeightData};

fn cells_of(v: &[ink_density::excel::SheetCell]) -> Vec<(String, String)> {
    v.iter().map(|c| (c.address.clone(), c.text.clone())).collect()
}

fn pair(a: &str, t: &str) -> (String, String) {
    (a.to_string(), t.to_string())
}

#[test]
fn column_letters() {
    assert_eq!(col_letter(0), "");
    assert_eq!(col_letter(1), "A");
    assert_eq!(col_letter(26), "Z");
    assert_eq!(col_letter(27), "AA");
    assert_eq!(col_letter(52), "AZ");
    assert_eq!(col_letter(53), "BA");
    assert_eq!(col_letter(702), "ZZ");
    assert_eq!(col_letter(703), "AAA");
    assert_eq!(col_letter(16384), "XFD");
}

#[test]
fn column_letters_read_back() {
    for n in 1..=20000u32 {
        let s = col_letter(n);
        let back = s.chars().fold(0u32, |acc, c| acc * 26 + (c as u32 - 'A' as u32 + 1));
        assert_eq!(back, n);
    }
}

#[test]
fn addresses() {
    assert_eq!(addr(1, 1), "A1");
    assert_eq!(addr(6, 4), "F4");
    assert_eq!(addr(28, 105), "AB105");
}

#[test]
fn sheet_names() {
    let shape = ShapeData { dot_type: "CRS".into(), dot_number: "501".into(), weights: vec![] };
    assert_eq!(sheet_name(&shape, &WeightData::new("150#", 4, 1)), "CRS 501 - 150#");
    assert_eq!(sheet_name(&shape, &WeightData::new("", 4, 1)), "CRS 501");
    let odd = ShapeData { dot_type: "A[b]:c*d?e/f\\g".into(), dot_number: String::new(), weights: vec![] };
    assert_eq!(sheet_name(&odd, &WeightData::new("", 1, 1)), "A_b__c_d_e_f_g");
    let long = ShapeData { dot_type: "X".repeat(40), dot_number: String::new(), weights: vec![] };
    assert_eq!(sheet_name(&long, &WeightData::new("", 1, 1)), "X".repeat(31));
    let empty = ShapeData { dot_type: String::new(), dot_number: String::new(), weights: vec![] };
    assert_eq!(sheet_name(&empty, &WeightData::new("", 1, 1)), "Sheet");
}

fn small_job() -> JobConfig {
    let mut job = JobConfig::default();
    job.customer = "Acme".into();
    job.date = "2024-01-02".into();
    job.inks = vec![Ink::cyan(), Ink::spot("PMS 1")];
    job.step_labels = vec!["100".into(), "50".into()];
    job.shapes = vec![ShapeData {
        dot_type: "CRS".into(),
        dot_number: "501".into(),
        weights: vec![WeightData::new("150#", 2, 2)],
    }];
    job
}

#[test]
fn weight_sheet_layout() {
    let job = small_job();
    let nums = SheetNumbers {
        density: vec!["1.50".into(), String::new()],
        rows: vec![
            SheetRow { values: vec![], avg: "100.0".into(), dev: Some("0".into()) },
            SheetRow { values: vec!["70.0".into(), "60.0".into()], avg: "70.0".into(), dev: None },
        ],
    };
    let cells = weight_sheet_cells(&job, &job.shapes[0], &job.shapes[0].weights[0], &nums);
    assert_eq!(
        cells_of(&cells),
        vec![
            pair("A1", "Acme"),
            pair("D1", "2024-01-02"),
            pair("A2", "CRS 501 — 150#"),
            pair("A3", "Step"),
            pair("B3", "C"),
            pair("C3", "PMS 1"),
            pair("D3", "Avg"),
            pair("E3", "Dev"),
            pair("A4", "Max Density"),
            pair("B4", "1.50"),
            pair("A5", "100"),
            pair("B5", "100.0"),
            pair("C5", "100.0"),
            pair("D5", "100.0"),
            pair("E5", "0"),
            pair("A6", "50"),
            pair("B6", "70.0"),
            pair("C6", "60.0"),
            pair("D6", "70.0"),
        ]
    );
}

#[test]
fn spot_only_sheet_has_no_average() {
    let mut job = small_job();
    job.inks = vec![Ink::spot("PMS 1")];
    job.customer = String::new();
    job.date = String::new();
    job.shapes[0].weights[0] = WeightData::new("", 1, 2);
    let nums = SheetNumbers {
        density: vec![],
        rows: vec![SheetRow { values: vec![], avg: "1".into(), dev: Some("2".into()) }],
    };
    let cells = weight_sheet_cells(&job, &job.shapes[0], &job.shapes[0].weights[0], &nums);
    assert_eq!(
        cells_of(&cells),
        vec![
            pair("A2", "CRS 501"),
            pair("A3", "Step"),
            pair("B3", "PMS 1"),
            pair("C3", "Avg"),
            pair("D3", "Dev"),
            pair("A4", "Max Density"),
            pair("A5", "100"),
            pair("B5", "100.0"),
            pair("A6", "50"),
        ]
    );
}

#[test]
fn one_sheet_per_reading() {
    let mut job = small_job();
    job.shapes.push(ShapeData {
        dot_type: "HD".into(),
        dot_number: "16".into(),
        weights: vec![WeightData::new("120#", 2, 2), WeightData::new("175#", 2, 2)],
    });
    let plans = plan_workbook(&job, &vec![]);
    let names: Vec<&str> = plans.iter().map(|p| p.name.as_str()).collect();
    assert_eq!(names, vec!["CRS 501 - 150#", "HD 16 - 120#", "HD 16 - 175#"]);
    assert_eq!(plans[2].cells[2].text, "HD 16 — 175#");
    let none = plan_workbook(&JobConfig::default(), &vec![]);
    assert!(none.is_empty());
}
