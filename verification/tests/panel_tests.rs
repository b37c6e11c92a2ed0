use ink_density::illustrator::{find_illustrator, illustrator_search_paths, jsx_escape_path, jsx_escape_value, render_jsx, replace_text};
use ink_density::job_config::{JobConfigState, StepPreset};
use ink_density::weight_grid::{is_valid_numeric, CellId, WeightGridState};

#[test]
fn job_config_state_defaults() {
    let s = JobConfigState::new();
    assert_eq!(s.weight_labels, vec!["120#", "150#", "200#"]);
    assert_eq!(s.print_type(), "CRS");
    assert_eq!(s.finish(), "RP");
    assert_eq!(s.dot_shape_type(), "CRS");
    assert!(s.step_preset == StepPreset::Standard14);
    assert_eq!(s.step_labels().len(), 14);
}

#[test]
fn job_config_selections() {
    let mut s = JobConfigState::new();
    s.print_type_idx = 1;
    s.finish_idx = 2;
    s.dot_shape_type_idx = 3;
    assert_eq!(s.print_type(), "QUA");
    assert_eq!(s.finish(), "CBW SP");
    assert_eq!(s.dot_shape_type(), "ESXR");
    s.print_type_idx = 9;
    s.finish_idx = 9;
    s.dot_shape_type_idx = 9;
    assert_eq!(s.print_type(), "CRS");
    assert_eq!(s.finish(), "RP");
    assert_eq!(s.dot_shape_type(), "CRS");
    s.step_preset = StepPreset::Extended16;
    let labels = s.step_labels();
    assert_eq!(labels.len(), 16);
    assert_eq!(labels[15], "0.4");
}

#[test]
fn job_config_clear_keeps_labels_and_preset() {
    let mut s = JobConfigState::new();
    s.customer = "Acme".into();
    s.date = "today".into();
    s.finish_idx = 2;
    s.step_preset = StepPreset::Extended16;
    s.weight_labels.push("300#".into());
    s.clear();
    assert_eq!(s.customer, "");
    assert_eq!(s.date, "");
    assert_eq!(s.finish_idx, 0);
    assert!(s.step_preset == StepPreset::Extended16);
    assert_eq!(s.weight_labels.len(), 4);
}

fn labels(n: usize) -> Vec<String> {
    (0..n).map(|i| format!("L{i}")).collect()
}

#[test]
fn weight_grid_new_locks_full_tone_row() {
    let g = WeightGridState::new(&labels(3));
    assert_eq!(g.cells.len(), 4);
    assert_eq!(g.cells[0], [String::new(), String::new(), String::new(), String::new()]);
    assert_eq!(g.cells[1], ["100".to_string(), "100".to_string(), "100".to_string(), "100".to_string()]);
    assert_eq!(g.cells[3], [String::new(), String::new(), String::new(), String::new()]);
    assert_eq!(g.step_labels, labels(3));
    assert!(!g.completed);
}

#[test]
fn tab_order_is_column_major_and_skips_the_locked_row() {
    let g = WeightGridState::new(&labels(3));
    let order: Vec<(usize, usize)> = g.flat_order().iter().map(|c| (c.row, c.col)).collect();
    assert_eq!(
        order,
        vec![(0, 0), (2, 0), (3, 0), (0, 1), (2, 1), (3, 1), (0, 2), (2, 2), (3, 2), (0, 3), (2, 3), (3, 3)]
    );
    assert_eq!(g.next_cell(CellId { row: 0, col: 0 }), Some(CellId { row: 2, col: 0 }));
    assert_eq!(g.next_cell(CellId { row: 3, col: 0 }), Some(CellId { row: 0, col: 1 }));
    assert_eq!(g.next_cell(CellId { row: 3, col: 3 }), None);
    assert_eq!(g.next_cell(CellId { row: 1, col: 0 }), None);
}

#[test]
fn weight_grid_clear_and_focus() {
    let mut g = WeightGridState::new(&labels(2));
    g.cells[0][2] = "1.2".into();
    g.cells[1][0] = "x".into();
    g.completed = true;
    g.focus_first();
    assert_eq!(g.focus_request, Some(CellId { row: 0, col: 0 }));
    g.clear();
    assert_eq!(g.cells[0][2], "");
    assert_eq!(g.cells[1][0], "100");
    assert!(!g.completed);
    assert_eq!(g.focus_request, None);
}

#[test]
fn numeric_input() {
    assert!(is_valid_numeric("", false));
    assert!(is_valid_numeric("-", false));
    assert!(is_valid_numeric("2.5", "2.5".parse::<f64>().is_ok()));
    assert!(is_valid_numeric("2.", false));
    assert!(is_valid_numeric("-.5", false));
    assert!(!is_valid_numeric("2..", false));
    assert!(!is_valid_numeric("abc", "abc".parse::<f64>().is_ok()));
    assert!(!is_valid_numeric("1.2.3", false));
    assert!(!is_valid_numeric("12", false));
    assert!(is_valid_numeric("12", "12".parse::<f64>().is_ok()));
}

#[test]
fn illustrator_location() {
    let paths = illustrator_search_paths();
    assert_eq!(paths.len(), 6);
    assert_eq!(find_illustrator("D:/ai.exe", true, &vec![true; 6]), Some("D:/ai.exe".to_string()));
    assert_eq!(find_illustrator("D:/ai.exe", false, &vec![false, false, true, true, false, false]), Some(paths[2].clone()));
    assert_eq!(find_illustrator("", true, &vec![false; 6]), None);
    assert!(paths[5].contains("Illustrator CC 2020"));
}

#[test]
fn jsx_escaping() {
    assert_eq!(jsx_escape_path("C:\\a \"b\"\\c.ai"), "C:/a \\\"b\\\"/c.ai");
    assert_eq!(jsx_escape_value("a\\b\"c"), "a\\\\b\\\"c");
}

#[test]
fn replacing_tokens() {
    assert_eq!(replace_text("aXXbXXX", "XX", "-"), "a-b-X");
    assert_eq!(replace_text("none", "<<T>>", "x"), "none");
    assert_eq!(replace_text("<<T>><<T>>", "<<T>>", ""), "");
}

#[test]
fn rendering_a_script() {
    let runner = "var r = <<REPLACEMENTS_DICT>>;\nopen(\"<<TEMPLATE_PATH>>\");\nsave(\"<<OUTPUT_PDF>>\");";
    let entries = vec![("<<CUSTOMER>>".to_string(), "Acme \"Q\"".to_string()), ("<<DATE>>".to_string(), "1\\2".to_string())];
    let js = render_jsx(runner, &entries, "C:\\t\\x.ai", "C:\\o.pdf");
    assert_eq!(
        js,
        "var r = {\n        \"<<CUSTOMER>>\": \"Acme \\\"Q\\\"\",\n        \"<<DATE>>\": \"1\\\\2\"\n    };\nopen(\"C:/t/x.ai\");\nsave(\"C:/o.pdf\");"
    );
}

#[test]
fn replacing_the_empty_pattern() {
    assert_eq!(replace_text("abc", "", "-"), "abc".replace("", "-"));
    assert_eq!(replace_text("", "", "x"), "x");
}
