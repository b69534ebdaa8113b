use icd_extract::icdo3_extractor::{
    extract_icdo3_codes, EntryRow, Extraction, LineMatch, LinePatterns, SectionState,
};
use icd_extract::text::content_lines;

fn strings(items: &[&str]) -> Vec<String> {
    items.iter().map(|s| s.to_string()).collect()
}

fn run(lines: &[&str]) -> Extraction {
    let patterns = LinePatterns::new().expect("the patterns compile");
    patterns.classify_lines(&strings(lines))
}

fn row(fields: &[&str]) -> Vec<String> {
    strings(fields)
}

fn rows_of(x: &Extraction) -> Vec<Vec<String>> {
    x.rows.iter().map(EntryRow::fields).collect()
}

#[test]
fn site_header_alone_emits_nothing_and_sets_the_site() {
    let x = run(&["BREAST C500"]);
    assert!(x.rows.is_empty());
    assert!(x.skipped.is_empty());
    assert_eq!(x.state.site, "BREAST");
    assert_eq!(x.state.topos, "C500");
    assert_eq!(x.state.label, "");
    assert_eq!(x.state.topo, "");
}

#[test]
fn labeled_entry_emits_one_row() {
    let x = run(&["BREAST C500-C509", "Nipple 500 8500/0 Adenocarcinoma"]);
    assert_eq!(
        rows_of(&x),
        vec![row(&["BREAST", "C500-C509", "Nipple", "500", "8500/0", "Adenocarcinoma"])]
    );
    assert_eq!(x.state.label, "Nipple");
    assert_eq!(x.state.topo, "500");
}

#[test]
fn simple_entry_reuses_the_labeled_entry() {
    let x = run(&[
        "BREAST C500-C509",
        "Nipple 500 8500/0 Adenocarcinoma",
        "8500/3 Infiltrating duct carcinoma",
    ]);
    assert_eq!(
        rows_of(&x),
        vec![
            row(&["BREAST", "C500-C509", "Nipple", "500", "8500/0", "Adenocarcinoma"]),
            row(&["BREAST", "C500-C509", "Nipple", "500", "8500/3", "Infiltrating duct carcinoma"]),
        ]
    );
}

#[test]
fn unmatched_line_changes_nothing() {
    let x = run(&[
        "BREAST C500-C509",
        "Nipple 500 8500/0 Adenocarcinoma",
        "see also the notes",
        "8500/3 Infiltrating duct carcinoma",
    ]);
    assert_eq!(
        rows_of(&x),
        vec![
            row(&["BREAST", "C500-C509", "Nipple", "500", "8500/0", "Adenocarcinoma"]),
            row(&["BREAST", "C500-C509", "Nipple", "500", "8500/3", "Infiltrating duct carcinoma"]),
        ]
    );
    assert_eq!(x.skipped.len(), 1);
    assert_eq!(x.skipped[0].number, 3);
    assert_eq!(x.skipped[0].text, "see also the notes");
    assert_eq!(x.state.site, "BREAST");
    assert_eq!(x.state.topos, "C500-C509");
    assert_eq!(x.state.label, "Nipple");
    assert_eq!(x.state.topo, "500");
}

#[test]
fn simple_entry_before_any_labeled_entry_carries_empty_fields() {
    let x = run(&["8000/3 Neoplasm, malignant"]);
    assert_eq!(rows_of(&x), vec![row(&["", "", "", "", "8000/3", "Neoplasm, malignant"])]);
}

#[test]
fn header_with_a_code_list_and_punctuation() {
    let x = run(&["LIP, ORAL CAVITY & PHARYNX C000-C009,C019"]);
    assert!(x.rows.is_empty());
    assert_eq!(x.state.site, "LIP, ORAL CAVITY & PHARYNX");
    assert_eq!(x.state.topos, "C000-C009,C019");
}

#[test]
fn new_header_keeps_label_and_code() {
    let x = run(&[
        "BREAST C500-C509",
        "Nipple 500 8500/0 Adenocarcinoma",
        "LUNG C340-C349",
        "8140/3 Adenocarcinoma, NOS",
    ]);
    let rows = rows_of(&x);
    assert_eq!(rows.len(), 2);
    assert_eq!(rows[1], row(&["LUNG", "C340-C349", "Nipple", "500", "8140/3", "Adenocarcinoma, NOS"]));
}

#[test]
fn classify_line_tells_the_shapes_apart() {
    let patterns = LinePatterns::new().expect("the patterns compile");
    match patterns.classify_line("BREAST C500") {
        LineMatch::SiteHeader { site, topos } => {
            assert_eq!(site, "BREAST");
            assert_eq!(topos, "C500");
        }
        other => panic!("not a header: {:?}", other),
    }
    match patterns.classify_line("Upper lobe, lung 341 8070/3 Squamous cell carcinoma") {
        LineMatch::LabeledEntry { label, topo, morphology, description } => {
            assert_eq!(label, "Upper lobe, lung");
            assert_eq!(topo, "341");
            assert_eq!(morphology, "8070/3");
            assert_eq!(description, "Squamous cell carcinoma");
        }
        other => panic!("not a labelled entry: {:?}", other),
    }
    match patterns.classify_line("8070/2 Squamous cell carcinoma in situ") {
        LineMatch::SimpleEntry { morphology, description } => {
            assert_eq!(morphology, "8070/2");
            assert_eq!(description, "Squamous cell carcinoma in situ");
        }
        other => panic!("not a simple entry: {:?}", other),
    }
    assert!(matches!(patterns.classify_line("Breast C500"), LineMatch::Unmatched));
    assert!(matches!(patterns.classify_line("80703 no slash"), LineMatch::Unmatched));
    assert!(matches!(patterns.classify_line("BREAST C50"), LineMatch::Unmatched));
}

#[test]
fn apply_follows_the_shape() {
    let mut state = SectionState::new();
    let none = state.apply(LineMatch::SiteHeader {
        site: "SKIN".to_string(),
        topos: "C440".to_string(),
    });
    assert!(none.is_none());
    assert_eq!(state.site, "SKIN");
    assert_eq!(state.topos, "C440");
    let first = state
        .apply(LineMatch::LabeledEntry {
            label: "Lip".to_string(),
            topo: "440".to_string(),
            morphology: "8720/3".to_string(),
            description: "Melanoma".to_string(),
        })
        .expect("a labelled entry emits a row");
    assert_eq!(first.fields(), row(&["SKIN", "C440", "Lip", "440", "8720/3", "Melanoma"]));
    let second = state
        .apply(LineMatch::SimpleEntry {
            morphology: "8090/3".to_string(),
            description: "Basal cell carcinoma".to_string(),
        })
        .expect("a simple entry emits a row");
    assert_eq!(
        second.fields(),
        row(&["SKIN", "C440", "Lip", "440", "8090/3", "Basal cell carcinoma"])
    );
    assert!(state.apply(LineMatch::Unmatched).is_none());
    assert_eq!(state.label, "Lip");
    assert_eq!(state.topo, "440");
}

#[test]
fn shapes_from_given_captures() {
    let found = Some(vec![
        Some("BREAST  C500".to_string()),
        Some("BREAST ".to_string()),
        Some("C500".to_string()),
    ]);
    match LineMatch::header_from(&found) {
        Some(LineMatch::SiteHeader { site, topos }) => {
            assert_eq!(site, "BREAST");
            assert_eq!(topos, "C500");
        }
        other => panic!("not a header: {:?}", other),
    }
    let partial = Some(vec![Some("x".to_string()), Some("x".to_string()), None]);
    assert!(LineMatch::header_from(&partial).is_none());
    assert!(LineMatch::header_from(&None).is_none());
    assert!(LineMatch::labeled_from(&found).is_none());
    match LineMatch::simple_from(&found) {
        Some(LineMatch::SimpleEntry { morphology, description }) => {
            assert_eq!(morphology, "BREAST");
            assert_eq!(description, "C500");
        }
        other => panic!("not a simple entry: {:?}", other),
    }
    let four = Some(vec![
        Some("whole".to_string()),
        Some(" Nipple".to_string()),
        Some("500".to_string()),
        Some("8500/0".to_string()),
        Some("Adenocarcinoma ".to_string()),
    ]);
    match LineMatch::labeled_from(&four) {
        Some(LineMatch::LabeledEntry { label, topo, morphology, description }) => {
            assert_eq!(label, "Nipple");
            assert_eq!(topo, "500");
            assert_eq!(morphology, "8500/0");
            assert_eq!(description, "Adenocarcinoma");
        }
        other => panic!("not a labelled entry: {:?}", other),
    }
}

#[test]
fn content_lines_trims_and_drops_empty_lines() {
    assert_eq!(content_lines("  a  \r\n\n\t\nb c\u{a0}\n"), strings(&["a", "b c"]));
    assert_eq!(content_lines(""), Vec::<String>::new());
    assert_eq!(content_lines("one"), strings(&["one"]));
    assert_eq!(content_lines("x\ry\n"), strings(&["x\ry"]));
}

#[test]
fn extract_from_text_numbers_the_content_lines() {
    let text = "\n  BREAST C500-C509  \n\nNipple 500 8500/0 Adenocarcinoma\n???\n8500/3 Infiltrating duct carcinoma\n";
    let x = extract_icdo3_codes(text).expect("the patterns compile");
    assert_eq!(
        rows_of(&x),
        vec![
            row(&["BREAST", "C500-C509", "Nipple", "500", "8500/0", "Adenocarcinoma"]),
            row(&["BREAST", "C500-C509", "Nipple", "500", "8500/3", "Infiltrating duct carcinoma"]),
        ]
    );
    assert_eq!(x.skipped.len(), 1);
    assert_eq!(x.skipped[0].number, 3);
    assert_eq!(x.skipped[0].text, "???");
}

#[test]
fn extraction_is_repeatable() {
    let text = "BREAST C500-C509\nNipple 500 8500/0 Adenocarcinoma\nnoise\n8500/3 Ductal\n";
    let a = extract_icdo3_codes(text).expect("the patterns compile");
    let b = extract_icdo3_codes(text).expect("the patterns compile");
    assert_eq!(rows_of(&a), rows_of(&b));
    assert_eq!(a.skipped.len(), b.skipped.len());
    assert_eq!(a.rows.len() + a.skipped.len(), 3);
}
