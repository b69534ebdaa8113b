use icd_extract::catalogue::Criteria;
use icd_extract::icd10_extractor::CriterionRow;
use icd_extract::icdo3_extractor::{LineMatch, SectionState};
use icd_extract::table::{
    icd10_header, icd10_table, icdo3_header, icdo3_table, render_csv, TableError,
};

fn strings(items: &[&str]) -> Vec<String> {
    items.iter().map(|s| s.to_string()).collect()
}

#[test]
fn headers_name_the_columns() {
    assert_eq!(
        icd10_header(),
        strings(&["Category Key", "Category Name", "Group Key", "Group Name", "Description"])
    );
    assert_eq!(
        icdo3_header(),
        strings(&["Site Group", "Topography Codes", "Label", "Topography", "Morphology", "Description"])
    );
}

#[test]
fn render_csv_quotes_where_needed() {
    let bytes = render_csv(
        &strings(&["a", "b"]),
        &vec![strings(&["1", "x, y"]), strings(&["say \"hi\"", ""])],
    )
    .expect("even rows render");
    assert_eq!(
        String::from_utf8(bytes).expect("text"),
        "a,b\n1,\"x, y\"\n\"say \"\"hi\"\"\",\n"
    );
}

#[test]
fn render_csv_reports_the_first_uneven_row() {
    let r = render_csv(
        &strings(&["a", "b"]),
        &vec![strings(&["1", "2"]), strings(&["3"]), strings(&["4", "5", "6"])],
    );
    match r {
        Err(TableError::UnequalLengths { row, expected, len }) => {
            assert_eq!(row, 1);
            assert_eq!(expected, 2);
            assert_eq!(len, 1);
        }
        other => panic!("not an uneven row: {:?}", other),
    }
}

#[test]
fn render_csv_of_a_header_alone() {
    let bytes = render_csv(&strings(&["a", "b"]), &Vec::new()).expect("a header renders");
    assert_eq!(bytes, b"a,b\n".to_vec());
}

#[test]
fn icd10_table_has_header_and_rows() {
    let key = "diagnosis".to_string();
    let name = "Diagnosis, ICD-10".to_string();
    let rows = vec![
        CriterionRow::of(&key, &name, &Criteria::new("C00", "C00")),
        CriterionRow::of(&key, &name, &Criteria::new_with_description("C01", "C01", "Tongue")),
    ];
    let bytes = icd10_table(&rows).expect("the table renders");
    assert_eq!(
        String::from_utf8(bytes).expect("text"),
        "Category Key,Category Name,Group Key,Group Name,Description\n\
         diagnosis,\"Diagnosis, ICD-10\",C00,C00,\n\
         diagnosis,\"Diagnosis, ICD-10\",C01,C01,Tongue\n"
    );
}

#[test]
fn icdo3_table_has_header_and_rows() {
    let mut state = SectionState::new();
    state.apply(LineMatch::SiteHeader { site: "BREAST".to_string(), topos: "C500-C509".to_string() });
    let row = state
        .apply(LineMatch::LabeledEntry {
            label: "Nipple".to_string(),
            topo: "500".to_string(),
            morphology: "8500/0".to_string(),
            description: "Adenocarcinoma".to_string(),
        })
        .expect("a row");
    let bytes = icdo3_table(&vec![row]).expect("the table renders");
    assert_eq!(
        String::from_utf8(bytes).expect("text"),
        "Site Group,Topography Codes,Label,Topography,Morphology,Description\n\
         BREAST,C500-C509,Nipple,500,8500/0,Adenocarcinoma\n"
    );
}

#[test]
fn tables_are_repeatable() {
    let rows = vec![strings(&["1", "two\nlines"])];
    let a = render_csv(&strings(&["a", "b"]), &rows).expect("renders");
    let b = render_csv(&strings(&["a", "b"]), &rows).expect("renders");
    assert_eq!(a, b);
    assert_eq!(a, b"a,b\n1,\"two\nlines\"\n".to_vec());
}
