use icd_extract::catalogue::{
    AutocompleteCategory, Category, CategoryGroup, Criteria, SingleSelectCategory, StringCategory,
};
use icd_extract::icd10_extractor::{extract_icd10_codes, flatten_catalogue, CriterionRow};

fn autocomplete(key: &str, name: &str, criteria: Vec<Criteria>) -> Category {
    Category::Autocomplete(AutocompleteCategory {
        key: key.to_string(),
        name: name.to_string(),
        system: String::new(),
        match_type: "EQUALS".to_string(),
        criteria,
        info_button_text: None,
    })
}

fn with_children(mut c: Criteria, children: Vec<Criteria>) -> Criteria {
    c.subgroup = Some(children);
    c
}

fn fields(rows: &[CriterionRow]) -> Vec<Vec<String>> {
    rows.iter().map(CriterionRow::fields).collect()
}

fn row(f: &[&str]) -> Vec<String> {
    f.iter().map(|s| s.to_string()).collect()
}

fn sample() -> Vec<Category> {
    let c00 = with_children(
        Criteria::new_with_description("C00", "C00", "Lip"),
        vec![
            with_children(Criteria::new("C00.0", "C00.0"), vec![Criteria::new("C00.00", "deep")]),
            Criteria::new_with_description("C00.1", "C00.1", "Lower lip"),
        ],
    );
    let c01 = Criteria::new("C01", "C01");
    vec![
        Category::Group(CategoryGroup::new(
            "donor",
            "Donor",
            vec![Category::SingleSelect(SingleSelectCategory::new(
                "gender",
                "Gender",
                "",
                vec![Criteria::new("male", "male")],
            ))],
        )),
        Category::Group(CategoryGroup::new(
            "tumor",
            "Tumor",
            vec![
                autocomplete("diagnosis", "Diagnosis ICD-10", vec![c00, c01]),
                autocomplete("morphology", "Morphology", vec![Criteria::new("8000/3", "x")]),
            ],
        )),
    ]
}

#[test]
fn constructors_fill_the_fields() {
    let c = Criteria::new("k", "n");
    assert_eq!(c.key, "k");
    assert_eq!(c.name, "n");
    assert!(c.visible.is_none() && c.description.is_none());
    assert!(c.aggregated_value.is_none() && c.subgroup.is_none());
    let d = Criteria::new_with_description("k", "n", "d");
    assert_eq!(d.key, "k");
    assert_eq!(d.name, "n");
    assert_eq!(d.description.as_deref(), Some("d"));
    let s = SingleSelectCategory::new("key", "name", "sys", vec![c]);
    assert_eq!(s.key, "key");
    assert_eq!(s.name, "name");
    assert_eq!(s.system, "sys");
    assert_eq!(s.match_type, "EQUALS");
    assert_eq!(s.criteria.len(), 1);
    assert!(s.info_button_text.is_none() && s.sub_category_name.is_none());
    let g = CategoryGroup::new("g", "G", vec![]);
    assert_eq!(g.key, "g");
    assert_eq!(g.name, "G");
    assert!(g.child_categories.is_empty());
    assert!(g.info_button_text.is_none() && g.info_link.is_none());
}

#[test]
fn one_row_per_criterion_in_pre_order() {
    let rows = extract_icd10_codes(&sample());
    assert_eq!(
        fields(&rows),
        vec![
            row(&["diagnosis", "Diagnosis ICD-10", "C00", "C00", "Lip"]),
            row(&["diagnosis", "Diagnosis ICD-10", "C00.0", "C00.0", ""]),
            row(&["diagnosis", "Diagnosis ICD-10", "C00.00", "deep", ""]),
            row(&["diagnosis", "Diagnosis ICD-10", "C00.1", "C00.1", "Lower lip"]),
            row(&["diagnosis", "Diagnosis ICD-10", "C01", "C01", ""]),
        ]
    );
}

#[test]
fn rows_carry_the_autocomplete_key_and_name_at_any_depth() {
    let rows = extract_icd10_codes(&sample());
    assert_eq!(rows.len(), 5);
    for r in &rows {
        assert_eq!(r.category_key, "diagnosis");
        assert_eq!(r.category_name, "Diagnosis ICD-10");
    }
}

#[test]
fn missing_description_is_an_empty_field() {
    let r = CriterionRow::of(&"k".to_string(), &"n".to_string(), &Criteria::new("a", "b"));
    assert_eq!(r.description, "");
    assert_eq!(r.fields(), row(&["k", "n", "a", "b", ""]));
    let d = CriterionRow::of(
        &"k".to_string(),
        &"n".to_string(),
        &Criteria::new_with_description("a", "b", "c"),
    );
    assert_eq!(d.fields(), row(&["k", "n", "a", "b", "c"]));
}

#[test]
fn the_wanted_key_is_a_parameter() {
    let rows = flatten_catalogue(&sample(), "morphology");
    assert_eq!(fields(&rows), vec![row(&["morphology", "Morphology", "8000/3", "x", ""])]);
    assert!(flatten_catalogue(&sample(), "gender").is_empty());
    assert!(flatten_catalogue(&sample(), "nothing").is_empty());
}

#[test]
fn groups_are_walked_at_any_depth_and_other_kinds_skipped() {
    let inner = Category::Group(CategoryGroup::new(
        "inner",
        "Inner",
        vec![autocomplete("diagnosis", "Inner diagnosis", vec![Criteria::new("B", "b")])],
    ));
    let catalogue = vec![
        autocomplete("diagnosis", "Top diagnosis", vec![Criteria::new("A", "a")]),
        Category::String(StringCategory {
            key: "diagnosis".to_string(),
            name: "free text".to_string(),
            system: String::new(),
            match_type: "EQUALS".to_string(),
            info_button_text: None,
        }),
        Category::Group(CategoryGroup::new("outer", "Outer", vec![inner])),
    ];
    assert_eq!(
        fields(&extract_icd10_codes(&catalogue)),
        vec![
            row(&["diagnosis", "Top diagnosis", "A", "a", ""]),
            row(&["diagnosis", "Inner diagnosis", "B", "b", ""]),
        ]
    );
}

#[test]
fn empty_catalogue_and_empty_subgroup_give_no_rows() {
    assert!(extract_icd10_codes(&Vec::new()).is_empty());
    let c = with_children(Criteria::new("A", "a"), vec![]);
    let rows = extract_icd10_codes(&vec![autocomplete("diagnosis", "D", vec![c])]);
    assert_eq!(fields(&rows), vec![row(&["diagnosis", "D", "A", "a", ""])]);
}

#[test]
fn flattening_is_repeatable() {
    let a = extract_icd10_codes(&sample());
    let b = extract_icd10_codes(&sample());
    assert_eq!(fields(&a), fields(&b));
}
