//! The catalogue: a tree-like structure that describes what a user can search for.

use vstd::prelude::*;

verus! {

/// The catalogue: the list of its top-level nodes.
pub type Catalogue = Vec<Category>;

/// One node of the catalogue tree, told apart by its field type.
#[derive(Debug)]
pub enum Category {
    Group(CategoryGroup),
    SingleSelect(SingleSelectCategory),
    Autocomplete(AutocompleteCategory),
    NumericRange(NumericRangeCategory),
    DateRange(DateRangeCategory),
    String(StringCategory),
}

/// A logical grouping of catalogue items, shown as a collapsable entry.
#[derive(Debug)]
pub struct CategoryGroup {
    pub key: String,
    pub name: String,
    pub child_categories: Vec<Category>,
    /// Optional text behind an info button next to the display name.
    pub info_button_text: Option<Vec<String>>,
    /// Optional hyperlink shown next to the display name.
    pub info_link: Option<InfoLink>,
}

impl CategoryGroup {
    /// A group with the given key, name and children and no info text or link.
    pub fn new(key: &str, name: &str, child_categories: Vec<Category>) -> (r: Self)
        ensures
            r.key@ == key@,
            r.name@ == name@,
            r.child_categories == child_categories,
            r.info_button_text is None,
            r.info_link is None,
    {
        Self {
            key: key.to_owned(),
            name: name.to_owned(),
            child_categories,
            info_button_text: None,
            info_link: None,
        }
    }
}

#[derive(Debug)]
pub struct InfoLink {
    /// The link URL.
    pub link: String,
    /// The link text.
    pub display: String,
}

/// A catalogue item that lets the user select criteria from a predefined list.
#[derive(Debug)]
pub struct SingleSelectCategory {
    /// A key that uniquely identifies the catalogue item.
    pub key: String,
    /// The item's user-facing display name.
    pub name: String,
    pub system: String,
    /// How a selected value is matched; `"EQUALS"` for this kind.
    pub match_type: String,
    pub criteria: Vec<Criteria>,
    pub info_button_text: Option<Vec<String>>,
    /// Overrides the display name in the catalogue component only.
    pub sub_category_name: Option<String>,
}

impl SingleSelectCategory {
    /// A single-select item matched by `"EQUALS"`, with no info text and no
    /// sub-category name.
    pub fn new(key: &str, name: &str, system: &str, criteria: Vec<Criteria>) -> (r: Self)
        ensures
            r.key@ == key@,
            r.name@ == name@,
            r.system@ == system@,
            r.match_type@ == "EQUALS"@,
            r.criteria == criteria,
            r.info_button_text is None,
            r.sub_category_name is None,
    {
        Self {
            key: key.to_owned(),
            name: name.to_owned(),
            system: system.to_owned(),
            match_type: "EQUALS".to_owned(),
            criteria,
            info_button_text: None,
            sub_category_name: None,
        }
    }
}

/// A catalogue item that lets the user select criteria via autocomplete.
#[derive(Debug)]
pub struct AutocompleteCategory {
    pub key: String,
    pub name: String,
    pub system: String,
    /// How a selected value is matched; `"EQUALS"` for this kind.
    pub match_type: String,
    pub criteria: Vec<Criteria>,
    pub info_button_text: Option<Vec<String>>,
}

/// A catalogue item that lets the user specify a numeric range.
///
/// The two bounds are kept as the bit patterns of the 64-bit IEEE-754 values
/// they stand for, so that they are carried through unchanged.
#[derive(Debug)]
pub struct NumericRangeCategory {
    pub key: String,
    pub name: String,
    pub system: String,
    /// How a value is matched; `"BETWEEN"` for this kind.
    pub match_type: String,
    /// The smallest value that the user can enter, as its bit pattern.
    pub min_bits: Option<u64>,
    /// The largest value that the user can enter, as its bit pattern.
    pub max_bits: Option<u64>,
    pub info_button_text: Option<Vec<String>>,
    pub unit_text: Option<String>,
}

/// A catalogue item that lets the user specify a date range.
#[derive(Debug)]
pub struct DateRangeCategory {
    pub key: String,
    pub name: String,
    pub system: String,
    /// How a value is matched; `"BETWEEN"` for this kind.
    pub match_type: String,
    /// The earliest date that the user can pick, as an ISO date string.
    pub min: Option<String>,
    /// The latest date that the user can pick, as an ISO date string.
    pub max: Option<String>,
    pub info_button_text: Option<Vec<String>>,
}

/// A catalogue item that lets the user specify a string.
#[derive(Debug)]
pub struct StringCategory {
    pub key: String,
    pub name: String,
    pub system: String,
    /// How a value is matched; `"EQUALS"` for this kind.
    pub match_type: String,
    pub info_button_text: Option<Vec<String>>,
}

/// A criterion that can be selected in a single-select or autocomplete item.
/// Criteria nest to any depth through `subgroup`.
#[derive(Debug)]
pub struct Criteria {
    pub visible: Option<bool>,
    /// A key that identifies the criterion among its siblings.
    pub key: String,
    /// The criterion's user-facing display name.
    pub name: String,
    /// Optional description shown next to the display name.
    pub description: Option<String>,
    pub aggregated_value: Option<Vec<Vec<AggregatedValue>>>,
    pub subgroup: Option<Vec<Criteria>>,
}

impl Criteria {
    /// A criterion with only a key and a name.
    pub fn new(key: &str, name: &str) -> (r: Self)
        ensures
            r.visible is None,
            r.key@ == key@,
            r.name@ == name@,
            r.description is None,
            r.aggregated_value is None,
            r.subgroup is None,
    {
        Self {
            visible: None,
            key: key.to_owned(),
            name: name.to_owned(),
            description: None,
            aggregated_value: None,
            subgroup: None,
        }
    }

    /// A criterion with a key, a name and a description.
    pub fn new_with_description(key: &str, name: &str, description: &str) -> (r: Self)
        ensures
            r.visible is None,
            r.key@ == key@,
            r.name@ == name@,
            r.description matches Some(d) && d@ == description@,
            r.aggregated_value is None,
            r.subgroup is None,
    {
        Self {
            visible: None,
            key: key.to_owned(),
            name: name.to_owned(),
            description: Some(description.to_owned()),
            aggregated_value: None,
            subgroup: None,
        }
    }

    /// The description as it stands in a row: the text, or nothing where
    /// the criterion has none.
    pub open spec fn description_text(self) -> Seq<char> {
        match self.description {
            Some(d) => d@,
            None => Seq::empty(),
        }
    }
}

#[derive(Debug)]
pub struct AggregatedValue {
    pub value: String,
    pub name: String,
}

} // verus!
