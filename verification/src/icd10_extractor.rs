//! Flattening of the catalogue tree into one row per diagnosis criterion.
//!
//! Groups are walked at any depth. Under every autocomplete item whose key
//! is the wanted one, every criterion gives one row, a criterion before its
//! sub-criteria and siblings in their listed order; every row carries the
//! key and the name of that autocomplete item.

use crate::catalogue::{Category, Criteria};
use vstd::prelude::*;

verus! {

/// The five fields of the row of criterion `c` under the autocomplete item
/// with the given key and name. A criterion without a description has an
/// empty last field.
pub open spec fn criterion_row(key: Seq<char>, name: Seq<char>, c: Criteria) -> Seq<Seq<char>> {
    seq![key, name, c.key@, c.name@, c.description_text()]
}

/// The rows of `c` and of everything below it, `c`'s own row first.
pub open spec fn criterion_rows(key: Seq<char>, name: Seq<char>, c: Criteria) -> Seq<
    Seq<Seq<char>>,
>
    decreases c, 0nat,
{
    seq![criterion_row(key, name, c)] + match c.subgroup {
        Some(sub) => criteria_rows(key, name, sub, sub.len() as nat),
        None => Seq::empty(),
    }
}

/// The rows of the first `n` criteria of `list`, each with all below it.
pub open spec fn criteria_rows(key: Seq<char>, name: Seq<char>, list: Vec<Criteria>, n: nat) -> Seq<
    Seq<Seq<char>>,
>
    decreases list, n,
{
    if n == 0 || n > list.len() {
        Seq::empty()
    } else {
        criteria_rows(key, name, list, (n - 1) as nat) + criterion_rows(
            key,
            name,
            list[n - 1],
        )
    }
}

/// The number of criteria in the tree below and including `c`.
pub open spec fn criterion_count(c: Criteria) -> nat
    decreases c, 0nat,
{
    1 + match c.subgroup {
        Some(sub) => criteria_count(sub, sub.len() as nat),
        None => 0,
    }
}

/// The number of criteria in the trees of the first `n` criteria of `list`.
pub open spec fn criteria_count(list: Vec<Criteria>, n: nat) -> nat
    decreases list, n,
{
    if n == 0 || n > list.len() {
        0
    } else {
        criteria_count(list, (n - 1) as nat) + criterion_count(list[n - 1])
    }
}

/// The rows that one node of the catalogue gives for the key `wanted`: those
/// of its children for a group, those of its criteria for an autocomplete
/// item with that key, none for anything else.
pub open spec fn category_rows(cat: Category, wanted: Seq<char>) -> Seq<Seq<Seq<char>>>
    decreases cat, 0nat,
{
    match cat {
        Category::Group(g) => categories_rows(
            g.child_categories,
            g.child_categories.len() as nat,
            wanted,
        ),
        Category::Autocomplete(a) => if a.key@ == wanted {
            criteria_rows(a.key@, a.name@, a.criteria, a.criteria.len() as nat)
        } else {
            Seq::empty()
        },
        _ => Seq::empty(),
    }
}

/// The rows of the first `n` nodes of `list`, in order.
pub open spec fn categories_rows(list: Vec<Category>, n: nat, wanted: Seq<char>) -> Seq<
    Seq<Seq<char>>,
>
    decreases list, n,
{
    if n == 0 || n > list.len() {
        Seq::empty()
    } else {
        categories_rows(list, (n - 1) as nat, wanted) + category_rows(list[n - 1], wanted)
    }
}

/// The rows of a whole catalogue.
pub open spec fn catalogue_rows(catalogue: Vec<Category>, wanted: Seq<char>) -> Seq<
    Seq<Seq<char>>,
> {
    categories_rows(catalogue, catalogue.len() as nat, wanted)
}

/// The number of criteria under the autocomplete items with key `wanted`
/// in the tree of one node.
pub open spec fn category_count(cat: Category, wanted: Seq<char>) -> nat
    decreases cat, 0nat,
{
    match cat {
        Category::Group(g) => categories_count(
            g.child_categories,
            g.child_categories.len() as nat,
            wanted,
        ),
        Category::Autocomplete(a) => if a.key@ == wanted {
            criteria_count(a.criteria, a.criteria.len() as nat)
        } else {
            0
        },
        _ => 0,
    }
}

/// The same number over the first `n` nodes of `list`.
pub open spec fn categories_count(list: Vec<Category>, n: nat, wanted: Seq<char>) -> nat
    decreases list, n,
{
    if n == 0 || n > list.len() {
        0
    } else {
        categories_count(list, (n - 1) as nat, wanted) + category_count(list[n - 1], wanted)
    }
}

/// One output row of the tree flattener.
#[derive(Debug)]
pub struct CriterionRow {
    pub category_key: String,
    pub category_name: String,
    pub group_key: String,
    pub group_name: String,
    pub description: String,
}

impl View for CriterionRow {
    type V = Seq<Seq<char>>;

    /// The fields in column order.
    open spec fn view(&self) -> Seq<Seq<char>> {
        seq![
            self.category_key@,
            self.category_name@,
            self.group_key@,
            self.group_name@,
            self.description@,
        ]
    }
}

/// The views of a sequence of rows, in order.
pub open spec fn row_views(rows: Seq<CriterionRow>) -> Seq<Seq<Seq<char>>> {
    rows.map_values(|r: CriterionRow| r@)
}

impl CriterionRow {
    /// The row of criterion `c` under the autocomplete item with the given
    /// key and name.
    pub fn of(key: &String, name: &String, c: &Criteria) -> (r: CriterionRow)
        ensures
            r@ == criterion_row(key@, name@, *c),
            c.description is None ==> r.description@.len() == 0,
    {
        let description = match &c.description {
            Some(d) => d.clone(),
            None => String::new(),
        };
        CriterionRow {
            category_key: key.clone(),
            category_name: name.clone(),
            group_key: c.key.clone(),
            group_name: c.name.clone(),
            description,
        }
    }

    /// The fields in column order.
    pub fn fields(&self) -> (r: Vec<String>)
        ensures
            crate::text::texts(r@) == self@,
    {
        let mut r: Vec<String> = Vec::new();
        r.push(self.category_key.clone());
        r.push(self.category_name.clone());
        r.push(self.group_key.clone());
        r.push(self.group_name.clone());
        r.push(self.description.clone());
        r
    }
}

/// Appends to `rows` the rows of every criterion of `criteria` and of all
/// below it, under the autocomplete item with the given key and name.
fn push_criteria_rows(
    rows: &mut Vec<CriterionRow>,
    criteria: &Vec<Criteria>,
    key: &String,
    name: &String,
)
    ensures
        row_views(final(rows)@) == row_views(old(rows)@) + criteria_rows(
            key@,
            name@,
            *criteria,
            criteria.len() as nat,
        ),
    decreases criteria,
{
    let ghost start = row_views(rows@);
    for i in 0..criteria.len()
        invariant
            start == row_views(old(rows)@),
            row_views(rows@) == start + criteria_rows(key@, name@, *criteria, i as nat),
    {
        let c = &criteria[i];
        let ghost before = row_views(rows@);
        let row = CriterionRow::of(key, name, c);
        rows.push(row);
        match &c.subgroup {
            Some(sub) => {
                push_criteria_rows(rows, sub, key, name);
            },
            None => {},
        }
        proof {
            let own = criterion_rows(key@, name@, *c);
            assert(criteria_rows(key@, name@, *criteria, (i + 1) as nat) == criteria_rows(
                key@,
                name@,
                *criteria,
                i as nat,
            ) + own);
            assert(before + own =~= start + (criteria_rows(key@, name@, *criteria, i as nat)
                + own));
        }
    }
}

/// Appends to `rows` the rows that the nodes of `list` give for `wanted`.
fn push_category_rows(rows: &mut Vec<CriterionRow>, list: &Vec<Category>, wanted: &String)
    ensures
        row_views(final(rows)@) == row_views(old(rows)@) + categories_rows(
            *list,
            list.len() as nat,
            wanted@,
        ),
    decreases list,
{
    let ghost start = row_views(rows@);
    for i in 0..list.len()
        invariant
            start == row_views(old(rows)@),
            row_views(rows@) == start + categories_rows(*list, i as nat, wanted@),
    {
        match &list[i] {
            Category::Group(g) => {
                push_category_rows(rows, &g.child_categories, wanted);
            },
            Category::Autocomplete(a) => {
                if a.key == *wanted {
                    push_criteria_rows(rows, &a.criteria, &a.key, &a.name);
                }
            },
            _ => {},
        }
        proof {
            let own = category_rows(list[i as int], wanted@);
            assert(categories_rows(*list, (i + 1) as nat, wanted@) == categories_rows(
                *list,
                i as nat,
                wanted@,
            ) + own);
        }
    }
}

/// Flattens `catalogue` for the autocomplete items whose key is `wanted`.
pub fn flatten_catalogue(catalogue: &Vec<Category>, wanted: &str) -> (r: Vec<CriterionRow>)
    ensures
        row_views(r@) == catalogue_rows(*catalogue, wanted@),
{
    let mut rows: Vec<CriterionRow> = Vec::new();
    let wanted_key = wanted.to_owned();
    push_category_rows(&mut rows, catalogue, &wanted_key);
    assert(Seq::<Seq<Seq<char>>>::empty() + catalogue_rows(*catalogue, wanted@)
        =~= catalogue_rows(*catalogue, wanted@));
    rows
}

/// The key of the autocomplete item that holds the diagnosis codes.
pub open spec fn diagnosis_key() -> Seq<char> {
    "diagnosis"@
}

/// The rows of the diagnosis codes of `catalogue`.
pub fn extract_icd10_codes(catalogue: &Vec<Category>) -> (r: Vec<CriterionRow>)
    ensures
        row_views(r@) == catalogue_rows(*catalogue, diagnosis_key()),
{
    flatten_catalogue(catalogue, "diagnosis")
}

/// Whether every row of `rows` has five fields, the first being `key` and
/// the second `name`.
pub open spec fn all_carry(rows: Seq<Seq<Seq<char>>>, key: Seq<char>, name: Seq<char>) -> bool {
    forall|i: int|
        0 <= i < rows.len() ==> (#[trigger] rows[i]).len() == 5 && rows[i][0] == key && rows[i][1]
            == name
}

/// Whether every row of `rows` has five fields, the first being `key`.
pub open spec fn all_keyed(rows: Seq<Seq<Seq<char>>>, key: Seq<char>) -> bool {
    forall|i: int| 0 <= i < rows.len() ==> (#[trigger] rows[i]).len() == 5 && rows[i][0] == key
}

/// A criterion gives exactly one row for itself and for each criterion
/// below it, and its own row comes first.
pub proof fn lemma_criterion_row_count(key: Seq<char>, name: Seq<char>, c: Criteria)
    ensures
        criterion_rows(key, name, c).len() == criterion_count(c),
        criterion_rows(key, name, c)[0] == criterion_row(key, name, c),
    decreases c, 0nat,
{
    match c.subgroup {
        Some(sub) => lemma_criteria_row_count(key, name, sub, sub.len() as nat),
        None => {},
    }
}

/// A list of criteria gives exactly one row per criterion in its trees.
pub proof fn lemma_criteria_row_count(key: Seq<char>, name: Seq<char>, list: Vec<Criteria>, n: nat)
    ensures
        criteria_rows(key, name, list, n).len() == criteria_count(list, n),
    decreases list, n,
{
    if 0 < n <= list.len() {
        lemma_criteria_row_count(key, name, list, (n - 1) as nat);
        lemma_criterion_row_count(key, name, list[n - 1]);
    }
}

/// A node of the catalogue gives as many rows as there are criteria under
/// its autocomplete items with the wanted key.
pub proof fn lemma_category_row_count(cat: Category, wanted: Seq<char>)
    ensures
        category_rows(cat, wanted).len() == category_count(cat, wanted),
    decreases cat, 0nat,
{
    match cat {
        Category::Group(g) => lemma_categories_row_count(
            g.child_categories,
            g.child_categories.len() as nat,
            wanted,
        ),
        Category::Autocomplete(a) => lemma_criteria_row_count(
            a.key@,
            a.name@,
            a.criteria,
            a.criteria.len() as nat,
        ),
        _ => {},
    }
}

/// The same for the first `n` nodes of a list.
pub proof fn lemma_categories_row_count(list: Vec<Category>, n: nat, wanted: Seq<char>)
    ensures
        categories_rows(list, n, wanted).len() == categories_count(list, n, wanted),
    decreases list, n,
{
    if 0 < n <= list.len() {
        lemma_categories_row_count(list, (n - 1) as nat, wanted);
        lemma_category_row_count(list[n - 1], wanted);
    }
}

/// A catalogue gives exactly one row per criterion under its autocomplete
/// items with the wanted key.
pub proof fn lemma_catalogue_row_count(catalogue: Vec<Category>, wanted: Seq<char>)
    ensures
        catalogue_rows(catalogue, wanted).len() == categories_count(
            catalogue,
            catalogue.len() as nat,
            wanted,
        ),
{
    lemma_categories_row_count(catalogue, catalogue.len() as nat, wanted);
}

/// Every row of a criterion's tree starts with the key and the name of the
/// autocomplete item, however deep the criterion of the row lies.
pub proof fn lemma_criterion_rows_carry(key: Seq<char>, name: Seq<char>, c: Criteria)
    ensures
        all_carry(criterion_rows(key, name, c), key, name),
    decreases c, 0nat,
{
    match c.subgroup {
        Some(sub) => lemma_criteria_rows_carry(key, name, sub, sub.len() as nat),
        None => {},
    }
}

/// Every row of a list of criteria starts with the key and the name of the
/// autocomplete item.
pub proof fn lemma_criteria_rows_carry(key: Seq<char>, name: Seq<char>, list: Vec<Criteria>, n: nat)
    ensures
        all_carry(criteria_rows(key, name, list, n), key, name),
    decreases list, n,
{
    if 0 < n <= list.len() {
        lemma_criteria_rows_carry(key, name, list, (n - 1) as nat);
        lemma_criterion_rows_carry(key, name, list[n - 1]);
    }
}

/// Every row of a node of the catalogue starts with the wanted key.
pub proof fn lemma_category_rows_keyed(cat: Category, wanted: Seq<char>)
    ensures
        all_keyed(category_rows(cat, wanted), wanted),
    decreases cat, 0nat,
{
    match cat {
        Category::Group(g) => lemma_categories_rows_keyed(
            g.child_categories,
            g.child_categories.len() as nat,
            wanted,
        ),
        Category::Autocomplete(a) => lemma_criteria_rows_carry(
            a.key@,
            a.name@,
            a.criteria,
            a.criteria.len() as nat,
        ),
        _ => {},
    }
}

/// Every row of the first `n` nodes of a list starts with the wanted key.
pub proof fn lemma_categories_rows_keyed(list: Vec<Category>, n: nat, wanted: Seq<char>)
    ensures
        all_keyed(categories_rows(list, n, wanted), wanted),
    decreases list, n,
{
    if 0 < n <= list.len() {
        lemma_categories_rows_keyed(list, (n - 1) as nat, wanted);
        lemma_category_rows_keyed(list[n - 1], wanted);
    }
}

/// A criterion without a description has a row whose last field is the
/// empty text: the row has its five fields all the same.
pub proof fn lemma_missing_description_is_empty(key: Seq<char>, name: Seq<char>, c: Criteria)
    requires
        c.description is None,
    ensures
        criterion_row(key, name, c).len() == 5,
        criterion_row(key, name, c)[4] == Seq::<char>::empty(),
{
}

/// Two flattenings of the same catalogue for the same key give the same
/// rows.
pub proof fn lemma_flattening_is_repeatable(
    a: Vec<CriterionRow>,
    b: Vec<CriterionRow>,
    catalogue: Vec<Category>,
    wanted: Seq<char>,
)
    requires
        row_views(a@) == catalogue_rows(catalogue, wanted),
        row_views(b@) == catalogue_rows(catalogue, wanted),
    ensures
        row_views(a@) == row_views(b@),
        a.len() == b.len(),
{
    assert(row_views(b@).len() == b.len());
}

} // verus!
