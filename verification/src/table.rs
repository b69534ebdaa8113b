//! Rows rendered as CSV: a header record, then one record per row.

use crate::icd10_extractor::CriterionRow;
use crate::icdo3_extractor::EntryRow;
use crate::text::texts;
use vstd::prelude::*;

verus! {

/// The bytes of one CSV record with the given fields, line end included, as
/// a writer with the default settings (comma, quotes where needed, line
/// feed) writes it into memory; `None` where the writer fails.
pub uninterp spec fn csv_record_bytes(fields: Seq<Seq<char>>) -> Option<Seq<u8>>;

/// The bytes that a call handed back, as a value of the model.
pub open spec fn bytes_view(r: Option<Vec<u8>>) -> Option<Seq<u8>> {
    match r {
        Some(b) => Some(b@),
        None => None,
    }
}

/// Calls `csv::Writer::from_writer` on an empty buffer, `write_record` with
/// the fields and `into_inner` for the buffer. The contract claims that the
/// outcome depends on the fields alone, and gives it the name
/// `csv_record_bytes`.
#[verifier::external_body]
fn write_record(fields: &Vec<String>) -> (r: Option<Vec<u8>>)
    ensures
        bytes_view(r) == csv_record_bytes(texts(fields@)),
{
    let mut writer = csv::Writer::from_writer(Vec::new());
    match writer.write_record(fields) {
        Ok(()) => writer.into_inner().ok(),
        Err(_) => None,
    }
}

/// Why a table could not be rendered.
#[derive(Debug)]
pub enum TableError {
    /// Row `row` (from 0) has `len` fields where the header has `expected`.
    UnequalLengths { row: usize, expected: usize, len: usize },
    /// The CSV writer failed on record `record` (0 is the header).
    Writer { record: usize },
}

/// The field texts of each of `rows`, in order.
pub open spec fn records(rows: Seq<Vec<String>>) -> Seq<Seq<Seq<char>>> {
    rows.map_values(|r: Vec<String>| texts(r@))
}

/// The table of `header` and the first `n` of `rows`: the header record,
/// then one record per row. The first row whose number of fields is not the
/// header's, or the first record that the writer fails on, ends it with an
/// error, whichever comes first.
pub open spec fn table_upto(header: Seq<Seq<char>>, rows: Seq<Seq<Seq<char>>>, n: nat) -> Result<
    Seq<u8>,
    TableError,
>
    decreases n,
{
    if n == 0 || n > rows.len() {
        match csv_record_bytes(header) {
            Some(b) => Ok(b),
            None => Err(TableError::Writer { record: 0 }),
        }
    } else {
        match table_upto(header, rows, (n - 1) as nat) {
            Err(e) => Err(e),
            Ok(b) => if rows[n - 1].len() != header.len() {
                Err(
                    TableError::UnequalLengths {
                        row: (n - 1) as usize,
                        expected: header.len() as usize,
                        len: rows[n - 1].len() as usize,
                    },
                )
            } else {
                match csv_record_bytes(rows[n - 1]) {
                    Some(r) => Ok(b + r),
                    None => Err(TableError::Writer { record: n as usize }),
                }
            },
        }
    }
}

/// The table of `header` and all of `rows`.
pub open spec fn table_of(header: Seq<Seq<char>>, rows: Seq<Seq<Seq<char>>>) -> Result<
    Seq<u8>,
    TableError,
> {
    table_upto(header, rows, rows.len())
}

/// What a rendering handed back, as a value of the model.
pub open spec fn table_view(r: Result<Vec<u8>, TableError>) -> Result<Seq<u8>, TableError> {
    match r {
        Ok(b) => Ok(b@),
        Err(e) => Err(e),
    }
}

/// Whether each of `rows` has `width` fields.
pub open spec fn all_of_width(rows: Seq<Seq<Seq<char>>>, width: nat) -> bool {
    forall|i: int| 0 <= i < rows.len() ==> (#[trigger] rows[i]).len() == width
}

/// An error that ends the table of the first `n` rows ends every longer
/// table of the same rows.
pub proof fn lemma_error_stays(
    header: Seq<Seq<char>>,
    rows: Seq<Seq<Seq<char>>>,
    n: nat,
    m: nat,
)
    requires
        n <= m <= rows.len(),
        table_upto(header, rows, n) is Err,
    ensures
        table_upto(header, rows, m) == table_upto(header, rows, n),
    decreases m,
{
    if m > n {
        lemma_error_stays(header, rows, n, (m - 1) as nat);
    }
}

/// Renders a table. Every row must have as many fields as the header: the
/// first that has not is reported, and no bytes are handed back.
pub fn render_csv(header: &Vec<String>, rows: &Vec<Vec<String>>) -> (r: Result<Vec<u8>, TableError>)
    ensures
        table_view(r) == table_of(texts(header@), records(rows@)),
{
    let mut bytes = match write_record(header) {
        Some(b) => b,
        None => {
            proof {
                lemma_error_stays(texts(header@), records(rows@), 0, rows.len() as nat);
            }
            return Err(TableError::Writer { record: 0 });
        },
    };
    for i in 0..rows.len()
        invariant
            table_upto(texts(header@), records(rows@), i as nat) == Ok::<Seq<u8>, TableError>(
                bytes@,
            ),
    {
        let row = &rows[i];
        if row.len() != header.len() {
            proof {
                lemma_error_stays(
                    texts(header@),
                    records(rows@),
                    (i + 1) as nat,
                    rows.len() as nat,
                );
            }
            return Err(
                TableError::UnequalLengths { row: i, expected: header.len(), len: row.len() },
            );
        }
        let mut record = match write_record(row) {
            Some(b) => b,
            None => {
                proof {
                    lemma_error_stays(
                        texts(header@),
                        records(rows@),
                        (i + 1) as nat,
                        rows.len() as nat,
                    );
                }
                return Err(TableError::Writer { record: i + 1 });
            },
        };
        bytes.append(&mut record);
    }
    Ok(bytes)
}

/// Rows that all have the header's number of fields are never reported as
/// uneven: such a table fails only where the writer does.
pub proof fn lemma_even_rows_render(header: Seq<Seq<char>>, rows: Seq<Seq<Seq<char>>>, n: nat)
    requires
        all_of_width(rows, header.len()),
    ensures
        !(table_upto(header, rows, n) is Err && table_upto(header, rows, n)->Err_0
            is UnequalLengths),
    decreases n,
{
    if 0 < n <= rows.len() {
        lemma_even_rows_render(header, rows, (n - 1) as nat);
    }
}

/// The header of the table of diagnosis criteria.
pub open spec fn icd10_header_fields() -> Seq<Seq<char>> {
    seq!["Category Key"@, "Category Name"@, "Group Key"@, "Group Name"@, "Description"@]
}

/// The header of the table of site and morphology entries.
pub open spec fn icdo3_header_fields() -> Seq<Seq<char>> {
    seq![
        "Site Group"@,
        "Topography Codes"@,
        "Label"@,
        "Topography"@,
        "Morphology"@,
        "Description"@,
    ]
}

/// The header of the table of diagnosis criteria.
pub fn icd10_header() -> (r: Vec<String>)
    ensures
        texts(r@) == icd10_header_fields(),
{
    let mut r: Vec<String> = Vec::new();
    r.push("Category Key".to_owned());
    r.push("Category Name".to_owned());
    r.push("Group Key".to_owned());
    r.push("Group Name".to_owned());
    r.push("Description".to_owned());
    r
}

/// The header of the table of site and morphology entries.
pub fn icdo3_header() -> (r: Vec<String>)
    ensures
        texts(r@) == icdo3_header_fields(),
{
    let mut r: Vec<String> = Vec::new();
    r.push("Site Group".to_owned());
    r.push("Topography Codes".to_owned());
    r.push("Label".to_owned());
    r.push("Topography".to_owned());
    r.push("Morphology".to_owned());
    r.push("Description".to_owned());
    r
}

/// The views of a sequence of entry rows, in order.
pub open spec fn entry_views(rows: Seq<EntryRow>) -> Seq<Seq<Seq<char>>> {
    rows.map_values(|r: EntryRow| r@)
}

/// The CSV table of diagnosis criteria: its header, then `rows` in order.
/// Fails only where the writer fails on a record.
pub fn icd10_table(rows: &Vec<CriterionRow>) -> (r: Result<Vec<u8>, TableError>)
    ensures
        table_view(r) == table_of(icd10_header_fields(), crate::icd10_extractor::row_views(rows@)),
        r matches Err(e) ==> e is Writer,
{
    let mut all: Vec<Vec<String>> = Vec::new();
    for i in 0..rows.len()
        invariant
            records(all@) == crate::icd10_extractor::row_views(rows@.take(i as int)),
            all_of_width(records(all@), 5),
            all.len() == i,
    {
        let fields = rows[i].fields();
        assert(records(all@.push(fields)) =~= records(all@).push(texts(fields@)));
        assert(crate::icd10_extractor::row_views(rows@.take(i + 1))
            =~= crate::icd10_extractor::row_views(rows@.take(i as int)).push(rows[i as int]@));
        all.push(fields);
    }
    assert(rows@.take(rows.len() as int) =~= rows@);
    let header = icd10_header();
    let r = render_csv(&header, &all);
    proof {
        lemma_even_rows_render(texts(header@), records(all@), all.len() as nat);
    }
    r
}

/// The CSV table of site and morphology entries: its header, then `rows`
/// in order. Fails only where the writer fails on a record.
pub fn icdo3_table(rows: &Vec<EntryRow>) -> (r: Result<Vec<u8>, TableError>)
    ensures
        table_view(r) == table_of(icdo3_header_fields(), entry_views(rows@)),
        r matches Err(e) ==> e is Writer,
{
    let mut all: Vec<Vec<String>> = Vec::new();
    for i in 0..rows.len()
        invariant
            records(all@) == entry_views(rows@.take(i as int)),
            all_of_width(records(all@), 6),
            all.len() == i,
    {
        let fields = rows[i].fields();
        assert(records(all@.push(fields)) =~= records(all@).push(texts(fields@)));
        assert(entry_views(rows@.take(i + 1)) =~= entry_views(rows@.take(i as int)).push(
            rows[i as int]@,
        ));
        all.push(fields);
    }
    assert(rows@.take(rows.len() as int) =~= rows@);
    let header = icdo3_header();
    let r = render_csv(&header, &all);
    proof {
        lemma_even_rows_render(texts(header@), records(all@), all.len() as nat);
    }
    r
}

/// Tables rendered twice from the same header and rows come to the same:
/// the same bytes, byte for byte, or the same error.
pub proof fn lemma_table_is_repeatable(
    a: Result<Vec<u8>, TableError>,
    b: Result<Vec<u8>, TableError>,
    header: Seq<Seq<char>>,
    rows: Seq<Seq<Seq<char>>>,
)
    requires
        table_view(a) == table_of(header, rows),
        table_view(b) == table_of(header, rows),
    ensures
        table_view(a) == table_view(b),
        a is Ok ==> b is Ok && a->Ok_0@ == b->Ok_0@,
{
}

} // verus!
