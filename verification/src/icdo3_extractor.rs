//! Recovery of site/morphology rows from the text lines of a topography
//! document.
//!
//! Each line is held against three shapes in a fixed order: a section
//! header, a labelled entry, a simple entry. A header and a labelled entry
//! update the running section state; both kinds of entry emit one row that
//! carries the state along. A line of no known shape is recorded as skipped
//! and changes nothing.
//!
//! The state starts with four empty fields and is never reset during a run:
//! a simple entry that comes before any labelled entry emits a row whose
//! label and code are empty, and a new header leaves label and code as the
//! last labelled entry set them.

use crate::pattern::{
    capture_groups, compile, error_text, groups_view, regex_accepts, regex_captures, source_of,
};
use crate::text::{content_lines, content_lines_of, texts, trim_text, trimmed};
use regex::Regex;
use vstd::prelude::*;

verus! {

/// The pattern of a section header: site words in capitals, then one or more
/// topography codes joined by hyphens or commas.
pub open spec fn site_pattern() -> Seq<char> {
    "^([A-Z &.,'-]+)\\s+(C\\d{3}(?:[-,]C\\d{3})*)$"@
}

/// The pattern of a labelled entry: a label, a three-digit topography code,
/// a morphology code and a description.
pub open spec fn labeled_entry_pattern() -> Seq<char> {
    "^([\\w\\s.,&'/-]+)\\s+(\\d{3})\\s+(\\d{4}/\\d)\\s+(.+)$"@
}

/// The pattern of a simple entry: a morphology code and a description.
pub open spec fn simple_entry_pattern() -> Seq<char> {
    "^(\\d{4}/\\d)\\s+(.+)$"@
}

/// What a line turned out to be, over plain character sequences.
pub enum LineShape {
    SiteHeader { site: Seq<char>, topos: Seq<char> },
    LabeledEntry { label: Seq<char>, topo: Seq<char>, morphology: Seq<char>, description: Seq<char> },
    SimpleEntry { morphology: Seq<char>, description: Seq<char> },
    Unmatched,
}

/// What a line turned out to be.
#[derive(Debug)]
pub enum LineMatch {
    /// A section header with its site label and its list of topography codes.
    SiteHeader { site: String, topos: String },
    /// An entry that names its label and topography code.
    LabeledEntry { label: String, topo: String, morphology: String, description: String },
    /// An entry that continues the labelled entry before it.
    SimpleEntry { morphology: String, description: String },
    /// A line of no known shape.
    Unmatched,
}

impl View for LineMatch {
    type V = LineShape;

    open spec fn view(&self) -> LineShape {
        match *self {
            LineMatch::SiteHeader { site, topos } => LineShape::SiteHeader {
                site: site@,
                topos: topos@,
            },
            LineMatch::LabeledEntry { label, topo, morphology, description } => {
                LineShape::LabeledEntry {
                    label: label@,
                    topo: topo@,
                    morphology: morphology@,
                    description: description@,
                }
            },
            LineMatch::SimpleEntry { morphology, description } => LineShape::SimpleEntry {
                morphology: morphology@,
                description: description@,
            },
            LineMatch::Unmatched => LineShape::Unmatched,
        }
    }
}

/// Whether a match supplies the text of each of its groups `1..=n`.
pub open spec fn supplies(groups: Seq<Option<Seq<char>>>, n: int) -> bool {
    &&& groups.len() > n
    &&& forall|i: int| 1 <= i <= n ==> (#[trigger] groups[i]) is Some
}

/// The header that a search for the site pattern stands for, if any: the
/// search matched and supplied both groups, which are taken trimmed.
pub open spec fn header_shape(found: Option<Seq<Option<Seq<char>>>>) -> Option<LineShape> {
    match found {
        Some(g) if supplies(g, 2) => Some(
            LineShape::SiteHeader { site: trimmed(g[1]->0), topos: trimmed(g[2]->0) },
        ),
        _ => None,
    }
}

/// The labelled entry that a search for its pattern stands for, if any.
pub open spec fn labeled_shape(found: Option<Seq<Option<Seq<char>>>>) -> Option<LineShape> {
    match found {
        Some(g) if supplies(g, 4) => Some(
            LineShape::LabeledEntry {
                label: trimmed(g[1]->0),
                topo: trimmed(g[2]->0),
                morphology: trimmed(g[3]->0),
                description: trimmed(g[4]->0),
            },
        ),
        _ => None,
    }
}

/// The simple entry that a search for its pattern stands for, if any.
pub open spec fn simple_shape(found: Option<Seq<Option<Seq<char>>>>) -> Option<LineShape> {
    match found {
        Some(g) if supplies(g, 2) => Some(
            LineShape::SimpleEntry { morphology: trimmed(g[1]->0), description: trimmed(g[2]->0) },
        ),
        _ => None,
    }
}

/// The shape of a line, given what the three searches found in it: the
/// first shape that applies, in the order header, labelled entry, simple
/// entry; otherwise the line is unmatched.
pub open spec fn shape_from(
    site: Option<Seq<Option<Seq<char>>>>,
    labeled: Option<Seq<Option<Seq<char>>>>,
    simple: Option<Seq<Option<Seq<char>>>>,
) -> LineShape {
    if header_shape(site) is Some {
        header_shape(site)->0
    } else if labeled_shape(labeled) is Some {
        labeled_shape(labeled)->0
    } else if simple_shape(simple) is Some {
        simple_shape(simple)->0
    } else {
        LineShape::Unmatched
    }
}

/// The shape of a line.
pub open spec fn line_shape(line: Seq<char>) -> LineShape {
    shape_from(
        regex_captures(site_pattern(), line),
        regex_captures(labeled_entry_pattern(), line),
        regex_captures(simple_entry_pattern(), line),
    )
}

/// Whether the first `n` groups after the whole match are all there.
fn has_groups(groups: &Vec<Option<String>>, n: usize) -> (r: bool)
    requires
        n < usize::MAX,
    ensures
        r == supplies(groups_view(groups@), n as int),
{
    if groups.len() <= n {
        return false;
    }
    let mut i: usize = 1;
    while i <= n
        invariant
            1 <= i <= n + 1,
            n < groups.len(),
            forall|j: int| 1 <= j < i ==> (#[trigger] groups_view(groups@)[j]) is Some,
        decreases n + 1 - i,
    {
        if groups[i].is_none() {
            assert(groups_view(groups@)[i as int] is None);
            return false;
        }
        i += 1;
    }
    true
}

/// The text of group `i`, trimmed.
fn group_text(groups: &Vec<Option<String>>, i: usize) -> (r: String)
    requires
        i < groups.len(),
        groups[i as int] is Some,
    ensures
        r@ == trimmed(groups_view(groups@)[i as int]->0),
{
    match &groups[i] {
        Some(s) => trim_text(s.as_str()),
        None => String::new(),
    }
}

impl LineMatch {
    /// The section header that a search for the site pattern found.
    pub fn header_from(found: &Option<Vec<Option<String>>>) -> (r: Option<LineMatch>)
        ensures
            option_shape(r) == header_shape(crate::pattern::captures_view(*found)),
    {
        match found {
            Some(g) => {
                if has_groups(g, 2) {
                    Some(LineMatch::SiteHeader { site: group_text(g, 1), topos: group_text(g, 2) })
                } else {
                    None
                }
            },
            None => None,
        }
    }

    /// The labelled entry that a search for its pattern found.
    pub fn labeled_from(found: &Option<Vec<Option<String>>>) -> (r: Option<LineMatch>)
        ensures
            option_shape(r) == labeled_shape(crate::pattern::captures_view(*found)),
    {
        match found {
            Some(g) => {
                if has_groups(g, 4) {
                    Some(
                        LineMatch::LabeledEntry {
                            label: group_text(g, 1),
                            topo: group_text(g, 2),
                            morphology: group_text(g, 3),
                            description: group_text(g, 4),
                        },
                    )
                } else {
                    None
                }
            },
            None => None,
        }
    }

    /// The simple entry that a search for its pattern found.
    pub fn simple_from(found: &Option<Vec<Option<String>>>) -> (r: Option<LineMatch>)
        ensures
            option_shape(r) == simple_shape(crate::pattern::captures_view(*found)),
    {
        match found {
            Some(g) => {
                if has_groups(g, 2) {
                    Some(
                        LineMatch::SimpleEntry {
                            morphology: group_text(g, 1),
                            description: group_text(g, 2),
                        },
                    )
                } else {
                    None
                }
            },
            None => None,
        }
    }
}

/// The shape that an optional match stands for.
pub open spec fn option_shape(m: Option<LineMatch>) -> Option<LineShape> {
    match m {
        Some(x) => Some(x@),
        None => None,
    }
}

/// Whether the pattern engine accepts the three patterns of the classifier.
pub open spec fn patterns_accepted() -> bool {
    &&& regex_accepts(site_pattern())
    &&& regex_accepts(labeled_entry_pattern())
    &&& regex_accepts(simple_entry_pattern())
}

/// The three compiled patterns of the classifier.
pub struct LinePatterns {
    site: Regex,
    labeled: Regex,
    simple: Regex,
}

/// Why an extraction could not start.
#[derive(Debug)]
pub enum ExtractError {
    /// A pattern of the classifier was not accepted; the text says why.
    Pattern(String),
}

impl LinePatterns {
    #[verifier::type_invariant]
    spec fn well_formed(self) -> bool {
        &&& source_of(self.site) == site_pattern()
        &&& source_of(self.labeled) == labeled_entry_pattern()
        &&& source_of(self.simple) == simple_entry_pattern()
    }

    /// Compiles the three patterns. Fails exactly where the pattern engine
    /// refuses one of them.
    pub fn new() -> (r: Result<LinePatterns, ExtractError>)
        ensures
            r is Ok <==> patterns_accepted(),
    {
        let site = match compile("^([A-Z &.,'-]+)\\s+(C\\d{3}(?:[-,]C\\d{3})*)$") {
            Ok(re) => re,
            Err(e) => {
                return Err(ExtractError::Pattern(error_text(&e)));
            },
        };
        let labeled = match compile("^([\\w\\s.,&'/-]+)\\s+(\\d{3})\\s+(\\d{4}/\\d)\\s+(.+)$") {
            Ok(re) => re,
            Err(e) => {
                return Err(ExtractError::Pattern(error_text(&e)));
            },
        };
        let simple = match compile("^(\\d{4}/\\d)\\s+(.+)$") {
            Ok(re) => re,
            Err(e) => {
                return Err(ExtractError::Pattern(error_text(&e)));
            },
        };
        Ok(LinePatterns { site, labeled, simple })
    }

    /// Classifies one line: the patterns are tried in the order header,
    /// labelled entry, simple entry, and the first that matches decides.
    pub fn classify_line(&self, line: &str) -> (r: LineMatch)
        ensures
            r@ == line_shape(line@),
    {
        proof {
            use_type_invariant(self);
        }
        let site = capture_groups(&self.site, line);
        if let Some(m) = LineMatch::header_from(&site) {
            return m;
        }
        let labeled = capture_groups(&self.labeled, line);
        if let Some(m) = LineMatch::labeled_from(&labeled) {
            return m;
        }
        let simple = capture_groups(&self.simple, line);
        if let Some(m) = LineMatch::simple_from(&simple) {
            return m;
        }
        LineMatch::Unmatched
    }
}

/// The running section state over plain character sequences.
pub struct SectionView {
    pub site: Seq<char>,
    pub topos: Seq<char>,
    pub label: Seq<char>,
    pub topo: Seq<char>,
}

/// The state before any line: four empty fields.
pub open spec fn initial_section() -> SectionView {
    SectionView { site: Seq::empty(), topos: Seq::empty(), label: Seq::empty(), topo: Seq::empty() }
}

/// The state after a line of shape `m`. A header overwrites site and code
/// list, a labelled entry overwrites label and code, and nothing else
/// changes anything.
pub open spec fn next_section(s: SectionView, m: LineShape) -> SectionView {
    match m {
        LineShape::SiteHeader { site, topos } => SectionView { site, topos, ..s },
        LineShape::LabeledEntry { label, topo, .. } => SectionView { label, topo, ..s },
        LineShape::SimpleEntry { .. } => s,
        LineShape::Unmatched => s,
    }
}

/// The six fields of the row that an entry with the given morphology code
/// and description emits in state `s`.
pub open spec fn row_in(s: SectionView, morphology: Seq<char>, description: Seq<char>) -> Seq<
    Seq<char>,
> {
    seq![s.site, s.topos, s.label, s.topo, morphology, description]
}

/// The row that a line of shape `m` emits when it arrives in state `s`, if
/// any. A labelled entry's row already carries its own label and code.
pub open spec fn emitted_row(s: SectionView, m: LineShape) -> Option<Seq<Seq<char>>> {
    match m {
        LineShape::LabeledEntry { morphology, description, .. } => Some(
            row_in(next_section(s, m), morphology, description),
        ),
        LineShape::SimpleEntry { morphology, description } => Some(
            row_in(s, morphology, description),
        ),
        _ => None,
    }
}

/// The four carried fields: the current site label, its list of topography
/// codes, the current entry label and its topography code.
#[derive(Debug)]
pub struct SectionState {
    pub site: String,
    pub topos: String,
    pub label: String,
    pub topo: String,
}

impl View for SectionState {
    type V = SectionView;

    open spec fn view(&self) -> SectionView {
        SectionView { site: self.site@, topos: self.topos@, label: self.label@, topo: self.topo@ }
    }
}

/// One output row of the line classifier.
#[derive(Debug)]
pub struct EntryRow {
    pub site: String,
    pub topos: String,
    pub label: String,
    pub topo: String,
    pub morphology: String,
    pub description: String,
}

impl View for EntryRow {
    type V = Seq<Seq<char>>;

    /// The fields in column order.
    open spec fn view(&self) -> Seq<Seq<char>> {
        seq![
            self.site@,
            self.topos@,
            self.label@,
            self.topo@,
            self.morphology@,
            self.description@,
        ]
    }
}

impl EntryRow {
    /// The fields in column order.
    pub fn fields(&self) -> (r: Vec<String>)
        ensures
            texts(r@) == self@,
    {
        let mut r: Vec<String> = Vec::new();
        r.push(self.site.clone());
        r.push(self.topos.clone());
        r.push(self.label.clone());
        r.push(self.topo.clone());
        r.push(self.morphology.clone());
        r.push(self.description.clone());
        r
    }
}

/// The view of an optional row.
pub open spec fn option_row(r: Option<EntryRow>) -> Option<Seq<Seq<char>>> {
    match r {
        Some(x) => Some(x@),
        None => None,
    }
}

impl SectionState {
    /// The state before any line.
    pub fn new() -> (r: SectionState)
        ensures
            r@ == initial_section(),
    {
        SectionState {
            site: String::new(),
            topos: String::new(),
            label: String::new(),
            topo: String::new(),
        }
    }

    /// Takes one classified line: updates the state as the line's shape
    /// says, and hands back the row that the line emits, if it emits one.
    pub fn apply(&mut self, m: LineMatch) -> (row: Option<EntryRow>)
        ensures
            final(self)@ == next_section(old(self)@, m@),
            option_row(row) == emitted_row(old(self)@, m@),
    {
        match m {
            LineMatch::SiteHeader { site, topos } => {
                self.site = site;
                self.topos = topos;
                None
            },
            LineMatch::LabeledEntry { label, topo, morphology, description } => {
                self.label = label;
                self.topo = topo;
                Some(self.row(morphology, description))
            },
            LineMatch::SimpleEntry { morphology, description } => Some(
                self.row(morphology, description),
            ),
            LineMatch::Unmatched => None,
        }
    }

    /// The row of an entry in this state.
    fn row(&self, morphology: String, description: String) -> (r: EntryRow)
        ensures
            r@ == row_in(self@, morphology@, description@),
    {
        EntryRow {
            site: self.site.clone(),
            topos: self.topos.clone(),
            label: self.label.clone(),
            topo: self.topo.clone(),
            morphology,
            description,
        }
    }
}

/// A line that matched no shape, over plain values.
pub struct SkippedView {
    pub number: nat,
    pub text: Seq<char>,
}

/// What a run over some lines comes to, over plain values.
pub struct Trace {
    pub state: SectionView,
    pub rows: Seq<Seq<Seq<char>>>,
    pub skipped: Seq<SkippedView>,
}

/// What one more line makes of a trace: `line` is line number `number`.
pub open spec fn trace_step(t: Trace, number: nat, line: Seq<char>) -> Trace {
    let m = line_shape(line);
    Trace {
        state: next_section(t.state, m),
        rows: match emitted_row(t.state, m) {
            Some(r) => t.rows.push(r),
            None => t.rows,
        },
        skipped: if m is Unmatched {
            t.skipped.push(SkippedView { number, text: line })
        } else {
            t.skipped
        },
    }
}

/// The trace of the first `n` of `lines`, from the initial state. Lines are
/// numbered from 1.
pub open spec fn trace_after(lines: Seq<Seq<char>>, n: nat) -> Trace
    decreases n,
{
    if n == 0 || n > lines.len() {
        Trace { state: initial_section(), rows: Seq::empty(), skipped: Seq::empty() }
    } else {
        trace_step(trace_after(lines, (n - 1) as nat), n, lines[n - 1])
    }
}

/// The trace of all of `lines`.
pub open spec fn trace_of(lines: Seq<Seq<char>>) -> Trace {
    trace_after(lines, lines.len())
}

/// A line that matched no shape, with its number among the lines, from 1.
#[derive(Debug)]
pub struct SkippedLine {
    pub number: usize,
    pub text: String,
}

impl View for SkippedLine {
    type V = SkippedView;

    open spec fn view(&self) -> SkippedView {
        SkippedView { number: self.number as nat, text: self.text@ }
    }
}

/// The outcome of a run: the rows in line order, the lines that were
/// skipped, and the section state at the end.
#[derive(Debug)]
pub struct Extraction {
    pub rows: Vec<EntryRow>,
    pub skipped: Vec<SkippedLine>,
    pub state: SectionState,
}

impl View for Extraction {
    type V = Trace;

    open spec fn view(&self) -> Trace {
        Trace {
            state: self.state@,
            rows: self.rows@.map_values(|r: EntryRow| r@),
            skipped: self.skipped@.map_values(|s: SkippedLine| s@),
        }
    }
}

impl LinePatterns {
    /// Runs the classifier over `lines`, from the initial state.
    pub fn classify_lines(&self, lines: &Vec<String>) -> (r: Extraction)
        ensures
            r@ == trace_of(texts(lines@)),
    {
        let mut out = Extraction { rows: Vec::new(), skipped: Vec::new(), state: SectionState::new() };
        assert(out@.rows =~= Seq::empty() && out@.skipped =~= Seq::empty());
        for i in 0..lines.len()
            invariant
                out@ == trace_after(texts(lines@), i as nat),
        {
            let ghost before = out@;
            let m = self.classify_line(lines[i].as_str());
            if let LineMatch::Unmatched = m {
                let skipped = SkippedLine { number: i + 1, text: lines[i].clone() };
                assert(out.skipped@.push(skipped).map_values(|s: SkippedLine| s@)
                    =~= before.skipped.push(skipped@));
                out.skipped.push(skipped);
            }
            if let Some(row) = out.state.apply(m) {
                assert(out.rows@.push(row).map_values(|r: EntryRow| r@) =~= before.rows.push(row@));
                out.rows.push(row);
            }
        }
        out
    }
}

/// Recovers the rows of a topography document from its text: the text is
/// split into trimmed, non-empty lines, and the classifier runs over them.
/// Fails exactly where the pattern engine refuses a pattern, whatever the
/// text.
pub fn extract_icdo3_codes(text: &str) -> (r: Result<Extraction, ExtractError>)
    ensures
        r is Ok <==> patterns_accepted(),
        r matches Ok(x) ==> x@ == trace_of(content_lines_of(text@)),
{
    let patterns = match LinePatterns::new() {
        Ok(p) => p,
        Err(e) => {
            return Err(e);
        },
    };
    let lines = content_lines(text);
    Ok(patterns.classify_lines(&lines))
}

/// A line of no known shape emits no row and leaves every field of the
/// section state as it was; it is recorded as skipped under its number.
pub proof fn lemma_unmatched_line_is_inert(lines: Seq<Seq<char>>, n: nat)
    requires
        n < lines.len(),
        line_shape(lines[n as int]) is Unmatched,
    ensures
        trace_after(lines, n + 1).state == trace_after(lines, n).state,
        trace_after(lines, n + 1).rows == trace_after(lines, n).rows,
        trace_after(lines, n + 1).skipped == trace_after(lines, n).skipped.push(
            SkippedView { number: n + 1, text: lines[n as int] },
        ),
{
}

/// After a labelled entry, simple entries and lines of no known shape in
/// any number leave label and topography code as the labelled entry set
/// them: a later simple entry still resolves against it.
pub proof fn lemma_label_persists(lines: Seq<Seq<char>>, from: nat, to: nat)
    requires
        from < to <= lines.len(),
        line_shape(lines[from as int]) is LabeledEntry,
        forall|k: int|
            from < k < to ==> (#[trigger] line_shape(lines[k])) is SimpleEntry || line_shape(
                lines[k],
            ) is Unmatched,
    ensures
        trace_after(lines, to).state == trace_after(lines, from + 1).state,
        trace_after(lines, to).state.label == line_shape(lines[from as int])->label,
        trace_after(lines, to).state.topo == line_shape(lines[from as int])->topo,
    decreases to,
{
    if to > from + 1 {
        lemma_label_persists(lines, from, (to - 1) as nat);
    }
}

/// Taking a line of no known shape out of the input changes neither the
/// rows nor the final state of the run.
pub proof fn lemma_unmatched_line_can_be_dropped(lines: Seq<Seq<char>>, k: int)
    requires
        0 <= k < lines.len(),
        line_shape(lines[k]) is Unmatched,
    ensures
        trace_of(lines.remove(k)).rows == trace_of(lines).rows,
        trace_of(lines.remove(k)).state == trace_of(lines).state,
{
    lemma_dropped_prefix(lines, k, lines.len());
}

/// The run over the first `n` lines, once with and once without the
/// unmatched line `k` among them.
proof fn lemma_dropped_prefix(lines: Seq<Seq<char>>, k: int, n: nat)
    requires
        0 <= k < lines.len(),
        line_shape(lines[k]) is Unmatched,
        n <= lines.len(),
    ensures
        n <= k ==> trace_after(lines.remove(k), n) == trace_after(lines, n),
        n > k ==> trace_after(lines.remove(k), (n - 1) as nat).rows == trace_after(lines, n).rows,
        n > k ==> trace_after(lines.remove(k), (n - 1) as nat).state == trace_after(
            lines,
            n,
        ).state,
    decreases n,
{
    if n > 0 {
        lemma_dropped_prefix(lines, k, (n - 1) as nat);
    }
}

/// A run never emits more rows than it has lines: each line emits a row,
/// is skipped, or does neither.
pub proof fn lemma_at_most_one_row_per_line(lines: Seq<Seq<char>>, n: nat)
    requires
        n <= lines.len(),
    ensures
        trace_after(lines, n).rows.len() + trace_after(lines, n).skipped.len() <= n,
    decreases n,
{
    if n > 0 {
        lemma_at_most_one_row_per_line(lines, (n - 1) as nat);
    }
}

/// Two runs on the same text come to the same rows, the same skipped lines
/// and the same final state.
pub proof fn lemma_extraction_is_repeatable(a: Extraction, b: Extraction, text: Seq<char>)
    requires
        a@ == trace_of(content_lines_of(text)),
        b@ == trace_of(content_lines_of(text)),
    ensures
        a@ == b@,
{
}

} // verus!
