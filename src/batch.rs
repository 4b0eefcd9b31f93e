//! The batch run: which documents are skipped, where records are written,
//! the key and value a decoded section is stored under, the progress report,
//! and the markdown view of a document.
use vstd::prelude::*;

use crate::json::{unwrap_single_entry, unwrapped, JsonValue};
use crate::parser::{section_name_spec, SectionParser};
use crate::section::{extract_section, section_text};
use crate::text::{chars_of, trim_spec, trimmed};

verus! {

/// The key under which section `i` is stored in a document's record; the
/// other sections are not stored.
pub open spec fn output_key_spec(i: int) -> Option<Seq<char>> {
    if i == 0 {
        Some("companyDetails"@)
    } else if i == 1 {
        Some("businessDetails"@)
    } else if i == 4 {
        Some("officeBearers"@)
    } else if i == 5 {
        Some("shareHolders"@)
    } else {
        None
    }
}

/// The output key of section `section_index` and the value stored under it:
/// the decoded value, or its inner value when it is an object with a single
/// entry.
pub fn output_key_and_value(section_index: usize, json: JsonValue) -> (r: Option<(String, JsonValue)>)
    ensures
        output_key_spec(section_index as int) is None ==> r is None,
        output_key_spec(section_index as int) matches Some(k) ==> r is Some && r->Some_0.0@ == k
            && r->Some_0.1 == unwrapped(json),
{
    let key = match section_index {
        0 => "companyDetails",
        1 => "businessDetails",
        4 => "officeBearers",
        5 => "shareHolders",
        _ => {
            return None;
        },
    };
    Some((key.to_owned(), unwrap_single_entry(json)))
}

/// Where the record of the document named `stem` is written under `dir`.
pub open spec fn checkpoint_path_spec(dir: Seq<char>, stem: Seq<char>) -> Seq<char> {
    dir + "/"@ + stem + ".json"@
}

/// Where the record of the document named `stem` is written under
/// `output_dir`; a file there marks the document as done.
pub fn checkpoint_path(output_dir: &str, stem: &str) -> (r: String)
    ensures
        r@ == checkpoint_path_spec(output_dir@, stem@),
{
    let mut p = output_dir.to_owned();
    p.append("/");
    p.append(stem);
    p.append(".json");
    p
}

/// The decimal digit `d`.
pub open spec fn digit_char(d: nat) -> char {
    if d == 0 {
        '0'
    } else if d == 1 {
        '1'
    } else if d == 2 {
        '2'
    } else if d == 3 {
        '3'
    } else if d == 4 {
        '4'
    } else if d == 5 {
        '5'
    } else if d == 6 {
        '6'
    } else if d == 7 {
        '7'
    } else if d == 8 {
        '8'
    } else {
        '9'
    }
}

/// `n` written in decimal, without leading zeros.
pub open spec fn decimal(n: nat) -> Seq<char>
    decreases n,
{
    if n < 10 {
        seq![digit_char(n)]
    } else {
        decimal(n / 10).push(digit_char(n % 10))
    }
}

fn digit(d: u128) -> (c: char)
    requires
        d < 10,
    ensures
        c == digit_char(d as nat),
{
    match d {
        0 => '0',
        1 => '1',
        2 => '2',
        3 => '3',
        4 => '4',
        5 => '5',
        6 => '6',
        7 => '7',
        8 => '8',
        _ => '9',
    }
}

/// Appends `n` in decimal to `out`.
fn push_decimal(out: &mut String, n: u128)
    ensures
        final(out)@ == old(out)@ + decimal(n as nat),
    decreases n,
{
    if n >= 10 {
        push_decimal(out, n / 10);
    }
    out.push(digit(n % 10));
    assert(out@ =~= old(out)@ + decimal(n as nat));
}

/// A duration of `secs` seconds as whole minutes and remaining seconds.
pub open spec fn duration_text(secs: nat) -> Seq<char> {
    decimal(secs / 60) + "m "@ + decimal(secs % 60) + "s"@
}

/// A duration of `secs` seconds as whole minutes and remaining seconds, as in
/// "2m 5s".
pub fn format_duration(secs: u128) -> (r: String)
    ensures
        r@ == duration_text(secs as nat),
{
    let mut s = String::new();
    push_decimal(&mut s, secs / 60);
    s.append("m ");
    push_decimal(&mut s, secs % 60);
    s.append("s");
    s
}

/// The section text is empty once trimmed.
pub open spec fn section_is_blank(k: int, text: Seq<char>) -> bool {
    trim_spec(section_text(k, text)).len() == 0
}

/// Whether a section text is empty once trimmed.
pub(crate) fn is_blank(s: &String) -> (r: bool)
    ensures
        r == (trim_spec(s@).len() == 0),
{
    let c = chars_of(s.as_str());
    let t = trimmed(&c);
    t.len() == 0
}

/// The markdown block of section `k`: nothing for a blank section, else a
/// level-two heading with the section's name, its text and a rule.
pub open spec fn markdown_block(k: int, text: Seq<char>) -> Seq<char> {
    if section_is_blank(k, text) {
        Seq::empty()
    } else {
        "## "@ + section_name_spec(k) + "\n\n"@ + section_text(k, text) + "\n\n---\n\n"@
    }
}

/// The markdown blocks of the sections `ks`, in order.
pub open spec fn markdown_blocks(ks: Seq<usize>, text: Seq<char>) -> Seq<char>
    decreases ks.len(),
{
    if ks.len() == 0 {
        Seq::empty()
    } else {
        markdown_blocks(ks.drop_last(), text) + markdown_block(ks.last() as int, text)
    }
}

/// The markdown view of a document's sections: a title naming the document,
/// then one block for each section of `sections_to_parse` that is not blank.
pub fn build_markdown_for_pdf(pdf_name: &str, pdf_text: &str, sections_to_parse: &[usize]) -> (r:
    String)
    ensures
        r@ == "# Extracted Sections from `"@ + pdf_name@ + "`\n\n"@ + markdown_blocks(
            sections_to_parse@,
            pdf_text@,
        ),
{
    let mut md = "# Extracted Sections from `".to_owned();
    md.append(pdf_name);
    md.append("`\n\n");
    let ghost head = md@;
    for i in 0..sections_to_parse.len()
        invariant
            md@ == head + markdown_blocks(sections_to_parse@.subrange(0, i as int), pdf_text@),
    {
        let idx = sections_to_parse[i];
        let section = extract_section(idx, pdf_text);
        if !is_blank(&section) {
            md.append("## ");
            md.append(SectionParser::section_name(idx));
            md.append("\n\n");
            md.append(section.as_str());
            md.append("\n\n---\n\n");
        }
        proof {
            let ks = sections_to_parse@.subrange(0, i + 1 as int);
            assert(ks.drop_last() =~= sections_to_parse@.subrange(0, i as int));
            assert(md@ =~= head + markdown_blocks(ks, pdf_text@));
        }
    }
    assert(sections_to_parse@.subrange(0, sections_to_parse@.len() as int) =~= sections_to_parse@);
    md
}

/// What the batch does with one document.
#[derive(Debug, Clone, Copy, PartialEq, Eq, Structural)]
pub enum DocumentDecision {
    /// Its record is already written: nothing to do.
    Skip,
    /// Extract its sections and write its record.
    Process,
}

/// The decision for a document whose record exists, or does not: skip it
/// exactly when the record is there.
pub open spec fn decision_for(checkpoint_exists: bool) -> DocumentDecision {
    if checkpoint_exists {
        DocumentDecision::Skip
    } else {
        DocumentDecision::Process
    }
}

/// A progress line: documents done out of the total, time spent and the
/// estimate of the time left.
pub struct ProgressReport {
    pub completed: usize,
    pub total: usize,
    pub elapsed: String,
    pub eta: String,
}

/// The estimate of the time left, in nanoseconds: the mean time per document
/// done so far times the documents left.
pub open spec fn eta_nanos(elapsed_nanos: nat, completed: nat, total: nat) -> nat
    recommends
        completed > 0,
{
    ((elapsed_nanos / completed) * (total - completed)) as nat
}

/// The running totals of a batch.
pub struct BatchProgress {
    total: usize,
    completed: usize,
}

impl BatchProgress {
    /// How many documents the batch holds.
    pub closed spec fn total_spec(&self) -> nat {
        self.total as nat
    }

    /// How many documents are done, skipped ones included.
    pub closed spec fn completed_spec(&self) -> nat {
        self.completed as nat
    }

    /// A batch of `total` documents, none done.
    pub fn new(total: usize) -> (r: Self)
        ensures
            r.total_spec() == total,
            r.completed_spec() == 0,
    {
        BatchProgress { total, completed: 0 }
    }

    /// Decides on the next document: skipped, and counted as done, when its
    /// record already exists; processed otherwise.
    pub fn decide(&mut self, checkpoint_exists: bool) -> (r: DocumentDecision)
        requires
            old(self).completed_spec() < old(self).total_spec(),
        ensures
            final(self).total_spec() == old(self).total_spec(),
            r == decision_for(checkpoint_exists),
            checkpoint_exists ==> final(self).completed_spec() == old(self).completed_spec() + 1,
            !checkpoint_exists ==> final(self).completed_spec() == old(self).completed_spec(),
    {
        if checkpoint_exists {
            self.completed = self.completed + 1;
            DocumentDecision::Skip
        } else {
            DocumentDecision::Process
        }
    }

    /// Counts a processed document as done and reports the progress, with
    /// `elapsed_nanos` spent since the batch began.
    pub fn finish_document(&mut self, elapsed_nanos: u64) -> (r: ProgressReport)
        requires
            old(self).completed_spec() < old(self).total_spec(),
        ensures
            final(self).total_spec() == old(self).total_spec(),
            final(self).completed_spec() == old(self).completed_spec() + 1,
            r.completed == final(self).completed_spec(),
            r.total == final(self).total_spec(),
            r.elapsed@ == duration_text(elapsed_nanos as nat / 1_000_000_000),
            r.eta@ == duration_text(
                eta_nanos(
                    elapsed_nanos as nat,
                    final(self).completed_spec(),
                    final(self).total_spec(),
                ) / 1_000_000_000,
            ),
    {
        self.completed = self.completed + 1;
        let avg: u64 = elapsed_nanos / (self.completed as u64);
        let left: u128 = (self.total - self.completed) as u128;
        assert(avg as u128 * left <= u64::MAX as u128 * u64::MAX as u128) by (nonlinear_arith)
            requires
                avg <= u64::MAX,
                left <= u64::MAX,
        ;
        let eta: u128 = (avg as u128) * left;
        ProgressReport {
            completed: self.completed,
            total: self.total,
            elapsed: format_duration((elapsed_nanos / 1_000_000_000) as u128),
            eta: format_duration(eta / 1_000_000_000),
        }
    }
}

/// The records a run over the documents `stems` writes, when the records in
/// `existing` are there before it: the record at the checkpoint path of each
/// document that `decide`, told whether that path exists, sends to processing.
pub open spec fn run_writes(dir: Seq<char>, stems: Seq<Seq<char>>, existing: Set<Seq<char>>) -> Set<
    Seq<char>,
> {
    Set::new(
        |p: Seq<char>|
            exists|i: int|
                0 <= i < stems.len() && p == checkpoint_path_spec(dir, #[trigger] stems[i])
                    && decision_for(existing.contains(p)) == DocumentDecision::Process,
    )
}

/// A second run over the same documents, after a first one wrote its records
/// and nothing else changed, writes nothing.
pub proof fn lemma_second_run_writes_nothing(
    dir: Seq<char>,
    stems: Seq<Seq<char>>,
    existing: Set<Seq<char>>,
)
    ensures
        run_writes(dir, stems, existing.union(run_writes(dir, stems, existing))) =~= Set::<
            Seq<char>,
        >::empty(),
{
    let first = run_writes(dir, stems, existing);
    assert forall|p: Seq<char>| !run_writes(dir, stems, existing.union(first)).contains(p) by {
        if run_writes(dir, stems, existing.union(first)).contains(p) {
            let i = choose|i: int|
                0 <= i < stems.len() && p == checkpoint_path_spec(dir, #[trigger] stems[i])
                    && decision_for(existing.union(first).contains(p))
                    == DocumentDecision::Process;
            assert(!existing.contains(p));
            assert(first.contains(p));
        }
    }
}

} // verus!
