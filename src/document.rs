//! The extraction of one document: which sections need a backend call, and
//! how their outcomes build the document's record.
use vstd::prelude::*;

use crate::api::ExtractionError;
use crate::batch::{is_blank, output_key_and_value, output_key_spec, section_is_blank};
use crate::json::{unwrapped, JsonValue};
use crate::parser::{build_prompt, parser_for, prompt_spec, section_name_spec, SectionParser};
use crate::section::{extract_section, section_text};

verus! {

/// Section `k` of `text` needs a backend call: it is not blank and has a parser.
pub open spec fn needs_call(k: int, text: Seq<char>) -> bool {
    !section_is_blank(k, text) && parser_for(k) is Some
}

/// The record entries as a map from key to value; a later entry replaces an
/// earlier one with the same key.
pub open spec fn entries_map(es: Seq<(String, JsonValue)>) -> Map<Seq<char>, JsonValue>
    decreases es.len(),
{
    if es.len() == 0 {
        Map::empty()
    } else {
        entries_map(es.drop_last()).insert(es.last().0@, es.last().1)
    }
}

/// `after` is `before` once the outcome of section `k` is recorded: a decoded
/// value of a stored section adds its output key with the unwrapped value; a
/// failure, or a section that is not stored, changes nothing.
pub open spec fn outcome_applied(
    before: Seq<(String, JsonValue)>,
    k: int,
    outcome: Result<JsonValue, ExtractionError>,
    after: Seq<(String, JsonValue)>,
) -> bool {
    match outcome {
        Ok(v) => match output_key_spec(k) {
            Some(key) => {
                &&& after.len() == before.len() + 1
                &&& after.drop_last() == before
                &&& after.last().0@ == key
                &&& after.last().1 == unwrapped(v)
            },
            None => after == before,
        },
        Err(_) => after == before,
    }
}

/// Recording the outcome of one section, a failure or a success, leaves the
/// entry of every section with another output key as it was.
pub proof fn lemma_outcome_keeps_other_sections(
    before: Seq<(String, JsonValue)>,
    k: int,
    outcome: Result<JsonValue, ExtractionError>,
    after: Seq<(String, JsonValue)>,
    j: int,
)
    requires
        outcome_applied(before, k, outcome, after),
        output_key_spec(j) is Some,
        output_key_spec(j) != output_key_spec(k),
    ensures
        entries_map(after).contains_key(output_key_spec(j)->Some_0) == entries_map(
            before,
        ).contains_key(output_key_spec(j)->Some_0),
        entries_map(after)[output_key_spec(j)->Some_0] == entries_map(before)[output_key_spec(
            j,
        )->Some_0],
{
    if after != before {
        assert(after.drop_last() == before);
    }
}

/// A failed section adds nothing to the record.
pub proof fn lemma_failure_records_nothing(
    before: Seq<(String, JsonValue)>,
    k: int,
    e: ExtractionError,
    after: Seq<(String, JsonValue)>,
)
    requires
        outcome_applied(before, k, Err(e), after),
    ensures
        entries_map(after) == entries_map(before),
{
}

/// `key` is the output key of one of the first `n` sections of `ks` that
/// needed a backend call.
pub open spec fn key_of_called(ks: Seq<usize>, text: Seq<char>, n: int, key: Seq<char>) -> bool {
    exists|j: int|
        0 <= j < n && needs_call(#[trigger] ks[j] as int, text) && output_key_spec(ks[j] as int)
            == Some(key)
}

/// Each entry of `es` has the output key of one of the first `n` sections of
/// `ks` that needed a backend call.
pub open spec fn entries_from_called(
    es: Seq<(String, JsonValue)>,
    ks: Seq<usize>,
    text: Seq<char>,
    n: int,
) -> bool {
    forall|e: int| 0 <= e < es.len() ==> key_of_called(ks, text, n, (#[trigger] es[e]).0@)
}

proof fn lemma_entries_from_called_grow(
    es: Seq<(String, JsonValue)>,
    ks: Seq<usize>,
    text: Seq<char>,
    n: int,
    m: int,
)
    requires
        entries_from_called(es, ks, text, n),
        n <= m,
    ensures
        entries_from_called(es, ks, text, m),
{
    assert forall|e: int| 0 <= e < es.len() implies key_of_called(
        ks,
        text,
        m,
        (#[trigger] es[e]).0@,
    ) by {
        assert(key_of_called(ks, text, n, es[e].0@));
        let j0 = choose|j: int|
            0 <= j < n && needs_call(#[trigger] ks[j] as int, text) && output_key_spec(
                ks[j] as int,
            ) == Some(es[e].0@);
        assert(needs_call(ks[j0] as int, text));
    }
}

proof fn lemma_entries_from_called_push(
    es: Seq<(String, JsonValue)>,
    ks: Seq<usize>,
    text: Seq<char>,
    n: int,
    entry: (String, JsonValue),
    j: int,
)
    requires
        entries_from_called(es, ks, text, n),
        0 <= j < n,
        needs_call(ks[j] as int, text),
        output_key_spec(ks[j] as int) == Some(entry.0@),
    ensures
        entries_from_called(es.push(entry), ks, text, n),
{
    let es2 = es.push(entry);
    assert forall|e: int| 0 <= e < es2.len() implies key_of_called(
        ks,
        text,
        n,
        (#[trigger] es2[e]).0@,
    ) by {
        if e < es.len() {
            assert(es2[e] == es[e]);
            assert(key_of_called(ks, text, n, es[e].0@));
        } else {
            assert(es2[e] == entry);
            assert(needs_call(ks[j] as int, text));
        }
    }
}

/// Two sections with the same output key are the same section.
proof fn lemma_output_keys_distinct(a: int, b: int)
    requires
        output_key_spec(a) is Some,
        output_key_spec(a) == output_key_spec(b),
    ensures
        a == b,
{
    reveal_strlit("companyDetails");
    reveal_strlit("businessDetails");
    reveal_strlit("officeBearers");
    reveal_strlit("shareHolders");
    assert("companyDetails"@.len() == 14);
    assert("businessDetails"@.len() == 15);
    assert("officeBearers"@.len() == 13);
    assert("shareHolders"@.len() == 12);
    let ka = output_key_spec(a)->Some_0;
    let kb = output_key_spec(b)->Some_0;
    assert(ka.len() == kb.len());
}

/// A blank section is never sent, so a record built only from sections that
/// needed a call holds no entry under a blank section's output key.
pub proof fn lemma_blank_section_has_no_entry(
    es: Seq<(String, JsonValue)>,
    ks: Seq<usize>,
    text: Seq<char>,
    n: int,
    k: int,
)
    requires
        entries_from_called(es, ks, text, n),
        section_is_blank(k, text),
        output_key_spec(k) is Some,
    ensures
        forall|e: int| 0 <= e < es.len() ==> (#[trigger] es[e]).0@ != output_key_spec(k)->Some_0,
{
    assert forall|e: int| 0 <= e < es.len() implies (#[trigger] es[e]).0@ != output_key_spec(
        k,
    )->Some_0 by {
        if es[e].0@ == output_key_spec(k)->Some_0 {
            assert(key_of_called(ks, text, n, es[e].0@));
            let j = choose|j: int|
                0 <= j < n && needs_call(#[trigger] ks[j] as int, text) && output_key_spec(
                    ks[j] as int,
                ) == Some(es[e].0@);
            lemma_output_keys_distinct(k, ks[j] as int);
        }
    }
}

/// A section whose extraction failed: which one, and why.
pub struct SectionFailure {
    pub section_index: usize,
    pub section_name: String,
    pub cause: ExtractionError,
}

/// What the caller does next for a document.
pub enum DocumentStep {
    /// Send `prompt` for section `section_index`, decoded with `parser`, and
    /// hand the outcome to `complete_section`.
    Extract { section_index: usize, parser: SectionParser, prompt: String },
    /// Every requested section was dealt with: the record is complete.
    Finish,
}

/// The extraction of one document: its text, the sections asked for, how far
/// it has got, and the record entries so far.
pub struct DocumentRun {
    filename: String,
    text: String,
    sections: Vec<usize>,
    next: usize,
    pending: Option<usize>,
    entries: Vec<(String, JsonValue)>,
}

impl DocumentRun {
    /// The document's name.
    pub closed spec fn filename_spec(&self) -> Seq<char> {
        self.filename@
    }

    /// The document's text.
    pub closed spec fn text_spec(&self) -> Seq<char> {
        self.text@
    }

    /// The sections asked for, in order.
    pub closed spec fn sections_spec(&self) -> Seq<usize> {
        self.sections@
    }

    /// How many of the sections asked for were dealt with or handed out.
    pub closed spec fn next_spec(&self) -> nat {
        self.next as nat
    }

    /// The section handed out whose outcome is awaited.
    pub closed spec fn pending_spec(&self) -> Option<usize> {
        self.pending
    }

    /// The record entries so far, after the file name.
    pub closed spec fn entries_spec(&self) -> Seq<(String, JsonValue)> {
        self.entries@
    }

    /// The run's position stays within the sections asked for.
    pub closed spec fn wf(&self) -> bool {
        &&& self.next <= self.sections@.len()
        &&& self.pending matches Some(k) ==> self.next > 0 && self.sections@[self.next - 1] == k
            && needs_call(k as int, self.text@)
    }

    /// Every entry of the record comes from a section dealt with so far that
    /// needed a backend call; blank sections and sections without a parser
    /// never add one.
    pub open spec fn recorded_only_called(&self) -> bool {
        entries_from_called(
            self.entries_spec(),
            self.sections_spec(),
            self.text_spec(),
            self.next_spec() as int,
        )
    }

    /// The extraction of the sections `sections` of the document `filename`
    /// whose text is `pdf_text`.
    pub fn new(filename: String, pdf_text: String, sections: Vec<usize>) -> (r: Self)
        ensures
            r.wf(),
            r.recorded_only_called(),
            r.filename_spec() == filename@,
            r.text_spec() == pdf_text@,
            r.sections_spec() == sections@,
            r.next_spec() == 0,
            r.pending_spec() is None,
            r.entries_spec().len() == 0,
    {
        DocumentRun {
            filename,
            text: pdf_text,
            sections,
            next: 0,
            pending: None,
            entries: Vec::new(),
        }
    }

    /// Moves past the sections that need no backend call (blank ones, and
    /// those without a parser) and hands out the next one that does, with its
    /// prompt; or reports that none is left.
    pub fn next_step(&mut self) -> (r: DocumentStep)
        requires
            old(self).wf(),
            old(self).recorded_only_called(),
            old(self).pending_spec() is None,
        ensures
            final(self).wf(),
            final(self).recorded_only_called(),
            final(self).filename_spec() == old(self).filename_spec(),
            final(self).text_spec() == old(self).text_spec(),
            final(self).sections_spec() == old(self).sections_spec(),
            final(self).entries_spec() == old(self).entries_spec(),
            old(self).next_spec() <= final(self).next_spec(),
            match r {
                DocumentStep::Extract { section_index, parser, prompt } => {
                    let t = old(self).text_spec();
                    let k = section_index as int;
                    &&& old(self).next_spec() < final(self).next_spec()
                    &&& final(self).pending_spec() == Some(section_index)
                    &&& final(self).sections_spec()[final(self).next_spec() - 1] == section_index
                    &&& forall|j: int|
                        old(self).next_spec() <= j < final(self).next_spec() - 1 ==> !needs_call(
                            #[trigger] old(self).sections_spec()[j] as int,
                            t,
                        )
                    &&& needs_call(k, t)
                    &&& parser_for(k) == Some(parser)
                    &&& prompt@ == prompt_spec(parser, section_name_spec(k), section_text(k, t))
                },
                DocumentStep::Finish => {
                    &&& final(self).pending_spec() is None
                    &&& final(self).next_spec() == old(self).sections_spec().len()
                    &&& forall|j: int|
                        old(self).next_spec() <= j < old(self).sections_spec().len() ==> !needs_call(
                            #[trigger] old(self).sections_spec()[j] as int,
                            old(self).text_spec(),
                        )
                },
            },
    {
        let ghost start = self.next as int;
        while self.next < self.sections.len()
            invariant
                self.wf(),
                self.pending is None,
                self.text@ == old(self).text@,
                self.filename@ == old(self).filename@,
                self.sections@ == old(self).sections@,
                self.entries@ == old(self).entries@,
                self.recorded_only_called(),
                start == old(self).next,
                start <= self.next,
                forall|j: int|
                    start <= j < self.next ==> !needs_call(
                        #[trigger] self.sections@[j] as int,
                        self.text@,
                    ),
            decreases self.sections@.len() - self.next,
        {
            let k = self.sections[self.next];
            proof {
                lemma_entries_from_called_grow(
                    self.entries@,
                    self.sections@,
                    self.text@,
                    self.next as int,
                    self.next + 1,
                );
            }
            self.next = self.next + 1;
            let body = extract_section(k, self.text.as_str());
            if !is_blank(&body) {
                match SectionParser::from_section_index(k) {
                    Some(parser) => {
                        let name = SectionParser::section_name(k);
                        let prompt = build_prompt(&parser, name, body.as_str());
                        self.pending = Some(k);
                        assert(needs_call(k as int, self.text@));
                        return DocumentStep::Extract { section_index: k, parser, prompt };
                    },
                    None => {},
                }
            }
        }
        DocumentStep::Finish
    }

    /// Records the outcome of the section handed out last: a decoded value of
    /// a stored section goes into the record under its output key; a failure
    /// adds nothing, is handed back with the section it belongs to, and the run
    /// goes on.
    pub fn complete_section(&mut self, outcome: Result<JsonValue, ExtractionError>) -> (r: Option<
        SectionFailure,
    >)
        requires
            old(self).wf(),
            old(self).recorded_only_called(),
            old(self).pending_spec() is Some,
        ensures
            final(self).wf(),
            final(self).recorded_only_called(),
            final(self).pending_spec() is None,
            final(self).filename_spec() == old(self).filename_spec(),
            final(self).text_spec() == old(self).text_spec(),
            final(self).sections_spec() == old(self).sections_spec(),
            final(self).next_spec() == old(self).next_spec(),
            outcome_applied(
                old(self).entries_spec(),
                old(self).pending_spec()->Some_0 as int,
                outcome,
                final(self).entries_spec(),
            ),
            outcome is Ok ==> r is None,
            outcome matches Err(e) ==> r matches Some(f) && f.section_index == old(
                self,
            ).pending_spec()->Some_0 && f.section_name@ == section_name_spec(f.section_index as int)
                && f.cause == e,
    {
        let k = match self.pending {
            Some(k) => k,
            None => 0,
        };
        self.pending = None;
        match outcome {
            Ok(json) => {
                match output_key_and_value(k, json) {
                    Some(entry) => {
                        let ghost before = self.entries@;
                        let ghost entry_ghost = entry;
                        self.entries.push(entry);
                        assert(self.entries@.drop_last() == before);
                        proof {
                            lemma_entries_from_called_push(
                                before,
                                self.sections@,
                                self.text@,
                                self.next as int,
                                entry_ghost,
                                self.next - 1,
                            );
                        }
                    },
                    None => {},
                }
                None
            },
            Err(e) => Some(
                SectionFailure {
                    section_index: k,
                    section_name: SectionParser::section_name(k).to_owned(),
                    cause: e,
                },
            ),
        }
    }

    /// The document's record: its file name under "filename", then the
    /// entries of the sections that were decoded.
    pub fn into_record(self) -> (r: JsonValue)
        ensures
            r is Object,
            r->Object_0@.len() == self.entries_spec().len() + 1,
            r->Object_0@[0].0@ == "filename"@,
            r->Object_0@[0].1 is Str,
            r->Object_0@[0].1->Str_0@ == self.filename_spec(),
            r->Object_0@.drop_first() == self.entries_spec(),
    {
        let DocumentRun { filename, text, sections, next, pending, entries } = self;
        let mut fields: Vec<(String, JsonValue)> = Vec::new();
        fields.push(("filename".to_owned(), JsonValue::Str(filename)));
        let ghost all = entries@;
        let mut rest = entries;
        while rest.len() > 0
            invariant
                fields@.len() >= 1,
                fields@[0].0@ == "filename"@,
                fields@[0].1 == JsonValue::Str(filename),
                all == fields@.drop_first() + rest@,
            decreases rest@.len(),
        {
            let e = rest.remove(0);
            fields.push(e);
        }
        proof {
            reveal_strlit("filename");
        }
        JsonValue::Object(fields)
    }
}

} // verus!
