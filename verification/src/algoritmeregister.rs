//! Records of the algorithm register and the rule that selects the ones this
//! library converts.

use vstd::prelude::*;
use crate::text::text_of;

verus! {

/// One entry of the algorithm register. Every column is text and may be
/// absent.
#[derive(Debug)]
pub struct AlgoritmeregisterRecord {
    pub name: Option<String>,
    pub organization: Option<String>,
    pub description_short: Option<String>,
    pub type_: Option<String>,
    pub category: Option<String>,
    pub website: Option<String>,
    pub status: Option<String>,
    pub goal: Option<String>,
    pub proportionality: Option<String>,
    pub lawful_basis: Option<String>,
    pub iama_description: Option<String>,
    pub standard_version: Option<String>,
    pub uuid: Option<String>,
    pub url: Option<String>,
    pub contact_email: Option<String>,
    pub lang: Option<String>,
    pub publiccode: Option<String>,
    pub source_data: Option<String>,
    pub methods_and_models: Option<String>,
    pub human_intervention: Option<String>,
    pub risks: Option<String>,
    pub provider: Option<String>,
    pub tags: Option<String>,
    pub source_id: Option<String>,
    pub begin_date: Option<String>,
    pub end_date: Option<String>,
    pub lawful_basis_link: Option<String>,
    pub impacttoetsen: Option<String>,
    pub source_data_link: Option<String>,
    pub process_index_url: Option<String>,
    pub publication_category: Option<String>,
    pub lawful_basis_grouping: Option<String>,
    pub impacttoetsen_grouping: Option<String>,
    pub source_data_grouping: Option<String>,
    pub department: Option<String>,
    pub impact: Option<String>,
    pub decision_making_process: Option<String>,
    pub documentation: Option<String>,
    pub competent_authority: Option<String>,
    pub iama: Option<String>,
    pub dpia: Option<String>,
    pub dpia_description: Option<String>,
    pub objection_procedure: Option<String>,
    pub area: Option<String>,
    pub revision_date: Option<String>,
    pub description: Option<String>,
    pub application_url: Option<String>,
    pub mprd: Option<String>,
    pub monitoring: Option<String>,
    pub performance_standard: Option<String>,
}

/// The standard version whose records are converted.
pub const SUPPORTED_VERSION: &'static str = "1.0.0";

impl AlgoritmeregisterRecord {
    /// The record in which every column is absent.
    pub open spec fn blank() -> AlgoritmeregisterRecord {
        AlgoritmeregisterRecord {
            name: None,
            organization: None,
            description_short: None,
            type_: None,
            category: None,
            website: None,
            status: None,
            goal: None,
            proportionality: None,
            lawful_basis: None,
            iama_description: None,
            standard_version: None,
            uuid: None,
            url: None,
            contact_email: None,
            lang: None,
            publiccode: None,
            source_data: None,
            methods_and_models: None,
            human_intervention: None,
            risks: None,
            provider: None,
            tags: None,
            source_id: None,
            begin_date: None,
            end_date: None,
            lawful_basis_link: None,
            impacttoetsen: None,
            source_data_link: None,
            process_index_url: None,
            publication_category: None,
            lawful_basis_grouping: None,
            impacttoetsen_grouping: None,
            source_data_grouping: None,
            department: None,
            impact: None,
            decision_making_process: None,
            documentation: None,
            competent_authority: None,
            iama: None,
            dpia: None,
            dpia_description: None,
            objection_procedure: None,
            area: None,
            revision_date: None,
            description: None,
            application_url: None,
            mprd: None,
            monitoring: None,
            performance_standard: None,
        }
    }

    /// A record is kept when it declares the supported standard version, and
    /// dropped when it declares another one or none.
    pub open spec fn supported(&self) -> bool {
        text_of(self.standard_version) == Some(SUPPORTED_VERSION@)
    }

    /// Whether this record declares the supported standard version.
    pub fn is_supported(&self) -> (kept: bool)
        ensures
            kept == self.supported(),
    {
        match &self.standard_version {
            Some(version) => {
                let wanted = SUPPORTED_VERSION.to_string();
                *version == wanted
            },
            None => false,
        }
    }
}

impl Default for AlgoritmeregisterRecord {
    fn default() -> (record: AlgoritmeregisterRecord)
        ensures
            record == AlgoritmeregisterRecord::blank(),
    {
        AlgoritmeregisterRecord {
            name: None,
            organization: None,
            description_short: None,
            type_: None,
            category: None,
            website: None,
            status: None,
            goal: None,
            proportionality: None,
            lawful_basis: None,
            iama_description: None,
            standard_version: None,
            uuid: None,
            url: None,
            contact_email: None,
            lang: None,
            publiccode: None,
            source_data: None,
            methods_and_models: None,
            human_intervention: None,
            risks: None,
            provider: None,
            tags: None,
            source_id: None,
            begin_date: None,
            end_date: None,
            lawful_basis_link: None,
            impacttoetsen: None,
            source_data_link: None,
            process_index_url: None,
            publication_category: None,
            lawful_basis_grouping: None,
            impacttoetsen_grouping: None,
            source_data_grouping: None,
            department: None,
            impact: None,
            decision_making_process: None,
            documentation: None,
            competent_authority: None,
            iama: None,
            dpia: None,
            dpia_description: None,
            objection_procedure: None,
            area: None,
            revision_date: None,
            description: None,
            application_url: None,
            mprd: None,
            monitoring: None,
            performance_standard: None,
        }
    }
}

/// The records of `records` that declare the supported standard version, in
/// their order.
pub open spec fn supported_of(records: Seq<AlgoritmeregisterRecord>) -> Seq<AlgoritmeregisterRecord> {
    records.filter(keeps())
}

/// The rule of the selection, as a predicate on records.
pub open spec fn keeps() -> spec_fn(AlgoritmeregisterRecord) -> bool {
    |record: AlgoritmeregisterRecord| record.supported()
}

/// Keeps the records that declare the supported standard version and drops
/// the others, without changing the order of those kept.
pub fn supported_records(records: Vec<AlgoritmeregisterRecord>) -> (kept: Vec<AlgoritmeregisterRecord>)
    ensures
        kept@ == supported_of(records@),
{
    let ghost all = records@;
    let mut rest = records;
    let mut stack: Vec<AlgoritmeregisterRecord> = Vec::new();
    loop
        invariant
            rest@ == all.take(rest@.len() as int),
            stack@.len() + rest@.len() == all.len(),
            forall|j: int| 0 <= j < stack@.len() ==> stack@[j] == all[all.len() - 1 - j],
        ensures
            rest@.len() == 0,
        decreases rest@.len(),
    {
        match rest.pop() {
            Some(record) => {
                stack.push(record);
            },
            None => {
                break ;
            },
        }
    }
    let mut kept: Vec<AlgoritmeregisterRecord> = Vec::new();
    proof {
        reveal(Seq::filter);
        assert(supported_of(all.take(0)) =~= Seq::empty());
    }
    loop
        invariant
            stack@.len() <= all.len(),
            forall|j: int| 0 <= j < stack@.len() ==> stack@[j] == all[all.len() - 1 - j],
            kept@ == supported_of(all.take(all.len() - stack@.len())),
        ensures
            stack@.len() == 0,
        decreases stack@.len(),
    {
        let ghost done = all.len() - stack@.len();
        match stack.pop() {
            Some(record) => {
                proof {
                    assert(record == all[done]);
                    assert(all.take(done + 1) =~= all.take(done).push(record));
                    all.take(done).lemma_filter_push(record, keeps());
                }
                if record.is_supported() {
                    kept.push(record);
                }
            },
            None => {
                break ;
            },
        }
    }
    proof {
        assert(all.take(all.len() as int) =~= all);
    }
    kept
}

/// A record is among the kept ones exactly when it is among the given ones
/// and declares the supported standard version.
pub proof fn lemma_kept_iff_supported(
    records: Seq<AlgoritmeregisterRecord>,
    record: AlgoritmeregisterRecord,
)
    ensures
        supported_of(records).contains(record) <==> (records.contains(record)
            && record.supported()),
{
    if supported_of(records).contains(record) {
        let i = choose|i: int|
            0 <= i < supported_of(records).len() && supported_of(records)[i] == record;
        records.lemma_filter_pred(keeps(), i);
        records.lemma_filter_contains_rev(keeps(), record);
    }
    if records.contains(record) && record.supported() {
        let j = choose|j: int| 0 <= j < records.len() && records[j] == record;
        records.lemma_filter_contains(keeps(), j);
    }
}

} // verus!
