//! The system card and the rules that fill it from a register record.

use vstd::prelude::*;
use vstd::std_specs::convert::FromSpecImpl;
use crate::algoritmeregister::AlgoritmeregisterRecord;
use crate::date::{normalize_date, normalized_date, CalendarDate};
use crate::pattern::{capture_pairs, capture_view, captures_view, regex_captures, Capture};
use crate::text::{copy_text, text_of};

verus! {

/// A name and a value that classify a system.
#[derive(Debug)]
pub struct Label {
    pub name: Option<String>,
    pub value: Option<String>,
}

/// A law or regulation and the place where it can be read.
#[derive(Debug)]
pub struct LegalBase {
    pub name: Option<String>,
    pub link: Option<String>,
}

/// Who answers for a system. Only the organization and the email address
/// are filled from a register record.
#[derive(Debug)]
pub struct Owner {
    pub oin: Option<String>,
    pub organization: Option<String>,
    pub name: Option<String>,
    pub email: Option<String>,
    pub role: Option<String>,
}

/// A model of a system. No field is defined for it yet.
#[derive(Debug)]
pub struct ModelCard {}

/// An assessment of a system. No field is defined for it yet.
#[derive(Debug)]
pub struct AssessmentCard {}

pub type Labels = Vec<Label>;

pub type LegalBases = Vec<LegalBase>;

pub type References = Vec<String>;

pub type Owners = Vec<Owner>;

/// The description of one system in the fixed schema of system cards.
#[derive(Debug)]
pub struct SystemCard {
    pub version: String,
    pub name: Option<String>,
    pub upl: Option<String>,
    pub owners: Owners,
    pub description: Option<String>,
    pub labels: Labels,
    pub status: Option<String>,
    pub publication_category: Option<String>,
    pub begin_date: Option<CalendarDate>,
    pub end_date: Option<CalendarDate>,
    pub goal_and_impact: Option<String>,
    pub considerations: Option<String>,
    pub risk_management: Option<String>,
    pub human_intervention: Option<String>,
    pub legal_base: LegalBases,
    pub used_data: Option<String>,
    pub technical_design: Option<String>,
    pub external_providers: Vec<String>,
    pub references: References,
    pub models: Option<Vec<ModelCard>>,
    pub assessments: Option<Vec<AssessmentCard>>,
}

/// What a label says.
pub struct LabelView {
    pub name: Option<Seq<char>>,
    pub value: Option<Seq<char>>,
}

/// What a legal base says.
pub struct LegalBaseView {
    pub name: Option<Seq<char>>,
    pub link: Option<Seq<char>>,
}

/// What an owner entry says.
pub struct OwnerView {
    pub oin: Option<Seq<char>>,
    pub organization: Option<Seq<char>>,
    pub name: Option<Seq<char>>,
    pub email: Option<Seq<char>>,
    pub role: Option<Seq<char>>,
}

/// What a system card says.
pub struct SystemCardView {
    pub version: Seq<char>,
    pub name: Option<Seq<char>>,
    pub upl: Option<Seq<char>>,
    pub owners: Seq<OwnerView>,
    pub description: Option<Seq<char>>,
    pub labels: Seq<LabelView>,
    pub status: Option<Seq<char>>,
    pub publication_category: Option<Seq<char>>,
    pub begin_date: Option<CalendarDate>,
    pub end_date: Option<CalendarDate>,
    pub goal_and_impact: Option<Seq<char>>,
    pub considerations: Option<Seq<char>>,
    pub risk_management: Option<Seq<char>>,
    pub human_intervention: Option<Seq<char>>,
    pub legal_base: Seq<LegalBaseView>,
    pub used_data: Option<Seq<char>>,
    pub technical_design: Option<Seq<char>>,
    pub external_providers: Seq<Seq<char>>,
    pub references: Seq<Seq<char>>,
    pub models: Option<Seq<ModelCard>>,
    pub assessments: Option<Seq<AssessmentCard>>,
}

impl View for Label {
    type V = LabelView;

    open spec fn view(&self) -> LabelView {
        LabelView { name: text_of(self.name), value: text_of(self.value) }
    }
}

impl View for LegalBase {
    type V = LegalBaseView;

    open spec fn view(&self) -> LegalBaseView {
        LegalBaseView { name: text_of(self.name), link: text_of(self.link) }
    }
}

impl View for Owner {
    type V = OwnerView;

    open spec fn view(&self) -> OwnerView {
        OwnerView {
            oin: text_of(self.oin),
            organization: text_of(self.organization),
            name: text_of(self.name),
            email: text_of(self.email),
            role: text_of(self.role),
        }
    }
}

/// What a list of labels says.
pub open spec fn labels_view(labels: Seq<Label>) -> Seq<LabelView> {
    labels.map_values(|label: Label| label@)
}

/// What a list of legal bases says.
pub open spec fn legal_bases_view(bases: Seq<LegalBase>) -> Seq<LegalBaseView> {
    bases.map_values(|base: LegalBase| base@)
}

/// What a list of owners says.
pub open spec fn owners_view(owners: Seq<Owner>) -> Seq<OwnerView> {
    owners.map_values(|owner: Owner| owner@)
}

/// What a list of texts says.
pub open spec fn texts_view(texts: Seq<String>) -> Seq<Seq<char>> {
    texts.map_values(|text: String| text@)
}

impl View for SystemCard {
    type V = SystemCardView;

    open spec fn view(&self) -> SystemCardView {
        SystemCardView {
            version: self.version@,
            name: text_of(self.name),
            upl: text_of(self.upl),
            owners: owners_view(self.owners@),
            description: text_of(self.description),
            labels: labels_view(self.labels@),
            status: text_of(self.status),
            publication_category: text_of(self.publication_category),
            begin_date: self.begin_date,
            end_date: self.end_date,
            goal_and_impact: text_of(self.goal_and_impact),
            considerations: text_of(self.considerations),
            risk_management: text_of(self.risk_management),
            human_intervention: text_of(self.human_intervention),
            legal_base: legal_bases_view(self.legal_base@),
            used_data: text_of(self.used_data),
            technical_design: text_of(self.technical_design),
            external_providers: texts_view(self.external_providers@),
            references: texts_view(self.references@),
            models: match self.models {
                Some(models) => Some(models@),
                None => None,
            },
            assessments: match self.assessments {
                Some(assessments) => Some(assessments@),
                None => None,
            },
        }
    }
}

/// The schema version that every card carries.
pub const SCHEMA_VERSION: &'static str = "0.1a3";

/// The pattern of one legal base in the register's free text: a number, a
/// colon, the name, a comma, and an https link that ends before a period or
/// at the end of the text. The first group is the name, the second the
/// link; the link reaches as far as it can and never ends in a period.
pub const LEGAL_BASE_PATTERN: &'static str = "\\d+: (.+?), (https://\\S*[^\\s.])(?:\\.|$)";

/// The one owner entry of a record: its organization and contact address.
pub open spec fn owners_of(record: &AlgoritmeregisterRecord) -> Seq<OwnerView> {
    seq![
        OwnerView {
            oin: None,
            organization: text_of(record.organization),
            name: None,
            email: text_of(record.contact_email),
            role: None,
        },
    ]
}

/// The label that a column gives: one with the column's name and value
/// where the column is present, none where it is absent.
pub open spec fn label_of(name: Seq<char>, field: Option<String>) -> Seq<LabelView> {
    match field {
        Some(value) => seq![LabelView { name: Some(name), value: Some(value@) }],
        None => Seq::empty(),
    }
}

/// The labels of a record: those of its five label columns, in this order.
pub open spec fn labels_of(record: &AlgoritmeregisterRecord) -> Seq<LabelView> {
    label_of("category"@, record.category) + label_of("tags"@, record.tags) + label_of(
        "lawful_basis"@,
        record.lawful_basis,
    ) + label_of("impacttoetsen"@, record.impacttoetsen) + label_of(
        "impacttoetsen_grouping"@,
        record.impacttoetsen_grouping,
    )
}

/// The list that an optional text gives: the text where it is present,
/// nothing where it is absent.
pub open spec fn present(field: Option<String>) -> Seq<Seq<char>> {
    match field {
        Some(text) => seq![text@],
        None => Seq::empty(),
    }
}

/// The references of a record: those of its five link columns that are
/// present, in this order.
pub open spec fn references_of(record: &AlgoritmeregisterRecord) -> Seq<Seq<char>> {
    present(record.publiccode) + present(record.website) + present(record.url) + present(
        record.source_data_link,
    ) + present(record.process_index_url)
}

/// How many of the five link columns of a record are present.
pub open spec fn reference_count(record: &AlgoritmeregisterRecord) -> nat {
    present(record.publiccode).len() + present(record.website).len() + present(record.url).len()
        + present(record.source_data_link).len() + present(record.process_index_url).len()
}

/// The five link columns of a record, in the order in which they give
/// references.
pub open spec fn reference_columns(record: &AlgoritmeregisterRecord) -> Seq<Option<Seq<char>>> {
    seq![
        text_of(record.publiccode),
        text_of(record.website),
        text_of(record.url),
        text_of(record.source_data_link),
        text_of(record.process_index_url),
    ]
}

/// Whether a column is present.
pub open spec fn is_present() -> spec_fn(Option<Seq<char>>) -> bool {
    |column: Option<Seq<char>>| column.is_some()
}

/// The text in a column.
pub open spec fn text_in() -> spec_fn(Option<Seq<char>>) -> Seq<char> {
    |column: Option<Seq<char>>| column.unwrap()
}

/// Whether a match captured both a name and a link.
pub open spec fn is_complete() -> spec_fn((Option<Seq<char>>, Option<Seq<char>>)) -> bool {
    |capture: (Option<Seq<char>>, Option<Seq<char>>)| capture.0.is_some() && capture.1.is_some()
}

/// The legal base that a match stands for.
pub open spec fn as_legal_base() -> spec_fn((Option<Seq<char>>, Option<Seq<char>>)) -> LegalBaseView {
    |capture: (Option<Seq<char>>, Option<Seq<char>>)|
        LegalBaseView { name: capture.0, link: capture.1 }
}

/// The legal bases that a list of matches stands for: one for each match
/// that captured both a name and a link, in the order of the matches.
pub open spec fn legal_bases_from(
    captures: Seq<(Option<Seq<char>>, Option<Seq<char>>)>,
) -> Seq<LegalBaseView> {
    captures.filter(is_complete()).map_values(as_legal_base())
}

/// The legal bases named in an optional free text: those of the matches of
/// the legal-base pattern in it. An absent text names none.
pub open spec fn legal_bases_of(field: Option<Seq<char>>) -> Seq<LegalBaseView> {
    match field {
        Some(text) => match regex_captures(LEGAL_BASE_PATTERN@, text) {
            Some(captures) => legal_bases_from(captures),
            None => Seq::empty(),
        },
        None => Seq::empty(),
    }
}

/// The card that a record is mapped to.
pub open spec fn card_of(record: &AlgoritmeregisterRecord) -> SystemCardView {
    SystemCardView {
        version: SCHEMA_VERSION@,
        name: text_of(record.name),
        upl: None,
        owners: owners_of(record),
        description: text_of(record.description_short),
        labels: labels_of(record),
        status: text_of(record.status),
        publication_category: text_of(record.publication_category),
        begin_date: normalized_date(text_of(record.begin_date)),
        end_date: normalized_date(text_of(record.end_date)),
        goal_and_impact: text_of(record.goal),
        considerations: text_of(record.proportionality),
        risk_management: text_of(record.risks),
        human_intervention: text_of(record.human_intervention),
        legal_base: legal_bases_of(text_of(record.lawful_basis_grouping)),
        used_data: text_of(record.source_data),
        technical_design: text_of(record.methods_and_models),
        external_providers: present(record.provider),
        references: references_of(record),
        models: None,
        assessments: None,
    }
}

impl SystemCardView {
    /// What holds of every card that is mapped from a record: it carries
    /// the schema version; it has one owner, with none of the reserved
    /// fields; each label has a name and a value, each legal base a name
    /// and a link; there is at most one external provider and there are at
    /// most five references; the dates are days of the calendar; and there
    /// are no models and no assessments.
    pub open spec fn wf(&self) -> bool {
        &&& self.version == SCHEMA_VERSION@
        &&& self.upl.is_none()
        &&& self.owners.len() == 1
        &&& forall|i: int|
            0 <= i < self.labels.len() ==> (#[trigger] self.labels[i]).name.is_some()
                && self.labels[i].value.is_some()
        &&& forall|i: int|
            0 <= i < self.legal_base.len() ==> (#[trigger] self.legal_base[i]).name.is_some()
                && self.legal_base[i].link.is_some()
        &&& forall|i: int|
            0 <= i < self.owners.len() ==> (#[trigger] self.owners[i]).oin.is_none()
                && self.owners[i].name.is_none() && self.owners[i].role.is_none()
        &&& self.external_providers.len() <= 1
        &&& self.references.len() <= 5
        &&& (self.begin_date matches Some(day) ==> day.wf())
        &&& (self.end_date matches Some(day) ==> day.wf())
        &&& self.models.is_none()
        &&& self.assessments.is_none()
    }
}

/// Adds the label of one column to a list of labels.
fn push_label(labels: &mut Vec<Label>, name: &str, field: &Option<String>)
    ensures
        labels_view(final(labels)@) == labels_view(old(labels)@) + label_of(name@, *field),
{
    match field {
        Some(value) => {
            labels.push(Label { name: Some(name.to_string()), value: Some(value.clone()) });
            assert(labels_view(labels@) =~= labels_view(old(labels)@) + label_of(name@, *field));
        },
        None => {
            assert(labels_view(labels@) =~= labels_view(old(labels)@) + label_of(name@, *field));
        },
    }
}

/// Adds an optional text to a list of texts where it is present.
fn push_present(texts: &mut Vec<String>, field: &Option<String>)
    ensures
        texts_view(final(texts)@) == texts_view(old(texts)@) + present(*field),
{
    match field {
        Some(text) => {
            texts.push(text.clone());
            assert(texts_view(texts@) =~= texts_view(old(texts)@) + present(*field));
        },
        None => {
            assert(texts_view(texts@) =~= texts_view(old(texts)@) + present(*field));
        },
    }
}

impl From<&AlgoritmeregisterRecord> for Owners {
    /// The owner entry of a record. There is always exactly one, also where
    /// the record names neither an organization nor a contact address.
    fn from(item: &AlgoritmeregisterRecord) -> (owners: Owners)
        ensures
            owners_view(owners@) == owners_of(item),
            owners@.len() == 1,
    {
        let mut owners = Vec::with_capacity(1);
        owners.push(
            Owner {
                oin: None,
                organization: copy_text(&item.organization),
                name: None,
                email: copy_text(&item.contact_email),
                role: None,
            },
        );
        assert(owners_view(owners@) =~= owners_of(item));
        owners
    }
}

/// The conversion is stated over views, by the `ensures` of `from`: a value
/// that holds text has no form in specifications to state it by.
impl FromSpecImpl<&AlgoritmeregisterRecord> for Owners {
    open spec fn obeys_from_spec() -> bool {
        false
    }

    open spec fn from_spec(v: &AlgoritmeregisterRecord) -> Owners {
        arbitrary()
    }
}

impl From<&AlgoritmeregisterRecord> for Labels {
    /// The labels of a record, one for each label column that is present.
    fn from(item: &AlgoritmeregisterRecord) -> (labels: Labels)
        ensures
            labels_view(labels@) == labels_of(item),
            labels@.len() == labels_of(item).len(),
    {
        let mut labels = Vec::with_capacity(5);
        assert(labels_view(labels@) =~= Seq::empty());
        push_label(&mut labels, "category", &item.category);
        push_label(&mut labels, "tags", &item.tags);
        push_label(&mut labels, "lawful_basis", &item.lawful_basis);
        push_label(&mut labels, "impacttoetsen", &item.impacttoetsen);
        push_label(&mut labels, "impacttoetsen_grouping", &item.impacttoetsen_grouping);
        assert(labels_view(labels@) =~= labels_of(item));
        labels
    }
}

/// The conversion is stated over views, by the `ensures` of `from`: a value
/// that holds text has no form in specifications to state it by.
impl FromSpecImpl<&AlgoritmeregisterRecord> for Labels {
    open spec fn obeys_from_spec() -> bool {
        false
    }

    open spec fn from_spec(v: &AlgoritmeregisterRecord) -> Labels {
        arbitrary()
    }
}

impl From<&AlgoritmeregisterRecord> for References {
    /// The references of a record, one for each link column that is present.
    fn from(item: &AlgoritmeregisterRecord) -> (references: References)
        ensures
            texts_view(references@) == references_of(item),
            references@.len() == reference_count(item),
    {
        let mut references = Vec::with_capacity(5);
        assert(texts_view(references@) =~= Seq::empty());
        push_present(&mut references, &item.publiccode);
        push_present(&mut references, &item.website);
        push_present(&mut references, &item.url);
        push_present(&mut references, &item.source_data_link);
        push_present(&mut references, &item.process_index_url);
        assert(texts_view(references@) =~= references_of(item));
        proof {
            lemma_reference_count(item);
        }
        references
    }
}

/// The conversion is stated over views, by the `ensures` of `from`: a value
/// that holds text has no form in specifications to state it by.
impl FromSpecImpl<&AlgoritmeregisterRecord> for References {
    open spec fn obeys_from_spec() -> bool {
        false
    }

    open spec fn from_spec(v: &AlgoritmeregisterRecord) -> References {
        arbitrary()
    }
}

/// A record with k of its five link columns present has exactly k
/// references, and they stand in the order of the columns whichever of them
/// are absent: the list is what is left of the five columns when the absent
/// ones are taken out.
pub proof fn lemma_reference_count(record: &AlgoritmeregisterRecord)
    ensures
        references_of(record).len() == reference_count(record),
        reference_count(record) <= 5,
        references_of(record) == reference_columns(record).filter(is_present()).map_values(
            text_in(),
        ),
{
    let columns = reference_columns(record);
    let kept = columns.filter(is_present()).map_values(text_in());
    reveal_with_fuel(Seq::filter, 6);
    assert(columns.drop_last() =~= seq![
        text_of(record.publiccode),
        text_of(record.website),
        text_of(record.url),
        text_of(record.source_data_link),
    ]);
    assert(columns.drop_last().drop_last() =~= seq![
        text_of(record.publiccode),
        text_of(record.website),
        text_of(record.url),
    ]);
    assert(columns.drop_last().drop_last().drop_last() =~= seq![
        text_of(record.publiccode),
        text_of(record.website),
    ]);
    assert(columns.drop_last().drop_last().drop_last().drop_last() =~= seq![
        text_of(record.publiccode),
    ]);
    assert(columns.drop_last().drop_last().drop_last().drop_last().drop_last() =~= Seq::empty());
    assert(kept =~= references_of(record));
}

/// Builds the legal bases that a list of matches stands for: one for each
/// match that captured both a name and a link. A match in which either
/// group took no part has no name or no link to give, and adds nothing.
pub fn legal_bases_from_captures(captures: &Vec<Capture>) -> (bases: LegalBases)
    ensures
        legal_bases_view(bases@) == legal_bases_from(captures_view(captures@)),
        bases@.len() == legal_bases_from(captures_view(captures@)).len(),
        bases@.len() <= captures@.len(),
        forall|i: int|
            0 <= i < bases@.len() ==> (#[trigger] bases@[i]).name.is_some()
                && bases@[i].link.is_some(),
{
    let mut bases: Vec<LegalBase> = Vec::new();
    let mut i: usize = 0;
    proof {
        reveal(Seq::filter);
        assert(captures_view(captures@.take(0)) =~= Seq::empty());
        assert(legal_bases_view(bases@) =~= legal_bases_from(captures_view(captures@.take(0))));
    }
    while i < captures.len()
        invariant
            i <= captures@.len(),
            bases@.len() <= i,
            legal_bases_view(bases@) == legal_bases_from(captures_view(captures@.take(i as int))),
            forall|k: int|
                0 <= k < bases@.len() ==> (#[trigger] bases@[k]).name.is_some()
                    && bases@[k].link.is_some(),
        decreases captures@.len() - i,
    {
        let capture = &captures[i];
        proof {
            let before = captures_view(captures@.take(i as int));
            assert(captures_view(captures@.take(i + 1)) =~= before.push(capture_view(*capture)));
            before.lemma_filter_push(capture_view(*capture), is_complete());
        }
        let ghost earlier = bases@;
        match (&capture.0, &capture.1) {
            (Some(name), Some(link)) => {
                bases.push(LegalBase { name: Some(name.clone()), link: Some(link.clone()) });
                assert(legal_bases_view(bases@) =~= legal_bases_view(earlier).push(
                    as_legal_base()(capture_view(*capture)),
                ));
                assert(legal_bases_view(bases@) =~= legal_bases_from(
                    captures_view(captures@.take(i + 1)),
                ));
            },
            _ => {},
        }
        i += 1;
    }
    proof {
        assert(captures@.take(captures@.len() as int) =~= captures@);
    }
    bases
}

impl From<&AlgoritmeregisterRecord> for LegalBases {
    /// The legal bases named in the record's grouped legal-basis text. A
    /// text in which the pattern matches nowhere names none, and so does an
    /// absent text.
    fn from(item: &AlgoritmeregisterRecord) -> (bases: LegalBases)
        ensures
            legal_bases_view(bases@) == legal_bases_of(text_of(item.lawful_basis_grouping)),
            bases@.len() == legal_bases_of(text_of(item.lawful_basis_grouping)).len(),
            forall|i: int|
                0 <= i < bases@.len() ==> (#[trigger] bases@[i]).name.is_some()
                    && bases@[i].link.is_some(),
    {
        match &item.lawful_basis_grouping {
            Some(text) => {
                let found = capture_pairs(LEGAL_BASE_PATTERN, text.as_str());
                match found {
                    Some(captures) => legal_bases_from_captures(&captures),
                    None => {
                        let bases = Vec::new();
                        assert(legal_bases_view(bases@) =~= Seq::empty());
                        bases
                    },
                }
            },
            None => {
                let bases = Vec::new();
                assert(legal_bases_view(bases@) =~= Seq::empty());
                bases
            },
        }
    }
}

/// The conversion is stated over views, by the `ensures` of `from`: a value
/// that holds text has no form in specifications to state it by.
impl FromSpecImpl<&AlgoritmeregisterRecord> for LegalBases {
    open spec fn obeys_from_spec() -> bool {
        false
    }

    open spec fn from_spec(v: &AlgoritmeregisterRecord) -> LegalBases {
        arbitrary()
    }
}

impl From<&AlgoritmeregisterRecord> for SystemCard {
    /// Maps a record to its system card.
    fn from(item: &AlgoritmeregisterRecord) -> (card: SystemCard)
        ensures
            card@ == card_of(item),
            card@.wf(),
            card.owners@.len() == 1,
    {
        let begin_date = normalize_date(&item.begin_date);
        let end_date = normalize_date(&item.end_date);
        let mut external_providers = Vec::with_capacity(1);
        assert(texts_view(external_providers@) =~= Seq::empty());
        push_present(&mut external_providers, &item.provider);
        let owners = Owners::from(item);
        let labels = Labels::from(item);
        let legal_base = LegalBases::from(item);
        let references = References::from(item);
        proof {
            lemma_reference_count(item);
            lemma_labels_complete(item);
        }
        SystemCard {
            version: SCHEMA_VERSION.to_string(),
            name: copy_text(&item.name),
            upl: None,
            owners,
            description: copy_text(&item.description_short),
            labels,
            status: copy_text(&item.status),
            publication_category: copy_text(&item.publication_category),
            begin_date,
            end_date,
            goal_and_impact: copy_text(&item.goal),
            considerations: copy_text(&item.proportionality),
            risk_management: copy_text(&item.risks),
            human_intervention: copy_text(&item.human_intervention),
            legal_base,
            used_data: copy_text(&item.source_data),
            technical_design: copy_text(&item.methods_and_models),
            external_providers,
            references,
            models: None,
            assessments: None,
        }
    }
}

/// The conversion is stated over views, by the `ensures` of `from`: a value
/// that holds text has no form in specifications to state it by.
impl FromSpecImpl<&AlgoritmeregisterRecord> for SystemCard {
    open spec fn obeys_from_spec() -> bool {
        false
    }

    open spec fn from_spec(v: &AlgoritmeregisterRecord) -> SystemCard {
        arbitrary()
    }
}

/// Every label of a record has a name and a value: a column that is absent
/// gives no label, not an empty one.
pub proof fn lemma_labels_complete(record: &AlgoritmeregisterRecord)
    ensures
        labels_of(record).len() <= 5,
        forall|i: int|
            0 <= i < labels_of(record).len() ==> (#[trigger] labels_of(record)[i]).name.is_some()
                && labels_of(record)[i].value.is_some(),
{
}

} // verus!
