use tad_conversion_tool::algoritmeregister::{supported_records, AlgoritmeregisterRecord};
use tad_conversion_tool::date::{
    date_or_absent, normalize_date, parse_date, CalendarDate, DateError,
};
use tad_conversion_tool::filename::{clean, derive_filename, file_stem, filename};
use tad_conversion_tool::system_card::{
    legal_bases_from_captures, Labels, LegalBases, Owners, References, SystemCard,
};
use tad_conversion_tool::text::copy_text;

fn text(s: &str) -> Option<String> {
    Some(s.to_string())
}

fn versioned(name: &str, version: Option<&str>) -> AlgoritmeregisterRecord {
    AlgoritmeregisterRecord {
        name: text(name),
        standard_version: version.map(|v| v.to_string()),
        ..AlgoritmeregisterRecord::default()
    }
}

#[test]
fn default_record_is_blank() {
    let record = AlgoritmeregisterRecord::default();
    assert_eq!(record.name, None);
    assert_eq!(record.organization, None);
    assert_eq!(record.standard_version, None);
    assert_eq!(record.begin_date, None);
    assert_eq!(record.lawful_basis_grouping, None);
    assert_eq!(record.performance_standard, None);
}

#[test]
fn supported_version_is_kept() {
    assert!(versioned("a", Some("1.0.0")).is_supported());
}

#[test]
fn other_version_is_dropped() {
    assert!(!versioned("a", Some("0.4.0")).is_supported());
    assert!(!versioned("a", Some("1.0.0 ")).is_supported());
    assert!(!versioned("a", Some("1.0")).is_supported());
    assert!(!versioned("a", Some("")).is_supported());
}

#[test]
fn absent_version_is_dropped() {
    assert!(!versioned("a", None).is_supported());
}

#[test]
fn filter_keeps_supported_records_in_order() {
    let records = vec![
        versioned("first", Some("1.0.0")),
        versioned("second", Some("0.4.0")),
        versioned("third", None),
        versioned("fourth", Some("1.0.0")),
        versioned("fifth", Some("2.0.0")),
        versioned("sixth", Some("1.0.0")),
    ];
    let kept = supported_records(records);
    let names: Vec<Option<String>> = kept.iter().map(|r| r.name.clone()).collect();
    assert_eq!(names, vec![text("first"), text("fourth"), text("sixth")]);
}

#[test]
fn filter_of_nothing_is_nothing() {
    assert_eq!(supported_records(Vec::new()).len(), 0);
    assert_eq!(supported_records(vec![versioned("x", None)]).len(), 0);
}

#[test]
fn references_follow_the_column_order() {
    let record = AlgoritmeregisterRecord {
        process_index_url: text("https://e.example"),
        source_data_link: text("https://d.example"),
        url: text("https://c.example"),
        website: text("https://b.example"),
        publiccode: text("https://a.example"),
        ..AlgoritmeregisterRecord::default()
    };
    let references = References::from(&record);
    assert_eq!(
        references,
        vec![
            "https://a.example".to_string(),
            "https://b.example".to_string(),
            "https://c.example".to_string(),
            "https://d.example".to_string(),
            "https://e.example".to_string(),
        ]
    );
}

#[test]
fn references_are_compacted() {
    let record = AlgoritmeregisterRecord {
        website: text("https://b.example"),
        process_index_url: text("https://e.example"),
        ..AlgoritmeregisterRecord::default()
    };
    let references = References::from(&record);
    assert_eq!(
        references,
        vec!["https://b.example".to_string(), "https://e.example".to_string()]
    );
}

#[test]
fn references_count_equals_present_columns() {
    for mask in 0u32..32 {
        let pick = |bit: u32, value: &str| {
            if mask & (1 << bit) != 0 {
                text(value)
            } else {
                None
            }
        };
        let record = AlgoritmeregisterRecord {
            publiccode: pick(0, "p"),
            website: pick(1, "w"),
            url: pick(2, "u"),
            source_data_link: pick(3, "s"),
            process_index_url: pick(4, "i"),
            ..AlgoritmeregisterRecord::default()
        };
        let references = References::from(&record);
        assert_eq!(references.len(), mask.count_ones() as usize);
        let mut expected = Vec::new();
        for (bit, value) in ["p", "w", "u", "s", "i"].iter().enumerate() {
            if mask & (1 << bit) != 0 {
                expected.push(value.to_string());
            }
        }
        assert_eq!(references, expected);
    }
}

#[test]
fn references_of_blank_record_are_empty() {
    assert!(References::from(&AlgoritmeregisterRecord::default()).is_empty());
}

#[test]
fn legal_bases_are_extracted() {
    let record = AlgoritmeregisterRecord {
        lawful_basis_grouping: text(
            "1: Algemene wet bestuursrecht, https://example.org/awb. 2: AVG, https://example.org/avg.",
        ),
        ..AlgoritmeregisterRecord::default()
    };
    let bases = LegalBases::from(&record);
    assert_eq!(bases.len(), 2);
    assert_eq!(bases[0].name, text("Algemene wet bestuursrecht"));
    assert_eq!(bases[0].link, text("https://example.org/awb"));
    assert_eq!(bases[1].name, text("AVG"));
    assert_eq!(bases[1].link, text("https://example.org/avg"));
}

#[test]
fn legal_base_at_the_end_without_period() {
    let record = AlgoritmeregisterRecord {
        lawful_basis_grouping: text("12: Wet op de inkomstenbelasting, https://wetten.example/ib2001"),
        ..AlgoritmeregisterRecord::default()
    };
    let bases = LegalBases::from(&record);
    assert_eq!(bases.len(), 1);
    assert_eq!(bases[0].name, text("Wet op de inkomstenbelasting"));
    assert_eq!(bases[0].link, text("https://wetten.example/ib2001"));
}

#[test]
fn legal_bases_without_match_are_empty() {
    let record = AlgoritmeregisterRecord {
        lawful_basis_grouping: text("Zie de toelichting op onze website."),
        ..AlgoritmeregisterRecord::default()
    };
    assert!(LegalBases::from(&record).is_empty());
}

#[test]
fn legal_bases_need_an_https_link() {
    let record = AlgoritmeregisterRecord {
        lawful_basis_grouping: text("1: AVG, http://example.org/avg."),
        ..AlgoritmeregisterRecord::default()
    };
    assert!(LegalBases::from(&record).is_empty());
}

#[test]
fn legal_bases_of_absent_text_are_empty() {
    assert!(LegalBases::from(&AlgoritmeregisterRecord::default()).is_empty());
}

#[test]
fn legal_bases_from_captures_skip_incomplete_matches() {
    let captures = vec![
        (text("AVG"), text("https://example.org/avg")),
        (text("half"), None),
        (None, text("https://example.org/none")),
        (None, None),
        (text("Awb"), text("https://example.org/awb")),
    ];
    let bases = legal_bases_from_captures(&captures);
    assert_eq!(bases.len(), 2);
    assert_eq!(bases[0].name, text("AVG"));
    assert_eq!(bases[0].link, text("https://example.org/avg"));
    assert_eq!(bases[1].name, text("Awb"));
    assert_eq!(bases[1].link, text("https://example.org/awb"));
}

#[test]
fn legal_bases_from_no_captures_are_empty() {
    assert!(legal_bases_from_captures(&Vec::new()).is_empty());
}

#[test]
fn year_month_becomes_first_of_month() {
    assert_eq!(parse_date("2023-05"), Ok(CalendarDate { year: 2023, month: 5, day: 1 }));
    assert_eq!(parse_date("1999-12"), Ok(CalendarDate { year: 1999, month: 12, day: 1 }));
}

#[test]
fn unreadable_date_is_an_error() {
    assert_eq!(parse_date("unspecified"), Err(DateError::Unparseable));
    assert_eq!(parse_date(""), Err(DateError::Unparseable));
    assert_eq!(parse_date("2023"), Err(DateError::Unparseable));
    assert_eq!(parse_date("2023-05-17"), Err(DateError::Unparseable));
}

#[test]
fn out_of_range_month_is_an_error() {
    assert_eq!(parse_date("2023-13"), Err(DateError::Unparseable));
    assert_eq!(parse_date("2023-00"), Err(DateError::Unparseable));
}

#[test]
fn lenient_policy_drops_the_error() {
    let day = CalendarDate { year: 2020, month: 2, day: 1 };
    assert_eq!(date_or_absent(Ok(day)), Some(day));
    assert_eq!(date_or_absent(Err(DateError::Unparseable)), None);
}

#[test]
fn date_field_is_normalized() {
    assert_eq!(
        normalize_date(&text("2023-05")),
        Some(CalendarDate { year: 2023, month: 5, day: 1 })
    );
    assert_eq!(normalize_date(&text("unspecified")), None);
    assert_eq!(normalize_date(&None), None);
}

#[test]
fn filename_of_name_and_organization() {
    assert_eq!(filename("Risk Model: A/B", "Tax Office"), "risk_model_ab_tax_office.yaml");
}

#[test]
fn filename_of_record() {
    let record = AlgoritmeregisterRecord {
        name: text("Risk Model: A/B"),
        organization: text("Tax Office"),
        ..AlgoritmeregisterRecord::default()
    };
    assert_eq!(derive_filename(&record), "risk_model_ab_tax_office.yaml");
}

#[test]
fn organization_is_cleaned_like_the_name() {
    assert_eq!(filename("A", "Gemeente X/Y: Noord"), "a_gemeente_xy_noord.yaml");
}

#[test]
fn same_identity_gives_same_filename() {
    let first = AlgoritmeregisterRecord {
        name: text("Parkeren"),
        organization: text("Gemeente A"),
        description_short: text("one"),
        ..AlgoritmeregisterRecord::default()
    };
    let second = AlgoritmeregisterRecord {
        name: text("Parkeren"),
        organization: text("Gemeente A"),
        description_short: text("two"),
        ..AlgoritmeregisterRecord::default()
    };
    assert_eq!(derive_filename(&first), derive_filename(&second));
    assert_eq!(derive_filename(&first), "parkeren_gemeente_a.yaml");
}

#[test]
fn file_stem_is_lowercase() {
    assert_eq!(file_stem("ABC"), "abc");
    assert_eq!(file_stem("Ärger Über"), "ärger_über");
    assert_eq!(file_stem(""), "");
}

#[test]
fn clean_keeps_the_case() {
    assert_eq!(clean("A b/c:D"), "A_bcD");
    assert_eq!(clean("/:/"), "");
    assert_eq!(clean("  "), "__");
    assert_eq!(clean(""), "");
}

#[test]
fn copy_of_text_is_equal() {
    assert_eq!(copy_text(&text("abc")), text("abc"));
    assert_eq!(copy_text(&None), None);
}

#[test]
fn labels_follow_the_column_order() {
    let record = AlgoritmeregisterRecord {
        impacttoetsen_grouping: text("g"),
        impacttoetsen: text("i"),
        lawful_basis: text("l"),
        tags: text("t"),
        category: text("c"),
        ..AlgoritmeregisterRecord::default()
    };
    let labels = Labels::from(&record);
    let pairs: Vec<(Option<String>, Option<String>)> =
        labels.into_iter().map(|l| (l.name, l.value)).collect();
    assert_eq!(
        pairs,
        vec![
            (text("category"), text("c")),
            (text("tags"), text("t")),
            (text("lawful_basis"), text("l")),
            (text("impacttoetsen"), text("i")),
            (text("impacttoetsen_grouping"), text("g")),
        ]
    );
}

#[test]
fn absent_label_columns_give_no_label() {
    let record = AlgoritmeregisterRecord {
        tags: text("t"),
        impacttoetsen: text("i"),
        ..AlgoritmeregisterRecord::default()
    };
    let labels = Labels::from(&record);
    assert_eq!(labels.len(), 2);
    assert_eq!(labels[0].name, text("tags"));
    assert_eq!(labels[0].value, text("t"));
    assert_eq!(labels[1].name, text("impacttoetsen"));
    assert_eq!(labels[1].value, text("i"));
    assert!(Labels::from(&AlgoritmeregisterRecord::default()).is_empty());
}

#[test]
fn owner_is_always_emitted() {
    let owners = Owners::from(&AlgoritmeregisterRecord::default());
    assert_eq!(owners.len(), 1);
    assert_eq!(owners[0].organization, None);
    assert_eq!(owners[0].email, None);
    assert_eq!(owners[0].oin, None);
    assert_eq!(owners[0].name, None);
    assert_eq!(owners[0].role, None);
}

#[test]
fn owner_holds_organization_and_email() {
    let record = AlgoritmeregisterRecord {
        name: text("System"),
        organization: text("Tax Office"),
        contact_email: text("info@tax.example"),
        ..AlgoritmeregisterRecord::default()
    };
    let owners = Owners::from(&record);
    assert_eq!(owners.len(), 1);
    assert_eq!(owners[0].organization, text("Tax Office"));
    assert_eq!(owners[0].email, text("info@tax.example"));
    assert_eq!(owners[0].name, None);
}

#[test]
fn card_of_blank_record() {
    let card = SystemCard::from(&AlgoritmeregisterRecord::default());
    assert_eq!(card.version, "0.1a3");
    assert_eq!(card.name, None);
    assert_eq!(card.upl, None);
    assert_eq!(card.owners.len(), 1);
    assert_eq!(card.description, None);
    assert!(card.labels.is_empty());
    assert_eq!(card.status, None);
    assert_eq!(card.publication_category, None);
    assert_eq!(card.begin_date, None);
    assert_eq!(card.end_date, None);
    assert_eq!(card.goal_and_impact, None);
    assert_eq!(card.considerations, None);
    assert_eq!(card.risk_management, None);
    assert_eq!(card.human_intervention, None);
    assert!(card.legal_base.is_empty());
    assert_eq!(card.used_data, None);
    assert_eq!(card.technical_design, None);
    assert!(card.external_providers.is_empty());
    assert!(card.references.is_empty());
    assert!(card.models.is_none());
    assert!(card.assessments.is_none());
}

#[test]
fn card_of_full_record() {
    let record = AlgoritmeregisterRecord {
        name: text("Risk Model"),
        organization: text("Tax Office"),
        contact_email: text("info@tax.example"),
        description_short: text("short"),
        description: text("long"),
        status: text("In gebruik"),
        publication_category: text("Hoog-risico"),
        begin_date: text("2023-05"),
        end_date: text("unspecified"),
        goal: text("goal"),
        proportionality: text("proportionality"),
        risks: text("risks"),
        human_intervention: text("human"),
        source_data: text("data"),
        methods_and_models: text("methods"),
        provider: text("Provider BV"),
        category: text("cat"),
        website: text("https://site.example"),
        lawful_basis_grouping: text("1: AVG, https://example.org/avg."),
        standard_version: text("1.0.0"),
        ..AlgoritmeregisterRecord::default()
    };
    let card = SystemCard::from(&record);
    assert_eq!(card.version, "0.1a3");
    assert_eq!(card.name, text("Risk Model"));
    assert_eq!(card.upl, None);
    assert_eq!(card.description, text("short"));
    assert_eq!(card.status, text("In gebruik"));
    assert_eq!(card.publication_category, text("Hoog-risico"));
    assert_eq!(card.begin_date, Some(CalendarDate { year: 2023, month: 5, day: 1 }));
    assert_eq!(card.end_date, None);
    assert_eq!(card.goal_and_impact, text("goal"));
    assert_eq!(card.considerations, text("proportionality"));
    assert_eq!(card.risk_management, text("risks"));
    assert_eq!(card.human_intervention, text("human"));
    assert_eq!(card.used_data, text("data"));
    assert_eq!(card.technical_design, text("methods"));
    assert_eq!(card.external_providers, vec!["Provider BV".to_string()]);
    assert_eq!(card.references, vec!["https://site.example".to_string()]);
    assert_eq!(card.owners.len(), 1);
    assert_eq!(card.owners[0].organization, text("Tax Office"));
    assert_eq!(card.owners[0].email, text("info@tax.example"));
    assert_eq!(card.labels.len(), 1);
    assert_eq!(card.labels[0].name, text("category"));
    assert_eq!(card.labels[0].value, text("cat"));
    assert_eq!(card.legal_base.len(), 1);
    assert_eq!(card.legal_base[0].name, text("AVG"));
    assert_eq!(card.legal_base[0].link, text("https://example.org/avg"));
    assert!(card.models.is_none());
    assert!(card.assessments.is_none());
}

#[test]
fn version_is_the_same_on_every_card() {
    let first = SystemCard::from(&versioned("a", Some("1.0.0")));
    let second = SystemCard::from(&versioned("b", None));
    assert_eq!(first.version, second.version);
}

#[test]
fn filename_holds_no_slash_colon_or_space() {
    let file = filename("../etc: pass wd", "a / b : c");
    assert_eq!(file, "..etc_pass_wd_a__b__c.yaml");
    assert!(!file.contains('/'));
    assert!(!file.contains(':'));
    assert!(!file.contains(' '));
}
