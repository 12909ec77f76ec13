use mini_metars::atis::{
    filter_callsign_and_parse, find_atis, parse_atis_code, resolve_atis, BroadcastRecord,
    DatafeedSnapshot,
};

fn record(callsign: &str, code: Option<&str>, text: Option<&[&str]>) -> BroadcastRecord {
    BroadcastRecord {
        callsign: callsign.to_string(),
        atis_code: code.map(|c| c.to_string()),
        text_atis: text.map(|lines| lines.iter().map(|l| l.to_string()).collect()),
    }
}

#[test]
fn single_match_uses_structured_letter() {
    let snapshot = DatafeedSnapshot {
        atis: vec![record("KXYZ_ATIS", Some("B"), Some(&["ATIS INFO B 1200Z"]))],
    };
    let r = resolve_atis(&snapshot, "KXYZ");
    assert_eq!(r.letter, "B");
    assert_eq!(r.texts, vec!["ATIS INFO B 1200Z".to_string()]);
}

#[test]
fn text_one_letter_ahead_overrides() {
    let a = record("KXYZ_ATIS", Some("B"), Some(&["KXYZ ATIS INFO C 1200Z", "WIND CALM"]));
    assert_eq!(parse_atis_code(&a), "C");
}

#[test]
fn text_ending_in_letter_one_ahead_overrides() {
    let a = record("KXYZ_ATIS", Some("B"), Some(&["KXYZ ATIS INFO C"]));
    assert_eq!(parse_atis_code(&a), "C");
}

#[test]
fn text_two_letters_ahead_does_not_override() {
    let a = record("KXYZ_ATIS", Some("B"), Some(&["KXYZ ATIS INFO D 1200Z"]));
    assert_eq!(parse_atis_code(&a), "B");
}

#[test]
fn rollover_from_z_to_a_keeps_structured_letter() {
    let a = record("KXYZ_ATIS", Some("Z"), Some(&["KXYZ ATIS INFO A 1200Z"]));
    assert_eq!(parse_atis_code(&a), "Z");
}

#[test]
fn text_behind_keeps_structured_letter() {
    let a = record("KXYZ_ATIS", Some("C"), Some(&["KXYZ ATIS INFO B 1200Z"]));
    assert_eq!(parse_atis_code(&a), "C");
}

#[test]
fn unknown_icao_gives_placeholder_and_no_texts() {
    let snapshot = DatafeedSnapshot {
        atis: vec![record("KABC_ATIS", Some("B"), Some(&["ATIS INFO B 1200Z"]))],
    };
    let r = resolve_atis(&snapshot, "KXYZ");
    assert_eq!(r.letter, "-");
    assert!(r.texts.is_empty());
}

#[test]
fn empty_snapshot_gives_placeholder() {
    let snapshot = DatafeedSnapshot { atis: vec![] };
    let r = resolve_atis(&snapshot, "KXYZ");
    assert_eq!(r.letter, "-");
    assert!(r.texts.is_empty());
}

#[test]
fn arrival_and_departure_letters_are_split() {
    let snapshot = DatafeedSnapshot {
        atis: vec![
            record("KABC_ATIS", Some("Q"), Some(&["OTHER INFO Q 1200Z"])),
            record("KXYZ_A_ATIS", Some("A"), Some(&["ARR INFO A 1200Z"])),
            record("KXYZ_D_ATIS", Some("C"), Some(&["DEP INFO C 1200Z"])),
        ],
    };
    let r = resolve_atis(&snapshot, "KXYZ");
    assert_eq!(r.letter, "A/C");
    assert_eq!(
        r.texts,
        vec!["ARR INFO A 1200Z".to_string(), "DEP INFO C 1200Z".to_string()]
    );
}

#[test]
fn missing_departure_stream_gives_placeholder() {
    let snapshot = DatafeedSnapshot {
        atis: vec![
            record("KXYZ_A_ATIS", Some("A"), Some(&["ARR INFO A 1200Z"])),
            record("KXYZ_ATIS", Some("F"), None),
        ],
    };
    let r = resolve_atis(&snapshot, "KXYZ");
    assert_eq!(r.letter, "A/-");
    assert_eq!(r.texts, vec!["ARR INFO A 1200Z".to_string()]);
}

#[test]
fn multi_match_texts_cover_every_record_in_feed_order() {
    let snapshot = DatafeedSnapshot {
        atis: vec![
            record("KXYZ_D_ATIS", Some("E"), Some(&["DEP", "INFO E", "END"])),
            record("KXYZ_ATIS", None, Some(&["MAIN INFO K 1200Z"])),
            record("KXYZ_A_ATIS", Some("G"), Some(&["ARR INFO H 1200Z"])),
        ],
    };
    let r = resolve_atis(&snapshot, "KXYZ");
    assert_eq!(r.letter, "H/E");
    assert_eq!(
        r.texts,
        vec![
            "DEP INFO E END".to_string(),
            "MAIN INFO K 1200Z".to_string(),
            "ARR INFO H 1200Z".to_string()
        ]
    );
}

#[test]
fn prefix_match_is_case_sensitive() {
    let snapshot = DatafeedSnapshot {
        atis: vec![record("KXYZ_ATIS", Some("B"), None)],
    };
    let r = resolve_atis(&snapshot, "kxyz");
    assert_eq!(r.letter, "-");
    let found = find_atis(&snapshot, "KX");
    assert_eq!(found.len(), 1);
}

#[test]
fn structured_letter_only() {
    let a = record("KXYZ_ATIS", Some("M"), None);
    assert_eq!(parse_atis_code(&a), "M");
}

#[test]
fn text_letter_only() {
    let a = record("KXYZ_ATIS", None, Some(&["THIS IS KXYZ INFORMATION K 1200Z"]));
    assert_eq!(parse_atis_code(&a), "K");
}

#[test]
fn neither_letter_gives_placeholder() {
    assert_eq!(parse_atis_code(&record("KXYZ_ATIS", None, None)), "-");
    let a = record("KXYZ_ATIS", None, Some(&["NO LETTER HERE"]));
    assert_eq!(parse_atis_code(&a), "-");
}

#[test]
fn unreadable_text_keeps_whole_structured_code() {
    let a = record("KXYZ_ATIS", Some("BX"), Some(&["NO LETTER HERE"]));
    assert_eq!(parse_atis_code(&a), "BX");
    let b = record("KXYZ_ATIS", Some("BX"), Some(&["INFO C NOW"]));
    assert_eq!(parse_atis_code(&b), "C");
    let c = record("KXYZ_ATIS", Some("BX"), Some(&["INFO B NOW"]));
    assert_eq!(parse_atis_code(&c), "B");
}

#[test]
fn empty_structured_code_is_returned_as_is() {
    let a = record("KXYZ_ATIS", Some(""), Some(&["INFO C NOW"]));
    assert_eq!(parse_atis_code(&a), "");
}

#[test]
fn filter_by_callsign_picks_first_match() {
    let a = record("KXYZ_A_ATIS", Some("A"), None);
    let b = record("KXYZ_A_ATIS", Some("B"), None);
    let found = vec![&a, &b];
    assert_eq!(filter_callsign_and_parse(&found, "_A_"), "A");
    assert_eq!(filter_callsign_and_parse(&found, "_D_"), "-");
}
