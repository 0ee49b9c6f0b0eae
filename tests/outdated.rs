use composer_outdated::{
    composer_arguments, decode_package, decode_report, outdated_from_output, parse_json,
    ComposerOutdatedOptions, IndicatedUpdateRequirement, Json, OutdatedError, UpdateRequirement,
    COMPOSER_PROGRAM,
};

fn package_json(status: &str, warning: &str) -> String {
    format!(
        "{{\"name\":\"acme/gadget\",\"version\":\"1.0.0\",\"latest\":\"2.0.0\",\"latest-status\":\"{}\",\"description\":\"d\"{}}}",
        status, warning
    )
}

#[test]
fn empty_report_with_success_is_up_to_date() {
    let options = ComposerOutdatedOptions { ignored_packages: vec![] };
    let args = composer_arguments(&options);
    assert_eq!(args, vec!["outdated", "-f", "json", "--no-plugins", "--strict", "--locked", "-m"]);
    let (outcome, data) = outdated_from_output(true, br#"{"locked":[]}"#).unwrap();
    assert_eq!(outcome, IndicatedUpdateRequirement::UpToDate);
    assert!(data.locked.is_empty());
}

#[test]
fn failed_exit_with_one_package_requires_update() {
    let options = ComposerOutdatedOptions { ignored_packages: vec!["acme/widget".to_string()] };
    let args = composer_arguments(&options);
    assert_eq!(
        args,
        vec!["outdated", "-f", "json", "--no-plugins", "--strict", "--locked", "-m", "--ignore", "acme/widget"]
    );
    let body = br#"{"locked":[{"name":"acme/gadget","version":"1.0.0","latest":"2.0.0","latest-status":"update-possible","description":"d","warning":null}]}"#;
    let (outcome, data) = outdated_from_output(false, body).unwrap();
    assert_eq!(outcome, IndicatedUpdateRequirement::UpdateRequired);
    assert_eq!(data.locked.len(), 1);
    let p = &data.locked[0];
    assert_eq!(p.name, "acme/gadget");
    assert_eq!(p.version, "1.0.0");
    assert_eq!(p.latest, "2.0.0");
    assert_eq!(p.latest_status, UpdateRequirement::UpdatePossible);
    assert_eq!(p.description, "d");
    assert_eq!(p.warning, None);
}

#[test]
fn non_utf8_output_is_an_encoding_error() {
    let r = outdated_from_output(true, &[b'{', 0xff, 0xfe, b'}']);
    assert!(matches!(r, Err(OutdatedError::Utf8Error(_))));
}

#[test]
fn unknown_status_is_a_decode_error() {
    let body = format!("{{\"locked\":[{}]}}", package_json("not-a-real-status", ""));
    let r = outdated_from_output(true, body.as_bytes());
    assert!(matches!(r, Err(OutdatedError::SerdeJsonError(_))));
}

#[test]
fn status_literals_round_trip() {
    for text in ["up-to-date", "semver-safe-update", "update-possible"] {
        let u = UpdateRequirement::from_text(text).unwrap();
        assert_eq!(u.as_str(), text);
        let body = format!("{{\"locked\":[{}]}}", package_json(text, ""));
        let (_, data) = outdated_from_output(true, body.as_bytes()).unwrap();
        assert_eq!(data.locked[0].latest_status, u);
        assert_eq!(data.locked[0].latest_status.as_str(), text);
    }
    assert_eq!(UpdateRequirement::from_text("Up-To-Date"), None);
    assert_eq!(UpdateRequirement::from_text(""), None);
}

#[test]
fn missing_warning_is_absent_and_empty_warning_is_present() {
    let missing = parse_json(&package_json("up-to-date", "")).unwrap();
    assert_eq!(decode_package(&missing).unwrap().warning, None);
    let null = parse_json(&package_json("up-to-date", ",\"warning\":null")).unwrap();
    assert_eq!(decode_package(&null).unwrap().warning, None);
    let empty = parse_json(&package_json("up-to-date", ",\"warning\":\"\"")).unwrap();
    assert_eq!(decode_package(&empty).unwrap().warning, Some(String::new()));
    let text = parse_json(&package_json("up-to-date", ",\"warning\":\"abandoned\"")).unwrap();
    assert_eq!(decode_package(&text).unwrap().warning, Some("abandoned".to_string()));
    let wrong = parse_json(&package_json("up-to-date", ",\"warning\":3")).unwrap();
    assert!(matches!(decode_package(&wrong), Err(OutdatedError::SerdeJsonError(_))));
}

#[test]
fn outcome_follows_exit_status_only() {
    let body = format!("{{\"locked\":[{}]}}", package_json("update-possible", ""));
    let (outcome, data) = outdated_from_output(true, body.as_bytes()).unwrap();
    assert_eq!(outcome, IndicatedUpdateRequirement::UpToDate);
    assert_eq!(data.locked[0].latest_status, UpdateRequirement::UpdatePossible);
    let (outcome, data) = outdated_from_output(false, br#"{"locked":[]}"#).unwrap();
    assert_eq!(outcome, IndicatedUpdateRequirement::UpdateRequired);
    assert!(data.locked.is_empty());
}

#[test]
fn statuses_are_ordered_by_severity() {
    let a = UpdateRequirement::UpToDate;
    let b = UpdateRequirement::SemverSafeUpdate;
    let c = UpdateRequirement::UpdatePossible;
    assert!(a < b && b < c && a < c);
    assert_eq!(a.partial_cmp(&a), Some(std::cmp::Ordering::Equal));
    assert_eq!(c.partial_cmp(&a), Some(std::cmp::Ordering::Greater));
    assert_eq!([b, c, a].iter().max(), Some(&c));
    assert_eq!([a, b, a].iter().max(), Some(&b));
}

#[test]
fn every_ignored_package_gives_one_exclusion() {
    let options = ComposerOutdatedOptions {
        ignored_packages: vec!["a/b".to_string(), "c/d".to_string(), "a/b".to_string()],
    };
    let args = composer_arguments(&options);
    assert_eq!(args.len(), 13);
    assert_eq!(&args[7..], &["--ignore", "a/b", "--ignore", "c/d", "--ignore", "a/b"]);
    assert_eq!(COMPOSER_PROGRAM, "composer");
}

#[test]
fn display_texts() {
    assert_eq!(UpdateRequirement::UpToDate.as_str(), "up-to-date");
    assert_eq!(UpdateRequirement::SemverSafeUpdate.as_str(), "semver-safe-update");
    assert_eq!(UpdateRequirement::UpdatePossible.as_str(), "update-possible");
    assert_eq!(IndicatedUpdateRequirement::UpToDate.as_str(), "up-to-date");
    assert_eq!(IndicatedUpdateRequirement::UpdateRequired.as_str(), "update-required");
    assert_eq!(IndicatedUpdateRequirement::from_exit_success(true), IndicatedUpdateRequirement::UpToDate);
    assert_eq!(IndicatedUpdateRequirement::from_exit_success(false), IndicatedUpdateRequirement::UpdateRequired);
}

#[test]
fn invalid_or_misshapen_json_is_a_decode_error() {
    for body in [
        "",
        "{",
        "not json",
        "[]",
        "{}",
        "{\"locked\":{}}",
        "{\"locked\":[1]}",
        "{\"locked\":[{\"name\":\"x\"}]}",
    ] {
        let r = outdated_from_output(true, body.as_bytes());
        assert!(matches!(r, Err(OutdatedError::SerdeJsonError(_))), "{}", body);
    }
    let wrong_type = format!("{{\"locked\":[{}]}}", package_json("up-to-date", "").replace("\"1.0.0\"", "1"));
    assert!(matches!(
        outdated_from_output(true, wrong_type.as_bytes()),
        Err(OutdatedError::SerdeJsonError(_))
    ));
}

#[test]
fn unknown_members_are_ignored_and_order_is_kept() {
    let first = package_json("up-to-date", ",\"extra\":[1,2]").replace("acme/gadget", "z/first");
    let second = package_json("semver-safe-update", "").replace("acme/gadget", "a/second");
    let body = format!("{{\"installed\":7,\"locked\":[{},{}]}}", first, second);
    let (_, data) = outdated_from_output(true, body.as_bytes()).unwrap();
    assert_eq!(data.locked.len(), 2);
    assert_eq!(data.locked[0].name, "z/first");
    assert_eq!(data.locked[1].name, "a/second");
    assert_eq!(data.locked[1].latest_status, UpdateRequirement::SemverSafeUpdate);
}

#[test]
fn utf8_text_is_decoded() {
    let body = format!("{{\"locked\":[{}]}}", package_json("up-to-date", ",\"warning\":\"caf\u{e9} \u{2603}\""));
    let (_, data) = outdated_from_output(true, body.as_bytes()).unwrap();
    assert_eq!(data.locked[0].warning.as_deref(), Some("caf\u{e9} \u{2603}"));
}

#[test]
fn parsed_json_keeps_values() {
    let j = parse_json("[1,\"a\",null,true,{\"k\":-2.5}]").unwrap();
    match j {
        Json::Array(items) => {
            assert_eq!(items.len(), 5);
            assert!(matches!(&items[0], Json::Number(n) if n == "1"));
            assert!(matches!(&items[1], Json::Str(s) if s == "a"));
            assert!(matches!(&items[2], Json::Null));
            assert!(matches!(&items[3], Json::Bool(true)));
            match &items[4] {
                Json::Object(entries) => {
                    assert_eq!(entries.len(), 1);
                    assert_eq!(entries[0].0, "k");
                    assert!(matches!(&entries[0].1, Json::Number(n) if n == "-2.5"));
                }
                other => panic!("not an object: {:?}", other),
            }
        }
        other => panic!("not an array: {:?}", other),
    }
    assert!(matches!(parse_json("{\"a\":"), Err(OutdatedError::SerdeJsonError(_))));
}

#[test]
fn decode_report_on_built_values() {
    let doc = Json::Object(vec![("locked".to_string(), Json::Array(vec![]))]);
    assert!(decode_report(&doc).unwrap().locked.is_empty());
    let not_array = Json::Object(vec![("locked".to_string(), Json::Null)]);
    assert!(matches!(decode_report(&not_array), Err(OutdatedError::SerdeJsonError(_))));
    assert!(matches!(decode_report(&Json::Null), Err(OutdatedError::SerdeJsonError(_))));
}
