use pi_coding::json::{Json, JsonNumber};
use pi_coding::trust::{
    apply_trust_hook_outcomes, canonical_path, check_legacy_shape, check_version,
    has_project_config_resources, is_versioned, lexical_normalize, parse_canonical_trust,
    parse_legacy_trust, resolve_project_trust, resolve_project_trust_with_observation,
    DefaultProjectTrust, PathFacts, PathStep, ProjectFacts, StoredEntry, TrustDecision, TrustDecisionObservation, TrustDocument,
    TrustResolution, TrustStep, TrustStore,
};
use std::collections::BTreeSet;

fn convert(value: &serde_json::Value) -> Json {
    match value {
        serde_json::Value::Null => Json::Null,
        serde_json::Value::Bool(b) => Json::Bool(*b),
        serde_json::Value::Number(n) => {
            Json::Number(JsonNumber { unsigned: n.as_u64(), shown: n.to_string() })
        }
        serde_json::Value::String(s) => Json::Text(s.clone()),
        serde_json::Value::Array(v) => Json::List(v.iter().map(convert).collect()),
        serde_json::Value::Object(m) => {
            Json::Object(m.iter().map(|(k, v)| (k.clone(), convert(v))).collect())
        }
    }
}

fn json(text: &str) -> Json {
    convert(&serde_json::from_str(text).expect("valid JSON"))
}

/// The directories that exist, and a store file.
struct Host {
    dirs: BTreeSet<String>,
    store: TrustStore,
    file: Option<Vec<(String, Json)>>,
    malformed: bool,
}

impl Host {
    fn new(dirs: &[&str]) -> Self {
        let mut all: BTreeSet<String> = dirs.iter().map(|d| d.to_string()).collect();
        all.insert("/".to_string());
        all.insert("/cwd".to_string());
        Host { dirs: all, store: TrustStore::new("/agent"), file: None, malformed: false }
    }

    fn write(&mut self, text: &str) {
        match serde_json::from_str::<serde_json::Value>(text) {
            Ok(value) => match convert(&value) {
                Json::Object(members) => {
                    self.file = Some(members);
                    self.malformed = false;
                }
                other => {
                    assert!(check_legacy_shape(&other, "/agent/trust.json").is_err());
                    self.malformed = true;
                }
            },
            Err(_) => self.malformed = true,
        }
    }

    fn canonical(&self, path: &str) -> Result<String, String> {
        let mut facts = PathFacts { whole: None, exists: vec![], base: None };
        loop {
            match canonical_path(path, "/cwd", &facts) {
                PathStep::Canonicalize(p) => {
                    let plain = lexical_normalize(&p);
                    facts.whole = Some(self.dirs.contains(&plain).then_some(plain));
                }
                PathStep::Probe(p) => facts.exists.push(self.dirs.contains(&lexical_normalize(&p))),
                PathStep::CanonicalizeBase(p) => facts.base = Some(Ok(lexical_normalize(&p))),
                PathStep::Fail(e) => return Err(e),
                PathStep::Done(p) => return Ok(p),
            }
        }
    }

    fn read(&self) -> Result<TrustDocument, String> {
        if self.malformed {
            return Err("invalid trust store".to_string());
        }
        let members = match &self.file {
            Some(members) => members,
            None => return Ok(TrustDocument::empty()),
        };
        let value = Json::Object(members.iter().map(|(k, v)| (k.clone(), copy(v))).collect());
        if !is_versioned(&value) {
            let entries = members
                .iter()
                .map(|(k, v)| StoredEntry {
                    key: k.clone(),
                    value: copy(v),
                    canonical: self.canonical(k),
                })
                .collect();
            return parse_legacy_trust(&entries, self.store.path());
        }
        if members.iter().any(|(k, _)| k != "version" && k != "decisions") {
            return Err("unknown field".to_string());
        }
        let version = value.unsigned_at("version").ok_or("invalid version")?;
        let mut entries = vec![];
        match value.get("decisions") {
            Some(Json::Object(decisions)) => {
                for (key, decision) in decisions {
                    match decision {
                        Json::Bool(b) => entries.push(StoredEntry {
                            key: key.clone(),
                            value: *b,
                            canonical: self.canonical(key),
                        }),
                        _ => return Err("invalid decision".to_string()),
                    }
                }
            }
            _ => return Err("missing field `decisions`".to_string()),
        }
        check_version(version as u32, self.store.path())?;
        parse_canonical_trust(&entries, self.store.path())
    }

    fn resolve(&self, path: &str) -> Result<TrustResolution, String> {
        let path = self.canonical(path)?;
        Ok(self.store.resolve(&self.read()?, &path))
    }

    /// Records a decision and writes the file in its versioned form.
    fn set(&mut self, path: &str, decision: TrustDecision) -> Result<(), String> {
        let path = self.canonical(path)?;
        let mut document = self.read()?;
        self.store.set(&mut document, &path, decision);
        let mut decisions = vec![];
        for i in 0..document.decisions.len() {
            decisions.push((
                document.decisions.key(i).to_string(),
                Json::Bool(*document.decisions.value(i)),
            ));
        }
        self.file = Some(vec![
            ("version".to_string(), json("1")),
            ("decisions".to_string(), Json::Object(decisions)),
        ]);
        Ok(())
    }

    fn written(&self, path: &str) -> Option<bool> {
        let file = self.file.as_ref().unwrap();
        assert_eq!(file[0], ("version".to_string(), json("1")));
        match file[1].1.get(path) {
            Some(Json::Bool(b)) => Some(*b),
            Some(_) => panic!("a decision is a boolean"),
            None => None,
        }
    }

    fn project(
        &self,
        project: &str,
        entries: usize,
        run_override: Option<bool>,
        default: DefaultProjectTrust,
        headless: bool,
    ) -> Result<(TrustResolution, Option<TrustDecisionObservation>), String> {
        let path = self.canonical(project)?;
        let mut facts = ProjectFacts { has_resources: None, document: None };
        loop {
            match resolve_project_trust_with_observation(
                &self.store,
                &path,
                run_override,
                default,
                headless,
                &facts,
            ) {
                TrustStep::ProbeResources(dir) => {
                    assert_eq!(dir, format!("{path}/.pi"));
                    facts.has_resources = Some(has_project_config_resources(Some(entries)));
                }
                TrustStep::ReadStore => facts.document = Some(self.read()),
                TrustStep::Fail(e) => return Err(e),
                TrustStep::Done(resolution, observation) => return Ok((resolution, observation)),
            }
        }
    }
}

fn copy(value: &Json) -> Json {
    match value {
        Json::Null => Json::Null,
        Json::Bool(b) => Json::Bool(*b),
        Json::Number(n) => {
            Json::Number(JsonNumber { unsigned: n.unsigned, shown: n.shown.clone() })
        }
        Json::Text(s) => Json::Text(s.clone()),
        Json::List(v) => Json::List(v.iter().map(copy).collect()),
        Json::Object(m) => Json::Object(m.iter().map(|(k, v)| (k.clone(), copy(v))).collect()),
    }
}

#[test]
fn legacy_flat_map_resolves_true_and_false() {
    let mut host = Host::new(&["/p/trusted", "/p/untrusted", "/p/unknown"]);
    host.write(r#"{"/p/trusted":true,"/p/untrusted":false}"#);
    assert_eq!(host.resolve("/p/trusted").unwrap().decision, TrustDecision::Trusted);
    assert_eq!(host.resolve("/p/untrusted").unwrap().decision, TrustDecision::Untrusted);
    assert_eq!(host.resolve("/p/unknown").unwrap().decision, TrustDecision::Ask);
}

#[test]
fn legacy_noncanonical_child_denial_overrides_trusted_ancestor() {
    let mut host = Host::new(&["/parent", "/parent/child"]);
    host.write(r#"{"/parent":true,"/parent/child/../child":false}"#);
    let resolution = host.resolve("/parent/child").unwrap();
    assert_eq!(resolution.decision, TrustDecision::Untrusted);
    assert_eq!(resolution.matched_path.as_deref(), Some("/parent/child"));
}

#[test]
fn legacy_null_resolves_ask_and_is_dropped_on_write() {
    let mut host = Host::new(&["/project", "/other"]);
    host.write(r#"{"/project":null}"#);
    assert_eq!(host.resolve("/project").unwrap().decision, TrustDecision::Ask);
    host.set("/other", TrustDecision::Trusted).unwrap();
    assert_eq!(host.written("/other"), Some(true));
    assert_eq!(host.written("/project"), None);
}

#[test]
fn set_migrates_legacy_flat_map_to_versioned_shape() {
    let mut host = Host::new(&["/project"]);
    host.write(r#"{"/project":true}"#);
    host.set("/project", TrustDecision::Trusted).unwrap();
    assert_eq!(host.written("/project"), Some(true));
    assert_eq!(host.resolve("/project").unwrap().decision, TrustDecision::Trusted);
}

#[test]
fn legacy_migration_writes_only_canonical_keys() {
    let mut host = Host::new(&["/project", "/other"]);
    host.write(r#"{"/project/../project":true}"#);
    host.set("/other", TrustDecision::Trusted).unwrap();
    assert_eq!(host.written("/project"), Some(true));
    assert_eq!(host.written("/project/../project"), None);
}

#[test]
fn conflicting_legacy_aliases_error() {
    let mut host = Host::new(&["/project"]);
    host.write(r#"{"/project":true,"/project/../project":false}"#);
    assert!(host.resolve("/project").is_err());
}

#[test]
fn agreeing_legacy_aliases_merge() {
    let mut host = Host::new(&["/project"]);
    host.write(r#"{"/project":true,"/project/../project":true}"#);
    assert_eq!(host.resolve("/project").unwrap().decision, TrustDecision::Trusted);
}

#[test]
fn legacy_version_path_decisions_parse_and_migrate() {
    for (value, expected) in [("true", Some(true)), ("false", Some(false)), ("null", None)] {
        let mut host = Host::new(&["/other"]);
        host.write(&format!("{{\"version\":{value}}}"));
        let version_path = host.canonical("version").unwrap();
        assert_eq!(version_path, "/cwd/version");
        let expected_decision = match expected {
            Some(true) => TrustDecision::Trusted,
            Some(false) => TrustDecision::Untrusted,
            None => TrustDecision::Ask,
        };
        assert_eq!(host.resolve(&version_path).unwrap().decision, expected_decision);
        host.set("/other", TrustDecision::Trusted).unwrap();
        assert_eq!(host.written(&version_path), expected);
    }
}

#[test]
fn canonical_versioned_document_still_reads() {
    let mut host = Host::new(&["/project"]);
    host.write(r#"{"version":1,"decisions":{"/project":true}}"#);
    assert_eq!(host.resolve("/project").unwrap().decision, TrustDecision::Trusted);
}

#[test]
fn canonical_noncanonical_and_relative_keys_error() {
    let mut host = Host::new(&["/project"]);
    for invalid in ["/project/../project", "relative/project"] {
        host.write(&format!("{{\"version\":1,\"decisions\":{{\"{invalid}\":false}}}}"));
        assert!(host.resolve("/project").is_err(), "{invalid}");
    }
}

#[test]
fn canonical_raw_aliases_error_before_decisions_can_collapse() {
    let mut host = Host::new(&["/parent", "/parent/child"]);
    host.write(
        r#"{"version":1,"decisions":{"/parent":true,"/parent/child":false,"/parent/child/.":true}}"#,
    );
    assert!(host.resolve("/parent/child").is_err());
    for alias in ["/parent/child/.", "//parent/child"] {
        host.write(&format!("{{\"version\":1,\"decisions\":{{\"{alias}\":false}}}}"));
        assert!(host.resolve("/parent/child").is_err(), "{alias}");
    }
}

#[test]
fn duplicate_canonical_key_errors() {
    let entries = vec![
        StoredEntry { key: "/project".to_string(), value: false, canonical: Ok("/project".to_string()) },
        StoredEntry { key: "/project".to_string(), value: true, canonical: Ok("/project".to_string()) },
    ];
    assert!(parse_canonical_trust(&entries, "/agent/trust.json").is_err());
}

#[test]
fn malformed_legacy_value_errors() {
    let mut host = Host::new(&["/project"]);
    host.write(r#"{"/project":5}"#);
    assert!(host.resolve("/project").is_err());
    host.write(r#"{"/project":"true"}"#);
    assert!(host.resolve("/project").is_err());
}

#[test]
fn malformed_top_level_errors() {
    let mut host = Host::new(&["/project"]);
    host.write("{not json");
    assert!(host.resolve("/project").is_err());
    host.write("[]");
    assert!(host.resolve("/project").is_err());
    assert_eq!(
        check_legacy_shape(&json("[]"), "/t"),
        Err("invalid trust store /t: expected an object, got array".to_string())
    );
}

#[test]
fn unsupported_version_errors() {
    let mut host = Host::new(&["/project"]);
    host.write(r#"{"version":2,"decisions":{}}"#);
    assert_eq!(
        host.resolve("/project"),
        Err("unsupported trust store version 2 in /agent/trust.json (expected 1)".to_string())
    );
}

#[test]
fn numeric_version_requires_a_valid_canonical_envelope() {
    let mut host = Host::new(&["/project"]);
    host.write(r#"{"version":1}"#);
    assert!(host.resolve("/project").is_err());
    host.write(r#"{"version":1,"/project":true}"#);
    assert!(host.resolve("/project").is_err());
}

#[test]
fn unknown_fields_in_versioned_doc_errors() {
    let mut host = Host::new(&["/project"]);
    host.write(r#"{"version":1,"decisions":{},"extra":5}"#);
    assert!(host.resolve("/project").is_err());
}

#[test]
fn invalid_value_in_versioned_doc_errors() {
    let mut host = Host::new(&["/project"]);
    host.write(r#"{"version":1,"decisions":{"/project":null}}"#);
    assert!(host.resolve("/project").is_err());
}

#[test]
fn trust_decision_as_str_matches_serde_names() {
    assert_eq!(TrustDecision::Trusted.as_str(), "trusted");
    assert_eq!(TrustDecision::Untrusted.as_str(), "untrusted");
    assert_eq!(TrustDecision::Ask.as_str(), "ask");
    assert_eq!(TrustDecision::default(), TrustDecision::Ask);
}

#[test]
fn apply_trust_hook_outcomes_never_weakens_a_denial() {
    for blocked in [false, true] {
        for approved in [false, true] {
            assert_eq!(
                apply_trust_hook_outcomes(TrustDecision::Untrusted, blocked, approved),
                TrustDecision::Untrusted,
                "denial weakened by host_blocked={blocked} extension_approved={approved}",
            );
        }
    }
    assert_eq!(
        apply_trust_hook_outcomes(TrustDecision::Trusted, true, false),
        TrustDecision::Untrusted
    );
    assert_eq!(
        apply_trust_hook_outcomes(TrustDecision::Trusted, true, true),
        TrustDecision::Untrusted
    );
    assert_eq!(
        apply_trust_hook_outcomes(TrustDecision::Ask, true, true),
        TrustDecision::Untrusted
    );
    assert_eq!(
        apply_trust_hook_outcomes(TrustDecision::Ask, false, true),
        TrustDecision::Trusted
    );
    assert_eq!(
        apply_trust_hook_outcomes(TrustDecision::Ask, false, false),
        TrustDecision::Ask
    );
    assert_eq!(
        apply_trust_hook_outcomes(TrustDecision::Trusted, false, true),
        TrustDecision::Trusted
    );
    assert_eq!(
        apply_trust_hook_outcomes(TrustDecision::Trusted, false, false),
        TrustDecision::Trusted
    );
}

#[test]
fn observation_carries_tentative_decision_and_is_new() {
    let mut host = Host::new(&["/project", "/denied", "/plain"]);
    let (resolution, observation) =
        host.project("/project", 1, None, DefaultProjectTrust::Ask, false).unwrap();
    assert_eq!(resolution.decision, TrustDecision::Ask);
    let observation = observation.expect("gated project consults the store");
    assert_eq!(observation.path, "/project");
    assert_eq!(observation.decision, TrustDecision::Ask);
    assert!(observation.is_new);

    host.set("/denied", TrustDecision::Untrusted).unwrap();
    let (resolution, observation) =
        host.project("/denied", 1, None, DefaultProjectTrust::Always, false).unwrap();
    assert_eq!(resolution.decision, TrustDecision::Untrusted);
    let observation = observation.expect("stored decision is observed");
    assert_eq!(observation.decision, TrustDecision::Untrusted);
    assert!(!observation.is_new);
    let payload = observation.to_payload();
    assert_eq!(payload.text_at("path"), Some("/denied"));
    assert_eq!(payload.text_at("decision"), Some("untrusted"));
    assert_eq!(payload.get("isNew"), Some(&Json::Bool(false)));

    let (_, observation) =
        host.project("/project", 1, Some(true), DefaultProjectTrust::Ask, false).unwrap();
    assert!(observation.is_none());
    let (_, observation) =
        host.project("/plain", 0, None, DefaultProjectTrust::Ask, false).unwrap();
    assert!(observation.is_none());
}

#[test]
fn observation_payload_matches_extension_contract() {
    let observation = TrustDecisionObservation {
        path: "/tmp/project".to_string(),
        decision: TrustDecision::Ask,
        is_new: true,
    };
    let payload = observation.to_payload();
    assert_eq!(payload.text_at("path"), Some("/tmp/project"));
    assert_eq!(payload.text_at("decision"), Some("ask"));
    assert_eq!(payload.get("isNew"), Some(&Json::Bool(true)));
    match payload {
        Json::Object(members) => assert_eq!(members.len(), 3),
        _ => panic!("an object"),
    }
}

#[test]
fn defaults_apply_where_nothing_is_stored_and_headless_runs_never_ask() {
    let host = Host::new(&["/project"]);
    for (default, headless, expected) in [
        (DefaultProjectTrust::Always, false, TrustDecision::Trusted),
        (DefaultProjectTrust::Never, false, TrustDecision::Untrusted),
        (DefaultProjectTrust::Ask, true, TrustDecision::Untrusted),
    ] {
        let (resolution, _) = host.project("/project", 1, None, default, headless).unwrap();
        assert_eq!(resolution.decision, expected);
        assert_eq!(resolution.is_trusted(), expected == TrustDecision::Trusted);
        assert_eq!(
            resolution.allows_project_resources(headless),
            expected == TrustDecision::Trusted
        );
    }
}

#[test]
fn the_nearest_decision_counts() {
    let mut host = Host::new(&["/a", "/a/b", "/a/b/c"]);
    host.set("/a", TrustDecision::Untrusted).unwrap();
    host.set("/a/b", TrustDecision::Trusted).unwrap();
    let resolution = host.resolve("/a/b/c").unwrap();
    assert_eq!(resolution.decision, TrustDecision::Trusted);
    assert_eq!(resolution.matched_path.as_deref(), Some("/a/b"));
    host.set("/a/b", TrustDecision::Ask).unwrap();
    assert_eq!(host.resolve("/a/b/c").unwrap().decision, TrustDecision::Untrusted);
}

#[test]
fn missing_paths_are_canonical_below_what_exists() {
    let host = Host::new(&["/a"]);
    assert_eq!(host.canonical("/a/x/./y/../z"), Ok("/a/x/z".to_string()));
    assert_eq!(lexical_normalize("/a/./b/../c"), "/a/c");
}

#[test]
fn several_decisions_are_recorded_in_order() {
    let store = TrustStore::new("/agent");
    let mut document = TrustDocument::empty();
    let updates = vec![
        ("/a".to_owned(), TrustDecision::Trusted),
        ("/b".to_owned(), TrustDecision::Trusted),
        ("/a".to_owned(), TrustDecision::Untrusted),
        ("/b".to_owned(), TrustDecision::Ask),
    ];
    store.set_many(&mut document, &updates);
    assert_eq!(document.decisions.len(), 1);
    assert_eq!(store.resolve(&document, "/a").decision, TrustDecision::Untrusted);
    assert_eq!(store.resolve(&document, "/b").decision, TrustDecision::Ask);
}

#[test]
fn plain_resolution_drops_the_observation() {
    let store = TrustStore::new("/agent");
    let mut document = TrustDocument::empty();
    store.set(&mut document, "/p", TrustDecision::Trusted);
    let facts = ProjectFacts { has_resources: Some(true), document: Some(Ok(document)) };
    match resolve_project_trust(&store, "/p/x", None, DefaultProjectTrust::Never, true, &facts) {
        TrustStep::Done(resolution, observation) => {
            assert_eq!(resolution.decision, TrustDecision::Trusted);
            assert_eq!(resolution.matched_path.as_deref(), Some("/p"));
            assert!(observation.is_none());
        }
        _ => panic!("the resolution is complete"),
    }
    let unread = ProjectFacts { has_resources: Some(true), document: None };
    assert!(matches!(
        resolve_project_trust(&store, "/p/x", None, DefaultProjectTrust::Never, true, &unread),
        TrustStep::ReadStore
    ));
}

#[test]
fn a_missing_path_is_climbed_as_it_is_spelled() {
    let mut facts = PathFacts { whole: Some(None), exists: vec![], base: None };
    let path = "/a//real/link/";
    assert_eq!(canonical_path(path, "/cwd", &facts), PathStep::Probe(path.to_owned()));
    facts.exists.push(false);
    assert_eq!(canonical_path(path, "/cwd", &facts), PathStep::Probe("/a//real".to_owned()));
    facts.exists.push(true);
    assert_eq!(
        canonical_path(path, "/cwd", &facts),
        PathStep::CanonicalizeBase("/a//real".to_owned())
    );
    facts.base = Some(Ok("/b".to_owned()));
    assert_eq!(canonical_path(path, "/cwd", &facts), PathStep::Done("/b/link".to_owned()));
    facts.base = Some(Err("denied".to_owned()));
    assert_eq!(
        canonical_path(path, "/cwd", &facts),
        PathStep::Fail("canonicalizing path /a//real: denied".to_owned())
    );
}

#[test]
fn a_climb_ends_where_there_is_no_name() {
    let facts = PathFacts { whole: Some(None), exists: vec![false], base: None };
    assert_eq!(canonical_path("/a/b/..", "/cwd", &facts), PathStep::Done("/a".to_owned()));
    assert_eq!(canonical_path("/", "/cwd", &facts), PathStep::Done("/".to_owned()));
}

#[test]
fn resolutions_compare_their_paths_by_components() {
    let at = |path: &str, matched: Option<&str>| TrustResolution {
        decision: TrustDecision::Trusted,
        matched_path: matched.map(str::to_owned),
        project_path: path.to_owned(),
    };
    assert!(at("/a/b", Some("/a")) == at("/a//b/", Some("/a/")));
    assert!(at("/a/b", Some("/a")) != at("/a/b", None));
    assert!(at("/a/b", None) != at("/a", None));
}
