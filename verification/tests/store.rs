use pi_coding::workflow::store::{
    chain_step, check_bounded_read, check_record, check_record_size, check_selection_write,
    ensure_aggregate_capacity, fresh_temporary_name, is_temporary_name, load_selection,
    plan_load_all, reject_symlink_components, validate_workflow_id, workflow_id_from_file_name,
    ChainStep,
    ComponentKind, EntryKind, EntryPlan, RecordEntry, SelectionLoad, SelectionProbe,
    StoreDiagnostic, StoreDiagnosticKind, StoreError, WorkflowStore, MAX_RECORD_BYTES,
    MAX_SELECTION_BYTES, SELECTION_FILE,
};
use pi_coding::workflow::WorkflowId;
use std::collections::BTreeMap;

/// What lies in the records directory.
#[derive(Clone)]
enum Entry {
    File(String),
    Link,
}

/// A store over files in memory. A record is written as its id, a newline and
/// its payload.
struct Disk {
    store: WorkflowStore,
    records: BTreeMap<String, Entry>,
    selection: Option<String>,
}

fn open_store() -> Disk {
    Disk { store: WorkflowStore::at("/state"), records: BTreeMap::new(), selection: None }
}

impl Disk {
    fn entries(&self) -> Vec<RecordEntry> {
        self.records
            .iter()
            .rev()
            .map(|(name, entry)| RecordEntry {
                raw_name: name.as_bytes().to_vec(),
                name: Some(name.clone()),
                kind: match entry {
                    Entry::File(_) => EntryKind::File,
                    Entry::Link => EntryKind::Symlink,
                },
                length: Ok(match entry {
                    Entry::File(s) => s.len() as u64,
                    Entry::Link => 0,
                }),
            })
            .collect()
    }

    fn write(&mut self, id: &str, payload: &str) -> Result<(), StoreError> {
        let id = WorkflowId::new(id);
        let path = self.store.record_path(&id)?;
        let name = path.strip_prefix("/state/records/").unwrap().to_string();
        if let Some(Entry::Link) = self.records.get(&name) {
            reject_symlink_components(&vec![ComponentKind::Directory, ComponentKind::Symlink])?;
        }
        let body = format!("{}\n{}", id.as_str(), payload);
        check_record_size(body.len() as u64)?;
        ensure_aggregate_capacity(&self.entries(), &id, body.len() as u64)?;
        self.records.insert(name, Entry::File(body));
        Ok(())
    }

    fn load_all(&self) -> (Vec<(String, String)>, Vec<StoreDiagnostic>) {
        let mut records = vec![];
        let mut diagnostics = vec![];
        let mut entries = self.entries();
        let plans = plan_load_all(&mut entries);
        for (entry, plan) in entries.iter().zip(plans) {
            match plan {
                EntryPlan::Skip => {}
                EntryPlan::Report(d) => diagnostics.push(d),
                EntryPlan::Read(id) => {
                    let body = match &self.records[entry.name.as_ref().unwrap()] {
                        Entry::File(body) => body,
                        Entry::Link => unreachable!(),
                    };
                    match body.split_once('\n') {
                        Some((record_id, payload)) => {
                            match check_record(&id, 1, &WorkflowId::new(record_id)) {
                                Ok(()) => records.push((record_id.to_string(), payload.to_string())),
                                Err(d) => diagnostics.push(d),
                            }
                        }
                        None => diagnostics.push(StoreDiagnostic {
                            record_id: Some(id),
                            kind: StoreDiagnosticKind::CorruptRecord,
                            message: "could not decode".to_string(),
                        }),
                    }
                }
            }
        }
        (records, diagnostics)
    }

    fn write_selection(&mut self, id: Option<&str>) -> Result<(), StoreError> {
        let id = id.map(WorkflowId::new);
        check_selection_write(&id, 40)?;
        self.selection = Some(id.map_or(String::new(), |i| i.as_str().to_string()));
        Ok(())
    }

    fn load_selection(&self) -> (Option<String>, Option<StoreDiagnosticKind>) {
        let mut probe = match &self.selection {
            None => SelectionProbe::Missing,
            Some(text) => SelectionProbe::File(text.len() as u64),
        };
        loop {
            match load_selection(probe).expect("load selection") {
                SelectionLoad::Read => {
                    let text = self.selection.as_ref().unwrap();
                    probe = if text == "{" {
                        SelectionProbe::DecodeFailed("EOF".to_string())
                    } else {
                        SelectionProbe::Decoded {
                            version: 1,
                            selected: (!text.is_empty()).then(|| WorkflowId::new(text)),
                        }
                    };
                }
                SelectionLoad::Loaded { selected, diagnostic } => {
                    return (
                        selected.map(|id| id.as_str().to_string()),
                        diagnostic.map(|d| d.kind),
                    )
                }
            }
        }
    }

    fn remove(&mut self, id: &str) -> Result<(), StoreError> {
        let path = self.store.record_path(&WorkflowId::new(id))?;
        self.records.remove(path.strip_prefix("/state/records/").unwrap());
        Ok(())
    }
}

#[test]
fn atomic_record_and_selection_roundtrip() {
    let mut disk = open_store();
    disk.write("workflow-a", "first").expect("write record");
    disk.write("workflow-a", "replacement").expect("replace record");
    disk.write_selection(Some("workflow-a")).expect("write selection");
    let (records, diagnostics) = disk.load_all();
    assert_eq!(records, vec![("workflow-a".to_string(), "replacement".to_string())]);
    assert!(diagnostics.is_empty());
    assert_eq!(disk.load_selection(), (Some("workflow-a".to_string()), None));
    assert_eq!(disk.records.len(), 1);
    assert_eq!(disk.store.selection_path(), format!("/state/{SELECTION_FILE}"));
}

#[test]
fn records_load_in_stable_filename_order() {
    let mut disk = open_store();
    for id in ["workflow-c", "workflow-a", "workflow-b"] {
        disk.write(id, id).expect("write record");
    }
    let (records, _) = disk.load_all();
    let ids: Vec<&str> = records.iter().map(|(id, _)| id.as_str()).collect();
    assert_eq!(ids, vec!["workflow-a", "workflow-b", "workflow-c"]);
}

#[test]
fn corrupt_sibling_is_reported_without_hiding_valid_records() {
    let mut disk = open_store();
    disk.write("workflow-valid", "kept").expect("write valid record");
    disk.records.insert("workflow-corrupt.json".to_string(), Entry::File("not json".to_string()));
    let (records, diagnostics) = disk.load_all();
    assert_eq!(records, vec![("workflow-valid".to_string(), "kept".to_string())]);
    assert_eq!(diagnostics.len(), 1);
    assert_eq!(diagnostics[0].kind, StoreDiagnosticKind::CorruptRecord);
}

#[test]
fn corrupt_selection_is_ignored_with_a_diagnostic() {
    let mut disk = open_store();
    disk.selection = Some("{".to_string());
    assert_eq!(disk.load_selection(), (None, Some(StoreDiagnosticKind::CorruptSelection)));
}

#[test]
fn symbolic_links_fail_closed_without_exposing_paths() {
    let error = chain_step(&ComponentKind::Symlink).expect_err("reject symlink root");
    assert_eq!(error, StoreError::Symlink);
    assert!(!error.message().contains('/'));
    let mut disk = open_store();
    disk.records.insert("workflow-link.json".to_string(), Entry::Link);
    let (_, diagnostics) = disk.load_all();
    assert_eq!(diagnostics[0].kind, StoreDiagnosticKind::UnsafeRecord);
    assert_eq!(disk.write("workflow-link", "blocked"), Err(StoreError::Symlink));
    assert_eq!(chain_step(&ComponentKind::Missing), Ok(ChainStep::Create));
    assert_eq!(chain_step(&ComponentKind::Other), Err(StoreError::NotDirectory));
}

#[test]
fn record_and_aggregate_size_limits_are_enforced() {
    let mut disk = open_store();
    assert_eq!(
        disk.write("workflow-large", &"x".repeat(MAX_RECORD_BYTES as usize)),
        Err(StoreError::RecordTooLarge)
    );
    let payload = "x".repeat(MAX_RECORD_BYTES as usize - 256);
    for index in 0..8 {
        disk.write(&format!("workflow-{index}"), &payload).expect("fill capacity");
    }
    assert_eq!(disk.write("workflow-8", &payload), Err(StoreError::AggregateTooLarge));
}

#[test]
fn removal_is_idempotent_and_selection_is_separate() {
    let mut disk = open_store();
    disk.write("workflow-terminal", "done").expect("write terminal record");
    disk.write_selection(Some("workflow-terminal")).expect("select record");
    disk.remove("workflow-terminal").expect("remove record");
    disk.remove("workflow-terminal").expect("repeat removal");
    assert!(disk.load_all().0.is_empty());
    assert_eq!(disk.load_selection().0, Some("workflow-terminal".to_string()));
    disk.write_selection(None).expect("clear selection");
    assert_eq!(disk.load_selection().0, None);
}

#[test]
fn invalid_ids_cannot_escape_the_records_directory() {
    let mut disk = open_store();
    for id in ["", "../escape", "a/b", ".hidden", "record.lock"] {
        assert_eq!(disk.write(id, "blocked"), Err(StoreError::InvalidWorkflowId), "{id}");
    }
}

#[test]
fn record_names_stand_for_their_ids() {
    assert_eq!(
        workflow_id_from_file_name("workflow-a.json").map(|id| id.0),
        Some("workflow-a".to_string())
    );
    assert!(workflow_id_from_file_name("workflow-a").is_none());
    assert!(workflow_id_from_file_name("../x.json").is_none());
}

#[test]
fn temporary_names_are_fresh() {
    let a = fresh_temporary_name();
    let b = fresh_temporary_name();
    assert!(is_temporary_name(&a) && is_temporary_name(&b));
    assert_ne!(a, b);
    assert_eq!(a.len(), ".workflow-".len() + 32 + ".tmp".len());
}

#[test]
fn reads_and_selections_are_bounded() {
    assert!(check_bounded_read(true, 5, 5, 5).is_ok());
    assert_eq!(check_bounded_read(false, 0, 0, 5), Err(StoreError::Symlink));
    assert_eq!(check_bounded_read(true, 5, 6, 5), Err(StoreError::RecordTooLarge));
    assert_eq!(
        check_selection_write(&None, MAX_SELECTION_BYTES + 1),
        Err(StoreError::SelectionTooLarge)
    );
    assert_eq!(
        check_selection_write(&Some(WorkflowId::new("a/b")), 1),
        Err(StoreError::InvalidWorkflowId)
    );
}

#[test]
fn records_must_match_their_file_names() {
    let id = WorkflowId::new("a");
    let d = check_record(&id, 2, &id).unwrap_err();
    assert_eq!(d.kind, StoreDiagnosticKind::UnsupportedRecordVersion);
    assert_eq!(d.message, "ignored workflow record version 2 (supported version is 1)");
    let d = check_record(&id, 1, &WorkflowId::new("b")).unwrap_err();
    assert_eq!(d.kind, StoreDiagnosticKind::RecordIdentityMismatch);
}

#[test]
fn ids_convert_from_texts() {
    assert_eq!(WorkflowId::from("a"), WorkflowId::from("a".to_string()));
}

#[test]
fn only_plain_segments_are_valid_ids() {
    assert!(validate_workflow_id(&WorkflowId::new("wf-1_x.y")).is_ok());
    for bad in ["", ".", "..", "a/b", "a\\b"] {
        assert!(
            matches!(
                validate_workflow_id(&WorkflowId::new(bad)),
                Err(StoreError::InvalidWorkflowId)
            ),
            "{bad}"
        );
    }
}
