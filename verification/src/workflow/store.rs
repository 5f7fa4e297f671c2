//! Rules of the versioned, bounded, per-workflow durable storage: which names
//! and sizes are accepted, what is reported and what is read.

use crate::sort;
use crate::sort::{Rank, Ranked};
use crate::text;
use crate::text::{chars_of, decimal, ends_with, same_text, starts_with, text_between};
use crate::workflow::WorkflowId;
use crate::workflow_worktree::catalog;
use crate::workflow_worktree::catalog::fresh_token;
use vstd::prelude::*;
use vstd::string::*;

verus! {

pub const STORE_VERSION: u32 = 1;

pub const RECORDS_DIRECTORY: &'static str = "records";

pub const SELECTION_FILE: &'static str = "selection.json";

/// 1 MiB.
pub const MAX_RECORD_BYTES: u64 = 1048576;

/// 8 MiB.
pub const MAX_AGGREGATE_BYTES: u64 = 8388608;

/// 16 KiB.
pub const MAX_SELECTION_BYTES: u64 = 16384;

/// Longest workflow id, in bytes.
pub const MAX_WORKFLOW_ID_BYTES: usize = 128;

/// Why a storage operation was refused.
#[derive(Debug, PartialEq, Eq)]
pub enum StoreError {
    InvalidWorkflowId,
    Symlink,
    NotDirectory,
    Io { operation: String, source: String },
    Json { operation: String, source: String },
    RecordTooLarge,
    AggregateTooLarge,
    SelectionTooLarge,
}

impl StoreError {
    /// The message of the error.
    pub open spec fn text(self) -> Seq<char> {
        match self {
            StoreError::InvalidWorkflowId => "workflow id is not safe for durable storage"@,
            StoreError::Symlink => "workflow storage path contains a symbolic link"@,
            StoreError::NotDirectory => "workflow storage path component is not a directory"@,
            StoreError::Io { operation, source } => operation@ + ": "@ + source@,
            StoreError::Json { operation, source } => operation@ + ": "@ + source@,
            StoreError::RecordTooLarge => "workflow record exceeds the 1 MiB limit"@,
            StoreError::AggregateTooLarge => "workflow records exceed the 8 MiB aggregate limit"@,
            StoreError::SelectionTooLarge => "workflow selection exceeds its size limit"@,
        }
    }

    /// The message of the error.
    pub fn message(&self) -> (r: String)
        ensures
            r@ == self.text(),
    {
        match self {
            StoreError::InvalidWorkflowId => "workflow id is not safe for durable storage".to_owned(),
            StoreError::Symlink => "workflow storage path contains a symbolic link".to_owned(),
            StoreError::NotDirectory => {
                "workflow storage path component is not a directory".to_owned()
            },
            StoreError::Io { operation, source } => operation.clone().concat(": ").concat(
                source.as_str(),
            ),
            StoreError::Json { operation, source } => operation.clone().concat(": ").concat(
                source.as_str(),
            ),
            StoreError::RecordTooLarge => "workflow record exceeds the 1 MiB limit".to_owned(),
            StoreError::AggregateTooLarge => {
                "workflow records exceed the 8 MiB aggregate limit".to_owned()
            },
            StoreError::SelectionTooLarge => "workflow selection exceeds its size limit".to_owned(),
        }
    }
}

// ---------------------------------------------------------------------------
// Names
// ---------------------------------------------------------------------------

/// ASCII letters and digits.
pub open spec fn alphanumeric(c: char) -> bool {
    ('a' <= c <= 'z') || ('A' <= c <= 'Z') || ('0' <= c <= '9')
}

/// The characters that a workflow id is made of.
pub open spec fn id_char(c: char) -> bool {
    alphanumeric(c) || c == '-' || c == '_' || c == '.'
}

/// Whether `s` names a workflow: short, made of safe characters, starting with
/// a letter or digit, and neither climbing nor ending like a special file.
pub open spec fn valid_id(s: Seq<char>) -> bool {
    &&& 0 < s.len() <= MAX_WORKFLOW_ID_BYTES
    &&& alphanumeric(s[0])
    &&& forall|i: int| 0 <= i < s.len() ==> id_char(#[trigger] s[i])
    &&& !text::holds(s, ".."@)
    &&& !"."@.is_suffix_of(s)
    &&& !".lock"@.is_suffix_of(s)
}

fn is_alphanumeric(c: char) -> (r: bool)
    ensures
        r == alphanumeric(c),
{
    ('a' <= c && c <= 'z') || ('A' <= c && c <= 'Z') || ('0' <= c && c <= '9')
}

proof fn lemma_id_bytes(s: Seq<char>)
    requires
        forall|i: int| 0 <= i < s.len() ==> id_char(#[trigger] s[i]),
    ensures
        text::byte_len(s) == s.len(),
    decreases s.len(),
{
    if s.len() > 0 {
        assert(id_char(s[s.len() - 1]));
        assert forall|i: int| 0 <= i < s.drop_last().len() implies id_char(
            #[trigger] s.drop_last()[i],
        ) by {
            assert(s.drop_last()[i] == s[i]);
        }
        lemma_id_bytes(s.drop_last());
    }
}

/// Whether `s` names a workflow.
pub fn is_valid_id(s: &str) -> (r: bool)
    ensures
        r == valid_id(s@),
{
    let chars = chars_of(s);
    if chars.len() == 0 || chars.len() > MAX_WORKFLOW_ID_BYTES || !is_alphanumeric(chars[0]) {
        return false;
    }
    let mut i: usize = 0;
    while i < chars.len()
        invariant
            i <= chars@.len(),
            chars@ == s@,
            forall|j: int| 0 <= j < i ==> id_char(#[trigger] chars@[j]),
        decreases chars@.len() - i,
    {
        let c = chars[i];
        if !(is_alphanumeric(c) || c == '-' || c == '_' || c == '.') {
            assert(!id_char(s@[i as int]));
            return false;
        }
        i += 1;
    }
    !text::contains(s, "..") && !ends_with(s, ".") && !ends_with(s, ".lock")
}

/// Refuses an id that is not safe for durable storage.
pub fn validate_workflow_id(id: &WorkflowId) -> (r: Result<(), StoreError>)
    ensures
        r is Ok <==> valid_id(id@),
        r is Err ==> r->Err_0 is InvalidWorkflowId,
{
    if is_valid_id(id.as_str()) {
        Ok(())
    } else {
        Err(StoreError::InvalidWorkflowId)
    }
}

/// A valid id is one plain path segment: it holds no separator, is no relative
/// step and takes at most the allowed number of bytes.
pub proof fn law_valid_id_is_a_plain_segment(s: Seq<char>)
    requires
        valid_id(s),
    ensures
        !s.contains('/'),
        !s.contains('\\'),
        !s.contains(':'),
        !s.contains('\0'),
        s != "."@,
        s != ".."@,
        text::byte_len(s) <= MAX_WORKFLOW_ID_BYTES,
{
    lemma_id_bytes(s);
    reveal_strlit(".");
    reveal_strlit("..");
    assert(s[0] != '.');
    assert forall|i: int| 0 <= i < s.len() implies s[i] != '/' && s[i] != '\\' && s[i] != ':'
        && s[i] != '\0' by {
        assert(id_char(s[i]));
    }
}

/// The file name of a record.
pub open spec fn record_name(id: Seq<char>) -> Seq<char> {
    id + ".json"@
}

/// Whether `name` is that of a temporary file.
pub open spec fn temporary_name(name: Seq<char>) -> bool {
    ".workflow-"@.is_prefix_of(name) && ".tmp"@.is_suffix_of(name)
}

/// Whether `name` is that of a temporary file.
pub fn is_temporary_name(name: &str) -> (r: bool)
    ensures
        r == temporary_name(name@),
{
    starts_with(name, ".workflow-") && ends_with(name, ".tmp")
}

/// The name of a temporary file marked with `token`.
pub fn temporary_file_name(token: &str) -> (r: String)
    ensures
        r@ == ".workflow-"@ + token@ + ".tmp"@,
        temporary_name(r@),
{
    let r = ".workflow-".to_owned().concat(token).concat(".tmp");
    proof {
        assert(".workflow-"@ =~= r@.subrange(0, ".workflow-"@.len() as int));
        assert(".tmp"@ =~= r@.subrange(r@.len() - ".tmp"@.len(), r@.len() as int));
    }
    r
}

/// A fresh name of a temporary file.
pub fn fresh_temporary_name() -> (r: String)
    ensures
        temporary_name(r@),
        exists|token: Seq<char>| #[trigger]
            catalog::is_token(token) && r@ == ".workflow-"@ + token + ".tmp"@,
{
    let token = fresh_token();
    assert(catalog::is_token(token@));
    temporary_file_name(token.as_str())
}

/// The id that a record's file name stands for.
pub open spec fn id_of_file(name: Seq<char>) -> Option<Seq<char>> {
    if ".json"@.is_suffix_of(name) && valid_id(name.take(name.len() - ".json"@.len())) {
        Some(name.take(name.len() - ".json"@.len()))
    } else {
        None
    }
}

/// The id that a record's file name stands for, if it is a valid one.
pub fn workflow_id_from_file_name(name: &str) -> (r: Option<WorkflowId>)
    ensures
        match r {
            Some(id) => id_of_file(name@) == Some(id@),
            None => id_of_file(name@) is None,
        },
{
    if !ends_with(name, ".json") {
        return None;
    }
    let chars = chars_of(name);
    proof {
        reveal_strlit(".json");
    }
    let stem = text_between(chars.as_slice(), 0, chars.len() - 5);
    assert(stem@ =~= name@.take(name@.len() - ".json"@.len()));
    if is_valid_id(stem.as_str()) {
        Some(WorkflowId(stem))
    } else {
        None
    }
}

/// The file name of a valid id stands for that id, and for no temporary file.
pub proof fn law_record_name_round_trips(id: Seq<char>)
    requires
        valid_id(id),
    ensures
        id_of_file(record_name(id)) == Some(id),
        !temporary_name(record_name(id)),
{
    reveal_strlit(".json");
    reveal_strlit(".tmp");
    let name = record_name(id);
    assert(name.take(name.len() - 5) =~= id);
    assert(".json"@ =~= name.subrange(name.len() - 5, name.len() as int));
    assert(name[name.len() - 1] == 'n');
    if temporary_name(name) {
        assert(".tmp"@[3] == name.subrange(name.len() - 4, name.len() as int)[3]);
    }
}

/// `segment` below the directory `base`.
pub open spec fn joined(base: Seq<char>, segment: Seq<char>) -> Seq<char> {
    if base.len() == 0 {
        segment
    } else if base.last() == '/' {
        base + segment
    } else {
        base.push('/') + segment
    }
}

/// `segment` below the directory `base`. `segment` is a relative path.
pub fn join_path(base: &str, segment: &str) -> (r: String)
    ensures
        r@ == joined(base@, segment@),
{
    let chars = chars_of(base);
    let mut r = base.to_owned();
    if chars.len() > 0 && chars[chars.len() - 1] != '/' {
        r.push('/');
    }
    assert(base@.len() == 0 ==> base@ + segment@ =~= segment@);
    r.concat(segment)
}

/// Where the durable files of one store lie.
#[derive(PartialEq, Eq)]
pub struct WorkflowStore {
    pub root: String,
    pub records: String,
}

impl WorkflowStore {
    /// The store below `root`.
    pub fn at(root: &str) -> (r: Self)
        ensures
            r.root@ == root@,
            r.records@ == joined(root@, RECORDS_DIRECTORY@),
    {
        WorkflowStore { root: root.to_owned(), records: join_path(root, RECORDS_DIRECTORY) }
    }

    /// The path of a record, for a valid id.
    pub fn record_path(&self, id: &WorkflowId) -> (r: Result<String, StoreError>)
        ensures
            match r {
                Ok(path) => valid_id(id@) && path@ == joined(self.records@, record_name(id@)),
                Err(e) => !valid_id(id@) && e is InvalidWorkflowId,
            },
    {
        match validate_workflow_id(id) {
            Err(e) => Err(e),
            Ok(_) => {
                let name = id.as_str().to_owned().concat(".json");
                Ok(join_path(self.records.as_str(), name.as_str()))
            },
        }
    }

    /// The path of the selection file.
    pub fn selection_path(&self) -> (r: String)
        ensures
            r@ == joined(self.root@, SELECTION_FILE@),
    {
        join_path(self.root.as_str(), SELECTION_FILE)
    }
}

// ---------------------------------------------------------------------------
// Directories
// ---------------------------------------------------------------------------

/// What a path component is on disk.
#[derive(Debug, PartialEq, Eq)]
pub enum ComponentKind {
    Symlink,
    Directory,
    Other,
    Missing,
    Unreadable(String),
}

/// What to do about one component while a directory chain is made.
#[derive(Clone, Copy, Debug, PartialEq, Eq, Structural)]
pub enum ChainStep {
    Descend,
    Create,
}

/// What to do about one component while a directory chain is made: descend into
/// a directory, create a missing one, and refuse anything else.
pub fn chain_step(kind: &ComponentKind) -> (r: Result<ChainStep, StoreError>)
    ensures
        match *kind {
            ComponentKind::Symlink => r is Err && r->Err_0 is Symlink,
            ComponentKind::Other => r is Err && r->Err_0 is NotDirectory,
            ComponentKind::Directory => r == Ok::<ChainStep, StoreError>(ChainStep::Descend),
            ComponentKind::Missing => r == Ok::<ChainStep, StoreError>(ChainStep::Create),
            ComponentKind::Unreadable(source) => r is Err && r->Err_0.text()
                == "inspecting workflow storage directory"@ + ": "@ + source@,
        },
{
    match kind {
        ComponentKind::Symlink => Err(StoreError::Symlink),
        ComponentKind::Other => Err(StoreError::NotDirectory),
        ComponentKind::Directory => Ok(ChainStep::Descend),
        ComponentKind::Missing => Ok(ChainStep::Create),
        ComponentKind::Unreadable(source) => Err(
            StoreError::Io {
                operation: "inspecting workflow storage directory".to_owned(),
                source: source.clone(),
            },
        ),
    }
}

/// Whether a path is free of symbolic links, judged by what its components are
/// from the root downwards; what follows a missing component is not looked at.
pub open spec fn links_verdict(kinds: Seq<ComponentKind>) -> Option<ComponentKind>
    decreases kinds.len(),
{
    if kinds.len() == 0 || kinds[0] is Missing {
        None
    } else if kinds[0] is Symlink || kinds[0] is Unreadable {
        Some(kinds[0])
    } else {
        links_verdict(kinds.drop_first())
    }
}

/// Refuses a path that runs through a symbolic link or cannot be inspected.
pub fn reject_symlink_components(kinds: &Vec<ComponentKind>) -> (r: Result<(), StoreError>)
    ensures
        match links_verdict(kinds@) {
            None => r is Ok,
            Some(ComponentKind::Unreadable(source)) => r is Err && r->Err_0.text()
                == "inspecting workflow storage path"@ + ": "@ + source@,
            Some(_) => r is Err && r->Err_0 is Symlink,
        },
{
    let mut i: usize = 0;
    assert(kinds@.skip(0) =~= kinds@);
    while i < kinds.len()
        invariant
            i <= kinds@.len(),
            links_verdict(kinds@) == links_verdict(kinds@.skip(i as int)),
        decreases kinds@.len() - i,
    {
        assert(kinds@.skip(i as int)[0] == kinds@[i as int]);
        assert(kinds@.skip(i as int).drop_first() =~= kinds@.skip(i + 1));
        match &kinds[i] {
            ComponentKind::Missing => {
                return Ok(());
            },
            ComponentKind::Symlink => {
                return Err(StoreError::Symlink);
            },
            ComponentKind::Unreadable(source) => {
                return Err(
                    StoreError::Io {
                        operation: "inspecting workflow storage path".to_owned(),
                        source: source.clone(),
                    },
                );
            },
            _ => {},
        }
        i += 1;
    }
    Ok(())
}

/// No accepted path has a symbolic link among the components that exist.
pub proof fn law_accepted_path_has_no_link(kinds: Seq<ComponentKind>, i: int)
    requires
        links_verdict(kinds) is None,
        0 <= i < kinds.len(),
        forall|j: int| 0 <= j < i ==> !(#[trigger] kinds[j] is Missing),
    ensures
        !(kinds[i] is Symlink),
    decreases kinds.len(),
{
    if i > 0 {
        assert(!(kinds[0] is Missing));
        assert forall|j: int| 0 <= j < i - 1 implies !(#[trigger] kinds.drop_first()[j] is Missing) by {
            assert(kinds.drop_first()[j] == kinds[j + 1]);
        }
        law_accepted_path_has_no_link(kinds.drop_first(), i - 1);
        assert(kinds.drop_first()[i - 1] == kinds[i]);
    }
}

// ---------------------------------------------------------------------------
// Loading records
// ---------------------------------------------------------------------------

/// What a diagnostic reports.
#[derive(Clone, Copy, Debug, PartialEq, Eq, Structural)]
pub enum StoreDiagnosticKind {
    CorruptRecord,
    InvalidRecordName,
    UnsupportedRecordVersion,
    RecordIdentityMismatch,
    RecordLimitExceeded,
    UnsafeRecord,
    CorruptSelection,
    UnsupportedSelectionVersion,
    UnsafeSelection,
}

/// Something in the store that was ignored.
#[derive(Debug, PartialEq, Eq)]
pub struct StoreDiagnostic {
    pub record_id: Option<WorkflowId>,
    pub kind: StoreDiagnosticKind,
    pub message: String,
}

/// The model of a diagnostic.
#[verifier::ext_equal]
pub struct DiagnosticModel {
    pub record_id: Option<Seq<char>>,
    pub kind: StoreDiagnosticKind,
    pub message: Seq<char>,
}

impl View for StoreDiagnostic {
    type V = DiagnosticModel;

    open spec fn view(&self) -> DiagnosticModel {
        DiagnosticModel {
            record_id: match self.record_id {
                Some(id) => Some(id@),
                None => None,
            },
            kind: self.kind,
            message: self.message@,
        }
    }
}

/// The diagnostic with the given parts.
pub fn diagnostic(
    record_id: Option<WorkflowId>,
    kind: StoreDiagnosticKind,
    message: &str,
) -> (r: StoreDiagnostic)
    ensures
        r.record_id == record_id,
        r.kind == kind,
        r.message@ == message@,
{
    StoreDiagnostic { record_id, kind, message: message.to_owned() }
}

/// What a directory entry is.
#[derive(Debug, PartialEq, Eq)]
pub enum EntryKind {
    File,
    Symlink,
    Other,
    /// The type could not be read.
    Unreadable(String),
}

/// One entry of the records directory.
#[derive(Debug, PartialEq, Eq)]
pub struct RecordEntry {
    /// The name as it is on disk.
    pub raw_name: Vec<u8>,
    /// The name, where it is valid UTF-8.
    pub name: Option<String>,
    pub kind: EntryKind,
    /// The size in bytes, or why it could not be read.
    pub length: Result<u64, String>,
}

/// Whether byte string `a` stands before `b`.
pub open spec fn bytes_before(a: Seq<u8>, b: Seq<u8>) -> bool
    decreases a.len(),
{
    if b.len() == 0 {
        false
    } else if a.len() == 0 {
        true
    } else if a[0] != b[0] {
        a[0] < b[0]
    } else {
        bytes_before(a.drop_first(), b.drop_first())
    }
}

proof fn lemma_bytes_order(a: Seq<u8>, b: Seq<u8>, c: Seq<u8>)
    ensures
        !bytes_before(a, a),
        bytes_before(a, b) && bytes_before(b, c) ==> bytes_before(a, c),
        !bytes_before(a, b) && !bytes_before(b, c) ==> !bytes_before(a, c),
        bytes_before(a, b) ==> !bytes_before(b, a),
        !bytes_before(a, b) && !bytes_before(b, a) ==> a == b,
    decreases a.len() + b.len() + c.len(),
{
    if a.len() > 0 {
        if b.len() > 0 && c.len() > 0 {
            lemma_bytes_order(a.drop_first(), b.drop_first(), c.drop_first());
        } else if b.len() > 0 {
            lemma_bytes_order(a.drop_first(), b.drop_first(), c);
        } else {
            lemma_bytes_order(a.drop_first(), b, c);
        }
        if b.len() > 0 && a[0] == b[0] && a.drop_first() == b.drop_first() {
            assert(a =~= seq![a[0]] + a.drop_first());
            assert(b =~= seq![b[0]] + b.drop_first());
        }
    } else if b.len() == 0 {
        assert(a =~= b);
    }
}

impl Rank for RecordEntry {
    open spec fn before(self, other: Self) -> bool {
        bytes_before(self.raw_name@, other.raw_name@)
    }

    proof fn weak_order(a: Self, b: Self, c: Self) {
        lemma_bytes_order(a.raw_name@, b.raw_name@, c.raw_name@);
    }
}

impl Ranked for RecordEntry {
    fn is_before(&self, other: &Self) -> (r: bool) {
        let x = &self.raw_name;
        let y = &other.raw_name;
        let mut i: usize = 0;
        assert(x@.skip(0) =~= x@);
        assert(y@.skip(0) =~= y@);
        while i < x.len() && i < y.len() && x[i] == y[i]
            invariant
                i <= x@.len(),
                i <= y@.len(),
                bytes_before(x@, y@) == bytes_before(x@.skip(i as int), y@.skip(i as int)),
            decreases x@.len() - i,
        {
            assert(x@.skip(i as int).drop_first() =~= x@.skip(i + 1));
            assert(y@.skip(i as int).drop_first() =~= y@.skip(i + 1));
            i += 1;
        }
        if i >= y.len() {
            false
        } else if i >= x.len() {
            true
        } else {
            assert(x@.skip(i as int)[0] == x@[i as int]);
            assert(y@.skip(i as int)[0] == y@[i as int]);
            x[i] < y[i]
        }
    }
}

/// What becomes of one directory entry.
#[derive(Debug, PartialEq, Eq)]
pub enum EntryPlan {
    /// It is none of the store's records.
    Skip,
    /// It is ignored and reported.
    Report(StoreDiagnostic),
    /// It is read as the record of this workflow.
    Read(WorkflowId),
}

/// The model of a plan.
#[verifier::ext_equal]
pub enum PlanModel {
    Skip,
    Report(DiagnosticModel),
    Read(Seq<char>),
}

impl View for EntryPlan {
    type V = PlanModel;

    open spec fn view(&self) -> PlanModel {
        match *self {
            EntryPlan::Skip => PlanModel::Skip,
            EntryPlan::Report(d) => PlanModel::Report(d@),
            EntryPlan::Read(id) => PlanModel::Read(id@),
        }
    }
}

pub const NON_UTF8_NAME: &'static str = "ignored a workflow record with a non-UTF-8 name";

pub const INVALID_NAME: &'static str = "ignored a workflow record with an invalid file name";

pub const NOT_A_FILE: &'static str = "ignored a workflow record that is not a regular file";

pub const RECORD_LIMIT: &'static str = "ignored a workflow record larger than 1 MiB";

pub const AGGREGATE_LIMIT: &'static str =
    "ignored a workflow record beyond the 8 MiB aggregate limit";

/// What becomes of `entry` when records of `used` bytes are read already.
pub open spec fn entry_plan(entry: RecordEntry, used: nat) -> PlanModel {
    match entry.name {
        None => PlanModel::Report(
            DiagnosticModel {
                record_id: None,
                kind: StoreDiagnosticKind::InvalidRecordName,
                message: NON_UTF8_NAME@,
            },
        ),
        Some(name) => if temporary_name(name@) || !".json"@.is_suffix_of(name@) {
            PlanModel::Skip
        } else if id_of_file(name@) is None {
            PlanModel::Report(
                DiagnosticModel {
                    record_id: None,
                    kind: StoreDiagnosticKind::InvalidRecordName,
                    message: INVALID_NAME@,
                },
            )
        } else {
            let id = id_of_file(name@)->0;
            match entry.kind {
                EntryKind::Unreadable(error) => reported(
                    id,
                    StoreDiagnosticKind::CorruptRecord,
                    "could not inspect workflow record: "@ + error@,
                ),
                EntryKind::File => match entry.length {
                    Err(error) => reported(
                        id,
                        StoreDiagnosticKind::CorruptRecord,
                        "could not read workflow record metadata: "@ + error@,
                    ),
                    Ok(length) => if length > MAX_RECORD_BYTES {
                        reported(id, StoreDiagnosticKind::RecordLimitExceeded, RECORD_LIMIT@)
                    } else if used + length > MAX_AGGREGATE_BYTES {
                        reported(id, StoreDiagnosticKind::RecordLimitExceeded, AGGREGATE_LIMIT@)
                    } else {
                        PlanModel::Read(id)
                    },
                },
                _ => reported(id, StoreDiagnosticKind::UnsafeRecord, NOT_A_FILE@),
            }
        },
    }
}

/// A report on the record of `id`.
pub open spec fn reported(id: Seq<char>, kind: StoreDiagnosticKind, message: Seq<char>) -> PlanModel {
    PlanModel::Report(DiagnosticModel { record_id: Some(id), kind, message })
}

/// Bytes of the records that are read among `entries`.
pub open spec fn read_bytes(entries: Seq<RecordEntry>) -> nat
    decreases entries.len(),
{
    if entries.len() == 0 {
        0
    } else {
        let used = read_bytes(entries.drop_last());
        if entry_plan(entries.last(), used) is Read {
            used + entries.last().length->Ok_0 as nat
        } else {
            used
        }
    }
}

/// What becomes of each entry, in order.
pub open spec fn load_plan(entries: Seq<RecordEntry>) -> Seq<PlanModel>
    decreases entries.len(),
{
    if entries.len() == 0 {
        Seq::empty()
    } else {
        load_plan(entries.drop_last()).push(
            entry_plan(entries.last(), read_bytes(entries.drop_last())),
        )
    }
}

/// The model of a list of plans.
pub open spec fn plans(v: Seq<EntryPlan>) -> Seq<PlanModel> {
    v.map_values(|p: EntryPlan| p@)
}

fn report(id: WorkflowId, kind: StoreDiagnosticKind, message: String) -> (r: EntryPlan)
    ensures
        r@ == reported(id@, kind, message@),
{
    EntryPlan::Report(StoreDiagnostic { record_id: Some(id), kind, message })
}

fn plan_entry(entry: &RecordEntry, used: u64) -> (r: EntryPlan)
    requires
        used <= MAX_AGGREGATE_BYTES,
    ensures
        r@ == entry_plan(*entry, used as nat),
{
    let name = match &entry.name {
        None => {
            return EntryPlan::Report(
                diagnostic(None, StoreDiagnosticKind::InvalidRecordName, NON_UTF8_NAME),
            );
        },
        Some(name) => name,
    };
    if is_temporary_name(name.as_str()) || !ends_with(name.as_str(), ".json") {
        return EntryPlan::Skip;
    }
    let id = match workflow_id_from_file_name(name.as_str()) {
        None => {
            return EntryPlan::Report(
                diagnostic(None, StoreDiagnosticKind::InvalidRecordName, INVALID_NAME),
            );
        },
        Some(id) => id,
    };
    match &entry.kind {
        EntryKind::Unreadable(error) => report(
            id,
            StoreDiagnosticKind::CorruptRecord,
            "could not inspect workflow record: ".to_owned().concat(error.as_str()),
        ),
        EntryKind::File => match &entry.length {
            Err(error) => report(
                id,
                StoreDiagnosticKind::CorruptRecord,
                "could not read workflow record metadata: ".to_owned().concat(error.as_str()),
            ),
            Ok(length) => {
                if *length > MAX_RECORD_BYTES {
                    report(
                        id,
                        StoreDiagnosticKind::RecordLimitExceeded,
                        RECORD_LIMIT.to_owned(),
                    )
                } else if used + *length > MAX_AGGREGATE_BYTES {
                    report(
                        id,
                        StoreDiagnosticKind::RecordLimitExceeded,
                        AGGREGATE_LIMIT.to_owned(),
                    )
                } else {
                    EntryPlan::Read(id)
                }
            },
        },
        _ => report(id, StoreDiagnosticKind::UnsafeRecord, NOT_A_FILE.to_owned()),
    }
}

/// Sorts the entries by name and says what becomes of each: which are read,
/// which are reported, and which are none of the store's business. One corrupt
/// entry never hides another.
pub fn plan_load_all(entries: &mut Vec<RecordEntry>) -> (r: Vec<EntryPlan>)
    ensures
        final(entries)@ == sort::stable_sorted(old(entries)@),
        plans(r@) == load_plan(final(entries)@),
{
    sort::stable_sort(entries);
    let ghost all = entries@;
    let mut out: Vec<EntryPlan> = Vec::new();
    let mut used: u64 = 0;
    let mut i: usize = 0;
    assert(all.take(0) =~= Seq::<RecordEntry>::empty());
    assert(plans(out@) =~= load_plan(all.take(0)));
    while i < entries.len()
        invariant
            entries@ == all,
            i <= all.len(),
            used == read_bytes(all.take(i as int)),
            used <= MAX_AGGREGATE_BYTES,
            plans(out@) == load_plan(all.take(i as int)),
        decreases all.len() - i,
    {
        let plan = plan_entry(&entries[i], used);
        assert(all.take(i + 1).drop_last() =~= all.take(i as int));
        assert(all.take(i + 1).last() == all[i as int]);
        let ghost shown = plan@;
        if let EntryPlan::Read(_) = &plan {
            if let Ok(length) = &entries[i].length {
                used = used + *length;
            }
        }
        let ghost before = out@;
        out.push(plan);
        assert(plans(out@) =~= plans(before).push(shown));
        i += 1;
    }
    assert(all.take(all.len() as int) =~= all);
    out
}

/// The records that are read together never exceed the aggregate limit.
pub proof fn law_loaded_bytes_are_bounded(entries: Seq<RecordEntry>)
    ensures
        read_bytes(entries) <= MAX_AGGREGATE_BYTES,
    decreases entries.len(),
{
    if entries.len() > 0 {
        law_loaded_bytes_are_bounded(entries.drop_last());
    }
}

/// Only regular files of at most the record limit, with the name of a valid id,
/// are ever read.
pub proof fn law_only_safe_records_are_read(entry: RecordEntry, used: nat, id: Seq<char>)
    requires
        entry_plan(entry, used) == PlanModel::Read(id),
    ensures
        valid_id(id),
        entry.name is Some,
        entry.name->0@ == record_name(id),
        entry.kind is File,
        entry.length is Ok && entry.length->Ok_0 <= MAX_RECORD_BYTES,
{
    let name = entry.name->0@;
    assert(name =~= record_name(id)) by {
        assert(name.take(name.len() - ".json"@.len()) == id);
        assert(".json"@ == name.subrange(name.len() - ".json"@.len(), name.len() as int));
    }
}

/// What is wrong with the record read from the file of `file_id`, if anything.
pub open spec fn record_fault(
    file_id: Seq<char>,
    version: u32,
    record_id: Seq<char>,
) -> Option<DiagnosticModel> {
    if version != STORE_VERSION {
        Some(
            DiagnosticModel {
                record_id: Some(file_id),
                kind: StoreDiagnosticKind::UnsupportedRecordVersion,
                message: "ignored workflow record version "@ + text::numeral(version as nat)
                    + " (supported version is 1)"@,
            },
        )
    } else if record_id != file_id {
        Some(
            DiagnosticModel {
                record_id: Some(file_id),
                kind: StoreDiagnosticKind::RecordIdentityMismatch,
                message: "ignored workflow record whose identity does not match its file name"@,
            },
        )
    } else {
        None
    }
}

/// Whether the record read from the file of `file_id` is the one it should be.
pub fn check_record(file_id: &WorkflowId, version: u32, record_id: &WorkflowId) -> (r: Result<
    (),
    StoreDiagnostic,
>)
    ensures
        match r {
            Ok(_) => record_fault(file_id@, version, record_id@) is None,
            Err(d) => record_fault(file_id@, version, record_id@) == Some(d@),
        },
        match r {
            Ok(_) => version == STORE_VERSION && record_id@ == file_id@,
            Err(d) => d@ == (if version != STORE_VERSION {
                DiagnosticModel {
                    record_id: Some(file_id@),
                    kind: StoreDiagnosticKind::UnsupportedRecordVersion,
                    message: "ignored workflow record version "@ + text::numeral(version as nat)
                        + " (supported version is 1)"@,
                }
            } else {
                DiagnosticModel {
                    record_id: Some(file_id@),
                    kind: StoreDiagnosticKind::RecordIdentityMismatch,
                    message:
                        "ignored workflow record whose identity does not match its file name"@,
                }
            }) && (version != STORE_VERSION || record_id@ != file_id@),
        },
{
    if version != STORE_VERSION {
        let message = "ignored workflow record version ".to_owned().concat(
            decimal(version as u64).as_str(),
        ).concat(" (supported version is 1)");
        return Err(
            StoreDiagnostic {
                record_id: Some(file_id.clone()),
                kind: StoreDiagnosticKind::UnsupportedRecordVersion,
                message,
            },
        );
    }
    if !same_text(record_id.as_str(), file_id.as_str()) {
        return Err(
            StoreDiagnostic {
                record_id: Some(file_id.clone()),
                kind: StoreDiagnosticKind::RecordIdentityMismatch,
                message:
                    "ignored workflow record whose identity does not match its file name".to_owned(),
            },
        );
    }
    Ok(())
}

/// Whether bytes read from a durable file may be used.
pub open spec fn usable_read(is_file: bool, announced: u64, actual: u64, limit: u64) -> bool {
    is_file && announced <= limit && actual <= limit
}

/// Whether bytes read from a durable file may be used: the file was a regular
/// one, and neither its announced nor its actual size exceeds `limit`.
pub fn check_bounded_read(is_file: bool, announced: u64, actual: u64, limit: u64) -> (r: Result<
    (),
    StoreError,
>)
    ensures
        r is Ok <==> usable_read(is_file, announced, actual, limit),
        match r {
            Ok(_) => is_file && announced <= limit && actual <= limit,
            Err(e) => if !is_file {
                e is Symlink
            } else {
                e is RecordTooLarge && (announced > limit || actual > limit)
            },
        },
{
    if !is_file {
        return Err(StoreError::Symlink);
    }
    if announced > limit || actual > limit {
        return Err(StoreError::RecordTooLarge);
    }
    Ok(())
}

// ---------------------------------------------------------------------------
// Writing records
// ---------------------------------------------------------------------------

/// Whether `entry` counts toward the aggregate while `replacing` is rewritten.
pub open spec fn counts(entry: RecordEntry, replacing: Seq<char>) -> bool {
    match entry.name {
        None => false,
        Some(name) => name@ != record_name(replacing) && !temporary_name(name@)
            && ".json"@.is_suffix_of(name@),
    }
}

/// What the aggregate limit says of writing a record over the given entries.
pub open spec fn capacity_verdict(
    entries: Seq<RecordEntry>,
    replacing: Seq<char>,
    bytes: nat,
) -> Result<nat, Seq<char>>
    decreases entries.len(),
{
    if entries.len() == 0 {
        Ok(bytes)
    } else {
        match capacity_verdict(entries.drop_last(), replacing, bytes) {
            Err(e) => Err(e),
            Ok(sum) => {
                let entry = entries.last();
                if !counts(entry, replacing) {
                    Ok(sum)
                } else {
                    match entry.kind {
                        EntryKind::Unreadable(source) => Err(
                            "inspecting workflow record"@ + ": "@ + source@,
                        ),
                        EntryKind::Symlink => Err(StoreError::Symlink.text()),
                        EntryKind::Other => Ok(sum),
                        EntryKind::File => match entry.length {
                            Err(source) => Err(
                                "reading workflow record metadata"@ + ": "@ + source@,
                            ),
                            Ok(length) => if sum + length > MAX_AGGREGATE_BYTES {
                                Err(StoreError::AggregateTooLarge.text())
                            } else {
                                Ok(sum + length as nat)
                            },
                        },
                    }
                }
            },
        }
    }
}

/// Refuses a write after which the records together would exceed the aggregate
/// limit.
pub fn ensure_aggregate_capacity(
    entries: &Vec<RecordEntry>,
    replacing: &WorkflowId,
    replacement_bytes: u64,
) -> (r: Result<(), StoreError>)
    ensures
        match capacity_verdict(entries@, replacing@, replacement_bytes as nat) {
            Ok(_) => r is Ok,
            Err(message) => r is Err && r->Err_0.text() == message,
        },
{
    let name = replacing.as_str().to_owned().concat(".json");
    let mut sum: u64 = replacement_bytes;
    let mut i: usize = 0;
    assert(entries@.take(0) =~= Seq::<RecordEntry>::empty());
    let ghost target = capacity_verdict(entries@, replacing@, replacement_bytes as nat);
    while i < entries.len()
        invariant
            i <= entries@.len(),
            name@ == record_name(replacing@),
            target == capacity_verdict(entries@, replacing@, replacement_bytes as nat),
            capacity_verdict(entries@.take(i as int), replacing@, replacement_bytes as nat) == Ok::<
                nat,
                Seq<char>,
            >(sum as nat),
        decreases entries@.len() - i,
    {
        let entry = &entries[i];
        proof {
            assert(entries@.take(i + 1).drop_last() =~= entries@.take(i as int));
            assert(entries@.take(i + 1).last() == entries@[i as int]);
            lemma_capacity_error_stays(
                entries@,
                replacing@,
                replacement_bytes as nat,
                i + 1,
            );
        }
        let counted = match &entry.name {
            None => false,
            Some(entry_name) => !same_text(entry_name.as_str(), name.as_str())
                && !is_temporary_name(entry_name.as_str()) && ends_with(
                entry_name.as_str(),
                ".json",
            ),
        };
        if counted {
            match &entry.kind {
                EntryKind::Unreadable(source) => {
                    return Err(
                        StoreError::Io {
                            operation: "inspecting workflow record".to_owned(),
                            source: source.clone(),
                        },
                    );
                },
                EntryKind::Symlink => {
                    return Err(StoreError::Symlink);
                },
                EntryKind::Other => {},
                EntryKind::File => match &entry.length {
                    Err(source) => {
                        return Err(
                            StoreError::Io {
                                operation: "reading workflow record metadata".to_owned(),
                                source: source.clone(),
                            },
                        );
                    },
                    Ok(length) => {
                        match sum.checked_add(*length) {
                            None => {
                                return Err(StoreError::AggregateTooLarge);
                            },
                            Some(next) => {
                                if next > MAX_AGGREGATE_BYTES {
                                    return Err(StoreError::AggregateTooLarge);
                                }
                                sum = next;
                            },
                        }
                    },
                },
            }
        }
        i += 1;
    }
    assert(entries@.take(entries@.len() as int) =~= entries@);
    Ok(())
}

proof fn lemma_capacity_error_stays(
    entries: Seq<RecordEntry>,
    replacing: Seq<char>,
    bytes: nat,
    at: int,
)
    requires
        0 <= at <= entries.len(),
    ensures
        capacity_verdict(entries.take(at), replacing, bytes) is Err ==> capacity_verdict(
            entries,
            replacing,
            bytes,
        ) == capacity_verdict(entries.take(at), replacing, bytes),
    decreases entries.len() - at,
{
    if at < entries.len() {
        lemma_capacity_error_stays(entries, replacing, bytes, at + 1);
        assert(entries.take(at + 1).drop_last() =~= entries.take(at));
    } else {
        assert(entries.take(at) =~= entries);
    }
}

/// Refuses a serialized record beyond the record limit.
pub fn check_record_size(bytes: u64) -> (r: Result<(), StoreError>)
    ensures
        r is Ok <==> bytes <= MAX_RECORD_BYTES,
        r is Err ==> r->Err_0 is RecordTooLarge,
{
    if bytes > MAX_RECORD_BYTES {
        Err(StoreError::RecordTooLarge)
    } else {
        Ok(())
    }
}

/// Refuses a selection that names an invalid workflow or is too large.
pub fn check_selection_write(selected: &Option<WorkflowId>, bytes: u64) -> (r: Result<(), StoreError>)
    ensures
        match r {
            Ok(_) => (selected is Some ==> valid_id(selected->0@)) && bytes <= MAX_SELECTION_BYTES,
            Err(e) => if selected is Some && !valid_id(selected->0@) {
                e is InvalidWorkflowId
            } else {
                e is SelectionTooLarge && bytes > MAX_SELECTION_BYTES
            },
        },
{
    if let Some(id) = selected {
        if !is_valid_id(id.as_str()) {
            return Err(StoreError::InvalidWorkflowId);
        }
    }
    if bytes > MAX_SELECTION_BYTES {
        return Err(StoreError::SelectionTooLarge);
    }
    Ok(())
}

// ---------------------------------------------------------------------------
// Loading the selection
// ---------------------------------------------------------------------------

/// What is known of the selection file.
#[derive(Debug, PartialEq, Eq)]
pub enum SelectionProbe {
    Missing,
    /// It could not be inspected.
    Unreadable(String),
    NotAFile,
    /// A regular file of this size, not read yet.
    File(u64),
    /// Reading it failed.
    ReadFailed(String),
    /// Its content could not be decoded.
    DecodeFailed(String),
    /// It was read.
    Decoded { version: u32, selected: Option<WorkflowId> },
}

/// What the selection file amounts to.
#[derive(Debug, PartialEq, Eq)]
pub enum SelectionLoad {
    /// The file has to be read first.
    Read,
    Loaded { selected: Option<WorkflowId>, diagnostic: Option<StoreDiagnostic> },
}

/// The model of a loaded selection.
#[verifier::ext_equal]
pub enum SelectionModel {
    Read,
    Selected(Option<Seq<char>>),
    Ignored(DiagnosticModel),
    Failed(Seq<char>),
}

/// The model of what loading gives.
pub open spec fn selection_model(r: Result<SelectionLoad, StoreError>) -> SelectionModel {
    match r {
        Err(e) => SelectionModel::Failed(e.text()),
        Ok(SelectionLoad::Read) => SelectionModel::Read,
        Ok(SelectionLoad::Loaded { selected, diagnostic: None }) => SelectionModel::Selected(
            match selected {
                Some(id) => Some(id@),
                None => None,
            },
        ),
        Ok(SelectionLoad::Loaded { selected, diagnostic: Some(d) }) => SelectionModel::Ignored(d@),
    }
}

/// An ignored selection.
pub open spec fn ignored(kind: StoreDiagnosticKind, message: Seq<char>) -> SelectionModel {
    SelectionModel::Ignored(DiagnosticModel { record_id: None, kind, message })
}

/// What the selection file amounts to.
pub open spec fn selection_verdict(probe: SelectionProbe) -> SelectionModel {
    match probe {
        SelectionProbe::Missing => SelectionModel::Selected(None),
        SelectionProbe::Unreadable(source) => SelectionModel::Failed(
            "inspecting workflow selection"@ + ": "@ + source@,
        ),
        SelectionProbe::NotAFile => ignored(
            StoreDiagnosticKind::UnsafeSelection,
            "ignored workflow selection because it is not a regular file"@,
        ),
        SelectionProbe::File(length) => if length > MAX_SELECTION_BYTES {
            ignored(
                StoreDiagnosticKind::CorruptSelection,
                "ignored workflow selection because it exceeds its size limit"@,
            )
        } else {
            SelectionModel::Read
        },
        SelectionProbe::ReadFailed(error) => ignored(
            StoreDiagnosticKind::CorruptSelection,
            "ignored unreadable workflow selection: "@ + error@,
        ),
        SelectionProbe::DecodeFailed(error) => ignored(
            StoreDiagnosticKind::CorruptSelection,
            "ignored corrupt workflow selection: "@ + error@,
        ),
        SelectionProbe::Decoded { version, selected } => if version != STORE_VERSION {
            ignored(
                StoreDiagnosticKind::UnsupportedSelectionVersion,
                "ignored workflow selection version "@ + text::numeral(version as nat)
                    + " (supported version is 1)"@,
            )
        } else if selected is Some && !valid_id(selected->0@) {
            ignored(
                StoreDiagnosticKind::CorruptSelection,
                "ignored workflow selection containing an invalid workflow id"@,
            )
        } else {
            SelectionModel::Selected(
                match selected {
                    Some(id) => Some(id@),
                    None => None,
                },
            )
        },
    }
}

/// An ignored selection.
fn selection_diagnostic(kind: StoreDiagnosticKind, message: String) -> (r: Result<
    SelectionLoad,
    StoreError,
>)
    ensures
        selection_model(r) == ignored(kind, message@),
        r matches Ok(SelectionLoad::Loaded { selected, diagnostic }) && selected is None,
{
    Ok(
        SelectionLoad::Loaded {
            selected: None,
            diagnostic: Some(StoreDiagnostic { record_id: None, kind, message }),
        },
    )
}

/// What the selection file amounts to: a corrupt, unsafe or foreign selection
/// is ignored with a diagnostic.
pub fn load_selection(probe: SelectionProbe) -> (r: Result<SelectionLoad, StoreError>)
    ensures
        selection_model(r) == selection_verdict(probe),
        r matches Ok(SelectionLoad::Loaded { selected, diagnostic }) ==> (diagnostic is Some
            ==> selected is None),
{
    match probe {
        SelectionProbe::Missing => Ok(SelectionLoad::Loaded { selected: None, diagnostic: None }),
        SelectionProbe::Unreadable(source) => Err(
            StoreError::Io { operation: "inspecting workflow selection".to_owned(), source },
        ),
        SelectionProbe::NotAFile => selection_diagnostic(
            StoreDiagnosticKind::UnsafeSelection,
            "ignored workflow selection because it is not a regular file".to_owned(),
        ),
        SelectionProbe::File(length) => {
            if length > MAX_SELECTION_BYTES {
                selection_diagnostic(
                    StoreDiagnosticKind::CorruptSelection,
                    "ignored workflow selection because it exceeds its size limit".to_owned(),
                )
            } else {
                Ok(SelectionLoad::Read)
            }
        },
        SelectionProbe::ReadFailed(error) => selection_diagnostic(
            StoreDiagnosticKind::CorruptSelection,
            "ignored unreadable workflow selection: ".to_owned().concat(error.as_str()),
        ),
        SelectionProbe::DecodeFailed(error) => selection_diagnostic(
            StoreDiagnosticKind::CorruptSelection,
            "ignored corrupt workflow selection: ".to_owned().concat(error.as_str()),
        ),
        SelectionProbe::Decoded { version, selected } => {
            if version != STORE_VERSION {
                return selection_diagnostic(
                    StoreDiagnosticKind::UnsupportedSelectionVersion,
                    "ignored workflow selection version ".to_owned().concat(
                        decimal(version as u64).as_str(),
                    ).concat(" (supported version is 1)"),
                );
            }
            let invalid = match &selected {
                Some(id) => !is_valid_id(id.as_str()),
                None => false,
            };
            if invalid {
                return selection_diagnostic(
                    StoreDiagnosticKind::CorruptSelection,
                    "ignored workflow selection containing an invalid workflow id".to_owned(),
                );
            }
            Ok(SelectionLoad::Loaded { selected, diagnostic: None })
        },
    }
}

} // verus!
