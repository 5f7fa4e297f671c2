//! The ownership catalog and repository-scoped operation locking.

use crate::lexical_path;
use crate::lexical_path::respell;
use crate::text;
use crate::text::same_text;
use crate::text_map::{Duplicate, TextMap};
use crate::workflow::store;
use crate::workflow::store::{join_path, ChainStep, ComponentKind};
use crate::workflow_worktree::{
    ErrorModel, IdentityModel, RepoDiscovery, WorkflowWorktreeIdentity, WorktreeError,
};
use vstd::prelude::*;
use vstd::string::*;

verus! {

pub const CATALOG_DIR_NAME: &'static str = "pi-workflow";

pub const CATALOG_FILE_NAME: &'static str = "worktrees.json";

/// 4 MiB.
pub const CATALOG_MAX_BYTES: u64 = 4194304;

pub const REPO_LOCK_FILE_NAME: &'static str = "pi-workflow-worktree.lock";

/// How long a lock is waited for, in milliseconds.
pub const REPO_LOCK_TIMEOUT_MS: u64 = 30000;

/// Age in milliseconds from which a lock file may be stale.
pub const STALE_REPO_LOCK_AGE_MS: u64 = 600000;

/// Pause between two attempts to make the lock file, in milliseconds.
pub const REPO_LOCK_RETRY_MS: u64 = 25;

pub const LOCK_FILE_MAX_BYTES: u64 = 4096;

/// The worktrees that the manager owns, by workflow id.
pub type WorktreeCatalog = TextMap<WorkflowWorktreeIdentity>;

impl Duplicate for WorkflowWorktreeIdentity {
    fn duplicate(&self) -> (r: Self) {
        self.clone()
    }
}

/// The model of a catalog.
pub open spec fn catalog_model(c: WorktreeCatalog) -> Map<Seq<char>, IdentityModel> {
    c@.map_values(|i: WorkflowWorktreeIdentity| i@)
}

/// Where the catalog lies.
pub open spec fn catalog_location(
    override_path: Option<Seq<char>>,
    common_git_dir: Seq<char>,
) -> Seq<char> {
    match override_path {
        Some(path) => path,
        None => store::joined(
            store::joined(common_git_dir, CATALOG_DIR_NAME@),
            CATALOG_FILE_NAME@,
        ),
    }
}

/// Where the catalog lies: at the override, or below the common git directory.
pub fn catalog_path(override_path: &Option<String>, discovery: &RepoDiscovery) -> (r: String)
    ensures
        r@ == catalog_location(text::opt_text(*override_path), discovery.common_git_dir@),
        r@ == (match *override_path {
            Some(path) => path@,
            None => store::joined(
                store::joined(discovery.common_git_dir@, CATALOG_DIR_NAME@),
                CATALOG_FILE_NAME@,
            ),
        }),
{
    match override_path {
        Some(path) => path.clone(),
        None => join_path(
            join_path(discovery.common_git_dir.as_str(), CATALOG_DIR_NAME).as_str(),
            CATALOG_FILE_NAME,
        ),
    }
}

/// Whether a catalog of that many bytes may be read.
pub fn check_catalog_read(announced: u64, actual: u64) -> (r: Result<(), WorktreeError>)
    ensures
        r is Ok <==> announced <= CATALOG_MAX_BYTES && actual <= CATALOG_MAX_BYTES,
        r is Err ==> r->Err_0@ == ErrorModel::Other(
            "worktree ownership catalog exceeds 4194304 bytes"@,
        ),
{
    if announced > CATALOG_MAX_BYTES || actual > CATALOG_MAX_BYTES {
        Err(WorktreeError::Other("worktree ownership catalog exceeds 4194304 bytes".to_owned()))
    } else {
        Ok(())
    }
}

/// Whether a serialized catalog of that many bytes may be written.
pub fn check_catalog_write(bytes: u64) -> (r: Result<(), WorktreeError>)
    ensures
        r is Ok <==> bytes <= CATALOG_MAX_BYTES,
        r is Err ==> r->Err_0@ == ErrorModel::Other(
            "serialized worktree catalog exceeds 4194304 bytes"@,
        ),
{
    if bytes > CATALOG_MAX_BYTES {
        Err(WorktreeError::Other("serialized worktree catalog exceeds 4194304 bytes".to_owned()))
    } else {
        Ok(())
    }
}

/// The name of the file that a catalog is written to before it is activated.
pub fn temporary_catalog_name(file_name: &Option<String>, token: &str) -> (r: String)
    ensures
        r@ == "."@ + (match *file_name {
            Some(name) => name@,
            None => CATALOG_FILE_NAME@,
        }) + "."@ + token@ + ".tmp"@,
{
    let name = match file_name {
        Some(name) => name.clone(),
        None => CATALOG_FILE_NAME.to_owned(),
    };
    ".".to_owned().concat(name.as_str()).concat(".").concat(token).concat(".tmp")
}

/// A fresh name for the file that a catalog is written to before it is activated.
pub fn fresh_catalog_name(file_name: &Option<String>) -> (r: String)
    ensures
        exists|token: Seq<char>| #[trigger]
            is_token(token) && r@ == "."@ + (match *file_name {
                Some(name) => name@,
                None => CATALOG_FILE_NAME@,
            }) + "."@ + token + ".tmp"@,
{
    let token = fresh_token();
    assert(is_token(token@));
    temporary_catalog_name(file_name, token.as_str())
}

/// What to do about one component while the catalog's directory is made.
pub fn catalog_chain_step(kind: &ComponentKind) -> (r: Result<ChainStep, WorktreeError>)
    ensures
        match *kind {
            ComponentKind::Symlink => r is Err && r->Err_0@ is Symlink,
            ComponentKind::Other => r is Err && r->Err_0@ == ErrorModel::Other(
                "catalog parent component is not a directory"@,
            ),
            ComponentKind::Directory => r == Ok::<ChainStep, WorktreeError>(ChainStep::Descend),
            ComponentKind::Missing => r == Ok::<ChainStep, WorktreeError>(ChainStep::Create),
            ComponentKind::Unreadable(source) => r is Err && r->Err_0@ == ErrorModel::Other(
                "inspecting catalog directory: "@ + source@,
            ),
        },
{
    match kind {
        ComponentKind::Symlink => Err(WorktreeError::Symlink),
        ComponentKind::Other => Err(
            WorktreeError::Other("catalog parent component is not a directory".to_owned()),
        ),
        ComponentKind::Directory => Ok(ChainStep::Descend),
        ComponentKind::Missing => Ok(ChainStep::Create),
        ComponentKind::Unreadable(source) => Err(
            WorktreeError::Other(
                "inspecting catalog directory: ".to_owned().concat(source.as_str()),
            ),
        ),
    }
}

/// Refuses a catalog path that runs through a symbolic link or cannot be
/// inspected.
pub fn reject_catalog_links(kinds: &Vec<ComponentKind>) -> (r: Result<(), WorktreeError>)
    ensures
        match store::links_verdict(kinds@) {
            None => r is Ok,
            Some(ComponentKind::Unreadable(source)) => r is Err && r->Err_0@ == ErrorModel::Other(
                "inspecting catalog path component: "@ + source@,
            ),
            Some(_) => r is Err && r->Err_0@ is Symlink,
        },
{
    let mut i: usize = 0;
    assert(kinds@.skip(0) =~= kinds@);
    while i < kinds.len()
        invariant
            i <= kinds@.len(),
            store::links_verdict(kinds@) == store::links_verdict(kinds@.skip(i as int)),
        decreases kinds@.len() - i,
    {
        assert(kinds@.skip(i as int)[0] == kinds@[i as int]);
        assert(kinds@.skip(i as int).drop_first() =~= kinds@.skip(i + 1));
        match &kinds[i] {
            ComponentKind::Missing => {
                return Ok(());
            },
            ComponentKind::Symlink => {
                return Err(WorktreeError::Symlink);
            },
            ComponentKind::Unreadable(source) => {
                return Err(
                    WorktreeError::Other(
                        "inspecting catalog path component: ".to_owned().concat(source.as_str()),
                    ),
                );
            },
            _ => {},
        }
        i += 1;
    }
    Ok(())
}

// ---------------------------------------------------------------------------
// Locks
// ---------------------------------------------------------------------------

/// The content of a lock file.
#[derive(Debug, PartialEq, Eq)]
pub struct LockRecord {
    pub pid: u32,
    pub token: String,
    pub created_at_ms: u64,
}

/// Whether `c` is a lower-case hexadecimal digit.
pub open spec fn hex_digit(c: char) -> bool {
    ('0' <= c <= '9') || ('a' <= c <= 'f')
}

/// Whether a text can be a token: 32 lower-case hexadecimal digits.
pub open spec fn is_token(s: Seq<char>) -> bool {
    s.len() == 32 && forall|i: int| 0 <= i < s.len() ==> hex_digit(#[trigger] s[i])
}

/// A fresh random token: the simple form of `uuid::Uuid::new_v4`, which is 32
/// lower-case hexadecimal digits. Nothing else is said of it, since it is drawn
/// at random.
#[verifier::external_body]
pub(crate) fn fresh_token() -> (r: String)
    ensures
        is_token(r@),
{
    uuid::Uuid::new_v4().simple().to_string()
}

/// A lock record with a fresh token.
pub fn new_lock_record(pid: u32, now_ms: u64) -> (r: LockRecord)
    ensures
        r.pid == pid,
        r.created_at_ms == now_ms,
        is_token(r.token@),
{
    LockRecord { pid, token: fresh_token(), created_at_ms: now_ms }
}

/// Whether a lock file of that many bytes may be read.
pub fn lock_file_fits(announced: u64, actual: u64) -> (r: bool)
    ensures
        r == (announced <= LOCK_FILE_MAX_BYTES && actual <= LOCK_FILE_MAX_BYTES),
{
    announced <= LOCK_FILE_MAX_BYTES && actual <= LOCK_FILE_MAX_BYTES
}

/// Whether the lock file still carries the guard's own token, so that an old
/// guard never deletes a successor's lock.
pub fn lock_token_matches(record: &Option<LockRecord>, token: &str) -> (r: bool)
    ensures
        r == (record is Some && record->0.token@ == token@),
{
    match record {
        Some(record) => same_text(record.token.as_str(), token),
        None => false,
    }
}

/// What sending the null signal to a process showed.
#[derive(Clone, Copy, Debug, PartialEq, Eq, Structural)]
pub enum SignalReply {
    Delivered,
    NotPermitted,
    NoSuchProcess,
    OtherFailure,
}

/// The number under which a process can be signalled, if it has one.
pub fn signal_target(pid: u32) -> (r: Option<i32>)
    ensures
        match r {
            Some(n) => n == pid,
            None => pid > i32::MAX,
        },
{
    if pid <= 0x7fff_ffff {
        Some(pid as i32)
    } else {
        None
    }
}

/// Whether an attempt at a lock of the process ended as it should.
pub open spec fn process_lock_taken(
    held: Set<Seq<char>>,
    key: Seq<char>,
    waited_ms: u64,
    step: ProcessLockStep,
    after: Set<Seq<char>>,
) -> bool {
    let slot = lexical_path::respelled(key);
    if !held.contains(slot) {
        step is Acquired && after == held.insert(slot)
    } else if waited_ms < REPO_LOCK_TIMEOUT_MS {
        step == ProcessLockStep::Wait((REPO_LOCK_TIMEOUT_MS - waited_ms) as u64) && after == held
    } else {
        step is TimedOut && after == held
    }
}

/// Whether a process counts as alive.
pub open spec fn counts_as_alive(pid: u32, reply: SignalReply) -> bool {
    pid > i32::MAX || reply != SignalReply::NoSuchProcess
}

/// Whether a process counts as alive: only a definite absence says otherwise.
pub fn process_is_alive(pid: u32, reply: SignalReply) -> (r: bool)
    ensures
        r == counts_as_alive(pid, reply),
        r == (pid > i32::MAX || reply != SignalReply::NoSuchProcess),
{
    match signal_target(pid) {
        None => true,
        Some(_) => reply != SignalReply::NoSuchProcess,
    }
}

/// What is known of a lock file.
#[derive(Debug, PartialEq, Eq)]
pub struct LockProbe {
    /// Whether it is a regular file, where it could be inspected.
    pub is_file: Option<bool>,
    /// Its age in milliseconds, where that is known.
    pub age_ms: Option<u64>,
    /// Its record, where it could be read and decoded.
    pub record: Option<LockRecord>,
    /// Whether the process that the record names is alive.
    pub alive: bool,
}

/// Whether a lock may be broken: it is an old regular file whose owner is gone
/// or unknown.
pub open spec fn stale(probe: LockProbe) -> bool {
    &&& probe.is_file == Some(true)
    &&& probe.age_ms is Some && probe.age_ms->0 >= STALE_REPO_LOCK_AGE_MS
    &&& probe.record is Some ==> !probe.alive
}

/// Whether a lock may be broken.
pub fn lock_is_stale(probe: &LockProbe) -> (r: bool)
    ensures
        r == stale(*probe),
{
    let file = match probe.is_file {
        Some(is_file) => is_file,
        None => false,
    };
    if !file {
        return false;
    }
    let old_enough = match probe.age_ms {
        Some(age) => age >= STALE_REPO_LOCK_AGE_MS,
        None => false,
    };
    if !old_enough {
        return false;
    }
    match &probe.record {
        Some(_) => !probe.alive,
        None => true,
    }
}

/// The lock of a live process is never broken, however old it is.
pub proof fn law_live_lock_is_kept(probe: LockProbe)
    requires
        probe.record is Some,
        probe.alive,
    ensures
        !stale(probe),
{
}

/// A young lock is never broken.
pub proof fn law_young_lock_is_kept(probe: LockProbe)
    requires
        probe.age_ms is None || probe.age_ms->0 < STALE_REPO_LOCK_AGE_MS,
    ensures
        !stale(probe),
{
}

/// What came of an attempt to make the lock file.
#[derive(Debug, PartialEq, Eq)]
pub enum LockAttempt {
    /// The file was made, and its record was written and synced.
    Written,
    /// The file was made but its record could not be written.
    WriteFailed(String),
    /// The file exists; `stale` says whether it may be broken, and `removed`
    /// whether breaking it succeeded.
    Held { stale: bool, removed: bool },
    /// The file could not be made.
    Failed(String),
}

/// What follows an attempt to make the lock file.
#[derive(PartialEq, Eq)]
pub enum LockStep {
    Acquired,
    /// Delete the unwritten file and give up.
    Discard(WorktreeError),
    /// Try again at once.
    Retry,
    /// Try again after the pause.
    Sleep,
    GiveUp(WorktreeError),
}

/// The model of a lock step.
#[verifier::ext_equal]
pub enum LockStepModel {
    Acquired,
    Discard(ErrorModel),
    Retry,
    Sleep,
    GiveUp(ErrorModel),
}

impl View for LockStep {
    type V = LockStepModel;

    open spec fn view(&self) -> LockStepModel {
        match *self {
            LockStep::Acquired => LockStepModel::Acquired,
            LockStep::Discard(e) => LockStepModel::Discard(e@),
            LockStep::Retry => LockStepModel::Retry,
            LockStep::Sleep => LockStepModel::Sleep,
            LockStep::GiveUp(e) => LockStepModel::GiveUp(e@),
        }
    }
}

/// What follows an attempt to make the lock file after `waited_ms`.
pub open spec fn lock_next(attempt: LockAttempt, waited_ms: u64) -> LockStepModel {
    match attempt {
        LockAttempt::Written => LockStepModel::Acquired,
        LockAttempt::WriteFailed(error) => LockStepModel::Discard(
            ErrorModel::Other("writing repository worktree lock: "@ + error@),
        ),
        LockAttempt::Held { stale, removed } => if stale && removed {
            LockStepModel::Retry
        } else if waited_ms >= REPO_LOCK_TIMEOUT_MS {
            LockStepModel::GiveUp(
                ErrorModel::Other("timed out waiting for repository worktree lock"@),
            )
        } else {
            LockStepModel::Sleep
        },
        LockAttempt::Failed(error) => LockStepModel::GiveUp(
            ErrorModel::Other("creating repository worktree lock: "@ + error@),
        ),
    }
}

/// What follows an attempt to make the lock file after `waited_ms`.
pub fn acquire_repo_lock(attempt: &LockAttempt, waited_ms: u64) -> (r: LockStep)
    ensures
        r@ == lock_next(*attempt, waited_ms),
{
    match attempt {
        LockAttempt::Written => LockStep::Acquired,
        LockAttempt::WriteFailed(error) => LockStep::Discard(
            WorktreeError::Other(
                "writing repository worktree lock: ".to_owned().concat(error.as_str()),
            ),
        ),
        LockAttempt::Held { stale, removed } => {
            if *stale && *removed {
                LockStep::Retry
            } else if waited_ms >= REPO_LOCK_TIMEOUT_MS {
                LockStep::GiveUp(
                    WorktreeError::Other(
                        "timed out waiting for repository worktree lock".to_owned(),
                    ),
                )
            } else {
                LockStep::Sleep
            }
        },
        LockAttempt::Failed(error) => LockStep::GiveUp(
            WorktreeError::Other(
                "creating repository worktree lock: ".to_owned().concat(error.as_str()),
            ),
        ),
    }
}

/// The repositories that this process holds locked, by canonical common git
/// directory, taken by its components. Different repositories never block each
/// other.
pub struct ProcessRepoLocks {
    active: TextMap<bool>,
}

impl View for ProcessRepoLocks {
    type V = Set<Seq<char>>;

    closed spec fn view(&self) -> Set<Seq<char>> {
        self.active@.dom()
    }
}

/// What came of asking for a process-local lock.
#[derive(PartialEq, Eq)]
pub enum ProcessLockStep {
    Acquired,
    /// Wait that many milliseconds for a release.
    Wait(u64),
    TimedOut(WorktreeError),
}

impl ProcessRepoLocks {
    pub fn new() -> (r: Self)
        ensures
            r@ == Set::<Seq<char>>::empty(),
    {
        let r = ProcessRepoLocks { active: TextMap::new() };
        assert(r@ =~= Set::<Seq<char>>::empty());
        r
    }

    /// Takes the lock of `key` where it is free. Otherwise waits for what is
    /// left of the time-out, or gives up.
    pub fn acquire_process_lock(&mut self, key: &str, waited_ms: u64) -> (r: ProcessLockStep)
        ensures
            process_lock_taken(old(self)@, key@, waited_ms, r, final(self)@),
            match r {
                ProcessLockStep::Acquired => !old(self)@.contains(lexical_path::respelled(key@))
                    && final(self)@ == old(self)@.insert(lexical_path::respelled(key@)),
                ProcessLockStep::Wait(ms) => old(self)@.contains(lexical_path::respelled(key@)) && waited_ms
                    < REPO_LOCK_TIMEOUT_MS && ms == REPO_LOCK_TIMEOUT_MS - waited_ms && final(self)@ == old(self)@,
                ProcessLockStep::TimedOut(e) => old(self)@.contains(lexical_path::respelled(key@)) && waited_ms
                    >= REPO_LOCK_TIMEOUT_MS && e@ == ErrorModel::Other(
                    "timed out waiting for process-local worktree lock"@,
                ) && final(self)@ == old(self)@,
            },
    {
        let slot = respell(key);
        if !self.active.contains(slot.as_str()) {
            self.active.insert(slot, true);
            assert(self@ =~= old(self)@.insert(lexical_path::respelled(key@)));
            return ProcessLockStep::Acquired;
        }
        if waited_ms >= REPO_LOCK_TIMEOUT_MS {
            return ProcessLockStep::TimedOut(
                WorktreeError::Other(
                    "timed out waiting for process-local worktree lock".to_owned(),
                ),
            );
        }
        ProcessLockStep::Wait(REPO_LOCK_TIMEOUT_MS - waited_ms)
    }

    /// Releases the lock of `key`.
    pub fn release(&mut self, key: &str)
        ensures
            final(self)@ == old(self)@.remove(lexical_path::respelled(key@)),
    {
        self.active.remove(respell(key).as_str());
        assert(self@ =~= old(self)@.remove(lexical_path::respelled(key@)));
    }
}

/// A lock is exclusive until it is released, and releasing it undoes taking it.
pub proof fn law_process_lock_is_exclusive(held: Set<Seq<char>>, key: Seq<char>)
    requires
        !held.contains(key),
    ensures
        held.insert(key).contains(key),
        held.insert(key).remove(key) == held,
{
    assert(held.insert(key).remove(key) =~= held);
}

} // verus!
