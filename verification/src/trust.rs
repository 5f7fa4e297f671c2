//! Versioned project trust decisions and fail-closed trust resolution.

use crate::json;
use crate::json::{json_type_name, Json};
use crate::lexical_path;
use crate::lexical_path::{
    file_name, is_absolute, parent_path, path_components, paths_agree, render_path,
};
use crate::text;
use crate::text::{decimal, same_text};
use crate::text_map::TextMap;
use crate::workflow::store;
use crate::workflow::store::join_path;
use vstd::prelude::*;
use vstd::std_specs::cmp::PartialEqSpecImpl;
use vstd::string::*;

verus! {

pub const TRUST_STORE_VERSION: u32 = 1;

/// Directory of a project's trust-gated resources.
pub const CONFIG_DIR_NAME: &'static str = ".pi";

#[derive(Clone, Copy, Debug, PartialEq, Eq, Structural)]
pub enum TrustDecision {
    Trusted,
    Untrusted,
    Ask,
}

impl Default for TrustDecision {
    fn default() -> (r: Self)
        ensures
            r == TrustDecision::Ask,
    {
        TrustDecision::Ask
    }
}

impl TrustDecision {
    /// Stable wire name.
    pub open spec fn name(self) -> Seq<char> {
        match self {
            TrustDecision::Trusted => "trusted"@,
            TrustDecision::Untrusted => "untrusted"@,
            TrustDecision::Ask => "ask"@,
        }
    }

    /// Stable wire name.
    pub fn as_str(self) -> (r: &'static str)
        ensures
            r@ == self.name(),
    {
        match self {
            TrustDecision::Trusted => "trusted",
            TrustDecision::Untrusted => "untrusted",
            TrustDecision::Ask => "ask",
        }
    }
}

/// The decision that a stored value stands for.
pub open spec fn stored_decision(trusted: bool) -> TrustDecision {
    if trusted {
        TrustDecision::Trusted
    } else {
        TrustDecision::Untrusted
    }
}

fn decision_of(trusted: bool) -> (r: TrustDecision)
    ensures
        r == stored_decision(trusted),
{
    if trusted {
        TrustDecision::Trusted
    } else {
        TrustDecision::Untrusted
    }
}

/// What was decided of a project, and which stored path decided.
#[derive(Debug, Eq)]
pub struct TrustResolution {
    pub decision: TrustDecision,
    pub matched_path: Option<String>,
    pub project_path: String,
}

/// The model of a resolution.
#[verifier::ext_equal]
pub struct ResolutionModel {
    pub decision: TrustDecision,
    pub matched_path: Option<Seq<char>>,
    pub project_path: Seq<char>,
}

impl View for TrustResolution {
    type V = ResolutionModel;

    open spec fn view(&self) -> ResolutionModel {
        ResolutionModel {
            decision: self.decision,
            matched_path: text::opt_text(self.matched_path),
            project_path: self.project_path@,
        }
    }
}

/// Whether two optional paths have the same components.
pub open spec fn same_opt_path(a: Option<Seq<char>>, b: Option<Seq<char>>) -> bool {
    match (a, b) {
        (Some(a), Some(b)) => lexical_path::same_path(a, b),
        (None, None) => true,
        _ => false,
    }
}

impl PartialEqSpecImpl for TrustResolution {
    open spec fn obeys_eq_spec() -> bool {
        true
    }

    open spec fn eq_spec(&self, other: &Self) -> bool {
        &&& self.decision == other.decision
        &&& same_opt_path(self@.matched_path, other@.matched_path)
        &&& lexical_path::same_path(self@.project_path, other@.project_path)
    }
}

impl PartialEq for TrustResolution {
    fn eq(&self, other: &Self) -> (r: bool) {
        let matched = match (&self.matched_path, &other.matched_path) {
            (Some(a), Some(b)) => paths_agree(a.as_str(), b.as_str()),
            (None, None) => true,
            _ => false,
        };
        self.decision == other.decision && matched && paths_agree(
            self.project_path.as_str(),
            other.project_path.as_str(),
        )
    }
}

impl TrustResolution {
    /// Whether project resources may be loaded: only where the project is
    /// trusted, headless or not.
    pub fn allows_project_resources(&self, headless: bool) -> (r: bool)
        ensures
            r == (self.decision == TrustDecision::Trusted),
    {
        match self.decision {
            TrustDecision::Trusted => true,
            TrustDecision::Untrusted => false,
            TrustDecision::Ask => false,
        }
    }

    pub fn is_trusted(&self) -> (r: bool)
        ensures
            r == (self.decision == TrustDecision::Trusted),
    {
        matches!(self.decision, TrustDecision::Trusted)
    }
}

/// A tentative decision as hooks see it before it is recorded.
#[derive(Debug, Eq)]
pub struct TrustDecisionObservation {
    pub path: String,
    /// What applies if no hook recommends otherwise.
    pub decision: TrustDecision,
    /// Whether the path had no stored decision.
    pub is_new: bool,
}

/// The model of an observation.
#[verifier::ext_equal]
pub struct ObservationModel {
    pub path: Seq<char>,
    pub decision: TrustDecision,
    pub is_new: bool,
}

impl View for TrustDecisionObservation {
    type V = ObservationModel;

    open spec fn view(&self) -> ObservationModel {
        ObservationModel { path: self.path@, decision: self.decision, is_new: self.is_new }
    }
}

impl PartialEqSpecImpl for TrustDecisionObservation {
    open spec fn obeys_eq_spec() -> bool {
        true
    }

    open spec fn eq_spec(&self, other: &Self) -> bool {
        &&& lexical_path::same_path(self@.path, other@.path)
        &&& self.decision == other.decision
        &&& self.is_new == other.is_new
    }
}

impl PartialEq for TrustDecisionObservation {
    fn eq(&self, other: &Self) -> (r: bool) {
        paths_agree(self.path.as_str(), other.path.as_str()) && self.decision == other.decision
            && self.is_new == other.is_new
    }
}

impl TrustDecisionObservation {
    /// The payload that hooks get: an object with `decision`, `isNew` and
    /// `path`.
    pub fn to_payload(&self) -> (r: Json)
        ensures
            r matches Json::Object(members) && members@.len() == 3,
            json::text_field(r, "path"@) == Some(self@.path),
            json::text_field(r, "decision"@) == Some(self.decision.name()),
            json::field(r, "isNew"@) == Some(Json::Bool(self.is_new)),
    {
        let mut members: Vec<(String, Json)> = Vec::new();
        members.push(("decision".to_owned(), Json::Text(self.decision.as_str().to_owned())));
        members.push(("isNew".to_owned(), Json::Bool(self.is_new)));
        members.push(("path".to_owned(), Json::Text(self.path.clone())));
        proof {
            reveal_strlit("decision");
            reveal_strlit("isNew");
            reveal_strlit("path");
            assert("decision"@.len() == 8 && "isNew"@.len() == 5 && "path"@.len() == 4);
            let all = members@;
            assert(all.skip(1)[0] == all[1]);
            assert(all.skip(1).skip(1)[0] == all[2]);
            reveal_with_fuel(json::member, 4);
        }
        Json::Object(members)
    }
}

/// Applies hook outcomes to a tentative decision. A block always denies. An
/// approval only breaks the tie of an undecided project.
pub fn apply_trust_hook_outcomes(
    tentative: TrustDecision,
    host_blocked: bool,
    extension_approved: bool,
) -> (r: TrustDecision)
    ensures
        r == hooked(tentative, host_blocked, extension_approved),
{
    if host_blocked {
        TrustDecision::Untrusted
    } else if extension_approved && matches!(tentative, TrustDecision::Ask) {
        TrustDecision::Trusted
    } else {
        tentative
    }
}

/// A decision after the hooks.
pub open spec fn hooked(tentative: TrustDecision, blocked: bool, approved: bool) -> TrustDecision {
    if blocked {
        TrustDecision::Untrusted
    } else if approved && tentative == TrustDecision::Ask {
        TrustDecision::Trusted
    } else {
        tentative
    }
}

/// A denial survives every hook outcome, a block denies whatever came before,
/// and trust only comes from a trusted or undecided project.
pub proof fn law_hooks_never_weaken_a_denial(
    tentative: TrustDecision,
    blocked: bool,
    approved: bool,
)
    ensures
        tentative == TrustDecision::Untrusted ==> hooked(tentative, blocked, approved)
            == TrustDecision::Untrusted,
        blocked ==> hooked(tentative, blocked, approved) == TrustDecision::Untrusted,
        hooked(tentative, blocked, approved) == TrustDecision::Trusted ==> !blocked && (tentative
            == TrustDecision::Trusted || approved),
{
}

// ---------------------------------------------------------------------------
// Paths
// ---------------------------------------------------------------------------

/// Components with `.` left out and `..` taken back, never above the start.
pub open spec fn climbed(parts: Seq<Seq<char>>) -> Seq<Seq<char>>
    decreases parts.len(),
{
    if parts.len() == 0 {
        Seq::empty()
    } else {
        let front = climbed(parts.drop_last());
        if parts.last() == "."@ {
            front
        } else if parts.last() == ".."@ {
            if front.len() > 0 {
                front.drop_last()
            } else {
                front
            }
        } else {
            front.push(parts.last())
        }
    }
}

/// A path without `.` and `..`, by its text alone.
pub open spec fn normalized(path: Seq<char>) -> Seq<char> {
    lexical_path::rendered(
        lexical_path::absolute(path),
        climbed(lexical_path::components(path)),
    )
}

/// A path without `.` and `..`, by its text alone.
pub fn lexical_normalize(path: &str) -> (r: String)
    ensures
        r@ == normalized(path@),
{
    let parts = path_components(path);
    let ghost all = text::texts(parts@);
    let mut kept: Vec<String> = Vec::new();
    let mut i: usize = 0;
    assert(text::texts(kept@) =~= Seq::<Seq<char>>::empty());
    assert(all.take(0) =~= Seq::<Seq<char>>::empty());
    while i < parts.len()
        invariant
            i <= parts@.len(),
            all == text::texts(parts@),
            text::texts(kept@) == climbed(all.take(i as int)),
        decreases parts@.len() - i,
    {
        let part = parts[i].as_str();
        assert(all.take(i + 1).drop_last() =~= all.take(i as int));
        assert(all.take(i + 1).last() == part@);
        if same_text(part, ".") {
        } else if same_text(part, "..") {
            let ghost before = text::texts(kept@);
            if kept.len() > 0 {
                let _dropped = kept.pop();
                assert(text::texts(kept@) =~= before.drop_last());
            }
        } else {
            text::push_text(&mut kept, part);
        }
        i += 1;
    }
    assert(all.take(parts@.len() as int) =~= all);
    render_path(is_absolute(path), &kept)
}

proof fn lemma_climbed_is_plain(parts: Seq<Seq<char>>)
    requires
        forall|i: int|
            0 <= i < parts.len() ==> (#[trigger] parts[i]).len() > 0 && !parts[i].contains('/'),
    ensures
        forall|i: int|
            0 <= i < climbed(parts).len() ==> lexical_path::plain_part(
                #[trigger] climbed(parts)[i],
            ) && climbed(parts)[i] != ".."@,
    decreases parts.len(),
{
    if parts.len() > 0 {
        let front = parts.drop_last();
        assert forall|i: int| 0 <= i < front.len() implies (#[trigger] front[i]).len() > 0
            && !front[i].contains('/') by {
            assert(front[i] == parts[i]);
        }
        lemma_climbed_is_plain(front);
        let last = parts[parts.len() - 1];
        assert(last == parts.last() && last.len() > 0 && !last.contains('/'));
        let before = climbed(front);
        let now = climbed(parts);
        assert forall|i: int| 0 <= i < now.len() implies lexical_path::plain_part(
            #[trigger] now[i],
        ) && now[i] != ".."@ by {
            if i < before.len() {
                assert(now[i] == before[i]);
            }
        }
    }
}

proof fn lemma_climbed_stays(parts: Seq<Seq<char>>)
    requires
        forall|i: int| 0 <= i < parts.len() ==> (#[trigger] parts[i]) != "."@ && parts[i] != ".."@,
    ensures
        climbed(parts) == parts,
    decreases parts.len(),
{
    if parts.len() > 0 {
        let front = parts.drop_last();
        assert forall|i: int| 0 <= i < front.len() implies (#[trigger] front[i]) != "."@
            && front[i] != ".."@ by {
            assert(front[i] == parts[i]);
        }
        lemma_climbed_stays(front);
        assert(parts[parts.len() - 1] != "."@);
        assert(front.push(parts.last()) =~= parts);
    } else {
        assert(climbed(parts) =~= parts);
    }
}

/// A normalized path has neither `.` nor `..`, and normalizing it again changes
/// nothing.
pub proof fn law_normalized_is_stable(path: Seq<char>)
    ensures
        lexical_path::absolute(normalized(path)) == lexical_path::absolute(path),
        forall|i: int|
            0 <= i < lexical_path::components(normalized(path)).len() ==> (
            #[trigger] lexical_path::components(normalized(path))[i]) != "."@
                && lexical_path::components(normalized(path))[i] != ".."@,
        normalized(normalized(path)) == normalized(path),
{
    let parts = lexical_path::components(path);
    lexical_path::lemma_components_are_plain(path);
    lemma_climbed_is_plain(parts);
    lexical_path::lemma_components_of_rendered(lexical_path::absolute(path), climbed(parts));
    lemma_climbed_stays(climbed(parts));
}

/// What is known of a path on disk.
pub struct PathFacts {
    /// The canonical form of the whole path; nothing where there is none.
    pub whole: Option<Option<String>>,
    /// Whether the path, its parent and so on exist.
    pub exists: Vec<bool>,
    /// The canonical form of the first of them that exists.
    pub base: Option<Result<String, String>>,
}

/// Where canonicalization stands.
#[derive(Debug, PartialEq, Eq)]
pub enum PathStep {
    /// Canonicalize the whole path (`whole`).
    Canonicalize(String),
    /// See whether a path exists (pushed to `exists`).
    Probe(String),
    /// Canonicalize a path that exists (`base`).
    CanonicalizeBase(String),
    Fail(String),
    Done(String),
}

/// The model of where canonicalization stands.
#[verifier::ext_equal]
pub enum PathStepModel {
    Canonicalize(Seq<char>),
    Probe(Seq<char>),
    CanonicalizeBase(Seq<char>),
    Fail(Seq<char>),
    Done(Seq<char>),
}

impl View for PathStep {
    type V = PathStepModel;

    open spec fn view(&self) -> PathStepModel {
        match *self {
            PathStep::Canonicalize(p) => PathStepModel::Canonicalize(p@),
            PathStep::Probe(p) => PathStepModel::Probe(p@),
            PathStep::CanonicalizeBase(p) => PathStepModel::CanonicalizeBase(p@),
            PathStep::Fail(e) => PathStepModel::Fail(e@),
            PathStep::Done(p) => PathStepModel::Done(p@),
        }
    }
}

/// A path from the root.
pub open spec fn from_root(path: Seq<char>, cwd: Seq<char>) -> Seq<char> {
    if lexical_path::absolute(path) {
        path
    } else {
        store::joined(cwd, path)
    }
}

/// A path with components behind it.
pub open spec fn appended(base: Seq<char>, parts: Seq<Seq<char>>) -> Seq<char>
    decreases parts.len(),
{
    if parts.len() == 0 {
        base
    } else {
        store::joined(appended(base, parts.drop_last()), parts.last())
    }
}

/// Walking up from a path: `existing` is looked at next, with `missing` behind
/// it. The `k`-th fact tells whether it exists.
pub open spec fn climb(
    path: Seq<char>,
    existing: Seq<char>,
    missing: Seq<Seq<char>>,
    f: PathFacts,
    k: nat,
) -> PathStepModel
    decreases f.exists@.len() - k,
{
    if k >= f.exists@.len() {
        PathStepModel::Probe(existing)
    } else if f.exists@[k as int] {
        match f.base {
            None => PathStepModel::CanonicalizeBase(existing),
            Some(Err(e)) => PathStepModel::Fail(
                "canonicalizing path "@ + existing + ": "@ + e@,
            ),
            Some(Ok(base)) => PathStepModel::Done(normalized(appended(base@, missing))),
        }
    } else {
        match (lexical_path::file_name_of(existing), lexical_path::parent_of(existing)) {
            (Some(name), Some(up)) => climb(path, up, seq![name] + missing, f, k + 1),
            _ => PathStepModel::Done(normalized(path)),
        }
    }
}

/// The model of canonicalization. A path that does not exist is canonical up to
/// its first ancestor that does.
pub open spec fn canonical_model(path: Seq<char>, cwd: Seq<char>, f: PathFacts) -> PathStepModel {
    let whole = from_root(path, cwd);
    match f.whole {
        None => PathStepModel::Canonicalize(whole),
        Some(Some(canonical)) => PathStepModel::Done(canonical@),
        Some(None) => climb(whole, whole, Seq::empty(), f, 0),
    }
}

/// Where the canonicalization of a path stands.
pub fn canonical_path(path: &str, cwd: &str, f: &PathFacts) -> (r: PathStep)
    ensures
        r@ == canonical_model(path@, cwd@, *f),
{
    let whole = if is_absolute(path) {
        path.to_owned()
    } else {
        join_path(cwd, path)
    };
    match &f.whole {
        None => {
            return PathStep::Canonicalize(whole);
        },
        Some(Some(canonical)) => {
            return PathStep::Done(canonical.clone());
        },
        Some(None) => {},
    }
    let mut existing = whole.clone();
    let mut names: Vec<String> = Vec::new();
    let mut k: usize = 0;
    assert(text::texts(names@).reverse() =~= Seq::<Seq<char>>::empty());
    loop
        invariant
            k <= f.exists@.len(),
            canonical_model(path@, cwd@, *f) == climb(
                whole@,
                existing@,
                text::texts(names@).reverse(),
                *f,
                k as nat,
            ),
        decreases f.exists@.len() - k,
    {
        if k >= f.exists.len() {
            return PathStep::Probe(existing);
        }
        if f.exists[k] {
            return match &f.base {
                None => PathStep::CanonicalizeBase(existing),
                Some(Err(e)) => PathStep::Fail(
                    "canonicalizing path ".to_owned().concat(existing.as_str()).concat(
                        ": ",
                    ).concat(e.as_str()),
                ),
                Some(Ok(base)) => PathStep::Done(
                    lexical_normalize(append_names(base.as_str(), &names).as_str()),
                ),
            };
        }
        match (file_name(existing.as_str()), parent_path(existing.as_str())) {
            (Some(name), Some(up)) => {
                let ghost before = text::texts(names@);
                names.push(name);
                assert(text::texts(names@) =~= before.push(name@));
                assert(text::texts(names@).reverse() =~= seq![name@] + before.reverse());
                existing = up;
            },
            _ => {
                return PathStep::Done(lexical_normalize(whole.as_str()));
            },
        }
        k += 1;
    }
}

/// Puts names behind a path, the last of them first.
fn append_names(base: &str, names: &Vec<String>) -> (r: String)
    ensures
        r@ == appended(base@, text::texts(names@).reverse()),
{
    let ghost all = text::texts(names@).reverse();
    let mut r = base.to_owned();
    let mut i: usize = names.len();
    assert(all.take(0) =~= Seq::<Seq<char>>::empty());
    while i > 0
        invariant
            i <= names@.len(),
            all == text::texts(names@).reverse(),
            r@ == appended(base@, all.take(names@.len() - i)),
        decreases i,
    {
        let ghost n = names@.len() - i;
        assert(all[n] == names@[i - 1]@);
        assert(all.take(n + 1).drop_last() =~= all.take(n));
        assert(all.take(n + 1).last() == all[n]);
        r = join_path(r.as_str(), names[i - 1].as_str());
        i -= 1;
    }
    assert(all.take(names@.len() as int) =~= all);
    r
}

// ---------------------------------------------------------------------------
// The store
// ---------------------------------------------------------------------------

/// The stored decisions, by canonical path.
pub struct TrustDocument {
    pub decisions: TextMap<bool>,
}

impl View for TrustDocument {
    type V = Map<Seq<char>, bool>;

    open spec fn view(&self) -> Map<Seq<char>, bool> {
        self.decisions@
    }
}

impl TrustDocument {
    /// A document without decisions.
    pub fn empty() -> (r: Self)
        ensures
            r@ == Map::<Seq<char>, bool>::empty(),
    {
        TrustDocument { decisions: TextMap::new() }
    }
}

/// The nearest ancestor with a decision, among those with at most `n`
/// components.
pub open spec fn nearest(
    decisions: Map<Seq<char>, bool>,
    rooted: bool,
    parts: Seq<Seq<char>>,
    n: nat,
) -> Option<Seq<char>>
    decreases n,
{
    let here = lexical_path::rendered(rooted, parts.take(n as int));
    if decisions.contains_key(here) {
        Some(here)
    } else if n == 0 {
        None
    } else {
        nearest(decisions, rooted, parts, (n - 1) as nat)
    }
}

/// What the decisions say of a project: the nearest one on its path counts.
pub open spec fn resolved(decisions: Map<Seq<char>, bool>, project: Seq<char>) -> ResolutionModel {
    let parts = lexical_path::components(project);
    match nearest(decisions, lexical_path::absolute(project), parts, parts.len()) {
        Some(path) => ResolutionModel {
            decision: stored_decision(decisions[path]),
            matched_path: Some(path),
            project_path: project,
        },
        None => ResolutionModel {
            decision: TrustDecision::Ask,
            matched_path: None,
            project_path: project,
        },
    }
}

/// The decisions after one is recorded; an undecided path has none.
pub open spec fn recorded(
    decisions: Map<Seq<char>, bool>,
    path: Seq<char>,
    decision: TrustDecision,
) -> Map<Seq<char>, bool> {
    match decision {
        TrustDecision::Trusted => decisions.insert(path, true),
        TrustDecision::Untrusted => decisions.insert(path, false),
        TrustDecision::Ask => decisions.remove(path),
    }
}

/// The decisions after several are recorded, in order.
pub open spec fn recorded_all(
    decisions: Map<Seq<char>, bool>,
    updates: Seq<(String, TrustDecision)>,
) -> Map<Seq<char>, bool>
    decreases updates.len(),
{
    if updates.len() == 0 {
        decisions
    } else {
        recorded(
            recorded_all(decisions, updates.drop_last()),
            updates.last().0@,
            updates.last().1,
        )
    }
}

/// Where trust decisions are kept.
#[derive(Debug, PartialEq, Eq)]
pub struct TrustStore {
    pub path: String,
}

impl TrustStore {
    /// The store of an agent directory.
    pub fn new(agent_dir: &str) -> (r: Self)
        ensures
            r.path@ == store::joined(agent_dir@, "trust.json"@),
    {
        TrustStore { path: join_path(agent_dir, "trust.json") }
    }

    pub fn path(&self) -> (r: &str)
        ensures
            r@ == self.path@,
    {
        self.path.as_str()
    }

    /// What the stored decisions say of a project, given its canonical path.
    pub fn resolve(&self, document: &TrustDocument, project_path: &str) -> (r: TrustResolution)
        ensures
            r@ == resolved(document@, project_path@),
    {
        let rooted = is_absolute(project_path);
        let mut parts = path_components(project_path);
        let ghost all = text::texts(parts@);
        let mut n: usize = parts.len();
        assert(all.take(n as int) =~= all);
        loop
            invariant
                n <= all.len(),
                all == lexical_path::components(project_path@),
                rooted == lexical_path::absolute(project_path@),
                text::texts(parts@) == all.take(n as int),
                parts@.len() == n,
                nearest(document@, rooted, all, all.len()) == nearest(
                    document@,
                    rooted,
                    all,
                    n as nat,
                ),
            decreases n,
        {
            let here = render_path(rooted, &parts);
            if let Some(trusted) = document.decisions.get(here.as_str()) {
                return TrustResolution {
                    decision: decision_of(*trusted),
                    matched_path: Some(here),
                    project_path: project_path.to_owned(),
                };
            }
            if n == 0 {
                return TrustResolution {
                    decision: TrustDecision::Ask,
                    matched_path: None,
                    project_path: project_path.to_owned(),
                };
            }
            let _last = parts.pop();
            assert(text::texts(parts@) =~= all.take(n - 1));
            n -= 1;
        }
    }

    /// Records a decision for a canonical path.
    pub fn set(&self, document: &mut TrustDocument, path: &str, decision: TrustDecision)
        ensures
            final(document)@ == recorded(old(document)@, path@, decision),
    {
        match decision {
            TrustDecision::Trusted => {
                document.decisions.insert(path.to_owned(), true);
            },
            TrustDecision::Untrusted => {
                document.decisions.insert(path.to_owned(), false);
            },
            TrustDecision::Ask => {
                document.decisions.remove(path);
            },
        }
    }

    /// Records decisions for canonical paths, in order.
    pub fn set_many(&self, document: &mut TrustDocument, updates: &Vec<(String, TrustDecision)>)
        ensures
            final(document)@ == recorded_all(old(document)@, updates@),
    {
        let ghost before = document@;
        let mut i: usize = 0;
        assert(updates@.take(0) =~= Seq::<(String, TrustDecision)>::empty());
        while i < updates.len()
            invariant
                i <= updates@.len(),
                document@ == recorded_all(before, updates@.take(i as int)),
            decreases updates@.len() - i,
        {
            self.set(document, updates[i].0.as_str(), updates[i].1);
            assert(updates@.take(i + 1).drop_last() =~= updates@.take(i as int));
            i += 1;
        }
        assert(updates@.take(updates@.len() as int) =~= updates@);
    }
}

// ---------------------------------------------------------------------------
// Reading a stored document
// ---------------------------------------------------------------------------

/// Whether a stored value declares the versioned format: a numeric `version`.
/// Any other value of that name is an ordinary path decision.
pub open spec fn versioned(value: Json) -> bool {
    json::field(value, "version"@) matches Some(Json::Number(_))
}

/// Whether a stored value declares the versioned format.
pub fn is_versioned(value: &Json) -> (r: bool)
    ensures
        r == versioned(*value),
{
    matches!(value.get("version"), Some(Json::Number(_)))
}

/// Why a version is refused, if it is.
pub open spec fn version_fault(version: u32, store_path: Seq<char>) -> Option<Seq<char>> {
    if version == TRUST_STORE_VERSION {
        None
    } else {
        Some(
            "unsupported trust store version "@ + text::numeral(version as nat) + " in "@
                + store_path + " (expected 1)"@,
        )
    }
}

/// Refuses a version that is not supported.
pub fn check_version(version: u32, store_path: &str) -> (r: Result<(), String>)
    ensures
        match r {
            Ok(_) => version_fault(version, store_path@) is None,
            Err(e) => version_fault(version, store_path@) == Some(e@),
        },
        r is Ok <==> version == TRUST_STORE_VERSION,
        r is Err ==> r->Err_0@ == "unsupported trust store version "@ + text::numeral(
            version as nat,
        ) + " in "@ + store_path@ + " (expected 1)"@,
{
    if version == TRUST_STORE_VERSION {
        Ok(())
    } else {
        Err(
            "unsupported trust store version ".to_owned().concat(
                decimal(version as u64).as_str(),
            ).concat(" in ").concat(store_path).concat(" (expected 1)"),
        )
    }
}

/// One member of a stored document, with the canonical form of its key or why
/// there is none.
pub struct StoredEntry<T> {
    pub key: String,
    pub value: T,
    pub canonical: Result<String, String>,
}

/// The verdict on the first `n` members of a versioned document: the decisions
/// so far, or why the document is refused.
pub open spec fn canonical_verdict(
    entries: Seq<StoredEntry<bool>>,
    store_path: Seq<char>,
    n: nat,
) -> Result<Map<Seq<char>, bool>, Seq<char>>
    decreases n,
{
    if n == 0 {
        Ok(Map::empty())
    } else {
        match canonical_verdict(entries, store_path, (n - 1) as nat) {
            Err(e) => Err(e),
            Ok(decisions) => {
                let entry = entries[n - 1];
                if !lexical_path::absolute(entry.key@) {
                    Err(
                        "invalid canonical trust path "@ + entry.key@ + " in "@ + store_path
                            + ": path must be absolute"@,
                    )
                } else {
                    match entry.canonical {
                        Err(e) => Err(
                            "canonicalizing trust path "@ + entry.key@ + " in "@ + store_path
                                + ": "@ + e@,
                        ),
                        Ok(canonical) => if decisions.contains_key(canonical@) {
                            Err(
                                "duplicate canonical trust path "@ + canonical@ + " from keys "@
                                    + canonical@ + " and "@ + entry.key@ + " in "@ + store_path,
                            )
                        } else if canonical@ != entry.key@ {
                            Err(
                                "invalid canonical trust path "@ + entry.key@ + " in "@
                                    + store_path + ": expected "@ + canonical@,
                            )
                        } else {
                            Ok(decisions.insert(canonical@, entry.value))
                        },
                    }
                }
            },
        }
    }
}

/// Reads the decisions of a versioned document: every key must be its own
/// canonical form, and none may come twice.
pub fn parse_canonical_trust(entries: &Vec<StoredEntry<bool>>, store_path: &str) -> (r: Result<
    TrustDocument,
    String,
>)
    ensures
        match r {
            Ok(d) => canonical_verdict(entries@, store_path@, entries@.len()) == Ok::<
                Map<Seq<char>, bool>,
                Seq<char>,
            >(d@),
            Err(e) => canonical_verdict(entries@, store_path@, entries@.len()) == Err::<
                Map<Seq<char>, bool>,
                Seq<char>,
            >(e@),
        },
{
    let mut decisions: TextMap<bool> = TextMap::new();
    let mut i: usize = 0;
    while i < entries.len()
        invariant
            i <= entries@.len(),
            canonical_verdict(entries@, store_path@, i as nat) == Ok::<
                Map<Seq<char>, bool>,
                Seq<char>,
            >(decisions@),
        decreases entries@.len() - i,
    {
        let entry = &entries[i];
        let key = entry.key.as_str();
        proof {
            lemma_canonical_error_stays(entries@, store_path@, (i + 1) as nat, entries@.len());
        }
        if !is_absolute(key) {
            return Err(
                "invalid canonical trust path ".to_owned().concat(key).concat(" in ").concat(
                    store_path,
                ).concat(": path must be absolute"),
            );
        }
        let canonical = match &entry.canonical {
            Err(e) => {
                return Err(
                    "canonicalizing trust path ".to_owned().concat(key).concat(" in ").concat(
                        store_path,
                    ).concat(": ").concat(e.as_str()),
                );
            },
            Ok(canonical) => canonical.as_str(),
        };
        if decisions.contains(canonical) {
            return Err(
                "duplicate canonical trust path ".to_owned().concat(canonical).concat(
                    " from keys ",
                ).concat(canonical).concat(" and ").concat(key).concat(" in ").concat(store_path),
            );
        }
        if !same_text(canonical, key) {
            return Err(
                "invalid canonical trust path ".to_owned().concat(key).concat(" in ").concat(
                    store_path,
                ).concat(": expected ").concat(canonical),
            );
        }
        decisions.insert(canonical.to_owned(), entry.value);
        i += 1;
    }
    Ok(TrustDocument { decisions })
}

proof fn lemma_canonical_error_stays(
    entries: Seq<StoredEntry<bool>>,
    store_path: Seq<char>,
    a: nat,
    b: nat,
)
    requires
        a <= b,
    ensures
        canonical_verdict(entries, store_path, a) is Err ==> canonical_verdict(
            entries,
            store_path,
            b,
        ) == canonical_verdict(entries, store_path, a),
    decreases b,
{
    if a < b {
        lemma_canonical_error_stays(entries, store_path, a, (b - 1) as nat);
    }
}

/// The verdict on the first `n` members of an unversioned document.
pub open spec fn legacy_verdict(
    entries: Seq<StoredEntry<Json>>,
    store_path: Seq<char>,
    n: nat,
) -> Result<Map<Seq<char>, bool>, Seq<char>>
    decreases n,
{
    if n == 0 {
        Ok(Map::empty())
    } else {
        match legacy_verdict(entries, store_path, (n - 1) as nat) {
            Err(e) => Err(e),
            Ok(decisions) => {
                let entry = entries[n - 1];
                match entry.canonical {
                    Err(e) => Err(
                        "canonicalizing legacy trust path "@ + entry.key@ + " in "@ + store_path
                            + ": "@ + e@,
                    ),
                    Ok(canonical) => match entry.value {
                        Json::Null => Ok(decisions),
                        Json::Bool(decision) => if decisions.contains_key(canonical@)
                            && decisions[canonical@] != decision {
                            Err(
                                "conflicting legacy trust decisions for canonical path "@
                                    + canonical@ + " in "@ + store_path,
                            )
                        } else {
                            Ok(decisions.insert(canonical@, decision))
                        },
                        other => Err(
                            "invalid trust value for "@ + entry.key@ + " in "@ + store_path
                                + ": expected true, false, or null, got "@ + json::kind_name(other),
                        ),
                    },
                }
            },
        }
    }
}

/// Refuses a stored value that is no object.
pub fn check_legacy_shape(value: &Json, store_path: &str) -> (r: Result<(), String>)
    ensures
        r is Ok <==> value is Object,
        r is Err ==> r->Err_0@ == "invalid trust store "@ + store_path@
            + ": expected an object, got "@ + json::kind_name(*value),
{
    match value {
        Json::Object(_) => Ok(()),
        other => Err(
            "invalid trust store ".to_owned().concat(store_path).concat(
                ": expected an object, got ",
            ).concat(json_type_name(other)),
        ),
    }
}

/// Reads the decisions of an unversioned document. `null` carries no decision;
/// aliases of one path may agree but not differ; anything else is refused, so
/// that a corrupted file fails closed.
pub fn parse_legacy_trust(entries: &Vec<StoredEntry<Json>>, store_path: &str) -> (r: Result<
    TrustDocument,
    String,
>)
    ensures
        match r {
            Ok(d) => legacy_verdict(entries@, store_path@, entries@.len()) == Ok::<
                Map<Seq<char>, bool>,
                Seq<char>,
            >(d@),
            Err(e) => legacy_verdict(entries@, store_path@, entries@.len()) == Err::<
                Map<Seq<char>, bool>,
                Seq<char>,
            >(e@),
        },
{
    let mut decisions: TextMap<bool> = TextMap::new();
    let mut i: usize = 0;
    while i < entries.len()
        invariant
            i <= entries@.len(),
            legacy_verdict(entries@, store_path@, i as nat) == Ok::<
                Map<Seq<char>, bool>,
                Seq<char>,
            >(decisions@),
        decreases entries@.len() - i,
    {
        let entry = &entries[i];
        let key = entry.key.as_str();
        proof {
            lemma_legacy_error_stays(entries@, store_path@, (i + 1) as nat, entries@.len());
        }
        let canonical = match &entry.canonical {
            Err(e) => {
                return Err(
                    "canonicalizing legacy trust path ".to_owned().concat(key).concat(
                        " in ",
                    ).concat(store_path).concat(": ").concat(e.as_str()),
                );
            },
            Ok(canonical) => canonical.as_str(),
        };
        match &entry.value {
            Json::Null => {},
            Json::Bool(decision) => {
                if let Some(existing) = decisions.get(canonical) {
                    if *existing != *decision {
                        return Err(
                            "conflicting legacy trust decisions for canonical path ".to_owned().concat(
                            canonical).concat(" in ").concat(store_path),
                        );
                    }
                }
                decisions.insert(canonical.to_owned(), *decision);
            },
            other => {
                return Err(
                    "invalid trust value for ".to_owned().concat(key).concat(" in ").concat(
                        store_path,
                    ).concat(": expected true, false, or null, got ").concat(json_type_name(other)),
                );
            },
        }
        i += 1;
    }
    Ok(TrustDocument { decisions })
}

proof fn lemma_legacy_error_stays(
    entries: Seq<StoredEntry<Json>>,
    store_path: Seq<char>,
    a: nat,
    b: nat,
)
    requires
        a <= b,
    ensures
        legacy_verdict(entries, store_path, a) is Err ==> legacy_verdict(entries, store_path, b)
            == legacy_verdict(entries, store_path, a),
    decreases b,
{
    if a < b {
        lemma_legacy_error_stays(entries, store_path, a, (b - 1) as nat);
    }
}

// ---------------------------------------------------------------------------
// Project trust
// ---------------------------------------------------------------------------

/// What applies to projects without a stored decision.
#[derive(Clone, Copy, Debug, PartialEq, Eq, Structural)]
pub enum DefaultProjectTrust {
    Ask,
    Always,
    Never,
}

/// What is known of a project.
pub struct ProjectFacts {
    /// Whether the project carries trust-gated resources.
    pub has_resources: Option<bool>,
    /// The stored decisions, or why they cannot be read.
    pub document: Option<Result<TrustDocument, String>>,
}

/// Where the resolution of project trust stands.
pub enum TrustStep {
    /// See whether a directory holds anything (`has_resources`).
    ProbeResources(String),
    /// Read the stored decisions (`document`).
    ReadStore,
    Fail(String),
    Done(TrustResolution, Option<TrustDecisionObservation>),
}

/// The model of where the resolution stands.
#[verifier::ext_equal]
pub enum TrustStepModel {
    ProbeResources(Seq<char>),
    ReadStore,
    Fail(Seq<char>),
    Done(ResolutionModel, Option<ObservationModel>),
}

impl View for TrustStep {
    type V = TrustStepModel;

    open spec fn view(&self) -> TrustStepModel {
        match *self {
            TrustStep::ProbeResources(p) => TrustStepModel::ProbeResources(p@),
            TrustStep::ReadStore => TrustStepModel::ReadStore,
            TrustStep::Fail(e) => TrustStepModel::Fail(e@),
            TrustStep::Done(r, o) => TrustStepModel::Done(
                r@,
                match o {
                    Some(o) => Some(o@),
                    None => None,
                },
            ),
        }
    }
}

/// What applies without a stored decision. Nobody can be asked headlessly.
pub open spec fn default_decision(default: DefaultProjectTrust, headless: bool) -> TrustDecision {
    match default {
        DefaultProjectTrust::Always => TrustDecision::Trusted,
        DefaultProjectTrust::Never => TrustDecision::Untrusted,
        DefaultProjectTrust::Ask => if headless {
            TrustDecision::Untrusted
        } else {
            TrustDecision::Ask
        },
    }
}

/// Where the resources of a project lie.
pub open spec fn config_dir(project: Seq<char>) -> Seq<char> {
    store::joined(project, CONFIG_DIR_NAME@)
}

/// The model of resolving project trust. The store is only consulted for a
/// project with gated resources and without a one-run override, and exactly
/// then there is something to observe.
pub open spec fn project_trust(
    project: Seq<char>,
    one_run_override: Option<bool>,
    default: DefaultProjectTrust,
    headless: bool,
    f: ProjectFacts,
) -> TrustStepModel {
    match one_run_override {
        Some(trusted) => TrustStepModel::Done(
            ResolutionModel {
                decision: stored_decision(trusted),
                matched_path: None,
                project_path: project,
            },
            None,
        ),
        None => match f.has_resources {
            None => TrustStepModel::ProbeResources(config_dir(project)),
            Some(false) => TrustStepModel::Done(
                ResolutionModel {
                    decision: TrustDecision::Trusted,
                    matched_path: None,
                    project_path: project,
                },
                None,
            ),
            Some(true) => match f.document {
                None => TrustStepModel::ReadStore,
                Some(Err(e)) => TrustStepModel::Fail(e@),
                Some(Ok(document)) => {
                    let stored = resolved(document@, project);
                    let decision = if stored.decision != TrustDecision::Ask {
                        stored.decision
                    } else {
                        default_decision(default, headless)
                    };
                    TrustStepModel::Done(
                        ResolutionModel { decision, ..stored },
                        Some(
                            ObservationModel {
                                path: project,
                                decision,
                                is_new: stored.decision == TrustDecision::Ask,
                            },
                        ),
                    )
                },
            },
        },
    }
}

/// Resolves project trust together with what hooks observe of it.
pub fn resolve_project_trust_with_observation(
    trust_store: &TrustStore,
    project_path: &str,
    one_run_override: Option<bool>,
    default: DefaultProjectTrust,
    headless: bool,
    f: &ProjectFacts,
) -> (r: TrustStep)
    ensures
        r@ == project_trust(project_path@, one_run_override, default, headless, *f),
{
    if let Some(trusted) = one_run_override {
        return TrustStep::Done(
            TrustResolution {
                decision: decision_of(trusted),
                matched_path: None,
                project_path: project_path.to_owned(),
            },
            None,
        );
    }
    match f.has_resources {
        None => {
            return TrustStep::ProbeResources(join_path(project_path, CONFIG_DIR_NAME));
        },
        Some(false) => {
            return TrustStep::Done(
                TrustResolution {
                    decision: TrustDecision::Trusted,
                    matched_path: None,
                    project_path: project_path.to_owned(),
                },
                None,
            );
        },
        Some(true) => {},
    }
    let document = match &f.document {
        None => {
            return TrustStep::ReadStore;
        },
        Some(Err(e)) => {
            return TrustStep::Fail(e.clone());
        },
        Some(Ok(document)) => document,
    };
    let stored = trust_store.resolve(document, project_path);
    let is_new = stored.decision == TrustDecision::Ask;
    let decision = if !is_new {
        stored.decision
    } else {
        match default {
            DefaultProjectTrust::Always => TrustDecision::Trusted,
            DefaultProjectTrust::Never => TrustDecision::Untrusted,
            DefaultProjectTrust::Ask => if headless {
                TrustDecision::Untrusted
            } else {
                TrustDecision::Ask
            },
        }
    };
    let mut resolution = stored;
    resolution.decision = decision;
    TrustStep::Done(
        resolution,
        Some(
            TrustDecisionObservation { path: project_path.to_owned(), decision, is_new },
        ),
    )
}

/// Resolves project trust.
pub fn resolve_project_trust(
    trust_store: &TrustStore,
    project_path: &str,
    one_run_override: Option<bool>,
    default: DefaultProjectTrust,
    headless: bool,
    f: &ProjectFacts,
) -> (r: TrustStep)
    ensures
        r@ == (match project_trust(project_path@, one_run_override, default, headless, *f) {
            TrustStepModel::Done(resolution, _) => TrustStepModel::Done(resolution, None),
            other => other,
        }),
{
    match resolve_project_trust_with_observation(
        trust_store,
        project_path,
        one_run_override,
        default,
        headless,
        f,
    ) {
        TrustStep::Done(resolution, _) => TrustStep::Done(resolution, None),
        other => other,
    }
}

/// Whether anything under a project's configuration directory gates it.
pub fn has_project_config_resources(entries: Option<usize>) -> (r: bool)
    ensures
        r == (match entries {
            Some(n) => n > 0,
            None => false,
        }),
{
    match entries {
        Some(n) => n > 0,
        None => false,
    }
}

// ---------------------------------------------------------------------------
// What holds of trust
// ---------------------------------------------------------------------------

/// Whether a path is written the way canonical paths are.
pub open spec fn clean(path: Seq<char>) -> bool {
    lexical_path::rendered(lexical_path::absolute(path), lexical_path::components(path)) == path
}

/// A decision that is recorded for a path is what its resolution says, whatever
/// its ancestors say.
pub proof fn law_recorded_decision_wins(
    decisions: Map<Seq<char>, bool>,
    path: Seq<char>,
    trusted: bool,
)
    requires
        clean(path),
    ensures
        resolved(recorded(decisions, path, stored_decision(trusted)), path) == (ResolutionModel {
            decision: stored_decision(trusted),
            matched_path: Some(path),
            project_path: path,
        }),
{
    let parts = lexical_path::components(path);
    assert(parts.take(parts.len() as int) =~= parts);
}

/// The nearest decision is that of some ancestor, with none nearer.
pub proof fn lemma_nearest(
    decisions: Map<Seq<char>, bool>,
    rooted: bool,
    parts: Seq<Seq<char>>,
    n: nat,
)
    ensures
        match nearest(decisions, rooted, parts, n) {
            Some(path) => exists|k: nat|
                k <= n && path == #[trigger] lexical_path::rendered(rooted, parts.take(k as int))
                    && decisions.contains_key(path) && forall|j: nat|
                    k < j <= n ==> !decisions.contains_key(
                        #[trigger] lexical_path::rendered(rooted, parts.take(j as int)),
                    ),
            None => forall|j: nat|
                j <= n ==> !decisions.contains_key(
                    #[trigger] lexical_path::rendered(rooted, parts.take(j as int)),
                ),
        },
    decreases n,
{
    let here = lexical_path::rendered(rooted, parts.take(n as int));
    if !decisions.contains_key(here) && n > 0 {
        lemma_nearest(decisions, rooted, parts, (n - 1) as nat);
        match nearest(decisions, rooted, parts, (n - 1) as nat) {
            Some(path) => {
                let k = choose|k: nat|
                    k <= n - 1 && path == #[trigger] lexical_path::rendered(
                        rooted,
                        parts.take(k as int),
                    ) && decisions.contains_key(path) && forall|j: nat|
                        k < j <= n - 1 ==> !decisions.contains_key(
                            #[trigger] lexical_path::rendered(rooted, parts.take(j as int)),
                        );
                assert(path == lexical_path::rendered(rooted, parts.take(k as int)));
            },
            None => {},
        }
    }
}

/// The nearest decision counts: no path between the project and the one that
/// matched has a decision, and without a match no ancestor has one.
pub proof fn law_nearest_decision_counts(
    decisions: Map<Seq<char>, bool>,
    project: Seq<char>,
    k: nat,
)
    requires
        k <= lexical_path::components(project).len(),
        decisions.contains_key(
            lexical_path::rendered(
                lexical_path::absolute(project),
                lexical_path::components(project).take(k as int),
            ),
        ),
    ensures
        resolved(decisions, project).matched_path is Some,
        exists|m: nat|
            k <= m <= lexical_path::components(project).len() && resolved(
                decisions,
                project,
            ).matched_path->0 == #[trigger] lexical_path::rendered(
                lexical_path::absolute(project),
                lexical_path::components(project).take(m as int),
            ),
{
    let parts = lexical_path::components(project);
    lemma_nearest(decisions, lexical_path::absolute(project), parts, parts.len());
}

/// A project is only trusted where an override, the default or a stored
/// decision trusts it, or where it has nothing to gate.
pub proof fn law_trust_has_a_reason(
    project: Seq<char>,
    one_run_override: Option<bool>,
    default: DefaultProjectTrust,
    headless: bool,
    f: ProjectFacts,
)
    requires
        project_trust(project, one_run_override, default, headless, f) matches
            TrustStepModel::Done(r, _) && r.decision == TrustDecision::Trusted,
    ensures
        one_run_override == Some(true) || (one_run_override is None && (f.has_resources == Some(
            false,
        ) || default == DefaultProjectTrust::Always || (f.document matches Some(Ok(d))
            && resolved(d@, project).decision == TrustDecision::Trusted))),
{
}

/// A headless run never leaves a project undecided.
pub proof fn law_headless_never_asks(
    project: Seq<char>,
    one_run_override: Option<bool>,
    default: DefaultProjectTrust,
    f: ProjectFacts,
)
    ensures
        project_trust(project, one_run_override, default, true, f) matches TrustStepModel::Done(
            r,
            _,
        ) ==> r.decision != TrustDecision::Ask,
{
}

/// A stored denial wins over every default.
pub proof fn law_stored_denial_wins(
    project: Seq<char>,
    default: DefaultProjectTrust,
    headless: bool,
    f: ProjectFacts,
    document: TrustDocument,
)
    requires
        f.has_resources == Some(true),
        f.document == Some(Ok::<TrustDocument, String>(document)),
        resolved(document@, project).decision == TrustDecision::Untrusted,
    ensures
        project_trust(project, None, default, headless, f) matches TrustStepModel::Done(r, Some(o))
            && r.decision == TrustDecision::Untrusted && o.decision == TrustDecision::Untrusted
            && !o.is_new,
{
}

/// There is something to observe exactly where a stored decision is consulted.
pub proof fn law_observation_means_consulted(
    project: Seq<char>,
    one_run_override: Option<bool>,
    default: DefaultProjectTrust,
    headless: bool,
    f: ProjectFacts,
)
    ensures
        project_trust(project, one_run_override, default, headless, f) matches
            TrustStepModel::Done(_, o) ==> (o is Some <==> one_run_override is None
            && f.has_resources == Some(true)),
{
}

} // verus!
