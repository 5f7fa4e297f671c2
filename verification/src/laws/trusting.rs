//! What trust decisions promise.

use crate::json;
use crate::json::Json;
use crate::lexical_path;
use crate::text;
use crate::trust;
use crate::trust::{
    DefaultProjectTrust, ObservationModel, PathFacts, PathStepModel, ProjectFacts, ResolutionModel,
    StoredEntry, TrustDecision, TrustDocument, TrustStepModel,
};
use crate::workflow::store;
use vstd::prelude::*;
use vstd::string::*;

verus! {

// ---------------------------------------------------------------------------
// Projects
// ---------------------------------------------------------------------------

/// With a one-run override the resolution is done at once: the project is
/// trusted if and only if the override says so, and untrusted if and only if it
/// does not, whatever the default, the store and headlessness. Nothing was
/// matched and there is nothing to observe.
pub proof fn law_an_override_decides(
    project: Seq<char>,
    trusted: bool,
    default: DefaultProjectTrust,
    headless: bool,
    f: ProjectFacts,
)
    ensures
        trust::project_trust(project, Some(trusted), default, headless, f) matches
            TrustStepModel::Done(r, o) && {
            &&& r.decision == TrustDecision::Trusted <==> trusted
            &&& r.decision == TrustDecision::Untrusted <==> !trusted
            &&& r.matched_path is None
            &&& r.project_path == project
            &&& o is None
        },
{
}

/// A project without gated resources is trusted at once.
pub proof fn law_nothing_to_gate_is_trusted(
    project: Seq<char>,
    default: DefaultProjectTrust,
    headless: bool,
    f: ProjectFacts,
)
    requires
        f.has_resources == Some(false),
    ensures
        trust::project_trust(project, None, default, headless, f) matches TrustStepModel::Done(
            r,
            o,
        ) && {
            &&& r.decision == TrustDecision::Trusted
            &&& r.matched_path is None
            &&& r.project_path == project
            &&& o is None
        },
{
}

/// Without an override the resources of the project are looked for first, under
/// its configuration directory, and only a project that has some makes the
/// stored decisions be read. Where those cannot be read, the reason is told and
/// nothing is decided.
pub proof fn law_facts_are_gathered_in_order(
    project: Seq<char>,
    default: DefaultProjectTrust,
    headless: bool,
    f: ProjectFacts,
)
    ensures
        ({
            let step = trust::project_trust(project, None, default, headless, f);
            &&& f.has_resources is None <==> step is ProbeResources
            &&& f.has_resources is None ==> step == TrustStepModel::ProbeResources(
                store::joined(project, ".pi"@),
            )
            &&& f.has_resources == Some(true) && f.document is None <==> step is ReadStore
            &&& f.has_resources == Some(true) ==> (f.document matches Some(Err(e)) ==> step
                == TrustStepModel::Fail(e@))
            &&& step is Fail ==> f.has_resources == Some(true)
        }),
{
}

/// A stored decision, the nearest one on the path of the project, decides,
/// whatever the default and headlessness; without one the default does, and
/// nobody is asked headlessly. Hooks observe the same decision, and whether it
/// is new.
pub proof fn law_stored_decisions_come_before_defaults(
    project: Seq<char>,
    default: DefaultProjectTrust,
    headless: bool,
    f: ProjectFacts,
    document: TrustDocument,
)
    requires
        f.has_resources == Some(true),
        f.document == Some(Ok::<TrustDocument, String>(document)),
    ensures
        trust::project_trust(project, None, default, headless, f) matches TrustStepModel::Done(
            r,
            Some(o),
        ) && {
            let stored = trust::resolved(document@, project);
            &&& r.project_path == project
            &&& r.matched_path == stored.matched_path
            &&& o.path == project
            &&& o.decision == r.decision
            &&& o.is_new <==> stored.matched_path is None
            &&& stored.matched_path matches Some(path) ==> {
                &&& document@.contains_key(path)
                &&& r.decision == TrustDecision::Trusted <==> document@[path]
                &&& r.decision == TrustDecision::Untrusted <==> !document@[path]
            }
            &&& stored.matched_path is None ==> {
                &&& r.decision == TrustDecision::Trusted <==> default == DefaultProjectTrust::Always
                &&& r.decision == TrustDecision::Ask <==> default == DefaultProjectTrust::Ask
                    && !headless
                &&& r.decision == TrustDecision::Untrusted <==> default
                    == DefaultProjectTrust::Never || (default == DefaultProjectTrust::Ask
                    && headless)
            }
        },
{
    let parts = lexical_path::components(project);
    trust::lemma_nearest(document@, lexical_path::absolute(project), parts, parts.len());
}

// ---------------------------------------------------------------------------
// Stored decisions
// ---------------------------------------------------------------------------

/// The `k`th ancestor path of a project, counted in components.
pub open spec fn ancestor(project: Seq<char>, k: nat) -> Seq<char> {
    lexical_path::rendered(
        lexical_path::absolute(project),
        lexical_path::components(project).take(k as int),
    )
}

/// What is resolved for a project is the decision of its nearest ancestor that
/// has one, the project itself counted: a match lies on its path, has a
/// decision, and nothing nearer has one; without a match, no ancestor has one,
/// and the project is undecided.
pub proof fn law_the_nearest_ancestor_decides(decisions: Map<Seq<char>, bool>, project: Seq<char>)
    ensures
        ({
            let r = trust::resolved(decisions, project);
            let n = lexical_path::components(project).len();
            &&& r.project_path == project
            &&& match r.matched_path {
                Some(path) => {
                    &&& decisions.contains_key(path)
                    &&& r.decision == TrustDecision::Trusted <==> decisions[path]
                    &&& r.decision == TrustDecision::Untrusted <==> !decisions[path]
                    &&& exists|k: nat|
                        k <= n && path == #[trigger] ancestor(project, k) && forall|j: nat|
                            k < j <= n ==> !decisions.contains_key(#[trigger] ancestor(project, j))
                },
                None => {
                    &&& r.decision == TrustDecision::Ask
                    &&& forall|j: nat|
                        j <= n ==> !decisions.contains_key(#[trigger] ancestor(project, j))
                },
            }
        }),
{
    let rooted = lexical_path::absolute(project);
    let parts = lexical_path::components(project);
    let n = parts.len();
    trust::lemma_nearest(decisions, rooted, parts, n);
    if let Some(path) = trust::nearest(decisions, rooted, parts, n) {
        let k = choose|k: nat|
            k <= n && path == #[trigger] lexical_path::rendered(rooted, parts.take(k as int))
                && decisions.contains_key(path) && forall|j: nat|
                k < j <= n ==> !decisions.contains_key(
                    #[trigger] lexical_path::rendered(rooted, parts.take(j as int)),
                );
        assert(path == ancestor(project, k));
    }
}

/// Recording a decision changes that path alone: a trusted one is stored as
/// trusted, an untrusted one as untrusted, and an undecided one not at all.
pub proof fn law_recording_changes_one_path(
    decisions: Map<Seq<char>, bool>,
    path: Seq<char>,
    decision: TrustDecision,
    other: Seq<char>,
)
    ensures
        ({
            let after = trust::recorded(decisions, path, decision);
            &&& after.contains_key(path) <==> decision != TrustDecision::Ask
            &&& decision == TrustDecision::Trusted ==> after[path]
            &&& decision == TrustDecision::Untrusted ==> !after[path]
            &&& other != path ==> (after.contains_key(other) <==> decisions.contains_key(other))
            &&& other != path && decisions.contains_key(other) ==> after[other] == decisions[other]
        }),
{
}

/// Of several decisions that are recorded, the last one for a path counts, and
/// a path without one stays as it was.
pub proof fn law_the_last_decision_counts(
    decisions: Map<Seq<char>, bool>,
    updates: Seq<(String, TrustDecision)>,
    path: Seq<char>,
)
    ensures
        ({
            let after = trust::recorded_all(decisions, updates);
            &&& (forall|i: int| 0 <= i < updates.len() ==> (#[trigger] updates[i]).0@ != path) ==> (
            after.contains_key(path) <==> decisions.contains_key(path)) && (decisions.contains_key(
                path,
            ) ==> after[path] == decisions[path])
            &&& forall|i: int|
                0 <= i < updates.len() && (#[trigger] updates[i]).0@ == path && (forall|j: int|
                    i < j < updates.len() ==> (#[trigger] updates[j]).0@ != path) ==> {
                    &&& after.contains_key(path) <==> updates[i].1 != TrustDecision::Ask
                    &&& updates[i].1 == TrustDecision::Trusted ==> after[path]
                    &&& updates[i].1 == TrustDecision::Untrusted ==> !after[path]
                }
        }),
    decreases updates.len(),
{
    if updates.len() > 0 {
        let front = updates.drop_last();
        let n = updates.len() - 1;
        law_the_last_decision_counts(decisions, front, path);
        let after = trust::recorded_all(decisions, updates);
        assert(updates.last() == updates[n]);
        if forall|i: int| 0 <= i < updates.len() ==> (#[trigger] updates[i]).0@ != path {
            assert forall|i: int| 0 <= i < front.len() implies (#[trigger] front[i]).0@ != path by {
                assert(front[i] == updates[i]);
            }
            assert(updates[n].0@ != path);
        }
        assert forall|i: int|
            0 <= i < updates.len() && (#[trigger] updates[i]).0@ == path && (forall|j: int|
                i < j < updates.len() ==> (#[trigger] updates[j]).0@ != path) implies {
            &&& after.contains_key(path) <==> updates[i].1 != TrustDecision::Ask
            &&& updates[i].1 == TrustDecision::Trusted ==> after[path]
            &&& updates[i].1 == TrustDecision::Untrusted ==> !after[path]
        } by {
            if i < n {
                assert(front[i] == updates[i]);
                assert(updates[n].0@ != path);
                assert forall|j: int| i < j < front.len() implies (#[trigger] front[j]).0@
                    != path by {
                    assert(front[j] == updates[j]);
                }
            }
        }
    }
}

/// The outcome of hooks: a block denies; without one, an approval trusts an
/// undecided project and nothing else changes.
pub proof fn law_hooks_decide_the_undecided(
    tentative: TrustDecision,
    blocked: bool,
    approved: bool,
)
    ensures
        ({
            let r = trust::hooked(tentative, blocked, approved);
            &&& r == TrustDecision::Untrusted <==> blocked || tentative == TrustDecision::Untrusted
            &&& r == TrustDecision::Trusted <==> !blocked && (tentative == TrustDecision::Trusted
                || (tentative == TrustDecision::Ask && approved))
            &&& r == TrustDecision::Ask <==> !blocked && tentative == TrustDecision::Ask
                && !approved
        }),
{
}

/// The names of the decisions.
pub proof fn law_decisions_have_names(decision: TrustDecision)
    ensures
        decision.name() == "trusted"@ <==> decision == TrustDecision::Trusted,
        decision.name() == "untrusted"@ <==> decision == TrustDecision::Untrusted,
        decision.name() == "ask"@ <==> decision == TrustDecision::Ask,
{
    reveal_strlit("trusted");
    reveal_strlit("untrusted");
    reveal_strlit("ask");
    assert("trusted"@.len() == 7 && "untrusted"@.len() == 9 && "ask"@.len() == 3);
}

// ---------------------------------------------------------------------------
// Stored documents
// ---------------------------------------------------------------------------

/// A versioned document is read if and only if every key is absolute, has a
/// canonical form and is its own, and no key comes twice; it then holds exactly
/// its members.
pub proof fn law_versioned_documents_are_canonical(
    entries: Seq<StoredEntry<bool>>,
    store_path: Seq<char>,
    n: nat,
)
    requires
        n <= entries.len(),
    ensures
        trust::canonical_verdict(entries, store_path, n) is Ok <==> {
            &&& forall|i: int|
                0 <= i < n ==> own_canonical_form(#[trigger] entries[i])
            &&& forall|i: int, j: int|
                0 <= i < j < n ==> (#[trigger] entries[i]).key@ != (#[trigger] entries[j]).key@
        },
        trust::canonical_verdict(entries, store_path, n) matches Ok(decisions) ==> {
            &&& forall|i: int|
                0 <= i < n ==> decisions.contains_key((#[trigger] entries[i]).key@)
                    && decisions[entries[i].key@] == entries[i].value
            &&& forall|path: Seq<char>| #[trigger]
                decisions.contains_key(path) ==> exists|i: int|
                    0 <= i < n && (#[trigger] entries[i]).key@ == path
        },
    decreases n,
{
    if n > 0 {
        let m = (n - 1) as nat;
        law_versioned_documents_are_canonical(entries, store_path, m);
        let entry = entries[n - 1];
        match trust::canonical_verdict(entries, store_path, m) {
            Err(_) => {},
            Ok(decisions) => {
                if own_canonical_form(entry) {
                    if decisions.contains_key(entry.key@) {
                        let i = choose|i: int|
                            0 <= i < m && (#[trigger] entries[i]).key@ == entry.key@;
                        assert(entries[i].key@ == entries[n - 1].key@);
                    } else {
                        assert forall|i: int, j: int| 0 <= i < j < n implies (
                        #[trigger] entries[i]).key@ != (#[trigger] entries[j]).key@ by {}
                        let after = decisions.insert(entry.key@, entry.value);
                        assert forall|path: Seq<char>| #[trigger]
                            after.contains_key(path) implies exists|i: int|
                            0 <= i < n && (#[trigger] entries[i]).key@ == path by {
                            if path == entry.key@ {
                                assert(entries[n - 1].key@ == path);
                            } else {
                                assert(decisions.contains_key(path));
                            }
                        }
                    }
                } else {
                    assert(!own_canonical_form(entries[n - 1]));
                }
            },
        }
    }
}

/// Whether a key is absolute and its own canonical form.
pub open spec fn own_canonical_form<T>(entry: StoredEntry<T>) -> bool {
    lexical_path::absolute(entry.key@) && (entry.canonical matches Ok(c) && c@ == entry.key@)
}

/// An unversioned document is read if and only if every key has a canonical
/// form, every value is `true`, `false` or `null`, and keys for one path agree;
/// it then holds exactly the decisions of its members.
pub proof fn law_unversioned_documents_agree(
    entries: Seq<StoredEntry<Json>>,
    store_path: Seq<char>,
    n: nat,
)
    requires
        n <= entries.len(),
    ensures
        trust::legacy_verdict(entries, store_path, n) is Ok <==> {
            &&& forall|i: int| 0 <= i < n ==> plain_entry(#[trigger] entries[i])
            &&& forall|i: int, j: int|
                0 <= i < j < n ==> entries_agree(#[trigger] entries[i], #[trigger] entries[j])
        },
        trust::legacy_verdict(entries, store_path, n) matches Ok(decisions) ==> {
            &&& forall|i: int|
                0 <= i < n && (#[trigger] entries[i]).value is Bool ==> decides(
                    decisions,
                    entries[i],
                )
            &&& forall|path: Seq<char>| #[trigger]
                decisions.contains_key(path) ==> exists|i: int|
                    0 <= i < n && decided_by(#[trigger] entries[i], path)
        },
    decreases n,
{
    if n > 0 {
        let m = (n - 1) as nat;
        law_unversioned_documents_agree(entries, store_path, m);
        let entry = entries[n - 1];
        match trust::legacy_verdict(entries, store_path, m) {
            Err(_) => {},
            Ok(decisions) => {
                if !plain_entry(entry) {
                    assert(!plain_entry(entries[n - 1]));
                } else if entry.value is Bool {
                    let c = entry.canonical->Ok_0@;
                    let b = entry.value->Bool_0;
                    if decisions.contains_key(c) {
                        let i = choose|i: int| 0 <= i < m && decided_by(#[trigger] entries[i], c);
                        assert(decides(decisions, entries[i]));
                        if decisions[c] != b {
                            assert(!entries_agree(entries[i], entries[n - 1]));
                        }
                    }
                    if !decisions.contains_key(c) || decisions[c] == b {
                        assert forall|i: int, j: int| 0 <= i < j < n implies entries_agree(
                            #[trigger] entries[i],
                            #[trigger] entries[j],
                        ) by {
                            if j == n - 1 {
                                if entries[i].value is Bool && entries[i].canonical->Ok_0@ == c {
                                    assert(plain_entry(entries[i]));
                                    assert(decides(decisions, entries[i]));
                                }
                            }
                        }
                        let after = decisions.insert(c, b);
                        assert forall|i: int|
                            0 <= i < n && (#[trigger] entries[i]).value is Bool implies decides(
                            after,
                            entries[i],
                        ) by {
                            if i < m {
                                assert(decides(decisions, entries[i]));
                            }
                        }
                        assert forall|path: Seq<char>| #[trigger]
                            after.contains_key(path) implies exists|i: int|
                            0 <= i < n && decided_by(#[trigger] entries[i], path) by {
                            if path == c {
                                assert(decided_by(entries[n - 1], path));
                            } else {
                                assert(decisions.contains_key(path));
                                let i = choose|i: int|
                                    0 <= i < m && decided_by(#[trigger] entries[i], path);
                                assert(decided_by(entries[i], path));
                            }
                        }
                    }
                } else {
                    assert forall|i: int, j: int| 0 <= i < j < n implies entries_agree(
                        #[trigger] entries[i],
                        #[trigger] entries[j],
                    ) by {}
                }
            },
        }
    }
}

/// Whether an entry has a canonical path and is `true`, `false` or `null`.
pub open spec fn plain_entry(entry: StoredEntry<Json>) -> bool {
    entry.canonical is Ok && (entry.value is Bool || entry.value is Null)
}

/// Whether two entries that decide on one path decide alike.
pub open spec fn entries_agree(a: StoredEntry<Json>, b: StoredEntry<Json>) -> bool {
    a.canonical is Ok && b.canonical is Ok && a.canonical->Ok_0@ == b.canonical->Ok_0@
        && a.value is Bool && b.value is Bool ==> a.value->Bool_0 == b.value->Bool_0
}

/// Whether decisions have that of an entry.
pub open spec fn decides(decisions: Map<Seq<char>, bool>, entry: StoredEntry<Json>) -> bool {
    decisions.contains_key(entry.canonical->Ok_0@) && decisions[entry.canonical->Ok_0@]
        == entry.value->Bool_0
}

/// Whether an entry decides on a path.
pub open spec fn decided_by(entry: StoredEntry<Json>, path: Seq<char>) -> bool {
    entry.canonical is Ok && entry.canonical->Ok_0@ == path && entry.value is Bool
}

// ---------------------------------------------------------------------------
// Paths
// ---------------------------------------------------------------------------

/// Whether a component stands for itself.
pub open spec fn ordinary(part: Seq<char>) -> bool {
    part != "."@ && part != ".."@
}

/// A `.` changes nothing, a `..` takes the component before it back, a `..` at
/// the start is dropped, and any other component stays.
pub proof fn law_dots_are_resolved(parts: Seq<Seq<char>>, part: Seq<char>)
    requires
        ordinary(part),
    ensures
        trust::climbed(parts.push("."@)) == trust::climbed(parts),
        trust::climbed(parts.push(part)) == trust::climbed(parts).push(part),
        trust::climbed(parts.push(part).push(".."@)) == trust::climbed(parts),
        trust::climbed(parts).len() == 0 ==> trust::climbed(parts.push(".."@)).len() == 0,
        trust::climbed(Seq::empty()).len() == 0,
{
    reveal_strlit(".");
    reveal_strlit("..");
    assert("."@.len() == 1 && ".."@.len() == 2);
    assert(parts.push("."@).drop_last() =~= parts);
    assert(parts.push(part).drop_last() =~= parts);
    assert(parts.push(".."@).drop_last() =~= parts);
    assert(parts.push(part).push(".."@).drop_last() =~= parts.push(part));
    assert(trust::climbed(parts).push(part).drop_last() =~= trust::climbed(parts));
}

/// A path whose canonical form is known is that form; a path that has none is
/// looked at from itself upwards, from the working directory where it is
/// relative.
pub proof fn law_canonical_forms_are_taken(path: Seq<char>, cwd: Seq<char>, f: PathFacts)
    ensures
        ({
            let step = trust::canonical_model(path, cwd, f);
            let whole = if lexical_path::absolute(path) {
                path
            } else {
                store::joined(cwd, path)
            };
            &&& f.whole is None ==> step == PathStepModel::Canonicalize(whole)
            &&& f.whole matches Some(Some(c)) ==> step == PathStepModel::Done(c@)
            &&& f.whole == Some(None::<String>) && f.exists@.len() == 0 ==> step
                == PathStepModel::Probe(whole)
        }),
{
}

/// The first ancestor that exists is made canonical, and the names behind it are
/// put back behind its canonical form, in their order.
pub proof fn law_missing_names_are_put_back(
    path: Seq<char>,
    existing: Seq<char>,
    missing: Seq<Seq<char>>,
    f: PathFacts,
    k: nat,
)
    requires
        k < f.exists@.len(),
    ensures
        ({
            let step = trust::climb(path, existing, missing, f, k);
            &&& f.exists@[k as int] && f.base is None ==> step
                == PathStepModel::CanonicalizeBase(existing)
            &&& f.exists@[k as int] ==> (f.base matches Some(Ok(base)) ==> step
                == PathStepModel::Done(trust::normalized(trust::appended(base@, missing))))
            &&& f.exists@[k as int] ==> (f.base matches Some(Err(e)) ==> step
                == PathStepModel::Fail("canonicalizing path "@ + existing + ": "@ + e@))
            &&& !f.exists@[k as int] ==> (match (
                lexical_path::file_name_of(existing),
                lexical_path::parent_of(existing),
            ) {
                (Some(name), Some(up)) => step == trust::climb(
                    path,
                    up,
                    seq![name] + missing,
                    f,
                    k + 1,
                ),
                _ => step == PathStepModel::Done(trust::normalized(path)),
            })
        }),
        trust::appended(existing, Seq::empty()) == existing,
        forall|name: Seq<char>| #[trigger]
            trust::appended(existing, missing.push(name)) == store::joined(
                trust::appended(existing, missing),
                name,
            ),
{
    assert forall|name: Seq<char>| #[trigger]
        trust::appended(existing, missing.push(name)) == store::joined(
            trust::appended(existing, missing),
            name,
        ) by {
        assert(missing.push(name).drop_last() =~= missing);
    }
}

} // verus!
