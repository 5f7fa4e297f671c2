use pi_coding::tools::paths::{
    clean_path, mac_ampm_variant, normalize_path, read_variants, resolve_read_path,
    resolve_scoped_path, resolve_to_cwd, ReadFacts, ScopedFacts, ScopedStep,
};
use std::collections::HashMap;

/// A file system: the real path of every path that exists.
struct Disk {
    real: HashMap<String, String>,
}

impl Disk {
    fn new(paths: &[(&str, &str)]) -> Self {
        Disk { real: paths.iter().map(|(a, b)| (a.to_string(), b.to_string())).collect() }
    }

    fn learn(&self, step: &ScopedStep, facts: &mut ScopedFacts) -> bool {
        match step {
            ScopedStep::RealRoot(p) => facts.root = Some(self.real.get(p).cloned()),
            ScopedStep::Exists(p) => facts.exists.push(self.real.contains_key(p)),
            ScopedStep::RealPath(p) => {
                facts.real_path = Some(self.real.get(p).cloned().ok_or_else(|| "gone".to_string()))
            }
            ScopedStep::Failed(_) | ScopedStep::Done(_) => return false,
        }
        true
    }

    fn scoped(&self, path: &str, cwd: &str) -> Result<String, String> {
        let mut facts = no_facts();
        loop {
            let step = resolve_scoped_path(path, cwd, None, &facts);
            if !self.learn(&step, &mut facts) {
                return match step {
                    ScopedStep::Done(p) => Ok(p),
                    ScopedStep::Failed(e) => Err(e),
                    _ => unreachable!(),
                };
            }
        }
    }

    fn readable(&self, path: &str, cwd: &str) -> Result<String, String> {
        let mut facts = ReadFacts { target: no_facts(), exists: vec![], variant: no_facts() };
        let mut resolved = false;
        let mut found = false;
        loop {
            let step = resolve_read_path(path, cwd, None, &facts);
            if !resolved {
                if let ScopedStep::Exists(p) = &step {
                    if facts.target.real_path.is_some() {
                        resolved = true;
                        facts.exists.push(self.real.contains_key(p));
                        continue;
                    }
                }
                if self.learn(&step, &mut facts.target) {
                    continue;
                }
            } else if let ScopedStep::Exists(p) = &step {
                if !found {
                    let there = self.real.contains_key(p);
                    found = there;
                    facts.exists.push(there);
                    continue;
                }
                self.learn(&step, &mut facts.variant);
                continue;
            } else if self.learn(&step, &mut facts.variant) {
                continue;
            }
            return match step {
                ScopedStep::Done(p) => Ok(p),
                ScopedStep::Failed(e) => Err(e),
                _ => unreachable!(),
            };
        }
    }
}

fn no_facts() -> ScopedFacts {
    ScopedFacts { root: None, exists: vec![], real_path: None }
}

#[test]
fn clean_path_collapses_dots() {
    assert_eq!(clean_path(""), ".");
    assert_eq!(clean_path("./a/./b"), "a/b");
    assert_eq!(clean_path("a/../b"), "b");
    assert_eq!(clean_path("/a/../b"), "/b");
    assert_eq!(clean_path("//a"), "/a");
    assert_eq!(clean_path("a/b/.."), "a");
    assert_eq!(clean_path("/.."), "/");
}

#[test]
fn cleaning_keeps_leading_parents_of_relative_paths() {
    assert_eq!(clean_path("../../a"), "../../a");
    assert_eq!(clean_path("a/../../b"), "../b");
    assert_eq!(clean_path(".."), "..");
    for p in ["", "a//b/./c/..", "/x/../../y", "../..", "~/z"] {
        assert_eq!(clean_path(&clean_path(p)), clean_path(p), "{p}");
    }
}

#[test]
fn normalize_path_strips_at_and_folds_spaces() {
    assert_eq!(normalize_path("@foo.txt", None), "foo.txt");
    assert_eq!(normalize_path("a\u{00A0}b", None), "a b");
}

#[test]
fn normalize_path_expands_home_and_addresses() {
    assert_eq!(normalize_path("~", Some("/home/u")), "/home/u");
    assert_eq!(normalize_path("~/x/../y", Some("/home/u")), "/home/u/y");
    assert_eq!(normalize_path("~/x", None), "~/x");
    assert_eq!(normalize_path("~/x", Some("")), "~/x");
    assert_eq!(normalize_path("file://host/a/./b", None), "/a/b");
    assert_eq!(normalize_path("file://host", None), "file://host");
    assert_eq!(normalize_path(" a ", None), " a ");
}

#[test]
fn resolve_to_cwd_relative_and_absolute() {
    let cwd = "/workspace/project";
    assert_eq!(resolve_to_cwd("src/main.rs", cwd, None), "/workspace/project/src/main.rs");
    assert_eq!(resolve_to_cwd("/system/hosts", cwd, None), "/system/hosts");
    assert_eq!(resolve_to_cwd("../sibling/x", cwd, None), "/workspace/sibling/x");
    assert_eq!(resolve_to_cwd("./a/../b", cwd, None), "/workspace/project/b");
}

#[test]
fn resolve_to_cwd_expands_the_working_directory() {
    assert_eq!(resolve_to_cwd("x", "~", Some("/home/u")), "/home/u/x");
    assert_eq!(resolve_to_cwd("x", "~/p", Some("/home/u")), "/home/u/p/x");
}

#[test]
fn scoped_paths_reject_traversal() {
    let disk = Disk::new(&[("/tmp/root", "/tmp/root"), ("/tmp", "/tmp"), ("/", "/")]);
    let root = "/tmp/root";
    assert!(disk.scoped("inside.txt", root).is_ok());
    assert!(disk.scoped("../outside.txt", root).is_err());
    assert!(disk.scoped("/system/hosts", root).is_err());
}

#[test]
fn links_cannot_lead_outside() {
    let disk = Disk::new(&[
        ("/w", "/w"),
        ("/w/link", "/elsewhere"),
        ("/w/dir", "/w/dir"),
        ("/", "/"),
    ]);
    assert_eq!(
        disk.scoped("link/new.txt", "/w"),
        Err("Path escapes working directory: link/new.txt".to_string())
    );
    assert_eq!(disk.scoped("dir/deep/new.txt", "/w"), Ok("/w/dir/deep/new.txt".to_string()));
}

#[test]
fn unresolvable_paths_say_why() {
    let facts = ScopedFacts {
        root: Some(Some("/w".to_string())),
        exists: vec![true],
        real_path: Some(Err("denied".to_string())),
    };
    assert_eq!(
        resolve_scoped_path("a", "/w", None, &facts),
        ScopedStep::Failed("Could not resolve path a: denied".to_string())
    );
}

#[test]
fn mac_ampm_variant_inserts_narrow_nbsp() {
    let v = mac_ampm_variant("Screen Shot 2024 01 02 at 3.45.06 AM.png");
    assert!(v.contains('\u{202F}'));
    assert!(v.contains("AM."));
    assert!(!v.contains(" AM."));
}

#[test]
fn mac_ampm_variant_covers_afternoons_in_any_case() {
    assert_eq!(mac_ampm_variant("a 1 PM.png"), "a 1\u{202F}PM.png");
    assert_eq!(mac_ampm_variant("a 1 pm.png 2 Am."), "a 1\u{202F}pm.png 2\u{202F}Am.");
    assert_eq!(mac_ampm_variant("a AMx"), "a AMx");
}

#[test]
fn variants_are_tried_in_order() {
    assert_eq!(
        read_variants("/w/it's 1 AM.png", "/w/D"),
        vec!["/w/it's 1\u{202F}AM.png", "/w/D", "/w/it\u{2019}s 1 AM.png", "/w/D"]
    );
}

#[test]
fn files_are_found_under_their_decomposed_names() {
    let disk = Disk::new(&[
        ("/w", "/w"),
        ("/w/cafe\u{301}.txt", "/w/cafe\u{301}.txt"),
        ("/w/it\u{2019}s", "/w/it\u{2019}s"),
        ("/", "/"),
    ]);
    assert_eq!(disk.readable("caf\u{e9}.txt", "/w"), Ok("/w/cafe\u{301}.txt".to_string()));
    assert_eq!(disk.readable("it's", "/w"), Ok("/w/it\u{2019}s".to_string()));
    assert_eq!(disk.readable("gone", "/w"), Ok("/w/gone".to_string()));
    assert!(disk.readable("../gone", "/w").is_err());
}

#[test]
fn files_are_found_under_their_screenshot_names() {
    let disk = Disk::new(&[
        ("/w", "/w"),
        ("/w/Shot at 3.45.06\u{202F}PM.png", "/w/Shot at 3.45.06\u{202F}PM.png"),
        ("/w/out 1\u{202F}AM.png", "/elsewhere/out.png"),
        ("/", "/"),
    ]);
    assert_eq!(
        disk.readable("Shot at 3.45.06 PM.png", "/w"),
        Ok("/w/Shot at 3.45.06\u{202F}PM.png".to_string())
    );
    assert_eq!(
        disk.readable("out 1 AM.png", "/w"),
        Err("Path escapes working directory: /w/out 1\u{202F}AM.png".to_string())
    );
}
