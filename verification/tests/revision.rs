use std::collections::HashMap;

use git_retrieve::edits::{LockPolicy, PreviousValue, RefEdit, RefLog, Target};
use git_retrieve::error::GixError;
use git_retrieve::head::update_head;
use git_retrieve::refs::{ObjectId, RemoteRef};
use git_retrieve::revision::{find_advertised, names_object, plan_rewire, rewire_head};

const COMMIT: &str = "a476767b3ea4cde604d28761c4a2f8e4a31198e0";
const TAG_OBJECT: &str = "1111111111111111111111111111111111111111";
const OLDER: &str = "2222222222222222222222222222222222222222";

fn object(hex: &str) -> ObjectId {
    ObjectId { hex: hex.to_string() }
}

fn direct(name: &str, hex: &str) -> RemoteRef {
    RemoteRef::Direct { full_ref_name: name.to_string(), object: object(hex) }
}

fn sample_remote() -> Vec<RemoteRef> {
    vec![
        RemoteRef::Symbolic {
            full_ref_name: "HEAD".to_string(),
            target: "refs/heads/master".to_string(),
            object: Some(object(COMMIT)),
        },
        direct("refs/heads/master", COMMIT),
        direct("refs/heads/wip", OLDER),
        RemoteRef::Peeled {
            full_ref_name: "refs/tags/1.1.0".to_string(),
            tag: object(TAG_OBJECT),
            object: object(COMMIT),
        },
        direct("refs/tags/light", OLDER),
    ]
}

fn plain(name: &str, new: Target, message: &str) -> RefEdit {
    RefEdit {
        name: name.to_string(),
        new,
        expected: PreviousValue::Any,
        mode: RefLog::AndReference,
        force_create_reflog: false,
        message: message.to_string(),
        deref: false,
    }
}

fn commit(store: &mut HashMap<String, Target>, edits: &[RefEdit]) {
    for edit in edits {
        if edit.mode == RefLog::AndReference {
            let new = match &edit.new {
                Target::Symbolic(name) => Target::Symbolic(name.clone()),
                Target::Peeled(id) => Target::Peeled(object(&id.hex)),
            };
            store.insert(edit.name.clone(), new);
        }
    }
}

fn resolve(store: &HashMap<String, Target>, name: &str) -> Option<String> {
    match store.get(name)? {
        Target::Peeled(id) => Some(id.hex.clone()),
        Target::Symbolic(to) => match store.get(to)? {
            Target::Peeled(id) => Some(id.hex.clone()),
            Target::Symbolic(_) => None,
        },
    }
}

#[test]
fn branch_revision_follows_the_tracking_branch() {
    let update = rewire_head(&sample_remote(), "wip", "plop").unwrap();
    assert_eq!(
        update.edits,
        vec![
            plain("refs/remotes/origin/wip", Target::Peeled(object(OLDER)), "plop"),
            plain("HEAD", Target::Symbolic("refs/remotes/origin/wip".to_string()), "plop"),
        ]
    );
    assert!(update.packed_refs);
    assert_eq!(update.lock, LockPolicy::FailImmediately);
    assert_eq!(update.log_only, None);
}

#[test]
fn tag_revision_detaches_head_at_the_tagged_commit() {
    let update = rewire_head(&sample_remote(), "1.1.0", "plop").unwrap();
    assert_eq!(update.edits, vec![plain("HEAD", Target::Peeled(object(COMMIT)), "plop")]);
    assert!(!update.packed_refs);
    let mut store = HashMap::new();
    commit(&mut store, &update.edits);
    assert_eq!(resolve(&store, "HEAD"), Some(COMMIT.to_string()));
}

#[test]
fn lightweight_tag_detaches_head_at_its_object() {
    let update = rewire_head(&sample_remote(), "light", "m").unwrap();
    assert_eq!(update.edits, vec![plain("HEAD", Target::Peeled(object(OLDER)), "m")]);
}

#[test]
fn commit_id_revision_detaches_head_at_it() {
    let update = rewire_head(&sample_remote(), COMMIT, "m").unwrap();
    assert_eq!(update.edits, vec![plain("HEAD", Target::Peeled(object(COMMIT)), "m")]);
}

#[test]
fn unknown_revision_is_not_found() {
    assert_eq!(
        rewire_head(&sample_remote(), "nope", "m"),
        Err(GixError::RevisionNotFound("nope".to_string()))
    );
    assert_eq!(rewire_head(&[], "", "m"), Err(GixError::RevisionNotFound(String::new())));
}

#[test]
fn branch_wins_over_tag_of_the_same_name() {
    let refs = vec![direct("refs/tags/same", OLDER), direct("refs/heads/same", COMMIT)];
    let update = rewire_head(&refs, "same", "m").unwrap();
    assert_eq!(update.edits.len(), 2);
    assert_eq!(update.edits[0].new, Target::Peeled(object(COMMIT)));
}

#[test]
fn unborn_branch_is_no_branch_to_follow() {
    let refs = vec![RemoteRef::Unborn {
        full_ref_name: "refs/heads/main".to_string(),
        target: "refs/heads/other".to_string(),
    }];
    assert_eq!(
        rewire_head(&refs, "main", "m"),
        Err(GixError::RevisionNotFound("main".to_string()))
    );
}

#[test]
fn invalid_tracking_name_is_a_failed_ref_transaction() {
    let refs = vec![direct("refs/heads/a..b", COMMIT)];
    assert_eq!(
        rewire_head(&refs, "a..b", "m"),
        Err(GixError::RefTransaction(
            "Error::InvalidHeadRef(head_ref_name: refs/remotes/origin/a..b, source: Reference name cannot contain repeated dots)"
                .to_string()
        ))
    );
}

#[test]
fn rewiring_takes_the_verdict_as_given() {
    let refs = sample_remote();
    assert_eq!(
        plan_rewire(&refs, "master", Some("locked".to_string()), "m"),
        Err(GixError::RefTransaction(
            "Error::InvalidHeadRef(head_ref_name: refs/remotes/origin/master, source: locked)"
                .to_string()
        ))
    );
    // the verdict is about the tracking branch: a tag has none
    assert!(plan_rewire(&refs, "1.1.0", Some("locked".to_string()), "m").is_ok());
    assert!(plan_rewire(&refs, "master", None, "m").is_ok());
}

#[test]
fn object_ids_are_forty_lower_case_hex_digits() {
    assert!(names_object(COMMIT));
    assert!(names_object("0123456789abcdef0123456789abcdef01234567"));
    assert!(!names_object(""));
    assert!(!names_object("a476767b3ea4cde604d28761c4a2f8e4a31198e"));
    assert!(!names_object("a476767b3ea4cde604d28761c4a2f8e4a31198e00"));
    assert!(!names_object("A476767B3EA4CDE604D28761C4A2F8E4A31198E0"));
    assert!(!names_object("g476767b3ea4cde604d28761c4a2f8e4a31198e0"));
    assert!(!names_object("a476767b3ea4cde604d28761c4a2f8e4a31198e/"));
    assert!(!names_object("a476767b3ea4cde604d28761c4a2f8e4a31198e:"));
    assert!(!names_object("a476767b3ea4cde604d28761c4a2f8e4a31198e`"));
    // forty bytes, but not forty characters
    assert!(!names_object("é476767b3ea4cde604d28761c4a2f8e4a31198e"));
    // forty characters, none of them ASCII
    assert!(!names_object(&"é".repeat(40)));
}

#[test]
fn advertised_object_is_that_of_the_first_match() {
    let refs = vec![
        RemoteRef::Unborn { full_ref_name: "refs/heads/x".to_string(), target: "t".to_string() },
        direct("refs/heads/x", OLDER),
        direct("refs/heads/x", COMMIT),
    ];
    assert_eq!(find_advertised(&refs, "refs/heads/x"), Some(&object(OLDER)));
    assert_eq!(find_advertised(&refs, "refs/heads/y"), None);
    assert_eq!(find_advertised(&[], "refs/heads/x"), None);
}

#[test]
fn head_leads_to_the_revision_whatever_was_there() {
    let refs = sample_remote();
    for rev in ["master", "wip", "1.1.0", "light", COMMIT] {
        let expected = match rev {
            "master" | "1.1.0" => COMMIT,
            "wip" | "light" => OLDER,
            other => other,
        };
        let mut fresh = HashMap::new();
        let mut older = HashMap::new();
        older.insert("HEAD".to_string(), Target::Symbolic("refs/heads/gone".to_string()));
        older.insert("refs/remotes/origin/wip".to_string(), Target::Peeled(object(TAG_OBJECT)));
        for store in [&mut fresh, &mut older] {
            let first = update_head(&refs, "plop").unwrap();
            commit(store, &first.edits);
            let second = rewire_head(&refs, rev, "plop").unwrap();
            commit(store, &second.edits);
            assert_eq!(resolve(store, "HEAD"), Some(expected.to_string()), "rev {}", rev);
        }
    }
}

#[test]
fn synchronising_twice_changes_no_reference() {
    let refs = sample_remote();
    let mut store = HashMap::new();
    store.insert("refs/heads/local".to_string(), Target::Peeled(object(OLDER)));
    let sync = |store: &mut HashMap<String, Target>| {
        commit(store, &update_head(&refs, "plop").unwrap().edits);
        commit(store, &rewire_head(&refs, "wip", "plop").unwrap().edits);
    };
    sync(&mut store);
    let once: Vec<(String, String)> = {
        let mut all: Vec<_> =
            store.iter().map(|(name, to)| (name.clone(), format!("{:?}", to))).collect();
        all.sort();
        all
    };
    sync(&mut store);
    let twice: Vec<(String, String)> = {
        let mut all: Vec<_> =
            store.iter().map(|(name, to)| (name.clone(), format!("{:?}", to))).collect();
        all.sort();
        all
    };
    assert_eq!(once, twice);
    assert_eq!(once.len(), 4);
}
