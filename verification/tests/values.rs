use git_retrieve::error::GixError;
use git_retrieve::plumbing::{fetch_and_reset, Reply, Step};
use git_retrieve::refs::{ObjectId, RemoteRef};
use git_retrieve::text::{join, same};

fn object(hex: &str) -> ObjectId {
    ObjectId { hex: hex.to_string() }
}

#[test]
fn texts_are_joined_in_order() {
    assert_eq!(join("refs/heads/", "main"), "refs/heads/main");
    assert_eq!(join("", "x"), "x");
    assert_eq!(join("x", ""), "x");
    assert_eq!(join("", ""), "");
    assert_eq!(join("é", "ü"), "éü");
}

#[test]
fn texts_are_compared_character_by_character() {
    assert!(same("HEAD", "HEAD"));
    assert!(same("", ""));
    assert!(!same("HEAD", "HEAd"));
    assert!(!same("HEAD", "HEA"));
    assert!(!same("", "H"));
    assert!(same("héad", "héad"));
    assert!(!same("héad", "head"));
}

#[test]
fn references_give_their_name_and_object() {
    let peeled = RemoteRef::Peeled {
        full_ref_name: "refs/tags/v1".to_string(),
        tag: object("aa"),
        object: object("bb"),
    };
    assert_eq!(peeled.name(), "refs/tags/v1");
    assert_eq!(peeled.object(), Some(&object("bb")));
    let direct = RemoteRef::Direct { full_ref_name: "refs/heads/m".to_string(), object: object("cc") };
    assert_eq!(direct.name(), "refs/heads/m");
    assert_eq!(direct.object(), Some(&object("cc")));
    let symbolic = RemoteRef::Symbolic {
        full_ref_name: "HEAD".to_string(),
        target: "refs/heads/m".to_string(),
        object: None,
    };
    assert_eq!(symbolic.name(), "HEAD");
    assert_eq!(symbolic.object(), None);
    let unborn =
        RemoteRef::Unborn { full_ref_name: "HEAD".to_string(), target: "refs/heads/m".to_string() };
    assert_eq!(unborn.name(), "HEAD");
    assert_eq!(unborn.object(), None);
}

#[test]
fn copies_are_equal_to_what_they_copy() {
    assert_eq!(object("abc").duplicate(), object("abc"));
    let all = [
        GixError::InvalidGitUrl("a".to_string()),
        GixError::CloningError("b".to_string()),
        GixError::CloningFetchError("c".to_string()),
        GixError::CheckoutMainWorkTreeError("d".to_string()),
        GixError::RepositoryMissing("e".to_string()),
        GixError::RemoteMissing("f".to_string()),
        GixError::ConnectError("g".to_string()),
        GixError::FetchPrepareError("h".to_string()),
        GixError::FetchError("i".to_string()),
        GixError::RefTransaction("j".to_string()),
        GixError::RevisionNotFound("k".to_string()),
        GixError::NoWorkDir,
        GixError::HeadUnreadable("l".to_string()),
        GixError::TreeMissing("m".to_string()),
        GixError::IndexBuild("n".to_string()),
        GixError::CheckoutWrite("o".to_string()),
        GixError::IndexWrite("p".to_string()),
        GixError::Interrupted,
        GixError::ConfigLookupUnsupported("q".to_string()),
        GixError::Other("r".to_string()),
    ];
    for error in &all {
        assert_eq!(&error.duplicate(), error);
    }
}

#[test]
fn stage_that_names_its_own_failure_fails_with_it() {
    assert_eq!(
        fetch_and_reset("u", "/d", "master", &[Reply::Refused(GixError::Other("odd".to_string()))]),
        Step::Failed(GixError::Other("odd".to_string()))
    );
}
