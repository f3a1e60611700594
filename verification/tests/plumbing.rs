use git_retrieve::destination::Destination;
use git_retrieve::edits::Target;
use git_retrieve::error::{GitError, GixError};
use git_retrieve::plumbing::{clone, config_get_string, fetch_and_reset, find_cmd_tool, retrieve};
use git_retrieve::plumbing::{Action, Reply, RetrieveStep, Step};
use git_retrieve::refs::{ObjectId, RemoteRef};

const URL: &str = "https://example/repo.git";
const COMMIT: &str = "a476767b3ea4cde604d28761c4a2f8e4a31198e0";
const TAG_OBJECT: &str = "1111111111111111111111111111111111111111";

fn object(hex: &str) -> ObjectId {
    ObjectId { hex: hex.to_string() }
}

fn remote() -> Vec<RemoteRef> {
    vec![
        RemoteRef::Symbolic {
            full_ref_name: "HEAD".to_string(),
            target: "refs/heads/master".to_string(),
            object: Some(object(COMMIT)),
        },
        RemoteRef::Direct { full_ref_name: "refs/heads/master".to_string(), object: object(COMMIT) },
        RemoteRef::Peeled {
            full_ref_name: "refs/tags/1.1.0".to_string(),
            tag: object(TAG_OBJECT),
            object: object(COMMIT),
        },
    ]
}

fn failed(text: &str) -> Reply {
    Reply::Failed(text.to_string())
}

#[test]
fn fetch_goes_through_its_stages() {
    let mut replies = Vec::new();
    let mut asked = Vec::new();
    loop {
        match fetch_and_reset(URL, "/work/dst", "1.1.0", &replies) {
            Step::Do(action) => {
                let reply = match &action {
                    Action::Receive => Reply::Refs(remote()),
                    _ => Reply::Done,
                };
                asked.push(action);
                replies.push(reply);
            }
            Step::Done => break,
            Step::Failed(error) => panic!("{:?}", error),
        }
    }
    assert_eq!(asked.len(), 8);
    assert_eq!(asked[0], Action::OpenRepository { path: "/work/dst".to_string() });
    assert_eq!(asked[1], Action::FindRemote { name: "origin".to_string() });
    assert_eq!(asked[2], Action::Connect);
    assert_eq!(asked[3], Action::PrepareFetch { packed_refs_only: true });
    assert_eq!(asked[4], Action::Receive);
    match &asked[5] {
        Action::WriteHead(update) => {
            assert_eq!(update.edits.len(), 2);
            assert_eq!(update.edits[0].name, "HEAD");
            assert_eq!(update.edits[0].new, Target::Symbolic("refs/heads/master".to_string()));
            assert_eq!(update.edits[0].message, "plop");
            assert!(update.log_only.is_some());
        }
        other => panic!("unexpected: {:?}", other),
    }
    match &asked[6] {
        Action::WriteHead(update) => {
            assert_eq!(update.edits.len(), 1);
            assert_eq!(update.edits[0].name, "HEAD");
            assert_eq!(update.edits[0].new, Target::Peeled(object(COMMIT)));
        }
        other => panic!("unexpected: {:?}", other),
    }
    assert_eq!(asked[7], Action::Checkout);
}

#[test]
fn fetch_stages_fail_each_in_its_kind() {
    let done = |n: usize| -> Vec<Reply> { (0..n).map(|_| Reply::Done).collect() };
    let at = |n: usize, reply: Reply| -> Step {
        let mut replies = done(n);
        replies.push(reply);
        fetch_and_reset(URL, "/d", "master", &replies)
    };
    assert_eq!(at(0, failed("a")), Step::Failed(GixError::RepositoryMissing("a".to_string())));
    assert_eq!(at(1, failed("b")), Step::Failed(GixError::RemoteMissing("b".to_string())));
    assert_eq!(at(2, failed("c")), Step::Failed(GixError::ConnectError("c".to_string())));
    assert_eq!(at(3, failed("d")), Step::Failed(GixError::FetchPrepareError("d".to_string())));
    assert_eq!(at(4, failed("e")), Step::Failed(GixError::FetchError("e".to_string())));
    assert_eq!(at(4, Reply::Done), Step::Failed(GixError::FetchError(String::new())));
    assert_eq!(at(0, Reply::Refs(vec![])), Step::Failed(GixError::RepositoryMissing(String::new())));
    let after = |extra: Vec<Reply>| -> Step {
        let mut replies = done(4);
        replies.push(Reply::Refs(remote()));
        replies.extend(extra);
        fetch_and_reset(URL, "/d", "master", &replies)
    };
    assert_eq!(after(vec![failed("f")]), Step::Failed(GixError::RefTransaction("f".to_string())));
    assert_eq!(
        after(vec![Reply::Done, failed("g")]),
        Step::Failed(GixError::RefTransaction("g".to_string()))
    );
    assert_eq!(
        after(vec![Reply::Done, Reply::Done, failed("h")]),
        Step::Failed(GixError::CheckoutWrite("h".to_string()))
    );
    assert_eq!(
        after(vec![Reply::Done, Reply::Done, Reply::Refused(GixError::Interrupted)]),
        Step::Failed(GixError::Interrupted)
    );
    assert_eq!(after(vec![Reply::Done, Reply::Done, Reply::Done]), Step::Done);
}

#[test]
fn failed_stage_is_final() {
    let replies =
        vec![Reply::Done, Reply::Done, failed("refused"), Reply::Done, Reply::Refs(remote())];
    for k in 3..=replies.len() {
        assert_eq!(
            fetch_and_reset(URL, "/d", "master", &replies[..k]),
            Step::Failed(GixError::ConnectError("refused".to_string()))
        );
    }
}

#[test]
fn unknown_revision_fails_after_the_head_is_written() {
    let mut replies: Vec<Reply> = (0..4).map(|_| Reply::Done).collect();
    replies.push(Reply::Refs(remote()));
    assert!(matches!(
        fetch_and_reset(URL, "/d", "nope", &replies),
        Step::Do(Action::WriteHead(_))
    ));
    replies.push(Reply::Done);
    assert_eq!(
        fetch_and_reset(URL, "/d", "nope", &replies),
        Step::Failed(GixError::RevisionNotFound("nope".to_string()))
    );
}

#[test]
fn invalid_remote_head_fails_before_anything_is_written() {
    let mut replies: Vec<Reply> = (0..4).map(|_| Reply::Done).collect();
    replies.push(Reply::Refs(vec![RemoteRef::Unborn {
        full_ref_name: "HEAD".to_string(),
        target: "refs/heads/.hidden".to_string(),
    }]));
    match fetch_and_reset(URL, "/d", "master", &replies) {
        Step::Failed(GixError::RefTransaction(said)) => {
            assert_eq!(
                said,
                "Error::InvalidHeadRef(head_ref_name: refs/heads/.hidden, source: Reference name cannot start with a dot)"
            );
        }
        other => panic!("unexpected: {:?}", other),
    }
}

#[test]
fn clone_goes_through_its_stages() {
    let mut replies = Vec::new();
    let mut asked = Vec::new();
    loop {
        match clone(URL, "/work/dst", "master", &replies) {
            Step::Do(action) => {
                let reply = match &action {
                    Action::FetchThenCheckout => Reply::Refs(remote()),
                    _ => Reply::Done,
                };
                asked.push(action);
                replies.push(reply);
            }
            Step::Done => break,
            Step::Failed(error) => panic!("{:?}", error),
        }
    }
    assert_eq!(asked.len(), 5);
    assert_eq!(asked[0], Action::ParseUrl { url: URL.to_string() });
    assert_eq!(
        asked[1],
        Action::PrepareClone { url: URL.to_string(), path: "/work/dst".to_string() }
    );
    assert_eq!(asked[2], Action::FetchThenCheckout);
    match &asked[3] {
        Action::WriteHead(update) => {
            assert_eq!(update.edits.len(), 2);
            assert_eq!(update.edits[0].name, "refs/remotes/origin/master");
            assert_eq!(update.edits[0].new, Target::Peeled(object(COMMIT)));
            assert_eq!(update.edits[1].name, "HEAD");
            assert_eq!(
                update.edits[1].new,
                Target::Symbolic("refs/remotes/origin/master".to_string())
            );
        }
        other => panic!("unexpected: {:?}", other),
    }
    assert_eq!(asked[4], Action::MainWorktree);
}

#[test]
fn clone_stages_fail_each_in_its_kind() {
    assert_eq!(
        clone("not a url", "/d", "master", &[failed("bad url")]),
        Step::Failed(GixError::InvalidGitUrl("bad url".to_string()))
    );
    assert_eq!(
        clone(URL, "/d", "master", &[Reply::Done, failed("exists")]),
        Step::Failed(GixError::CloningError("exists".to_string()))
    );
    assert_eq!(
        clone(URL, "/d", "master", &[Reply::Done, Reply::Done, failed("net")]),
        Step::Failed(GixError::CloningFetchError("net".to_string()))
    );
    assert_eq!(
        clone(URL, "/d", "master", &[Reply::Done, Reply::Done, Reply::Refs(remote()), failed("lock")]),
        Step::Failed(GixError::RefTransaction("lock".to_string()))
    );
    assert_eq!(
        clone(
            URL,
            "/d",
            "master",
            &[Reply::Done, Reply::Done, Reply::Refs(remote()), Reply::Done, failed("disk")]
        ),
        Step::Failed(GixError::CheckoutMainWorkTreeError("disk".to_string()))
    );
    assert_eq!(
        clone(URL, "/d", "nope", &[Reply::Done, Reply::Done, Reply::Refs(remote())]),
        Step::Failed(GixError::RevisionNotFound("nope".to_string()))
    );
}

#[test]
fn existing_destination_is_updated() {
    let dst = Destination { path: "/w/d".to_string(), exists: true, parent: Some("/w".to_string()) };
    assert_eq!(
        retrieve(&dst, URL, "master", &[]),
        RetrieveStep::Do(Action::OpenRepository { path: "/w/d".to_string() })
    );
    assert_eq!(
        retrieve(&dst, URL, "master", &[failed("not a repository")]),
        RetrieveStep::Failed(GitError::Plumbing {
            dst: "/w/d".to_string(),
            url: URL.to_string(),
            rev: "master".to_string(),
            source: GixError::RepositoryMissing("not a repository".to_string()),
        })
    );
}

#[test]
fn missing_destination_is_created_and_cloned_into() {
    let dst = Destination { path: "/w/d".to_string(), exists: false, parent: Some("/w".to_string()) };
    assert_eq!(
        retrieve(&dst, URL, "master", &[]),
        RetrieveStep::Do(Action::CreateFolder { path: "/w/d".to_string() })
    );
    assert_eq!(
        retrieve(&dst, URL, "master", &[Reply::Done]),
        RetrieveStep::Do(Action::ParseUrl { url: URL.to_string() })
    );
    assert_eq!(
        retrieve(&dst, URL, "master", &[Reply::Done, Reply::Done]),
        RetrieveStep::Do(Action::PrepareClone { url: URL.to_string(), path: "/w/d".to_string() })
    );
    assert_eq!(
        retrieve(&dst, URL, "master", &[Reply::Done, failed("bad")]),
        RetrieveStep::Failed(GitError::Plumbing {
            dst: "/w/d".to_string(),
            url: URL.to_string(),
            rev: "master".to_string(),
            source: GixError::InvalidGitUrl("bad".to_string()),
        })
    );
}

#[test]
fn folder_that_cannot_be_created_fails_before_the_clone() {
    let dst = Destination { path: "/w/d".to_string(), exists: false, parent: None };
    let expected = RetrieveStep::Failed(GitError::CreateFolder {
        path: "/w/d".to_string(),
        source: "read-only".to_string(),
    });
    assert_eq!(retrieve(&dst, URL, "master", &[failed("read-only")]), expected);
    assert_eq!(
        retrieve(&dst, URL, "master", &[failed("read-only"), Reply::Done, Reply::Done]),
        expected
    );
    assert_eq!(
        retrieve(&dst, URL, "master", &[Reply::Refs(vec![])]),
        RetrieveStep::Failed(GitError::CreateFolder {
            path: "/w/d".to_string(),
            source: String::new()
        })
    );
}

#[test]
fn should_retrieve_remote_git_repository() {
    let url = "https://github.com/ilaborie/ffizer-templates.git";
    let rev = "wip";
    let dst = Destination {
        path: "/tmp/x/wip".to_string(),
        exists: false,
        parent: Some("/tmp/x".to_string()),
    };
    let advertised = vec![
        RemoteRef::Symbolic {
            full_ref_name: "HEAD".to_string(),
            target: "refs/heads/master".to_string(),
            object: Some(object(COMMIT)),
        },
        RemoteRef::Direct { full_ref_name: "refs/heads/wip".to_string(), object: object(TAG_OBJECT) },
    ];
    let mut replies = Vec::new();
    let mut head = None;
    let mut stages = 0;
    loop {
        match retrieve(&dst, url, rev, &replies) {
            RetrieveStep::Do(Action::FetchThenCheckout) => {
                replies.push(Reply::Refs(vec![
                    RemoteRef::Symbolic {
                        full_ref_name: "HEAD".to_string(),
                        target: "refs/heads/master".to_string(),
                        object: Some(object(COMMIT)),
                    },
                    RemoteRef::Direct {
                        full_ref_name: "refs/heads/wip".to_string(),
                        object: object(TAG_OBJECT),
                    },
                ]));
            }
            RetrieveStep::Do(Action::WriteHead(update)) => {
                head = Some(update);
                replies.push(Reply::Done);
            }
            RetrieveStep::Do(_) => replies.push(Reply::Done),
            RetrieveStep::Done => break,
            RetrieveStep::Failed(error) => panic!("{:?}", error),
        }
        stages += 1;
    }
    assert_eq!(stages, 6);
    assert_eq!(advertised.len(), 2);
    let head = head.unwrap();
    assert_eq!(head.edits[1].name, "HEAD");
    assert_eq!(head.edits[1].new, Target::Symbolic("refs/remotes/origin/wip".to_string()));
    assert_eq!(head.edits[0].new, Target::Peeled(object(TAG_OBJECT)));
}

#[test]
fn tag_is_synchronised_to_its_commit() {
    let dst = Destination { path: "/tmp/t".to_string(), exists: true, parent: Some("/tmp".to_string()) };
    let mut replies = Vec::new();
    let mut last_head = None;
    loop {
        match retrieve(&dst, URL, "1.1.0", &replies) {
            RetrieveStep::Do(Action::Receive) => replies.push(Reply::Refs(remote())),
            RetrieveStep::Do(Action::WriteHead(update)) => {
                last_head = Some(update);
                replies.push(Reply::Done);
            }
            RetrieveStep::Do(_) => replies.push(Reply::Done),
            RetrieveStep::Done => break,
            RetrieveStep::Failed(error) => panic!("{:?}", error),
        }
    }
    let update = last_head.unwrap();
    assert_eq!(update.edits.len(), 1);
    assert_eq!(update.edits[0].name, "HEAD");
    assert_eq!(update.edits[0].new, Target::Peeled(object(COMMIT)));
}

#[test]
fn configuration_lookup_is_unsupported() {
    assert_eq!(
        config_get_string("merge.tool"),
        Err(GixError::ConfigLookupUnsupported("merge.tool".to_string()))
    );
    assert_eq!(
        find_cmd_tool("merge"),
        Err(GixError::ConfigLookupUnsupported("merge.tool".to_string()))
    );
    assert_eq!(find_cmd_tool(""), Err(GixError::ConfigLookupUnsupported(".tool".to_string())));
}
