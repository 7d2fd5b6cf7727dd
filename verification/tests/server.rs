use dit::comm::{Entry, Index, PartySignup};
use dit::server::{Project, Server};
use dit::utils::{Operation, Tag};

fn keygen_of(participants: u16, leader: &str) -> Operation {
    Operation::KeyGen {
        participants,
        leader: leader.to_string(),
        email: "a@x".to_string(),
        epoch: 1700000000,
    }
}

fn some_tag() -> Tag {
    Tag {
        creator: "Alice".to_string(),
        email: "a@x".to_string(),
        epoch: 1700000000,
        timezone: "+0000".to_string(),
        name: "0.1".to_string(),
        commit: "deadbeef".to_string(),
        message: "hello".to_string(),
    }
}

#[test]
fn five_signups_for_four_participants() {
    let mut server = Server::new();
    let project = "project".to_string();
    server.start_operation(&project, keygen_of(4, "Alice"));
    let mut accepted = Vec::new();
    let mut refused = 0;
    for _ in 0..5 {
        match server.signup_keygen(&project) {
            Ok(PartySignup { number }) => accepted.push(number),
            Err(()) => refused += 1,
        }
    }
    assert_eq!(accepted, vec![1, 2, 3, 4]);
    assert_eq!(refused, 1);
    assert_eq!(server.signup_keygen(&project), Err(()));
}

#[test]
fn second_start_is_ignored_and_end_restores_idle() {
    let mut server = Server::new();
    let project = "project".to_string();
    assert_eq!(server.get_operation(&project), Operation::Idle);
    server.start_operation(&project, keygen_of(4, "Alice"));
    server.start_operation(&project, keygen_of(7, "Bob"));
    assert_eq!(server.get_operation(&project), keygen_of(4, "Alice"));
    server.end_operation(&project);
    assert_eq!(server.get_operation(&project), Operation::Idle);
    server.start_operation(&project, keygen_of(7, "Bob"));
    assert_eq!(server.get_operation(&project), keygen_of(7, "Bob"));
}

#[test]
fn signing_takes_threshold_plus_one() {
    let mut project = Project::new();
    assert_eq!(project.signup_sign(), Err(()));
    project.start_operation(Operation::SignTag { participants: 4, threshold: 2, tag: some_tag() });
    assert_eq!(project.signup_keygen(), Err(()));
    assert_eq!(project.signup_sign(), Ok(PartySignup { number: 1 }));
    assert_eq!(project.signup_sign(), Ok(PartySignup { number: 2 }));
    assert_eq!(project.signup_sign(), Ok(PartySignup { number: 3 }));
    assert_eq!(project.signup_sign(), Err(()));
    project.end_operation();
    project.start_operation(Operation::SignKey {
        participants: 4,
        threshold: 1,
        leader: "Alice".to_string(),
        email: "a@x".to_string(),
        epoch: 5,
    });
    assert_eq!(project.signup_sign(), Ok(PartySignup { number: 1 }));
    assert_eq!(project.signup_sign(), Ok(PartySignup { number: 2 }));
    assert_eq!(project.signup_sign(), Err(()));
    project.end_operation();
    project.start_operation(Operation::Blame {});
    assert_eq!(project.signup_sign(), Err(()));
    assert_eq!(project.signup_keygen(), Err(()));
    assert_eq!(project.get_operation(), Operation::Blame {});
}

#[test]
fn mailbox_last_write_wins_and_end_clears() {
    let mut server = Server::new();
    let project = "project".to_string();
    let key = Index { key: "1-dkg-round1".to_string() };
    assert_eq!(server.get(&project, &key), Err(()));
    server.set(&project, Entry { key: "1-dkg-round1".to_string(), value: "first".to_string() });
    server.set(&project, Entry { key: "2-dkg-round1".to_string(), value: "other".to_string() });
    assert_eq!(
        server.get(&project, &key),
        Ok(Entry { key: "1-dkg-round1".to_string(), value: "first".to_string() })
    );
    server.set(&project, Entry { key: "1-dkg-round1".to_string(), value: "second".to_string() });
    assert_eq!(
        server.get(&project, &key),
        Ok(Entry { key: "1-dkg-round1".to_string(), value: "second".to_string() })
    );
    assert_eq!(
        server.get(&project, &Index { key: "2-dkg-round1".to_string() }),
        Ok(Entry { key: "2-dkg-round1".to_string(), value: "other".to_string() })
    );
    server.end_operation(&project);
    assert_eq!(server.get(&project, &key), Err(()));
}

#[test]
fn projects_do_not_see_each_other() {
    let mut server = Server::new();
    let one = "one".to_string();
    let two = "two".to_string();
    server.start_operation(&one, keygen_of(2, "Alice"));
    server.set(&one, Entry { key: "k".to_string(), value: "v".to_string() });
    assert_eq!(server.get_operation(&two), Operation::Idle);
    assert_eq!(server.get(&two, &Index { key: "k".to_string() }), Err(()));
    assert_eq!(server.signup_keygen(&two), Err(()));
    assert_eq!(server.signup_keygen(&one), Ok(PartySignup { number: 1 }));
    server.end_operation(&two);
    assert_eq!(server.get_operation(&one), keygen_of(2, "Alice"));
    assert_eq!(server.signup_keygen(&one), Ok(PartySignup { number: 2 }));
}
