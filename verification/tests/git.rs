use dit::errors::{CommandError, CriticalError, ErrorKind, JsonCategory, ProtocolError, UserError};
use dit::flow::{
    finish_key_signature, finish_tag_signature, key_files, keygen_operation, passthrough_args,
    plan, sign_key_operation, sign_tag_operation, start_key_signature, start_tag_signature,
    Command, Plan, Role,
};
use dit::git::{
    create_tag_string, format_tag_message_template, get_user, parse_cmd_output,
    parse_config_entry, split_lines, strip_comments, tag_message_from_edit, GitEnv,
};
use dit::signing::SignatureRecid;
use dit::utils::{
    format_choice_prompt, get_current_epoch, get_key_name, interpret_choice, key_name_at, Config,
    Operation, Server, Tag, User,
};

fn unhex_git(text: &str) -> Vec<u8> {
    let digits: Vec<u8> = text
        .bytes()
        .map(|c| match c {
            b'0'..=b'9' => c - b'0',
            b'a'..=b'f' => c - b'a' + 10,
            _ => c - b'A' + 10,
        })
        .collect();
    digits.chunks(2).map(|p| p[0] * 16 + p[1]).collect()
}

fn the_tag() -> Tag {
    Tag {
        creator: "Alice".to_string(),
        email: "a@x".to_string(),
        epoch: 1700000000,
        timezone: "+0000".to_string(),
        name: "0.1".to_string(),
        commit: "deadbeef".to_string(),
        message: "hello".to_string(),
    }
}

fn the_config() -> Config {
    Config {
        project: "project".to_string(),
        server: Server { address: "localhost".to_string(), port: 8000 },
        participants: 4,
        threshold: 2,
        user: None,
    }
}

fn the_signature() -> SignatureRecid {
    SignatureRecid {
        r: unhex_git("3cbcf815b08111b244a033c7414a1bed6687b45b37f763533f7dc27fb22c1ab0"),
        s: unhex_git("5634c3fc3cc1e999d1d456cdac3ea9c57b9b5a7bddb8b505b0b8c5cdf86aaa86"),
        recid: 0,
    }
}

#[test]
fn tag_preimage_is_exact() {
    assert_eq!(
        create_tag_string(&the_tag()),
        "object deadbeef\ntype commit\ntag 0.1\ntagger Alice <a@x> 1700000000 +0000\n\nhello\n"
    );
}

#[test]
fn tag_and_operation_descriptions() {
    assert_eq!(
        the_tag().describe(),
        format!("{}", "tag deadbeef\ncreator Alice <a@x>\nepoch 1700000000 +0000\n\nhello")
    );
    assert_eq!(Operation::Idle.describe(), "Currently idle");
    assert_eq!(Operation::Blame {}.describe(), "Protocol has been terminated");
    let user = User { username: "Alice".to_string(), email: "a@x".to_string() };
    assert_eq!(
        keygen_operation(&the_config(), &user, 17).describe(),
        "Alice <a@x> started key generation at 17 with 4 participants"
    );
    assert_eq!(
        sign_key_operation(&the_config(), &user, 18).describe(),
        "Alice <a@x> started signing the key with a 4-2 threshold at 18"
    );
    let op = sign_tag_operation(&the_config(), &the_tag());
    assert_eq!(
        op.describe(),
        "Signing tag with a 4-2 threshold:\ntag deadbeef\ncreator Alice <a@x>\nepoch 1700000000 +0000\n\nhello"
    );
    assert_eq!(op, Operation::SignTag { participants: 4, threshold: 2, tag: the_tag() });
    assert_eq!(op.duplicate(), op);
    assert!(!op.is_idle());
    assert!(Operation::Idle.is_idle());
}

#[test]
fn signed_tag_object_is_exact() {
    let start = start_tag_signature(&the_tag());
    assert_eq!(
        start.digest,
        unhex_git("6eddad139d3069ed6db75a00a43e675ccd697a1a539fbb30c6a30a3a14aa17f3")
    );
    let object = finish_tag_signature(
        start,
        [0xd1, 0x1d, 0xdb, 0x06, 0x0e, 0x9b, 0xfa, 0xe6],
        the_signature(),
    );
    assert_eq!(
        object,
        Ok(b"object deadbeef\ntype commit\ntag 0.1\ntagger Alice <a@x> 1700000000 +0000\n\nhello\n-----BEGIN PGP SIGNATURE-----\n\niF4EABMIAAYFAmVT8QAACgkQ0R3bBg6b+uZu3QD+PLz4FbCBEbJEoDPHQUob7WaHtFs392NTP33Cf7IsGrAA/1Y0w/w8wemZ0dRWzaw+qcV7m1p73bi1BbC4xc34aqqG\n=kAoV\n-----END PGP SIGNATURE-----\n".to_vec())
    );
    let start = start_tag_signature(&the_tag());
    let empty = SignatureRecid { r: vec![], s: vec![1], recid: 0 };
    assert_eq!(finish_tag_signature(start, [0; 8], empty), Err(ProtocolError::Blame));
}

#[test]
fn signed_key_is_exact() {
    let x = unhex_git("FEF3AABB21A88FEA5BC502FD734C58EBFC8B906697F1B9ED2089479D4A8E77A9");
    let y = unhex_git("1E67A0A2613DD9EB1CC891CD64E5420DA8C6C93B61A91EE3A468A0B158084A1D");
    let start =
        start_key_signature(&x, &y, "Alice".to_string(), "a@x".to_string(), 0x60F8184A).unwrap();
    assert_eq!(start.keyid, unhex_git("d11ddb060e9bfae6"));
    assert_eq!(
        start.digest,
        unhex_git("1c490c1367739add87907a99a64745874ce307a67e5012ffca380b4038af810e")
    );
    assert_eq!(
        finish_key_signature(start, the_signature()),
        Ok(unhex_git("984f0460f8184a13052b8104000a020304fef3aabb21a88fea5bc502fd734c58ebfc8b906697f1b9ed2089479d4a8e77a91e67a0a2613dd9eb1cc891cd64e5420da8c6c93b61a91ee3a468a0b158084a1db40b416c696365203c6140783e888c041013080034050260f8184a162104a1d5000413a0b7ff1934d297d11ddb060e9bfae6021b02050b0908070205150a09080b0416020301021780000a0910d11ddb060e9bfae61c4900fe3cbcf815b08111b244a033c7414a1bed6687b45b37f763533f7dc27fb22c1ab000ff5634c3fc3cc1e999d1d456cdac3ea9c57b9b5a7bddb8b505b0b8c5cdf86aaa86"))
    );
    let long = [1u8; 33];
    assert!(start_key_signature(&long, &y, "A".to_string(), "b".to_string(), 1).is_none());
}

#[test]
fn command_output_loses_its_line_end() {
    assert_eq!(parse_cmd_output(b"/home/alice/repo\n").unwrap(), "/home/alice/repo");
    assert_eq!(parse_cmd_output(b"+0100").unwrap(), "+0100");
    assert_eq!(parse_cmd_output(b"two\n\n").unwrap(), "two\n");
    assert_eq!(parse_cmd_output(b"").unwrap(), "");
    assert_eq!(parse_cmd_output("h\u{e9}\n".as_bytes()).unwrap(), "h\u{e9}");
    let failed = parse_cmd_output(&[0x66, 0xFF, 0x0A]).unwrap_err();
    assert!(matches!(failed, CriticalError::Encoding { .. }));
    assert_eq!(failed.kind(), ErrorKind::Decode);
}

#[test]
fn comment_lines_leave_the_tag_message() {
    assert_eq!(split_lines(b"a\nb\n\nc"), vec![b"a".to_vec(), b"b".to_vec(), vec![], b"c".to_vec()]);
    assert_eq!(split_lines(b"a\n"), vec![b"a".to_vec()]);
    assert_eq!(split_lines(b""), Vec::<Vec<u8>>::new());
    assert_eq!(strip_comments(b"release\n# comment\nnotes\n"), b"releasenotes".to_vec());
    assert_eq!(tag_message_from_edit("First\n# ignored\n").unwrap(), "First");
    let template = format_tag_message_template("0.1");
    assert_eq!(
        template,
        "\n# Write a message for tag:\n#   0.1\n# Lines starting with '#' will be ignored.\n# Note that this is a tag signed with a threshold signature\n# and might take some time to show up."
    );
    let nothing = tag_message_from_edit(&template).unwrap_err();
    assert!(matches!(nothing, CriticalError::User(UserError::TagMessage)));
    assert_eq!(nothing.kind(), ErrorKind::User);
    assert!(matches!(tag_message_from_edit("").unwrap_err(), CriticalError::User(_)));
}

#[test]
fn git_variables() {
    assert_eq!(
        parse_config_entry(b"user.name=Alice"),
        Some((b"name".to_vec(), b"Alice".to_vec()))
    );
    assert_eq!(
        parse_config_entry(b"remote.origin.url=git@host:a=b"),
        Some((b"origin".to_vec(), b"git@host:a".to_vec()))
    );
    assert_eq!(parse_config_entry(b"novalue"), None);
    assert_eq!(parse_config_entry(b"nodot=1"), None);
    assert_eq!(parse_config_entry(b"a=b.c"), None);
    let env = GitEnv::new(
        "/repo".to_string(),
        b"user.name=Alice\nuser.email=a@x\ncore.editor=vi\nbroken\nuser.name=Bob\n",
    );
    assert_eq!(env.get(&"name".to_string()), Some("Bob".to_string()));
    assert_eq!(env.get(&"email".to_string()), Some("a@x".to_string()));
    assert_eq!(env.get(&"editor".to_string()), Some("vi".to_string()));
    assert_eq!(env.get(&"missing".to_string()), None);
    assert_eq!(env.git_dir, "/repo");
    assert_eq!(env.tag_dir, "/repo/.git/refs/tags");
    assert_eq!(env.tag_path, ".git/refs/tags");
    assert_eq!(env.tag_msg_file, ".git/TAG_EDITMSG");

    let from_git = get_user(&None, &env);
    assert_eq!(from_git.username, "Bob");
    assert_eq!(from_git.email, "a@x");
    let configured = User { username: "Carol".to_string(), email: "c@x".to_string() };
    let from_config = get_user(&Some(configured), &env);
    assert_eq!(from_config.username, "Carol");
    assert_eq!(from_config.email, "c@x");
    let bare = GitEnv::new("/repo".to_string(), b"");
    let nobody = get_user(&None, &bare);
    assert_eq!(nobody.username, "");
    assert_eq!(nobody.email, "");
}

#[test]
fn file_names() {
    assert_eq!(dit::config::config_path("/repo"), "/repo/config.toml");
    assert_eq!(dit::config::config_dir("/repo"), "/repo/.dit");
    assert_eq!(dit::config::keyid_path("/repo"), "/repo/.dit/keyid");
    assert!(dit::config::is_keyid(&[0; 8]));
    assert!(!dit::config::is_keyid(&[0; 7]));
    assert_eq!(
        key_files("/repo", None, None),
        ("/repo/.dit/public_key.json".to_string(), "/repo/.dit/keyfile.pgp".to_string())
    );
    assert_eq!(
        key_files("/repo", Some("share.json"), Some("group.pgp")),
        ("/repo/.dit/share.json".to_string(), "/repo/.dit/group.pgp".to_string())
    );
    assert_eq!(key_name_at(1700000000), "1700000000.pgp");
    assert_eq!(key_name_at(0), "0.pgp");
    assert_eq!(key_name_at(u64::MAX), "18446744073709551615.pgp");
    let now = get_current_epoch().unwrap();
    assert!(now > 1_600_000_000);
    let name = get_key_name().unwrap();
    assert!(name.ends_with(".pgp"));
    assert!(name[..name.len() - 4].parse::<u64>().unwrap() >= now);
}

#[test]
fn what_a_command_leads_to() {
    let keygen = keygen_operation(
        &the_config(),
        &User { username: "A".to_string(), email: "a".to_string() },
        1,
    );
    let tagging = sign_tag_operation(&the_config(), &the_tag());
    assert_eq!(
        plan(Command::KeyGen, true, &Operation::Idle),
        Plan { lead: Some(Role::KeyGen), offer: None, passthrough: false }
    );
    assert_eq!(
        plan(Command::KeyGen, true, &tagging),
        Plan { lead: None, offer: Some(Role::KeyGen), passthrough: false }
    );
    assert_eq!(
        plan(Command::StartTag, true, &Operation::Idle),
        Plan { lead: Some(Role::Tag), offer: None, passthrough: false }
    );
    assert_eq!(
        plan(Command::StartTag, false, &Operation::Idle),
        Plan { lead: None, offer: None, passthrough: false }
    );
    assert_eq!(
        plan(Command::Other, true, &keygen),
        Plan { lead: None, offer: Some(Role::KeyGen), passthrough: true }
    );
    assert_eq!(
        plan(Command::Other, true, &tagging),
        Plan { lead: None, offer: Some(Role::Tag), passthrough: true }
    );
    assert_eq!(
        plan(Command::Other, true, &Operation::Blame {}),
        Plan { lead: None, offer: None, passthrough: true }
    );
    assert_eq!(
        plan(Command::Other, false, &keygen),
        Plan { lead: None, offer: None, passthrough: true }
    );
    assert_eq!(passthrough_args("", vec![]), vec!["--help"]);
    assert_eq!(passthrough_args("status", vec![]), vec!["status"]);
    assert_eq!(
        passthrough_args("log", vec!["-1".to_string(), "HEAD".to_string()]),
        vec!["log", "-1", "HEAD"]
    );
    assert_eq!(passthrough_args("", vec!["--version".to_string()]), vec!["--version"]);
}

#[test]
fn choices() {
    let choices = vec!["y".to_string(), "n".to_string()];
    assert_eq!(
        format_choice_prompt("Participate in the pending operation?", &choices),
        "Participate in the pending operation? [y/n]: "
    );
    assert_eq!(interpret_choice(&"".to_string(), &choices), Some(0));
    assert_eq!(interpret_choice(&"y".to_string(), &choices), Some(0));
    assert_eq!(interpret_choice(&"n".to_string(), &choices), Some(1));
    assert_eq!(interpret_choice(&"maybe".to_string(), &choices), None);
    assert_eq!(interpret_choice(&"".to_string(), &vec![]), Some(0));
}

#[test]
fn error_messages() {
    let command = CommandError::new("git rev-parse HEAD".to_string(), "fatal".to_string());
    assert_eq!(command.describe(), "[Command] `git rev-parse HEAD` failed with message fatal");
    assert_eq!(command.description(), "fatal");
    assert_eq!(UserError::TagMessage.describe(), "No tag message was provided");
    assert_eq!(
        CriticalError::Command(command).describe(),
        "[Command]\t[Command] `git rev-parse HEAD` failed with message fatal"
    );
    assert_eq!(
        CriticalError::FileSystem { description: "not found".to_string(), cause: None }.describe(),
        "[File System]:\t not found"
    );
    assert_eq!(
        CriticalError::FileSystem {
            description: "denied".to_string(),
            cause: Some("policy".to_string())
        }
        .describe(),
        "[File System]:\t denied caused by policy"
    );
    assert_eq!(CriticalError::Network.describe(), "[Network   ]");
    assert_eq!(
        CriticalError::JSON { category: JsonCategory::Syntax, line: 3, column: 14 }.describe(),
        "[JSON]\t\"Syntax\" error: line 3, col 14"
    );
    assert_eq!(
        CriticalError::JSON { category: JsonCategory::Eof, line: 0, column: 0 }.describe(),
        "[JSON]\t\"End of file\" error: line 0, col 0"
    );
    assert_eq!(
        CriticalError::TOML { place: Some((2, 5)), message: "expected a value".to_string() }
            .describe(),
        "[TOML]\t Decoding error at line 2, col 5: expected a value"
    );
    assert_eq!(
        CriticalError::TOML { place: None, message: "missing field".to_string() }.describe(),
        "[TOML]\t Decoding error missing field"
    );
    assert_eq!(CriticalError::HTTP { message: "refused".to_string() }.describe(), "[HTTP]\trefused");
    assert_eq!(
        CriticalError::Encoding { message: "invalid".to_string() }.describe(),
        "[Encoding]\tinvalid"
    );
    assert_eq!(
        CriticalError::User(UserError::TagMessage).describe(),
        "[User]\tNo tag message was provided"
    );
    assert_eq!(
        CriticalError::Clock(dit::utils::ClockError).describe(),
        "[Clock]\tsecond time provided was later than self"
    );
    assert_eq!(CriticalError::Protocol(ProtocolError::Full).describe(), "[Protocol]\tFull");
    assert_eq!(CriticalError::Protocol(ProtocolError::Blame).kind(), ErrorKind::Protocol);
    assert_eq!(CriticalError::Protocol(ProtocolError::Connection).kind(), ErrorKind::Connection);
    assert_eq!(CriticalError::Network.kind(), ErrorKind::Connection);
    assert!(!ErrorKind::Connection.is_fatal(false));
    assert!(ErrorKind::Connection.is_fatal(true));
    assert!(ErrorKind::Protocol.is_fatal(false));
    assert!(ErrorKind::Decode.is_fatal(false));
    assert!(ErrorKind::Filesystem.is_fatal(false));
    assert!(ErrorKind::User.is_fatal(false));
}

#[test]
fn clock_readings() {
    assert!(matches!(dit::utils::epoch_of(Some(1700000000)), Ok(1700000000)));
    assert!(matches!(dit::utils::epoch_of(Some(0)), Ok(0)));
    assert!(matches!(dit::utils::epoch_of(None), Err(dit::utils::ClockError)));
    assert_eq!(dit::utils::key_name_of(Ok(17)).unwrap(), "17.pgp");
    assert!(dit::utils::key_name_of(Err(dit::utils::ClockError)).is_err());
}
