//! Tests of ssh planning: the include line, stanza generation and the
//! predefined key table.

use dot::platform::Kernel;
use dot::prefix::Prefix;
use dot::ssh::key::SshKey;
use dot::ssh::{entry_ssh, with_include_line, SshArgs, SshError, SshKeyArgs, SshSelection};

fn key_args(key: Option<&str>, hostname: Option<&str>) -> SshKeyArgs {
    SshKeyArgs {
        key: key.map(String::from),
        hostname: hostname.map(String::from),
        comment: None,
        addition: vec![],
    }
}

#[test]
fn key_test_include_ssh_config_dir_non_existent() {
    assert_eq!(with_include_line(""), "Include config.d/*\n");
}

#[test]
fn key_test_include_ssh_config_dir_missing() {
    assert_eq!(
        with_include_line("test content\ntest config\n"),
        "test content\ntest config\nInclude config.d/*\n"
    );
}

#[test]
fn key_test_include_ssh_config_dir_non_missing() {
    assert_eq!(
        with_include_line("test content\ntest config\nInclude config.d/*\n"),
        "test content\ntest config\nInclude config.d/*\n"
    );
}

#[test]
fn test_include_line_found_when_indented() {
    assert_eq!(
        with_include_line("  Include config.d/*  \nmore\n"),
        "  Include config.d/*  \nmore\n"
    );
}

#[test]
fn test_generate_config() {
    let args = SshKeyArgs {
        key: Some(String::from("key")),
        hostname: Some(String::from("host")),
        comment: None,
        addition: vec![(String::from("snake_case"), String::from("yes"))],
    };
    let ssh_key = SshKey::from_args(&args).unwrap();
    let prefix = Prefix::new(String::from("/p"));
    let plan = ssh_key.generate(&prefix, Kernel::Linux, "");
    assert_eq!(plan.stanza_path, "/p/.ssh/config.d/key");
    let expected = "# AUTO GENERATED FILE. DO NOT EDIT\n\nHost key\n\tHostname \
                    host\n\tAddKeysToAgent yes\n\tIdentitiesOnly yes\n\tIdentityFile \
                    /p/.dot/.local/skm/key/id_ed25519\n"
        .to_string()
        + "\tSnakeCase yes\n";
    assert_eq!(plan.stanza_content, expected);
}

#[test]
fn test_generate_config_macos_adds_keychain() {
    let ssh_key = SshKey::from_args(&key_args(Some("key"), Some("host"))).unwrap();
    let prefix = Prefix::new(String::from("/p"));
    let plan = ssh_key.generate(&prefix, Kernel::MacOs, "");
    assert!(plan.stanza_content.ends_with("\tUseKeychain yes\n"));
}

#[test]
fn test_generate_plan_paths_and_command() {
    let ssh_key = SshKey::from_args(&key_args(Some("key"), Some("host"))).unwrap();
    let prefix = Prefix::new(String::from("/p"));
    let plan = ssh_key.generate(&prefix, Kernel::Linux, "existing\n");
    assert_eq!(plan.ssh_config_path, "/p/.ssh/config");
    assert_eq!(plan.ssh_config_content, "existing\nInclude config.d/*\n");
    assert_eq!(plan.config_dir, "/p/.ssh/config.d");
    assert_eq!(plan.skm_bin, "/p/.dot/.local/bin/skm");
    assert_eq!(
        plan.skm_args,
        vec!["--store-path", "/p/.dot/.local/skm", "create", "key", "-C", "host", "-t", "ed25519"]
    );
    assert_eq!(plan.public_key_path, "/p/.dot/.local/skm/key/id_ed25519.pub");
    assert_eq!(plan.private_key_path, "/p/.dot/.local/skm/key/id_ed25519");
}

#[test]
fn test_skm_comment_overrides_hostname() {
    let args = SshKeyArgs {
        key: Some(String::from("key")),
        hostname: Some(String::from("host")),
        comment: Some(String::from("work laptop")),
        addition: vec![],
    };
    let ssh_key = SshKey::from_args(&args).unwrap();
    let prefix = Prefix::new(String::from("/p"));
    let plan = ssh_key.generate(&prefix, Kernel::Linux, "");
    assert_eq!(plan.skm_args[5], "work laptop");
}

#[test]
fn key_test_parse_predefined_config() {
    let text = "
[text]
hostname = \"a\"

[number]
hostname = \"1\"
comment = \"2\"
key = \"value\"
";
    let keys = SshKey::load_predefined_key(text).unwrap();
    assert_eq!(keys.len(), 2);
    let text_key = keys.iter().find(|k| k.key == "text").unwrap();
    assert_eq!(text_key.config.hostname, "a");
    assert!(text_key.config.comment.is_none());
    assert!(text_key.config.additions.is_empty());
    let number_key = keys.iter().find(|k| k.key == "number").unwrap();
    assert_eq!(number_key.config.hostname, "1");
    assert_eq!(number_key.config.comment.as_deref(), Some("2"));
    assert_eq!(
        number_key.config.additions,
        vec![(String::from("key"), String::from("value"))]
    );
}

#[test]
fn test_parse_predefined_key_bad_document_fails() {
    assert_eq!(
        SshKey::load_predefined_key("not toml at all [").unwrap_err(),
        SshError::Parse
    );
}

#[test]
fn test_parse_predefined_key_missing_hostname_fails() {
    assert_eq!(
        SshKey::load_predefined_key("[text]\ncomment = \"c\"\n").unwrap_err(),
        SshError::MissingHostname
    );
}

#[test]
fn test_entry_ssh_prefers_config() {
    let args = SshArgs {
        config: Some(String::from("work")),
        key: key_args(Some("k"), Some("h")),
    };
    match entry_ssh(&args, None).unwrap() {
        SshSelection::Predefined(k) => assert_eq!(k, "work"),
        _ => panic!("expected the predefined key"),
    }
}

#[test]
fn test_entry_ssh_adhoc_and_default() {
    let args = SshArgs { config: None, key: key_args(Some("k"), Some("h")) };
    match entry_ssh(&args, None).unwrap() {
        SshSelection::AdHoc(k) => {
            assert_eq!(k.key, "k");
            assert_eq!(k.config.hostname, "h");
        }
        _ => panic!("expected the ad-hoc key"),
    }
    let incomplete = SshArgs { config: None, key: key_args(Some("k"), None) };
    match entry_ssh(&incomplete, Some("fallback")).unwrap() {
        SshSelection::Predefined(k) => assert_eq!(k, "fallback"),
        _ => panic!("expected the default key"),
    }
    assert_eq!(
        entry_ssh(&incomplete, None).unwrap_err(),
        SshError::MissingArgument
    );
}
