//! Tests of remote rewriting, profile parsing and clone planning.

use dot::git::clone::entry_git_clone;
use dot::git::profile::{
    entry_git_profile, extract_ssh_hostname, GitProfile, GitProfileSelection,
};
use dot::git::utils::convert_remote;
use dot::git::{
    entry_git, GitArgs, GitCloneArgs, GitCommand, GitError, GitPlan, GitProfileArgs,
    GitProfileKeyArgs,
};
use dot::platform::Kernel;
use dot::prefix::Prefix;
use dot::ssh::key::ssh_stanza;

#[test]
fn test_convert_remote_http() {
    assert_eq!(
        convert_remote("https://git.test/username/repo.git", "host", "git.test")
            .unwrap()
            .unwrap(),
        "host:username/repo.git"
    )
}

#[test]
fn test_convert_remote_http_same_host() {
    assert_eq!(
        convert_remote("https://host/username/repo.git", "host", "git.test")
            .unwrap()
            .unwrap(),
        "host:username/repo.git"
    )
}

#[test]
fn test_convert_remote_ssh() {
    assert_eq!(
        convert_remote("git@git.test:username/repo.git", "host", "git.test")
            .unwrap()
            .unwrap(),
        "git@host:username/repo.git"
    )
}

#[test]
fn test_convert_remote_ssh_no_user() {
    assert_eq!(
        convert_remote("git.test:username/repo.git", "host", "git.test")
            .unwrap()
            .unwrap(),
        "host:username/repo.git"
    )
}

#[test]
fn test_convert_remote_ssh_same_host() {
    assert!(convert_remote("git@host:username/repo.git", "host", "git.test")
        .unwrap()
        .is_none())
}

#[test]
fn test_convert_remote_ssh_same_host_no_user() {
    assert!(convert_remote("host:username/repo.git", "host", "git.test")
        .unwrap()
        .is_none())
}

#[test]
fn test_convert_remote_other_host_is_mismatch() {
    assert_eq!(
        convert_remote("https://elsewhere.test/u/r.git", "host", "git.test").unwrap_err(),
        GitError::HostMismatch
    );
    assert_eq!(
        convert_remote("elsewhere.test:u/r.git", "host", "git.test").unwrap_err(),
        GitError::HostMismatch
    );
}

fn find_profile<'a>(profiles: &'a [GitProfile], key: &str) -> &'a GitProfile {
    profiles.iter().find(|p| p.key == key).unwrap()
}

#[test]
fn test_parse_predefined_config() {
    let text = "
[text]
name = \"a\"
email = \"b\"

[number]
name = \"1\"
email = \"2\"
key = \"value\"
";
    let profiles = GitProfile::load_predefined_profile(text, None).unwrap();
    assert_eq!(profiles.len(), 2);
    let text_profile = find_profile(&profiles, "text");
    assert_eq!(text_profile.config.name, "a");
    assert_eq!(text_profile.config.email, "b");
    assert!(text_profile.config.additions.is_empty());
    let number_profile = find_profile(&profiles, "number");
    assert_eq!(number_profile.config.name, "1");
    assert_eq!(number_profile.config.email, "2");
    assert_eq!(
        number_profile.config.additions,
        vec![(String::from("key"), String::from("value"))]
    );
}

#[test]
fn test_parse_predefined_and_local_config() {
    let text = "
[text]
name = \"a\"
email = \"b\"
";
    let local = "
[number]
name = \"1\"
email = \"2\"
key = \"value\"
";
    let profiles = GitProfile::load_predefined_profile(text, Some(local)).unwrap();
    assert_eq!(profiles.len(), 2);
    let text_profile = find_profile(&profiles, "text");
    assert_eq!(text_profile.config.name, "a");
    assert_eq!(text_profile.config.email, "b");
    assert!(text_profile.config.additions.is_empty());
    let number_profile = find_profile(&profiles, "number");
    assert_eq!(number_profile.config.name, "1");
    assert_eq!(number_profile.config.email, "2");
    assert_eq!(
        number_profile.config.additions,
        vec![(String::from("key"), String::from("value"))]
    );
}

#[test]
fn test_parse_predefined_bad_document_fails() {
    assert_eq!(
        GitProfile::load_predefined_profile("not toml at all [", None).unwrap_err(),
        GitError::Parse
    );
}

#[test]
fn test_parse_predefined_missing_email_fails() {
    let text = "
[text]
name = \"a\"
";
    assert_eq!(
        GitProfile::load_predefined_profile(text, None).unwrap_err(),
        GitError::MissingField
    );
}

#[test]
fn test_extract_ssh_config() {
    let additions = vec![(String::from("snake_case"), String::from("yes"))];
    let content = ssh_stanza(
        "key",
        "hostname",
        "/p/.dot/.local/skm/key/id_ed25519",
        &additions,
        Kernel::Linux,
    );
    assert_eq!(
        extract_ssh_hostname(content.as_str(), "key").unwrap(),
        "hostname"
    )
}

#[test]
fn test_extract_ssh_hostname_rejects_other_host() {
    let content = "Host other\nHostname somewhere\n";
    assert_eq!(
        extract_ssh_hostname(content, "key").unwrap_err(),
        GitError::Invalid
    );
}

#[test]
fn test_extract_ssh_hostname_missing() {
    let content = "# only a comment\n\n";
    assert_eq!(
        extract_ssh_hostname(content, "key").unwrap_err(),
        GitError::NoHostname
    );
}

#[test]
fn test_git_config_pairs() {
    let profiles = GitProfile::load_predefined_profile(
        "[p]\nname = \"a\"\nemail = \"b\"\n\"pull.rebase\" = \"true\"\n",
        None,
    )
    .unwrap();
    let pairs = profiles[0].config.config_pairs();
    assert_eq!(
        pairs,
        vec![
            (String::from("user.name"), String::from("a")),
            (String::from("user.email"), String::from("b")),
            (String::from("pull.rebase"), String::from("true")),
        ]
    );
}

fn profile_args(key: Option<&str>, name: Option<&str>, email: Option<&str>) -> GitProfileArgs {
    GitProfileArgs {
        key: key.map(String::from),
        name: name.map(String::from),
        email: email.map(String::from),
        additions: vec![],
    }
}

#[test]
fn test_entry_git_profile_prefers_config() {
    let args = GitProfileKeyArgs {
        config: Some(String::from("work")),
        profile: profile_args(Some("k"), Some("n"), Some("e")),
    };
    match entry_git_profile(&args, None).unwrap() {
        GitProfileSelection::Predefined(k) => assert_eq!(k, "work"),
        _ => panic!("expected the predefined profile"),
    }
}

#[test]
fn test_entry_git_profile_falls_back_to_default() {
    let args = GitProfileKeyArgs {
        config: None,
        profile: profile_args(Some("k"), None, None),
    };
    match entry_git_profile(&args, Some("home")).unwrap() {
        GitProfileSelection::Predefined(k) => assert_eq!(k, "home"),
        _ => panic!("expected the default profile"),
    }
    assert_eq!(
        entry_git_profile(&args, None).unwrap_err(),
        GitError::MissingArgument
    );
}

#[test]
fn test_entry_git_dispatches() {
    let prefix = Prefix::new(String::from("/p"));
    let clone = GitArgs {
        command: GitCommand::Clone(GitCloneArgs {
            repo: String::from("https://git.test/owner/repo.git"),
            config: None,
            destination: None,
        }),
    };
    match entry_git(&clone, &prefix, None).unwrap() {
        GitPlan::Clone(plan) => {
            assert_eq!(plan.repo_url, "https://git.test/owner/repo.git");
            assert_eq!(plan.dir_name, "repo");
        }
        _ => panic!("expected a clone plan"),
    }
    let profile = GitArgs {
        command: GitCommand::Profile(GitProfileKeyArgs {
            config: Some(String::from("work")),
            profile: profile_args(None, None, None),
        }),
    };
    match entry_git(&profile, &prefix, None).unwrap() {
        GitPlan::Profile(GitProfileSelection::Predefined(k)) => assert_eq!(k, "work"),
        _ => panic!("expected a profile selection"),
    }
    let incomplete = GitArgs {
        command: GitCommand::Profile(GitProfileKeyArgs {
            config: None,
            profile: profile_args(None, None, None),
        }),
    };
    assert_eq!(
        entry_git(&incomplete, &prefix, None).unwrap_err(),
        GitError::MissingArgument
    );
}

#[test]
fn test_clone_plan_http() {
    let args = GitCloneArgs {
        repo: String::from("https://github.com/vnghia/dotfile-rs.git"),
        config: None,
        destination: None,
    };
    let prefix = Prefix::new(String::from("/p"));
    let plan = entry_git_clone(&args, &prefix, None).unwrap();
    assert_eq!(plan.repo_url, "https://github.com/vnghia/dotfile-rs.git");
    assert!(plan.stanza_path.is_none());
    assert_eq!(plan.dir_name, "dotfile-rs");
}

#[test]
fn test_clone_plan_profile_repo() {
    let args = GitCloneArgs {
        repo: String::from("username/repo"),
        config: Some(String::from("work")),
        destination: None,
    };
    let prefix = Prefix::new(String::from("/p"));
    let plan = entry_git_clone(&args, &prefix, None).unwrap();
    assert_eq!(plan.repo_url, "work:username/repo");
    assert_eq!(plan.stanza_path.unwrap(), "/p/.ssh/config.d/work");
    assert_eq!(plan.dir_name, "repo");
}

#[test]
fn test_clone_plan_bare_repo_gets_default_owner() {
    let args = GitCloneArgs {
        repo: String::from("repo"),
        config: None,
        destination: None,
    };
    let prefix = Prefix::new(String::from("/p"));
    let plan = entry_git_clone(&args, &prefix, Some("home")).unwrap();
    assert_eq!(plan.repo_url, "home:vnghia/repo");
    assert_eq!(plan.dir_name, "repo");
    assert_eq!(
        entry_git_clone(&args, &prefix, None).unwrap_err(),
        GitError::MissingArgument
    );
}
