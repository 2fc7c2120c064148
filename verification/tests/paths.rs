//! Tests of string utilities, the prefix layout, platform tokens and the
//! rendered shell environment file.

use dot::init::zsh::generate_zshenv;
use dot::platform::{Cpu, Kernel, PlatformTokens};
use dot::prefix::Prefix;
use dot::utils::{parse_addition, replace_all, strip_prefix_str, trim_matches, trimmed};

#[test]
fn test_parse_addition_splits_at_first_equals() {
    let (k, v) = parse_addition("key=value=more").unwrap();
    assert_eq!(k, "key");
    assert_eq!(v, "value=more");
}

#[test]
fn test_parse_addition_rejects_plain_text() {
    assert_eq!(
        parse_addition("no separator").unwrap_err(),
        "--addition must have format k=v"
    );
}

#[test]
fn test_replace_all_is_left_to_right() {
    assert_eq!(replace_all("aaa", "aa", "b"), "ba");
    assert_eq!(replace_all("gnu and gnu", "gnu", "musl"), "musl and musl");
    assert_eq!(replace_all("unchanged", "missing", "x"), "unchanged");
}

#[test]
fn test_trimmed_removes_surrounding_whitespace() {
    assert_eq!(trimmed("  \tword \r\n"), "word");
    assert_eq!(trimmed("   "), "");
}

#[test]
fn test_trim_matches_strips_carets() {
    assert_eq!(trim_matches("^--version^", '^'), "--version");
    assert_eq!(trim_matches("--version", '^'), "--version");
}

#[test]
fn test_strip_prefix_str() {
    assert_eq!(
        strip_prefix_str("file:///tmp/repo", "file://").unwrap(),
        "/tmp/repo"
    );
    assert!(strip_prefix_str("https://x", "file://").is_none());
}

#[test]
fn test_prefix_layout() {
    let prefix = Prefix::new(String::from("/home/me"));
    assert_eq!(prefix.prefix(), "/home/me");
    assert_eq!(prefix.dot(), "/home/me/.dot");
    assert_eq!(prefix.ssh(), "/home/me/.ssh");
    assert_eq!(prefix.ssh_config(), "/home/me/.ssh/config.d");
    assert_eq!(prefix.code(), "/home/me/code");
    assert_eq!(prefix.local(), "/home/me/.dot/.local");
    assert_eq!(prefix.bin(), "/home/me/.dot/.local/bin");
    assert_eq!(prefix.skm(), "/home/me/.dot/.local/skm");
    assert_eq!(prefix.config(), "/home/me/.dot/config");
    assert_eq!(prefix.config_git(), "/home/me/.dot/config/git");
    assert_eq!(prefix.config_ssh(), "/home/me/.dot/config/ssh");
    assert_eq!(prefix.config_binary(), "/home/me/.dot/config/binary");
}

#[test]
fn test_platform_tokens() {
    let linux = PlatformTokens::new(
        Kernel::Linux,
        Cpu::X86_64,
        String::from("x86_64-unknown-linux-gnu"),
    );
    assert_eq!(linux.os_uname(), "linux");
    assert_eq!(linux.os_full(), "linux");
    assert_eq!(linux.os_croc(), "Linux");
    assert_eq!(linux.os_pascal_uname(), "Linux");
    assert_eq!(linux.arch_short(), "amd64");
    assert_eq!(linux.arch_full(), "x86_64");
    assert_eq!(linux.arch_croc(), "64bit");
    let mac = PlatformTokens::new(
        Kernel::MacOs,
        Cpu::Aarch64,
        String::from("aarch64-apple-darwin"),
    );
    assert_eq!(mac.os_uname(), "darwin");
    assert_eq!(mac.os_full(), "macos");
    assert_eq!(mac.os_croc(), "macOS");
    assert_eq!(mac.os_pascal_uname(), "Darwin");
    assert_eq!(mac.arch_short(), "arm64");
    assert_eq!(mac.arch_full(), "aarch64");
    assert_eq!(mac.arch_croc(), "ARM64");
}

#[test]
fn test_generate_zshenv_content() {
    let plan = generate_zshenv(
        "/home/me",
        "/home/me/.dot",
        "/home/me/code",
        "/home/me/.dot/.local",
        "/home/me/.dot/.local/bin",
        None,
    );
    assert_eq!(plan.path, "/home/me/.zshenv");
    assert_eq!(
        plan.content,
        "# AUTO GENERATED FILE. DO NOT EDIT\n\n\
         export DOTDIR=/home/me/.dot\n\
         export CODEDIR=/home/me/code\n\
         export LOCALDIR=/home/me/.dot/.local\n\
         export BINDIR=/home/me/.dot/.local/bin\n\
         export SHDIR=/home/me/.dot/shell/common\n\
         export ZDOTDIR=/home/me/.dot/shell/zsh\n"
    );
}

#[test]
fn test_generate_zshenv_custom_rc_file() {
    let plan = generate_zshenv("/p", "/p/.dot", "/p/code", "/p/l", "/p/b", Some(".zshenv2"));
    assert_eq!(plan.path, "/p/.zshenv2");
}
