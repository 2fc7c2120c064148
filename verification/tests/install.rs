//! Tests of the binary installation subsystem: URL resolution, archive
//! extraction, the version table and the install pipeline.

use std::io::Write;

use dot::install::binary::{ArchiveType, Binary, DownloadBuffer};
use dot::install::config::{resolve_version, InstallConfig, VersionTable};
use dot::install::{
    entry_install, InstallAction, InstallArgs, InstallError, InstallPipeline, InstallStage,
    BinaryArgs,
};
use dot::platform::{Cpu, Kernel, PlatformTokens};

fn linux_tokens() -> PlatformTokens {
    PlatformTokens::new(
        Kernel::Linux,
        Cpu::X86_64,
        String::from("x86_64-unknown-linux-gnu"),
    )
}

fn tool_descriptor(archive: Option<(ArchiveType, Option<Vec<String>>)>) -> Binary {
    Binary {
        name: String::from("tool"),
        url: String::from("https://example.test/tool-%VERSION%.tar.gz"),
        archive,
        version_arg: String::from("--version"),
    }
}

fn tar_gz_fixture(name: &str, content: &[u8], mode: u32) -> Vec<u8> {
    let mut tar_bytes = Vec::new();
    {
        let mut builder = tar::Builder::new(&mut tar_bytes);
        let mut header = tar::Header::new_gnu();
        header.set_size(content.len() as u64);
        header.set_mode(mode);
        header.set_cksum();
        builder.append_data(&mut header, name, content).unwrap();
        builder.finish().unwrap();
    }
    let mut encoder = flate2::write::GzEncoder::new(Vec::new(), flate2::Compression::default());
    encoder.write_all(&tar_bytes).unwrap();
    encoder.finish().unwrap()
}

fn gz_fixture(content: &[u8]) -> Vec<u8> {
    let mut encoder = flate2::write::GzEncoder::new(Vec::new(), flate2::Compression::default());
    encoder.write_all(content).unwrap();
    encoder.finish().unwrap()
}

/// Reads every regular file below `dir` back through an in-memory tar
/// archive: (file name, mode bits, content) triples.
fn dir_files(dir: &std::path::Path) -> Vec<(String, u32, Vec<u8>)> {
    let mut builder = tar::Builder::new(Vec::new());
    builder.append_dir_all("snap", dir).unwrap();
    builder.finish().unwrap();
    let bytes = builder.into_inner().unwrap();
    let mut archive = tar::Archive::new(&bytes[..]);
    let mut files = Vec::new();
    for entry in archive.entries().unwrap() {
        let mut entry = entry.unwrap();
        if entry.header().entry_type().is_file() {
            let name = entry
                .path()
                .unwrap()
                .file_name()
                .unwrap()
                .to_str()
                .unwrap()
                .to_string();
            let mode = entry.header().mode().unwrap() & 0o777;
            let mut content = Vec::new();
            std::io::Read::read_to_end(&mut entry, &mut content).unwrap();
            files.push((name, mode, content));
        }
    }
    files
}

#[test]
fn test_resolve_url_single_placeholder() {
    let binary = tool_descriptor(None);
    let url = binary.resolve_url("1.2.3");
    assert_eq!(url, "https://example.test/tool-1.2.3.tar.gz");
}

#[test]
fn test_resolve_url_no_placeholder() {
    let binary = Binary {
        name: String::from("tool"),
        url: String::from("https://example.test/latest/tool"),
        archive: None,
        version_arg: String::from("--version"),
    };
    assert_eq!(binary.resolve_url("9.9.9"), "https://example.test/latest/tool");
}

#[test]
fn test_resolve_url_repeated_placeholder() {
    let binary = Binary {
        name: String::from("croc"),
        url: String::from("https://example.test/v%VERSION%/croc_v%VERSION%_Linux-64bit.tar.gz"),
        archive: None,
        version_arg: String::from("--version"),
    };
    assert_eq!(
        binary.resolve_url("10.0.0"),
        "https://example.test/v10.0.0/croc_v10.0.0_Linux-64bit.tar.gz"
    );
}

#[test]
fn test_extract_tar_gz_writes_file() {
    let content = b"#!/bin/sh\necho tool\n";
    let data = tar_gz_fixture("tool", content, 0o755);
    let dir = tempfile::TempDir::new().unwrap();
    let dest = dir.path().to_str().unwrap();
    let out = ArchiveType::TarGz.extract(&data, dest).unwrap();
    assert!(out.is_none());
    let files = dir_files(dir.path());
    assert_eq!(files.len(), 1);
    assert_eq!(files[0].0, "tool");
    assert_eq!(files[0].1, 0o755);
    assert_eq!(files[0].2, content);
}

#[test]
fn test_extract_gz_returns_bytes_only() {
    let content: Vec<u8> = (0u8..=255).cycle().take(1000).collect();
    let data = gz_fixture(&content);
    assert_ne!(data, content);
    let dir = tempfile::TempDir::new().unwrap();
    let dest = dir.path().to_str().unwrap();
    let out = ArchiveType::Gz.extract(&data, dest).unwrap();
    assert_eq!(out.unwrap(), content);
    assert_eq!(dir_files(dir.path()).len(), 0);
}

#[test]
fn test_extract_malformed_is_archive_error() {
    let dir = tempfile::TempDir::new().unwrap();
    let dest = dir.path().to_str().unwrap();
    let garbage = b"this is not an archive at all";
    assert_eq!(
        ArchiveType::TarGz.extract(garbage, dest).unwrap_err(),
        InstallError::Archive
    );
    assert_eq!(ArchiveType::Gz.extract(garbage, dest).unwrap_err(), InstallError::Archive);
    assert_eq!(ArchiveType::Zip.extract(garbage, dest).unwrap_err(), InstallError::Archive);
}

#[test]
fn test_extract_zip_writes_file() {
    let content = b"zipped executable bytes";
    let mut cursor = std::io::Cursor::new(Vec::new());
    {
        let mut writer = zip::ZipWriter::new(&mut cursor);
        let options: zip::write::SimpleFileOptions = Default::default();
        writer.start_file("tool", options).unwrap();
        writer.write_all(content).unwrap();
        writer.finish().unwrap();
    }
    let data = cursor.into_inner();
    let dir = tempfile::TempDir::new().unwrap();
    let dest = dir.path().to_str().unwrap();
    let out = ArchiveType::Zip.extract(&data, dest).unwrap();
    assert!(out.is_none());
    let files = dir_files(dir.path());
    assert_eq!(files.len(), 1);
    assert_eq!(files[0].0, "tool");
    assert_eq!(files[0].2, content);
}

#[test]
fn test_pipeline_tar_gz_walkthrough() {
    let binary = tool_descriptor(Some((
        ArchiveType::TarGz,
        Some(vec![String::from("bin"), String::from("tool")]),
    )));
    let mut pipeline = InstallPipeline::new(binary, String::from("2.0.0"));
    match pipeline.current_action() {
        InstallAction::Fetch(url) => {
            assert_eq!(url, "https://example.test/tool-2.0.0.tar.gz");
        }
        _ => panic!("expected a fetch"),
    }
    pipeline.advance(true);
    assert!(matches!(pipeline.current_action(), InstallAction::Extract(ArchiveType::TarGz)));
    pipeline.advance(true);
    match pipeline.current_action() {
        InstallAction::Locate(segs) => assert_eq!(segs, vec!["bin", "tool"]),
        _ => panic!("expected a locate"),
    }
    pipeline.advance(true);
    match pipeline.current_action() {
        InstallAction::PlaceFile(segs) => assert_eq!(segs, vec!["bin", "tool"]),
        _ => panic!("expected a file placement"),
    }
    pipeline.advance(true);
    match pipeline.current_action() {
        InstallAction::SetMode(mode) => assert_eq!(mode, 0o777),
        _ => panic!("expected a mode change"),
    }
    pipeline.advance(true);
    match pipeline.current_action() {
        InstallAction::RunVersion(arg) => assert_eq!(arg, "--version"),
        _ => panic!("expected a verification run"),
    }
    pipeline.advance(true);
    assert!(matches!(pipeline.current_action(), InstallAction::Finish));
    assert_eq!(pipeline.stage, InstallStage::Done);
}

#[test]
fn test_install_scenario_tar_gz_end_to_end() {
    let content = b"#!/bin/sh\necho 2.0.0\n";
    let binary = Binary {
        name: String::from("tool"),
        url: String::from("https://example.test/tool-%VERSION%.tar.gz"),
        archive: Some((
            ArchiveType::TarGz,
            Some(vec![String::from("bin"), String::from("tool")]),
        )),
        version_arg: String::from("--version"),
    };
    let mut pipeline = InstallPipeline::new(binary, String::from("2.0.0"));

    let payload = match pipeline.current_action() {
        InstallAction::Fetch(url) => {
            assert_eq!(url, "https://example.test/tool-2.0.0.tar.gz");
            tar_gz_fixture("bin/tool", content, 0o755)
        }
        _ => panic!("expected a fetch"),
    };
    pipeline.advance(true);

    let scratch = tempfile::TempDir::new().unwrap();
    match pipeline.current_action() {
        InstallAction::Extract(kind) => {
            let out = kind.extract(&payload, scratch.path().to_str().unwrap()).unwrap();
            assert!(out.is_none());
        }
        _ => panic!("expected an extraction"),
    }
    pipeline.advance(true);

    match pipeline.current_action() {
        InstallAction::Locate(segs) => {
            assert_eq!(segs, vec!["bin", "tool"]);
            let files = dir_files(scratch.path());
            assert_eq!(files.len(), 1);
            assert_eq!(files[0].0, "tool");
            assert_eq!(files[0].2, content);
        }
        _ => panic!("expected a locate"),
    }
    pipeline.advance(true);
    assert!(matches!(pipeline.current_action(), InstallAction::PlaceFile(_)));
    pipeline.advance(true);
    assert!(matches!(pipeline.current_action(), InstallAction::SetMode(0o777)));
    pipeline.advance(true);
    match pipeline.current_action() {
        InstallAction::RunVersion(arg) => assert_eq!(arg, "--version"),
        _ => panic!("expected a verification run"),
    }
    pipeline.advance(true);
    assert_eq!(pipeline.stage, InstallStage::Done);
    pipeline.advance(true);
    assert_eq!(pipeline.stage, InstallStage::Done);
}

#[test]
fn test_pipeline_gz_decompresses_then_places_bytes() {
    let binary = Binary {
        name: String::from("rye"),
        url: String::from("https://example.test/rye-%VERSION%.gz"),
        archive: Some((ArchiveType::Gz, None)),
        version_arg: String::from("--version"),
    };
    let mut pipeline = InstallPipeline::new(binary, String::from("0.4.0"));
    pipeline.advance(true);
    assert!(matches!(pipeline.current_action(), InstallAction::Extract(ArchiveType::Gz)));
    pipeline.advance(true);
    assert!(matches!(pipeline.current_action(), InstallAction::PlaceBytes));
    pipeline.advance(true);
    assert!(matches!(pipeline.current_action(), InstallAction::SetMode(_)));
}

#[test]
fn test_download_buffer_accumulates_chunks() {
    let mut buffer = DownloadBuffer::new();
    assert_eq!(buffer.len(), 0);
    buffer.push_chunk(b"abc");
    buffer.push_chunk(b"");
    buffer.push_chunk(b"def");
    assert_eq!(buffer.len(), 6);
    assert_eq!(buffer.into_bytes(), b"abcdef");
}

#[test]
fn test_pipeline_raw_binary_places_payload() {
    let binary = tool_descriptor(None);
    let mut pipeline = InstallPipeline::new(binary, String::from("1.0.0"));
    pipeline.advance(true);
    assert!(matches!(pipeline.current_action(), InstallAction::PlaceBytes));
    pipeline.advance(true);
    assert!(matches!(pipeline.current_action(), InstallAction::SetMode(_)));
}

#[test]
fn test_pipeline_fetch_failure_is_network_error() {
    let binary = tool_descriptor(None);
    let mut pipeline = InstallPipeline::new(binary, String::from("1.0.0"));
    pipeline.advance(false);
    assert_eq!(pipeline.stage, InstallStage::Failed(InstallError::Network));
    assert!(matches!(pipeline.current_action(), InstallAction::Abort(InstallError::Network)));
    pipeline.advance(true);
    assert_eq!(pipeline.stage, InstallStage::Failed(InstallError::Network));
}

#[test]
fn test_pipeline_failures_name_their_stage() {
    let mut placing = InstallPipeline::new(tool_descriptor(None), String::from("1.0.0"));
    placing.advance(true);
    placing.advance(false);
    assert_eq!(placing.stage, InstallStage::Failed(InstallError::Filesystem));

    let mut extracting = InstallPipeline::new(
        tool_descriptor(Some((ArchiveType::TarGz, None))),
        String::from("1.0.0"),
    );
    extracting.advance(true);
    extracting.advance(false);
    assert_eq!(extracting.stage, InstallStage::Failed(InstallError::Archive));

    let mut verifying = InstallPipeline::new(tool_descriptor(None), String::from("1.0.0"));
    verifying.advance(true);
    verifying.advance(true);
    verifying.advance(true);
    verifying.advance(false);
    assert_eq!(verifying.stage, InstallStage::Failed(InstallError::Verification));
}

#[test]
fn test_version_table_local_override_wins() {
    let table = VersionTable::load("tool = \"1.0.0\"\n", Some("tool = \"1.0.1\"\n")).unwrap();
    assert_eq!(table.lookup("tool").unwrap(), "1.0.1");
    let resolved = resolve_version("tool", None, &table).unwrap();
    assert_eq!(resolved, "1.0.1");
}

#[test]
fn test_version_table_explicit_override() {
    let table = VersionTable::load("tool = \"1.0.0\"\n", None).unwrap();
    assert_eq!(resolve_version("tool", Some("2.0.0"), &table).unwrap(), "2.0.0");
}

#[test]
fn test_version_table_missing_key_is_config_error() {
    let table = VersionTable::load("tool = \"1.0.0\"\n", None).unwrap();
    assert_eq!(resolve_version("other", None, &table).unwrap_err(), InstallError::Config);
}

#[test]
fn test_version_table_bad_document_is_config_error() {
    assert_eq!(
        VersionTable::load("tool = [1, 2]\n", None).unwrap_err(),
        InstallError::Config
    );
    assert_eq!(
        VersionTable::load("tool = \"1.0.0\"\n", Some("not toml [")).unwrap_err(),
        InstallError::Config
    );
}

#[test]
fn test_entry_install_unknown_tool_version_is_config_error() {
    let tokens = linux_tokens();
    let table = VersionTable::new();
    let args = InstallArgs {
        configs: vec![InstallConfig::Starship],
        bin_version: None,
        binary: BinaryArgs {
            name: None,
            url: None,
            archive_type: None,
            archive_paths: None,
            version_arg: None,
        },
    };
    assert_eq!(entry_install(&args, &tokens, &table).unwrap_err(), InstallError::Config);
}

#[test]
fn test_starship_descriptor_url() {
    let tokens = linux_tokens();
    let binary = InstallConfig::Starship.descriptor(&tokens);
    assert_eq!(binary.name, "starship");
    assert_eq!(
        binary.resolve_url("1.2.3"),
        "https://github.com/starship/starship/releases/download/v1.2.3/starship-x86_64-unknown-linux-gnu.tar.gz"
    );
    assert_eq!(binary.version_arg, "--version");
}

#[test]
fn test_just_descriptor_uses_musl() {
    let tokens = linux_tokens();
    let binary = InstallConfig::Just.descriptor(&tokens);
    assert_eq!(
        binary.resolve_url("1.0.0"),
        "https://github.com/casey/just/releases/download/1.0.0/just-1.0.0-x86_64-unknown-linux-musl.tar.gz"
    );
}

#[test]
fn test_direnv_descriptor_tokens() {
    let tokens = linux_tokens();
    let binary = InstallConfig::Direnv.descriptor(&tokens);
    assert_eq!(
        binary.resolve_url("2.32.0"),
        "https://github.com/direnv/direnv/releases/download/v2.32.0/direnv.linux-amd64"
    );
    assert!(binary.archive.is_none());
}

#[test]
fn test_install_config_download_plans_job() {
    let tokens = linux_tokens();
    let table = VersionTable::load("zoxide = \"0.9.0\"\n", None).unwrap();
    let job = InstallConfig::Zoxide.download(&tokens, None, &table).unwrap();
    assert_eq!(job.version, "0.9.0");
    assert_eq!(job.binary.name, "zoxide");
    assert_eq!(
        job.binary.resolve_url(&job.version),
        "https://github.com/ajeetdsouza/zoxide/releases/download/v0.9.0/zoxide-0.9.0-x86_64-unknown-linux-musl.tar.gz"
    );
    assert_eq!(
        InstallConfig::Zoxide.download(&tokens, None, &VersionTable::new()).unwrap_err(),
        InstallError::Config
    );
}

#[test]
fn test_config_keys_round_trip() {
    let keys = [
        "starship", "direnv", "rye", "eza", "croc", "just", "skm", "dot", "zoxide", "zellij",
        "bat", "ripgrep",
    ];
    for key in keys {
        let config = InstallConfig::from_key(key).unwrap();
        assert_eq!(config.key(), key);
    }
    assert!(InstallConfig::from_key("unknown").is_none());
}

#[test]
fn test_entry_install_predefined_plan() {
    let tokens = linux_tokens();
    let table = VersionTable::load("starship = \"1.2.3\"\n", None).unwrap();
    let args = InstallArgs {
        configs: vec![InstallConfig::Starship],
        bin_version: None,
        binary: BinaryArgs {
            name: None,
            url: None,
            archive_type: None,
            archive_paths: None,
            version_arg: None,
        },
    };
    let jobs = entry_install(&args, &tokens, &table).unwrap();
    assert_eq!(jobs.len(), 1);
    assert_eq!(jobs[0].version, "1.2.3");
    assert_eq!(jobs[0].binary.name, "starship");
}

#[test]
fn test_entry_install_adhoc_requires_version() {
    let tokens = linux_tokens();
    let table = VersionTable::new();
    let args = InstallArgs {
        configs: vec![],
        bin_version: None,
        binary: BinaryArgs {
            name: Some(String::from("tool")),
            url: Some(String::from("https://example.test/tool")),
            archive_type: None,
            archive_paths: None,
            version_arg: Some(String::from("--version")),
        },
    };
    assert_eq!(entry_install(&args, &tokens, &table).unwrap_err(), InstallError::Config);
}

#[test]
fn test_binary_from_args_trims_version_arg() {
    let args = BinaryArgs {
        name: Some(String::from("tool")),
        url: Some(String::from("https://example.test/tool")),
        archive_type: None,
        archive_paths: None,
        version_arg: Some(String::from("^--version^")),
    };
    let binary = Binary::from_args(&args).unwrap();
    assert_eq!(binary.version_arg, "--version");
}

#[test]
fn test_binary_from_args_missing_url_is_config_error() {
    let args = BinaryArgs {
        name: Some(String::from("tool")),
        url: None,
        archive_type: None,
        archive_paths: None,
        version_arg: Some(String::from("--version")),
    };
    assert_eq!(Binary::from_args(&args).unwrap_err(), InstallError::Config);
}
