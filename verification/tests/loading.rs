use submission_archiver::{
    default_languages, ArchiveTargets, AtCoderConfig, CommitMode, Config, ConfigError, GitConfig,
    LangRule, OutFormat, ParseFault, UseIndex,
};

#[test]
fn empty_document_gives_defaults() {
    let config = Config::load_from_str("").unwrap();
    assert_eq!(config, Config::default());
    assert_eq!(config.state_dir, ".submission-archiver/state");
    assert!(!config.atcoder.enable);
    assert_eq!(config.atcoder.user_id, "");
    assert_eq!(config.atcoder.out_dir, "archive/atcoder");
    assert_eq!(config.atcoder.out_format, OutFormat::File);
    assert_eq!(config.atcoder.use_index, UseIndex(false));
    assert_eq!(config.atcoder.archive_targets, ArchiveTargets::Default);
    assert_eq!(config.atcoder.request_interval_ms, 400);
    assert_eq!(config.atcoder.git.mode, CommitMode::Never);
    assert_eq!(config.atcoder.git.chunk_size, 50);
    assert_eq!(config.atcoder.languages.len(), 15);
}

#[test]
fn comments_and_blank_lines_are_an_empty_document() {
    let config = Config::load_from_str("# nothing set\n\n").unwrap();
    assert_eq!(config, Config::default());
}

#[test]
fn document_with_user_id_alone_gives_defaults() {
    let config = Config::load_from_str("[atcoder]\nuser_id = \"tourist\"\n").unwrap();
    let mut expected = Config::default();
    expected.atcoder.user_id = "tourist".to_string();
    assert_eq!(config, expected);
}

#[test]
fn atcoder_table_without_user_id_loads_with_an_empty_account() {
    assert_eq!(Config::load_from_str("[atcoder]\n"), Ok(Config::default()));
    let config = Config::load_from_str("[atcoder]\nenable = true\n").unwrap();
    assert!(config.atcoder.enable);
    assert_eq!(config.atcoder.user_id, "");
}

#[test]
fn minimal_documents_need_no_user_id() {
    let config = Config::load_from_str("[atcoder]\nout_format = \"directory\"\n").unwrap();
    assert_eq!(config.atcoder.out_format, OutFormat::Directory);
    let config = Config::load_from_str("[atcoder.git]\nmode = \"per_chunk\"\n").unwrap();
    assert_eq!(config.atcoder.git.mode, CommitMode::PerChunk);
    assert_eq!(config.atcoder.git.chunk_size, 50);
    let text = "[[atcoder.languages]]\nmatch = \"Rust\"\nid = \"rs\"\next = \"rs\"\n";
    let config = Config::load_from_str(text).unwrap();
    assert_eq!(config.atcoder.languages, vec![LangRule::new("Rust", "rs", "rs")]);
}

#[test]
fn enable_true_with_user_id_reads_back_true() {
    let config =
        Config::load_from_str("[atcoder]\nenable = true\nuser_id = \"chokudai\"\n").unwrap();
    assert!(config.atcoder.enable);
    assert_eq!(config.atcoder.user_id, "chokudai");
}

#[test]
fn enable_true_with_empty_user_id_still_loads() {
    let config = Config::load_from_str("[atcoder]\nenable = true\nuser_id = \"\"\n").unwrap();
    assert!(config.atcoder.enable);
    assert_eq!(config.atcoder.user_id, "");
}

#[test]
fn out_format_directory_is_directory() {
    let config =
        Config::load_from_str("[atcoder]\nuser_id = \"u\"\nout_format = \"directory\"\n").unwrap();
    assert_eq!(config.atcoder.out_format, OutFormat::Directory);
    assert_ne!(config.atcoder.out_format, OutFormat::File);
}

#[test]
fn out_format_file_is_file() {
    let config =
        Config::load_from_str("[atcoder]\nuser_id = \"u\"\nout_format = \"file\"\n").unwrap();
    assert_eq!(config.atcoder.out_format, OutFormat::File);
}

#[test]
fn out_format_zip_is_a_parse_error() {
    let result = Config::load_from_str("[atcoder]\nuser_id = \"u\"\nout_format = \"zip\"\n");
    assert!(matches!(result, Err(ConfigError::Parse(ParseFault::Schema(_)))));
}

#[test]
fn custom_languages_replace_the_builtin_table() {
    let text = "\
[atcoder]
user_id = \"u\"

[[atcoder.languages]]
match = \"Nim\"
id = \"nim\"
ext = \"nim\"

[[atcoder.languages]]
match = \"C++\"
id = \"cxx\"
ext = \"cc\"
";
    let config = Config::load_from_str(text).unwrap();
    assert_eq!(
        config.atcoder.languages,
        vec![LangRule::new("Nim", "nim", "nim"), LangRule::new("C++", "cxx", "cc")]
    );
}

#[test]
fn languages_as_inline_tables_keep_their_order() {
    let text = "[atcoder]\nuser_id = \"u\"\nlanguages = [\n\
                { match = \"Zig\", id = \"zig\", ext = \"zig\" },\n\
                { ext = \"d\", id = \"dlang\", match = \"D\" },\n\
                { match = \"Zig\", id = \"zig\", ext = \"zig\" },\n]\n";
    let config = Config::load_from_str(text).unwrap();
    assert_eq!(
        config.atcoder.languages,
        vec![
            LangRule::new("Zig", "zig", "zig"),
            LangRule::new("D", "dlang", "d"),
            LangRule::new("Zig", "zig", "zig"),
        ]
    );
}

#[test]
fn empty_languages_list_is_an_empty_table() {
    let config = Config::load_from_str("[atcoder]\nuser_id = \"u\"\nlanguages = []\n").unwrap();
    assert!(config.atcoder.languages.is_empty());
}

#[test]
fn absent_languages_is_the_builtin_table() {
    let config = Config::load_from_str("[atcoder]\nuser_id = \"u\"\n").unwrap();
    assert_eq!(config.atcoder.languages, default_languages());
    assert_eq!(config.atcoder.languages[4], LangRule::new("Python", "py", "py"));
    assert_eq!(config.atcoder.languages[5], LangRule::new("PyPy", "py", "py"));
    assert_eq!(config.atcoder.languages[14], LangRule::new("C", "c", "c"));
}

#[test]
fn git_defaults_without_a_git_table() {
    let config = Config::load_from_str("[atcoder]\nuser_id = \"u\"\n").unwrap();
    assert_eq!(config.atcoder.git, GitConfig::default());
    assert_eq!(config.atcoder.git.mode, CommitMode::Never);
    assert_eq!(config.atcoder.git.chunk_size, 50);
}

#[test]
fn per_chunk_without_chunk_size_is_50() {
    let config =
        Config::load_from_str("[atcoder]\nuser_id = \"u\"\n[atcoder.git]\nmode = \"per_chunk\"\n")
            .unwrap();
    assert_eq!(config.atcoder.git.mode, CommitMode::PerChunk);
    assert_eq!(config.atcoder.git.chunk_size, 50);
}

#[test]
fn every_commit_mode_spelling_loads() {
    for (tag, mode) in [
        ("per_file", CommitMode::PerFile),
        ("per_chunk", CommitMode::PerChunk),
        ("once", CommitMode::Once),
        ("none", CommitMode::Never),
    ] {
        let text = format!("[atcoder]\nuser_id = \"u\"\ngit = {{ mode = \"{tag}\" }}\n");
        assert_eq!(Config::load_from_str(&text).unwrap().atcoder.git.mode, mode);
    }
}

#[test]
fn every_archive_targets_spelling_loads() {
    for (tag, targets) in [
        ("all", ArchiveTargets::All),
        ("ac_all", ArchiveTargets::AcAll),
        ("ac_latest", ArchiveTargets::AcLatest),
        ("default", ArchiveTargets::Default),
    ] {
        let text = format!("[atcoder]\nuser_id = \"u\"\narchive_targets = \"{tag}\"\n");
        assert_eq!(Config::load_from_str(&text).unwrap().atcoder.archive_targets, targets);
    }
}

#[test]
fn full_document_loads_every_field() {
    let text = "\
state_dir = \"/var/lib/archiver\"

[atcoder]
enable = true
user_id = \"rng_58\"
out_dir = \"out/ac\"
out_format = \"directory\"
use_index = true
archive_targets = \"ac_latest\"
request_interval_ms = 1500
languages = [{ match = \"Rust\", id = \"rs\", ext = \"rs\" }]

[atcoder.git]
mode = \"once\"
chunk_size = 7
per_file_template = \"one {id}\"
per_chunk_template = \"some {count}\"
once_template = \"all {total_files}\"
";
    let config = Config::load_from_str(text).unwrap();
    let expected = Config {
        state_dir: "/var/lib/archiver".to_string(),
        atcoder: AtCoderConfig {
            enable: true,
            user_id: "rng_58".to_string(),
            out_dir: "out/ac".to_string(),
            out_format: OutFormat::Directory,
            use_index: UseIndex(true),
            archive_targets: ArchiveTargets::AcLatest,
            request_interval_ms: 1500,
            git: GitConfig {
                mode: CommitMode::Once,
                chunk_size: 7,
                per_file_template: "one {id}".to_string(),
                per_chunk_template: "some {count}".to_string(),
                once_template: "all {total_files}".to_string(),
            },
            languages: vec![LangRule::new("Rust", "rs", "rs")],
        },
    };
    assert_eq!(config, expected);
}

#[test]
fn dotted_keys_and_inline_tables_load_alike() {
    let dotted = "atcoder.user_id = \"u\"\natcoder.git.chunk_size = 3\n";
    let inline = "atcoder = { user_id = \"u\", git = { chunk_size = 3 } }\n";
    let headed = "[atcoder]\nuser_id = \"u\"\n[atcoder.git]\nchunk_size = 3\n";
    let config = Config::load_from_str(dotted).unwrap();
    assert_eq!(config.atcoder.git.chunk_size, 3);
    assert_eq!(config, Config::load_from_str(inline).unwrap());
    assert_eq!(config, Config::load_from_str(headed).unwrap());
}

#[test]
fn unknown_keys_are_passed_over() {
    let text = "colour = \"red\"\n[atcoder]\nuser_id = \"u\"\nshoe_size = 43\n[codeforces]\nx = 1\n";
    let config = Config::load_from_str(text).unwrap();
    let mut expected = Config::default();
    expected.atcoder.user_id = "u".to_string();
    assert_eq!(config, expected);
}

#[test]
fn texts_keep_what_is_not_ascii() {
    let config =
        Config::load_from_str("state_dir = \"状態/ø\"\n[atcoder]\nuser_id = \"ユーザー\"\n").unwrap();
    assert_eq!(config.state_dir, "状態/ø");
    assert_eq!(config.atcoder.user_id, "ユーザー");
}

#[test]
fn empty_state_dir_is_kept() {
    let config = Config::load_from_str("state_dir = \"\"\n").unwrap();
    assert_eq!(config.state_dir, "");
}

#[test]
fn request_interval_takes_zero_and_the_largest_toml_number() {
    let zero = Config::load_from_str("[atcoder]\nuser_id = \"u\"\nrequest_interval_ms = 0\n");
    assert_eq!(zero.unwrap().atcoder.request_interval_ms, 0);
    let text = "[atcoder]\nuser_id = \"u\"\nrequest_interval_ms = 9223372036854775807\n";
    let config = Config::load_from_str(text).unwrap();
    assert_eq!(config.atcoder.request_interval_ms, 9223372036854775807);
}

#[test]
fn load_from_read_loads_the_text_that_was_read() {
    let read = Ok("[atcoder]\nuser_id = \"u\"\nenable = true\n".to_string());
    let config = Config::load_from_read(read).unwrap();
    assert!(config.atcoder.enable);
    assert_eq!(config.atcoder.user_id, "u");
}

#[test]
fn load_from_read_keeps_the_reason_of_a_failed_read() {
    let read = Err("No such file or directory (os error 2)".to_string());
    assert_eq!(
        Config::load_from_read(read),
        Err(ConfigError::Io("No such file or directory (os error 2)".to_string()))
    );
}
