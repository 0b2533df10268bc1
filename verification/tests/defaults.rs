use submission_archiver::{
    default_atcoder_out_dir, default_chunk_size, default_languages, default_once_template,
    default_per_chunk_template, default_per_file_template, default_request_interval_ms,
    default_state_dir,
};
use submission_archiver::{
    ArchiveTargets, AtCoderConfig, CommitMode, Config, GitConfig, LangRule, OutFormat, UseIndex,
};

#[test]
fn default_paths() {
    assert_eq!(default_state_dir(), ".submission-archiver/state");
    assert_eq!(default_atcoder_out_dir(), "archive/atcoder");
}

#[test]
fn default_numbers() {
    assert_eq!(default_request_interval_ms(), 400);
    assert_eq!(default_chunk_size(), 50);
}

#[test]
fn default_templates() {
    assert_eq!(
        default_per_file_template(),
        "[{platform}] archive({kind}): {contest_id}/{problem_id} ({id})"
    );
    assert_eq!(
        default_per_chunk_template(),
        "[{platform}] archive chunk: {count} files up to {last_id}"
    );
    assert_eq!(default_once_template(), "[{platform}] archive done: {total_files} files");
}

#[test]
fn default_languages_are_the_builtin_table_in_order() {
    let table = [
        ("TypeScript", "ts", "ts"),
        ("JavaScript", "js", "js"),
        ("C#", "cs", "cs"),
        ("C++", "cpp", "cpp"),
        ("Python", "py", "py"),
        ("PyPy", "py", "py"),
        ("Rust", "rs", "rs"),
        ("Go", "go", "go"),
        ("Java", "java", "java"),
        ("Kotlin", "kt", "kt"),
        ("Ruby", "rb", "rb"),
        ("Swift", "swift", "swift"),
        ("Haskell", "hs", "hs"),
        ("OCaml", "ml", "ml"),
        ("C", "c", "c"),
    ];
    let rules = default_languages();
    assert_eq!(rules.len(), 15);
    for (rule, (prefix, id, ext)) in rules.iter().zip(table.iter()) {
        assert_eq!(rule.prefix, *prefix);
        assert_eq!(rule.id, *id);
        assert_eq!(rule.ext, *ext);
    }
}

#[test]
fn python_and_pypy_are_two_rules_with_one_identifier() {
    let rules = default_languages();
    let python: Vec<&LangRule> = rules.iter().filter(|r| r.prefix == "Python").collect();
    let pypy: Vec<&LangRule> = rules.iter().filter(|r| r.prefix == "PyPy").collect();
    assert_eq!(python.len(), 1);
    assert_eq!(pypy.len(), 1);
    assert_eq!((python[0].id.as_str(), python[0].ext.as_str()), ("py", "py"));
    assert_eq!((pypy[0].id.as_str(), pypy[0].ext.as_str()), ("py", "py"));
    assert_ne!(python[0], pypy[0]);
}

#[test]
fn lang_rule_new_keeps_its_three_texts() {
    let rule = LangRule::new("Nim", "nim", "nims");
    assert_eq!(rule.prefix, "Nim");
    assert_eq!(rule.id, "nim");
    assert_eq!(rule.ext, "nims");
}

#[test]
fn enum_defaults() {
    assert_eq!(OutFormat::default(), OutFormat::File);
    assert_eq!(UseIndex::default(), UseIndex(false));
    assert_eq!(ArchiveTargets::default(), ArchiveTargets::Default);
    assert_eq!(CommitMode::default(), CommitMode::Never);
}

#[test]
fn git_config_default() {
    let git = GitConfig::default();
    assert_eq!(git.mode, CommitMode::Never);
    assert_eq!(git.chunk_size, 50);
    assert_eq!(git.per_file_template, default_per_file_template());
    assert_eq!(git.per_chunk_template, default_per_chunk_template());
    assert_eq!(git.once_template, default_once_template());
}

#[test]
fn atcoder_config_default() {
    let atcoder = AtCoderConfig::default();
    assert!(!atcoder.enable);
    assert_eq!(atcoder.user_id, "");
    assert_eq!(atcoder.out_dir, "archive/atcoder");
    assert_eq!(atcoder.out_format, OutFormat::File);
    assert_eq!(atcoder.use_index, UseIndex(false));
    assert_eq!(atcoder.archive_targets, ArchiveTargets::Default);
    assert_eq!(atcoder.request_interval_ms, 400);
    assert_eq!(atcoder.git, GitConfig::default());
    assert_eq!(atcoder.languages, default_languages());
}

#[test]
fn config_default() {
    let config = Config::default();
    assert_eq!(config.state_dir, ".submission-archiver/state");
    assert_eq!(config.atcoder, AtCoderConfig::default());
}

#[test]
fn out_format_tags() {
    assert_eq!(OutFormat::from_tag("file"), Some(OutFormat::File));
    assert_eq!(OutFormat::from_tag("directory"), Some(OutFormat::Directory));
    assert_eq!(OutFormat::from_tag("zip"), None);
    assert_eq!(OutFormat::from_tag("File"), None);
    assert_eq!(OutFormat::from_tag(""), None);
    assert_eq!(OutFormat::File.to_tag(), "file");
    assert_eq!(OutFormat::Directory.to_tag(), "directory");
}

#[test]
fn archive_targets_tags() {
    assert_eq!(ArchiveTargets::from_tag("all"), Some(ArchiveTargets::All));
    assert_eq!(ArchiveTargets::from_tag("ac_all"), Some(ArchiveTargets::AcAll));
    assert_eq!(ArchiveTargets::from_tag("ac_latest"), Some(ArchiveTargets::AcLatest));
    assert_eq!(ArchiveTargets::from_tag("default"), Some(ArchiveTargets::Default));
    assert_eq!(ArchiveTargets::from_tag("AcAll"), None);
    assert_eq!(ArchiveTargets::from_tag("ac-all"), None);
    for targets in [
        ArchiveTargets::All,
        ArchiveTargets::AcAll,
        ArchiveTargets::AcLatest,
        ArchiveTargets::Default,
    ] {
        assert_eq!(ArchiveTargets::from_tag(targets.to_tag()), Some(targets));
    }
}

#[test]
fn commit_mode_tags() {
    assert_eq!(CommitMode::from_tag("per_file"), Some(CommitMode::PerFile));
    assert_eq!(CommitMode::from_tag("per_chunk"), Some(CommitMode::PerChunk));
    assert_eq!(CommitMode::from_tag("once"), Some(CommitMode::Once));
    assert_eq!(CommitMode::from_tag("none"), Some(CommitMode::Never));
    assert_eq!(CommitMode::from_tag("never"), None);
    assert_eq!(CommitMode::Never.to_tag(), "none");
    for mode in [CommitMode::PerFile, CommitMode::PerChunk, CommitMode::Once, CommitMode::Never] {
        assert_eq!(CommitMode::from_tag(mode.to_tag()), Some(mode));
    }
}
