//! The configuration records, their mathematical views and their defaults.
//!
//! A path is held as the text that names it: nothing here touches the file
//! system, and the text is all that a document can say of a path.

use crate::document::same_text;
use vstd::prelude::*;

verus! {

/// The state directory of a document that names none.
pub const DEFAULT_STATE_DIR: &'static str = ".submission-archiver/state";

/// The archive directory for AtCoder of a document that names none.
pub const DEFAULT_ATCODER_OUT_DIR: &'static str = "archive/atcoder";

/// The least pause between two requests, in milliseconds, of a document that
/// gives none.
pub const DEFAULT_REQUEST_INTERVAL_MS: u64 = 400;

/// The number of files per commit of a document that gives none.
pub const DEFAULT_CHUNK_SIZE: usize = 50;

/// The commit message for one archived file. The words in braces are filled
/// in by whoever commits; nothing here reads them.
pub const DEFAULT_PER_FILE_TEMPLATE: &'static str =
    "[{platform}] archive({kind}): {contest_id}/{problem_id} ({id})";

/// The commit message for one chunk of archived files.
pub const DEFAULT_PER_CHUNK_TEMPLATE: &'static str =
    "[{platform}] archive chunk: {count} files up to {last_id}";

/// The commit message for a whole run.
pub const DEFAULT_ONCE_TEMPLATE: &'static str = "[{platform}] archive done: {total_files} files";

/// Whether a submission is archived as one file or as a directory.
#[derive(Debug, Clone, Copy, PartialEq, Eq)]
pub enum OutFormat {
    File,
    Directory,
}

/// Whether an index is written beside each archived submission.
#[derive(Debug, Clone, Copy, PartialEq, Eq)]
pub struct UseIndex(pub bool);

/// Which submissions are fetched.
#[derive(Debug, Clone, Copy, PartialEq, Eq)]
pub enum ArchiveTargets {
    All,
    AcAll,
    AcLatest,
    Default,
}

/// How archived files are grouped into commits.
#[derive(Debug, Clone, Copy, PartialEq, Eq)]
pub enum CommitMode {
    PerFile,
    PerChunk,
    Once,
    /// Nothing is committed; a document spells it `none`.
    Never,
}

/// Maps the start of a reported language name to a language identifier and a
/// file extension. In a list of rules the first whose prefix matches decides.
#[derive(Debug, Clone, PartialEq, Eq)]
pub struct LangRule {
    /// The start of the language name; a document spells the key `match`.
    pub prefix: String,
    pub id: String,
    pub ext: String,
}

/// How the archive is committed.
#[derive(Debug, Clone, PartialEq, Eq)]
pub struct GitConfig {
    pub mode: CommitMode,
    /// Files per commit; read only where `mode` is `PerChunk`.
    pub chunk_size: usize,
    /// The commit message where `mode` is `PerFile`.
    pub per_file_template: String,
    /// The commit message where `mode` is `PerChunk`.
    pub per_chunk_template: String,
    /// The commit message where `mode` is `Once`.
    pub once_template: String,
}

/// The options for AtCoder.
#[derive(Debug, Clone, PartialEq, Eq)]
pub struct AtCoderConfig {
    /// Whether AtCoder is archived at all.
    pub enable: bool,
    /// The account whose submissions are archived. It has no default: a
    /// document that names none gives the empty text, and a consumer refuses
    /// to work with `enable` set and this empty. That refusal is another
    /// matter than `enable` being off.
    pub user_id: String,
    /// Where the archive is written. Start-up does not create it.
    pub out_dir: String,
    pub out_format: OutFormat,
    pub use_index: UseIndex,
    pub archive_targets: ArchiveTargets,
    /// The least pause between two requests, in milliseconds.
    pub request_interval_ms: u64,
    pub git: GitConfig,
    /// The language rules, searched from the first. A list in the document
    /// stands in place of the built-in table, not beside it.
    pub languages: Vec<LangRule>,
}

/// The whole configuration.
#[derive(Debug, Clone, PartialEq, Eq)]
pub struct Config {
    /// Where the archiver keeps what it needs to go on after a stop. Start-up
    /// creates it.
    pub state_dir: String,
    pub atcoder: AtCoderConfig,
}

/// The mathematical value of a [`LangRule`].
pub struct LangRuleView {
    pub prefix: Seq<char>,
    pub id: Seq<char>,
    pub ext: Seq<char>,
}

/// The mathematical value of a [`GitConfig`].
pub struct GitConfigView {
    pub mode: CommitMode,
    pub chunk_size: usize,
    pub per_file_template: Seq<char>,
    pub per_chunk_template: Seq<char>,
    pub once_template: Seq<char>,
}

/// The mathematical value of an [`AtCoderConfig`].
pub struct AtCoderConfigView {
    pub enable: bool,
    pub user_id: Seq<char>,
    pub out_dir: Seq<char>,
    pub out_format: OutFormat,
    pub use_index: UseIndex,
    pub archive_targets: ArchiveTargets,
    pub request_interval_ms: u64,
    pub git: GitConfigView,
    pub languages: Seq<LangRuleView>,
}

/// The mathematical value of a [`Config`].
pub struct ConfigView {
    pub state_dir: Seq<char>,
    pub atcoder: AtCoderConfigView,
}

impl View for LangRule {
    type V = LangRuleView;

    open spec fn view(&self) -> LangRuleView {
        LangRuleView { prefix: self.prefix@, id: self.id@, ext: self.ext@ }
    }
}

/// The views of a list of rules, in the list's order.
pub open spec fn rules_view(rules: Seq<LangRule>) -> Seq<LangRuleView> {
    Seq::new(rules.len(), |i: int| rules[i]@)
}

impl View for GitConfig {
    type V = GitConfigView;

    open spec fn view(&self) -> GitConfigView {
        GitConfigView {
            mode: self.mode,
            chunk_size: self.chunk_size,
            per_file_template: self.per_file_template@,
            per_chunk_template: self.per_chunk_template@,
            once_template: self.once_template@,
        }
    }
}

impl View for AtCoderConfig {
    type V = AtCoderConfigView;

    open spec fn view(&self) -> AtCoderConfigView {
        AtCoderConfigView {
            enable: self.enable,
            user_id: self.user_id@,
            out_dir: self.out_dir@,
            out_format: self.out_format,
            use_index: self.use_index,
            archive_targets: self.archive_targets,
            request_interval_ms: self.request_interval_ms,
            git: self.git@,
            languages: rules_view(self.languages@),
        }
    }
}

impl View for Config {
    type V = ConfigView;

    open spec fn view(&self) -> ConfigView {
        ConfigView { state_dir: self.state_dir@, atcoder: self.atcoder@ }
    }
}

/// The rule that sends names starting with `prefix` to `id` and `ext`.
pub open spec fn rule_of(prefix: &str, id: &str, ext: &str) -> LangRuleView {
    LangRuleView { prefix: prefix@, id: id@, ext: ext@ }
}

/// The built-in language table, in the order in which it is searched.
pub open spec fn builtin_rules() -> Seq<LangRuleView> {
    seq![
        rule_of("TypeScript", "ts", "ts"),
        rule_of("JavaScript", "js", "js"),
        rule_of("C#", "cs", "cs"),
        rule_of("C++", "cpp", "cpp"),
        rule_of("Python", "py", "py"),
        rule_of("PyPy", "py", "py"),
        rule_of("Rust", "rs", "rs"),
        rule_of("Go", "go", "go"),
        rule_of("Java", "java", "java"),
        rule_of("Kotlin", "kt", "kt"),
        rule_of("Ruby", "rb", "rb"),
        rule_of("Swift", "swift", "swift"),
        rule_of("Haskell", "hs", "hs"),
        rule_of("OCaml", "ml", "ml"),
        rule_of("C", "c", "c"),
    ]
}

impl GitConfigView {
    /// The commit options of a document that has no `git` table.
    pub open spec fn defaults() -> GitConfigView {
        GitConfigView {
            mode: CommitMode::Never,
            chunk_size: DEFAULT_CHUNK_SIZE,
            per_file_template: DEFAULT_PER_FILE_TEMPLATE@,
            per_chunk_template: DEFAULT_PER_CHUNK_TEMPLATE@,
            once_template: DEFAULT_ONCE_TEMPLATE@,
        }
    }
}

impl AtCoderConfigView {
    /// The AtCoder options of a document that has no `atcoder` table.
    pub open spec fn defaults() -> AtCoderConfigView {
        AtCoderConfigView {
            enable: false,
            user_id: Seq::empty(),
            out_dir: DEFAULT_ATCODER_OUT_DIR@,
            out_format: OutFormat::File,
            use_index: UseIndex(false),
            archive_targets: ArchiveTargets::Default,
            request_interval_ms: DEFAULT_REQUEST_INTERVAL_MS,
            git: GitConfigView::defaults(),
            languages: builtin_rules(),
        }
    }
}

impl ConfigView {
    /// The configuration of the empty document.
    pub open spec fn defaults() -> ConfigView {
        ConfigView { state_dir: DEFAULT_STATE_DIR@, atcoder: AtCoderConfigView::defaults() }
    }
}

/// Where the archiver keeps its own state, where the document names no place.
pub fn default_state_dir() -> (r: String)
    ensures
        r@ == DEFAULT_STATE_DIR@,
{
    DEFAULT_STATE_DIR.to_owned()
}

/// Where AtCoder submissions are archived, where the document names no place.
pub fn default_atcoder_out_dir() -> (r: String)
    ensures
        r@ == DEFAULT_ATCODER_OUT_DIR@,
{
    DEFAULT_ATCODER_OUT_DIR.to_owned()
}

/// The pause between two requests, in milliseconds, where the document gives
/// none.
pub fn default_request_interval_ms() -> (r: u64)
    ensures
        r == DEFAULT_REQUEST_INTERVAL_MS,
        r == 400,
{
    DEFAULT_REQUEST_INTERVAL_MS
}

/// The number of files per commit, where the document gives none.
pub fn default_chunk_size() -> (r: usize)
    ensures
        r == DEFAULT_CHUNK_SIZE,
        r == 50,
{
    DEFAULT_CHUNK_SIZE
}

/// The commit message for one archived file.
pub fn default_per_file_template() -> (r: String)
    ensures
        r@ == DEFAULT_PER_FILE_TEMPLATE@,
{
    DEFAULT_PER_FILE_TEMPLATE.to_owned()
}

/// The commit message for one chunk of archived files.
pub fn default_per_chunk_template() -> (r: String)
    ensures
        r@ == DEFAULT_PER_CHUNK_TEMPLATE@,
{
    DEFAULT_PER_CHUNK_TEMPLATE.to_owned()
}

/// The commit message for a whole run.
pub fn default_once_template() -> (r: String)
    ensures
        r@ == DEFAULT_ONCE_TEMPLATE@,
{
    DEFAULT_ONCE_TEMPLATE.to_owned()
}

impl OutFormat {
    /// The variant that a document spells `tag`.
    pub open spec fn of_tag(tag: Seq<char>) -> Option<OutFormat> {
        if tag == "file"@ {
            Some(OutFormat::File)
        } else if tag == "directory"@ {
            Some(OutFormat::Directory)
        } else {
            None
        }
    }

    /// How a document spells the variant.
    pub open spec fn tag(self) -> Seq<char> {
        match self {
            OutFormat::File => "file"@,
            OutFormat::Directory => "directory"@,
        }
    }

    /// Reads a variant from its spelling; `None` for any other text.
    pub fn from_tag(tag: &str) -> (r: Option<OutFormat>)
        ensures
            r == Self::of_tag(tag@),
    {
        if same_text(tag, "file") {
            Some(OutFormat::File)
        } else if same_text(tag, "directory") {
            Some(OutFormat::Directory)
        } else {
            None
        }
    }

    /// The spelling of the variant.
    pub fn to_tag(&self) -> (r: &'static str)
        ensures
            r@ == self.tag(),
    {
        match self {
            OutFormat::File => "file",
            OutFormat::Directory => "directory",
        }
    }
}

impl ArchiveTargets {
    /// The variant that a document spells `tag`.
    pub open spec fn of_tag(tag: Seq<char>) -> Option<ArchiveTargets> {
        if tag == "all"@ {
            Some(ArchiveTargets::All)
        } else if tag == "ac_all"@ {
            Some(ArchiveTargets::AcAll)
        } else if tag == "ac_latest"@ {
            Some(ArchiveTargets::AcLatest)
        } else if tag == "default"@ {
            Some(ArchiveTargets::Default)
        } else {
            None
        }
    }

    /// How a document spells the variant.
    pub open spec fn tag(self) -> Seq<char> {
        match self {
            ArchiveTargets::All => "all"@,
            ArchiveTargets::AcAll => "ac_all"@,
            ArchiveTargets::AcLatest => "ac_latest"@,
            ArchiveTargets::Default => "default"@,
        }
    }

    /// Reads a variant from its spelling; `None` for any other text.
    pub fn from_tag(tag: &str) -> (r: Option<ArchiveTargets>)
        ensures
            r == Self::of_tag(tag@),
    {
        if same_text(tag, "all") {
            Some(ArchiveTargets::All)
        } else if same_text(tag, "ac_all") {
            Some(ArchiveTargets::AcAll)
        } else if same_text(tag, "ac_latest") {
            Some(ArchiveTargets::AcLatest)
        } else if same_text(tag, "default") {
            Some(ArchiveTargets::Default)
        } else {
            None
        }
    }

    /// The spelling of the variant.
    pub fn to_tag(&self) -> (r: &'static str)
        ensures
            r@ == self.tag(),
    {
        match self {
            ArchiveTargets::All => "all",
            ArchiveTargets::AcAll => "ac_all",
            ArchiveTargets::AcLatest => "ac_latest",
            ArchiveTargets::Default => "default",
        }
    }
}

impl CommitMode {
    /// The variant that a document spells `tag`.
    pub open spec fn of_tag(tag: Seq<char>) -> Option<CommitMode> {
        if tag == "per_file"@ {
            Some(CommitMode::PerFile)
        } else if tag == "per_chunk"@ {
            Some(CommitMode::PerChunk)
        } else if tag == "once"@ {
            Some(CommitMode::Once)
        } else if tag == "none"@ {
            Some(CommitMode::Never)
        } else {
            None
        }
    }

    /// How a document spells the variant.
    pub open spec fn tag(self) -> Seq<char> {
        match self {
            CommitMode::PerFile => "per_file"@,
            CommitMode::PerChunk => "per_chunk"@,
            CommitMode::Once => "once"@,
            CommitMode::Never => "none"@,
        }
    }

    /// Reads a variant from its spelling; `None` for any other text.
    pub fn from_tag(tag: &str) -> (r: Option<CommitMode>)
        ensures
            r == Self::of_tag(tag@),
    {
        if same_text(tag, "per_file") {
            Some(CommitMode::PerFile)
        } else if same_text(tag, "per_chunk") {
            Some(CommitMode::PerChunk)
        } else if same_text(tag, "once") {
            Some(CommitMode::Once)
        } else if same_text(tag, "none") {
            Some(CommitMode::Never)
        } else {
            None
        }
    }

    /// The spelling of the variant.
    pub fn to_tag(&self) -> (r: &'static str)
        ensures
            r@ == self.tag(),
    {
        match self {
            CommitMode::PerFile => "per_file",
            CommitMode::PerChunk => "per_chunk",
            CommitMode::Once => "once",
            CommitMode::Never => "none",
        }
    }
}

impl AtCoderConfig {
    /// Whether both numbers of the options are such as a document can hold: a
    /// TOML number is at most `i64::MAX`.
    pub open spec fn writable(&self) -> bool {
        self.request_interval_ms <= i64::MAX && self.git.chunk_size <= i64::MAX
    }
}

impl LangRule {
    /// The rule that sends names starting with `prefix` to `id` and `ext`.
    pub fn new(prefix: &str, id: &str, ext: &str) -> (r: LangRule)
        ensures
            r@ == rule_of(prefix, id, ext),
    {
        LangRule { prefix: prefix.to_owned(), id: id.to_owned(), ext: ext.to_owned() }
    }
}

/// The built-in language table: fifteen rules, searched from the first.
/// `Python` and `PyPy` are rules of their own with one identifier, and `C`
/// comes last, behind `C#` and `C++`, whose names it would match too.
pub fn default_languages() -> (r: Vec<LangRule>)
    ensures
        rules_view(r@) == builtin_rules(),
        r@.len() == 15,
{
    let mut rules: Vec<LangRule> = Vec::new();
    rules.push(LangRule::new("TypeScript", "ts", "ts"));
    rules.push(LangRule::new("JavaScript", "js", "js"));
    rules.push(LangRule::new("C#", "cs", "cs"));
    rules.push(LangRule::new("C++", "cpp", "cpp"));
    rules.push(LangRule::new("Python", "py", "py"));
    rules.push(LangRule::new("PyPy", "py", "py"));
    rules.push(LangRule::new("Rust", "rs", "rs"));
    rules.push(LangRule::new("Go", "go", "go"));
    rules.push(LangRule::new("Java", "java", "java"));
    rules.push(LangRule::new("Kotlin", "kt", "kt"));
    rules.push(LangRule::new("Ruby", "rb", "rb"));
    rules.push(LangRule::new("Swift", "swift", "swift"));
    rules.push(LangRule::new("Haskell", "hs", "hs"));
    rules.push(LangRule::new("OCaml", "ml", "ml"));
    rules.push(LangRule::new("C", "c", "c"));
    assert(rules_view(rules@) =~= builtin_rules());
    rules
}

impl Default for OutFormat {
    fn default() -> (r: Self)
        ensures
            r == OutFormat::File,
    {
        OutFormat::File
    }
}

impl Default for UseIndex {
    fn default() -> (r: Self)
        ensures
            r == UseIndex(false),
    {
        UseIndex(false)
    }
}

impl Default for ArchiveTargets {
    fn default() -> (r: Self)
        ensures
            r == ArchiveTargets::Default,
    {
        ArchiveTargets::Default
    }
}

impl Default for CommitMode {
    fn default() -> (r: Self)
        ensures
            r == CommitMode::Never,
    {
        CommitMode::Never
    }
}

impl Default for GitConfig {
    fn default() -> (r: Self)
        ensures
            r@ == GitConfigView::defaults(),
            r.chunk_size == 50,
    {
        GitConfig {
            mode: CommitMode::Never,
            chunk_size: default_chunk_size(),
            per_file_template: default_per_file_template(),
            per_chunk_template: default_per_chunk_template(),
            once_template: default_once_template(),
        }
    }
}

impl Default for AtCoderConfig {
    fn default() -> (r: Self)
        ensures
            r@ == AtCoderConfigView::defaults(),
            r.writable(),
    {
        AtCoderConfig {
            enable: false,
            user_id: String::new(),
            out_dir: default_atcoder_out_dir(),
            out_format: OutFormat::File,
            use_index: UseIndex(false),
            archive_targets: ArchiveTargets::Default,
            request_interval_ms: default_request_interval_ms(),
            git: GitConfig::default(),
            languages: default_languages(),
        }
    }
}

impl Default for Config {
    fn default() -> (r: Self)
        ensures
            r@ == ConfigView::defaults(),
    {
        Config { state_dir: default_state_dir(), atcoder: AtCoderConfig::default() }
    }
}

} // verus!
