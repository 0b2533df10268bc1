//! The schema: which keys a configuration document may hold, what each must
//! be, and what stands in for a key that is absent.
//!
//! [`resolve`] is the rule as a function from a document to a configuration or
//! to the first fault, the fields taken in the order in which the records
//! declare them. [`Config::from_document`] computes it.

use crate::config::{
    builtin_rules, default_atcoder_out_dir, default_chunk_size, default_languages,
    default_once_template, default_per_chunk_template, default_per_file_template,
    default_request_interval_ms, default_state_dir, rules_view,
};
use crate::config::{
    ArchiveTargets, AtCoderConfig, AtCoderConfigView, CommitMode, Config, ConfigView, GitConfig,
    GitConfigView, LangRule, LangRuleView, OutFormat, UseIndex,
};
use crate::config::{
    DEFAULT_ATCODER_OUT_DIR, DEFAULT_CHUNK_SIZE, DEFAULT_ONCE_TEMPLATE,
    DEFAULT_PER_CHUNK_TEMPLATE, DEFAULT_PER_FILE_TEMPLATE, DEFAULT_REQUEST_INTERVAL_MS,
    DEFAULT_STATE_DIR,
};
use crate::document::{entries_view, find, items_view, lemma_list_view, lemma_table_view, lookup};
use crate::document::{Entries, Item, ItemView};
use crate::error::{fail, Field, Flaw, SchemaError};
use vstd::prelude::*;

verus! {

impl Field {
    /// The key under which the field stands in its table; empty for a place
    /// that is no entry of a table.
    pub open spec fn key(self) -> Seq<char> {
        match self {
            Field::Document => ""@,
            Field::StateDir => "state_dir"@,
            Field::Atcoder => "atcoder"@,
            Field::Enable => "enable"@,
            Field::UserId => "user_id"@,
            Field::OutDir => "out_dir"@,
            Field::OutFormat => "out_format"@,
            Field::UseIndex => "use_index"@,
            Field::ArchiveTargets => "archive_targets"@,
            Field::RequestIntervalMs => "request_interval_ms"@,
            Field::Git => "git"@,
            Field::Mode => "mode"@,
            Field::ChunkSize => "chunk_size"@,
            Field::PerFileTemplate => "per_file_template"@,
            Field::PerChunkTemplate => "per_chunk_template"@,
            Field::OnceTemplate => "once_template"@,
            Field::Languages => "languages"@,
            Field::Rule => ""@,
            Field::RuleMatch => "match"@,
            Field::RuleId => "id"@,
            Field::RuleExt => "ext"@,
        }
    }

    /// Whether the field is an entry of a table, and so has a key.
    pub open spec fn keyed(self) -> bool {
        self != Field::Document && self != Field::Rule
    }

    /// The field's key as text.
    pub fn name(&self) -> (r: &'static str)
        ensures
            r@ == self.key(),
    {
        match self {
            Field::Document => "",
            Field::StateDir => "state_dir",
            Field::Atcoder => "atcoder",
            Field::Enable => "enable",
            Field::UserId => "user_id",
            Field::OutDir => "out_dir",
            Field::OutFormat => "out_format",
            Field::UseIndex => "use_index",
            Field::ArchiveTargets => "archive_targets",
            Field::RequestIntervalMs => "request_interval_ms",
            Field::Git => "git",
            Field::Mode => "mode",
            Field::ChunkSize => "chunk_size",
            Field::PerFileTemplate => "per_file_template",
            Field::PerChunkTemplate => "per_chunk_template",
            Field::OnceTemplate => "once_template",
            Field::Languages => "languages",
            Field::Rule => "",
            Field::RuleMatch => "match",
            Field::RuleId => "id",
            Field::RuleExt => "ext",
        }
    }
}

/// A text field: the text under the key; the default where the key is absent,
/// or `Missing` where there is none.
pub open spec fn text_at(entries: Entries, field: Field, default: Option<Seq<char>>) -> Result<
    Seq<char>,
    SchemaError,
> {
    match lookup(entries, field.key()) {
        None => match default {
            Some(text) => Ok(text),
            None => fail(field, Flaw::Missing),
        },
        Some(ItemView::Text(text)) => Ok(text),
        Some(_) => fail(field, Flaw::WrongType),
    }
}

/// A flag field: the flag under the key, or the default.
pub open spec fn flag_at(entries: Entries, field: Field, default: bool) -> Result<
    bool,
    SchemaError,
> {
    match lookup(entries, field.key()) {
        None => Ok(default),
        Some(ItemView::Flag(flag)) => Ok(flag),
        Some(_) => fail(field, Flaw::WrongType),
    }
}

/// A counting field: the whole number under the key where it lies between 0
/// and `max`, or the default.
pub open spec fn count_at(entries: Entries, field: Field, default: int, max: int) -> Result<
    int,
    SchemaError,
> {
    match lookup(entries, field.key()) {
        None => Ok(default),
        Some(ItemView::Integer(n)) => if 0 <= n <= max {
            Ok(n)
        } else {
            fail(field, Flaw::OutOfRange)
        },
        Some(_) => fail(field, Flaw::WrongType),
    }
}

/// `out_format`: one of its two spellings, or `File`.
pub open spec fn out_format_at(entries: Entries) -> Result<OutFormat, SchemaError> {
    match lookup(entries, Field::OutFormat.key()) {
        None => Ok(OutFormat::File),
        Some(ItemView::Text(tag)) => match OutFormat::of_tag(tag) {
            Some(format) => Ok(format),
            None => fail(Field::OutFormat, Flaw::UnknownTag),
        },
        Some(_) => fail(Field::OutFormat, Flaw::WrongType),
    }
}

/// `archive_targets`: one of its four spellings, or `Default`.
pub open spec fn archive_targets_at(entries: Entries) -> Result<ArchiveTargets, SchemaError> {
    match lookup(entries, Field::ArchiveTargets.key()) {
        None => Ok(ArchiveTargets::Default),
        Some(ItemView::Text(tag)) => match ArchiveTargets::of_tag(tag) {
            Some(targets) => Ok(targets),
            None => fail(Field::ArchiveTargets, Flaw::UnknownTag),
        },
        Some(_) => fail(Field::ArchiveTargets, Flaw::WrongType),
    }
}

/// `git.mode`: one of its four spellings, or `Never`.
pub open spec fn commit_mode_at(entries: Entries) -> Result<CommitMode, SchemaError> {
    match lookup(entries, Field::Mode.key()) {
        None => Ok(CommitMode::Never),
        Some(ItemView::Text(tag)) => match CommitMode::of_tag(tag) {
            Some(mode) => Ok(mode),
            None => fail(Field::Mode, Flaw::UnknownTag),
        },
        Some(_) => fail(Field::Mode, Flaw::WrongType),
    }
}

/// The commit options that a `git` table gives.
pub open spec fn resolve_git(entries: Entries) -> Result<GitConfigView, SchemaError> {
    let mode = commit_mode_at(entries);
    let chunk_size = count_at(
        entries,
        Field::ChunkSize,
        DEFAULT_CHUNK_SIZE as int,
        usize::MAX as int,
    );
    let per_file = text_at(entries, Field::PerFileTemplate, Some(DEFAULT_PER_FILE_TEMPLATE@));
    let per_chunk = text_at(entries, Field::PerChunkTemplate, Some(DEFAULT_PER_CHUNK_TEMPLATE@));
    let once = text_at(entries, Field::OnceTemplate, Some(DEFAULT_ONCE_TEMPLATE@));
    if mode is Err {
        Err(mode->Err_0)
    } else if chunk_size is Err {
        Err(chunk_size->Err_0)
    } else if per_file is Err {
        Err(per_file->Err_0)
    } else if per_chunk is Err {
        Err(per_chunk->Err_0)
    } else if once is Err {
        Err(once->Err_0)
    } else {
        Ok(
            GitConfigView {
                mode: mode->Ok_0,
                chunk_size: chunk_size->Ok_0 as usize,
                per_file_template: per_file->Ok_0,
                per_chunk_template: per_chunk->Ok_0,
                once_template: once->Ok_0,
            },
        )
    }
}

/// `git`: the options of the table under the key, or the defaults.
pub open spec fn git_at(entries: Entries) -> Result<GitConfigView, SchemaError> {
    match lookup(entries, Field::Git.key()) {
        None => Ok(GitConfigView::defaults()),
        Some(ItemView::Table(table)) => resolve_git(table),
        Some(_) => fail(Field::Git, Flaw::WrongType),
    }
}

/// The rule that one member of `languages` gives: a table with the three
/// texts `match`, `id` and `ext`, none of which has a default.
pub open spec fn resolve_rule(item: ItemView) -> Result<LangRuleView, SchemaError> {
    match item {
        ItemView::Table(entries) => {
            let prefix = text_at(entries, Field::RuleMatch, None);
            let id = text_at(entries, Field::RuleId, None);
            let ext = text_at(entries, Field::RuleExt, None);
            if prefix is Err {
                Err(prefix->Err_0)
            } else if id is Err {
                Err(id->Err_0)
            } else if ext is Err {
                Err(ext->Err_0)
            } else {
                Ok(LangRuleView { prefix: prefix->Ok_0, id: id->Ok_0, ext: ext->Ok_0 })
            }
        },
        _ => fail(Field::Rule, Flaw::WrongType),
    }
}

/// The rules that the first `upto` members of a list give, in the list's
/// order, or the fault of the first member that has one.
pub open spec fn resolve_rules(items: Seq<ItemView>, upto: int) -> Result<
    Seq<LangRuleView>,
    SchemaError,
>
    decreases upto,
{
    if upto <= 0 {
        Ok(Seq::empty())
    } else {
        match resolve_rules(items, upto - 1) {
            Err(e) => Err(e),
            Ok(rules) => match resolve_rule(items[upto - 1]) {
                Err(e) => Err(e),
                Ok(rule) => Ok(rules.push(rule)),
            },
        }
    }
}

/// `languages`: the rules of the list under the key, which replace the
/// built-in table as a whole, or the built-in table.
pub open spec fn languages_at(entries: Entries) -> Result<Seq<LangRuleView>, SchemaError> {
    match lookup(entries, Field::Languages.key()) {
        None => Ok(builtin_rules()),
        Some(ItemView::List(items)) => resolve_rules(items, items.len() as int),
        Some(_) => fail(Field::Languages, Flaw::WrongType),
    }
}

/// The AtCoder options that an `atcoder` table gives. A table without
/// `user_id` is not refused: the account is then the empty text, which is
/// also what a `user_id = ""` gives, with `enable` set or not. It is for the
/// consumer to refuse to work for an empty account.
pub open spec fn resolve_atcoder(entries: Entries) -> Result<AtCoderConfigView, SchemaError> {
    let enable = flag_at(entries, Field::Enable, false);
    let user_id = text_at(entries, Field::UserId, Some(Seq::empty()));
    let out_dir = text_at(entries, Field::OutDir, Some(DEFAULT_ATCODER_OUT_DIR@));
    let out_format = out_format_at(entries);
    let use_index = flag_at(entries, Field::UseIndex, false);
    let archive_targets = archive_targets_at(entries);
    let interval = count_at(
        entries,
        Field::RequestIntervalMs,
        DEFAULT_REQUEST_INTERVAL_MS as int,
        u64::MAX as int,
    );
    let git = git_at(entries);
    let languages = languages_at(entries);
    if enable is Err {
        Err(enable->Err_0)
    } else if user_id is Err {
        Err(user_id->Err_0)
    } else if out_dir is Err {
        Err(out_dir->Err_0)
    } else if out_format is Err {
        Err(out_format->Err_0)
    } else if use_index is Err {
        Err(use_index->Err_0)
    } else if archive_targets is Err {
        Err(archive_targets->Err_0)
    } else if interval is Err {
        Err(interval->Err_0)
    } else if git is Err {
        Err(git->Err_0)
    } else if languages is Err {
        Err(languages->Err_0)
    } else {
        Ok(
            AtCoderConfigView {
                enable: enable->Ok_0,
                user_id: user_id->Ok_0,
                out_dir: out_dir->Ok_0,
                out_format: out_format->Ok_0,
                use_index: UseIndex(use_index->Ok_0),
                archive_targets: archive_targets->Ok_0,
                request_interval_ms: interval->Ok_0 as u64,
                git: git->Ok_0,
                languages: languages->Ok_0,
            },
        )
    }
}

/// `atcoder`: the options of the table under the key, or the defaults.
pub open spec fn atcoder_at(entries: Entries) -> Result<AtCoderConfigView, SchemaError> {
    match lookup(entries, Field::Atcoder.key()) {
        None => Ok(AtCoderConfigView::defaults()),
        Some(ItemView::Table(table)) => resolve_atcoder(table),
        Some(_) => fail(Field::Atcoder, Flaw::WrongType),
    }
}

/// The configuration that a document gives, or its first fault. Keys that the
/// schema does not know are passed over.
pub open spec fn resolve(root: ItemView) -> Result<ConfigView, SchemaError> {
    match root {
        ItemView::Table(entries) => {
            let state_dir = text_at(entries, Field::StateDir, Some(DEFAULT_STATE_DIR@));
            let atcoder = atcoder_at(entries);
            if state_dir is Err {
                Err(state_dir->Err_0)
            } else if atcoder is Err {
                Err(atcoder->Err_0)
            } else {
                Ok(ConfigView { state_dir: state_dir->Ok_0, atcoder: atcoder->Ok_0 })
            }
        },
        _ => fail(Field::Document, Flaw::WrongType),
    }
}

/// Whether `got` is the value whose view `want` gives, or the fault that
/// `want` gives.
pub open spec fn agrees<T: View>(got: Result<T, SchemaError>, want: Result<T::V, SchemaError>) -> bool {
    match want {
        Ok(view) => got matches Ok(value) && value@ == view,
        Err(fault) => got matches Err(e) && e == fault,
    }
}

/// The view of a default that may be absent.
spec fn default_view(default: Option<String>) -> Option<Seq<char>> {
    match default {
        Some(text) => Some(text@),
        None => None,
    }
}

/// Reads a text field, as [`text_at`] says.
fn text_field(entries: &Vec<(String, Item)>, field: Field, default: Option<String>) -> (r: Result<
    String,
    SchemaError,
>)
    ensures
        agrees(r, text_at(entries_view(entries@), field, default_view(default))),
{
    match find(entries, field.name()) {
        None => match default {
            Some(text) => Ok(text),
            None => Err(SchemaError { field, flaw: Flaw::Missing }),
        },
        Some(Item::Text(text)) => Ok(text.clone()),
        Some(_) => Err(SchemaError { field, flaw: Flaw::WrongType }),
    }
}

/// Reads a flag field, as [`flag_at`] says.
fn flag_field(entries: &Vec<(String, Item)>, field: Field, default: bool) -> (r: Result<
    bool,
    SchemaError,
>)
    ensures
        r == flag_at(entries_view(entries@), field, default),
{
    match find(entries, field.name()) {
        None => Ok(default),
        Some(Item::Flag(flag)) => Ok(*flag),
        Some(_) => Err(SchemaError { field, flaw: Flaw::WrongType }),
    }
}

/// Reads a counting field that may be as large as a `u64`, as [`count_at`]
/// says.
fn u64_field(entries: &Vec<(String, Item)>, field: Field, default: u64) -> (r: Result<
    u64,
    SchemaError,
>)
    ensures
        match count_at(entries_view(entries@), field, default as int, u64::MAX as int) {
            Ok(n) => r matches Ok(v) && v == n,
            Err(fault) => r matches Err(e) && e == fault,
        },
        default <= i64::MAX ==> (r matches Ok(v) ==> v <= i64::MAX),
{
    match find(entries, field.name()) {
        None => Ok(default),
        Some(Item::Integer(n)) => if *n >= 0 {
            Ok(*n as u64)
        } else {
            Err(SchemaError { field, flaw: Flaw::OutOfRange })
        },
        Some(_) => Err(SchemaError { field, flaw: Flaw::WrongType }),
    }
}

/// Reads a counting field that may be as large as a `usize`, as [`count_at`]
/// says.
fn usize_field(entries: &Vec<(String, Item)>, field: Field, default: usize) -> (r: Result<
    usize,
    SchemaError,
>)
    ensures
        match count_at(entries_view(entries@), field, default as int, usize::MAX as int) {
            Ok(n) => r matches Ok(v) && v == n,
            Err(fault) => r matches Err(e) && e == fault,
        },
        default <= i64::MAX ==> (r matches Ok(v) ==> v <= i64::MAX),
{
    match find(entries, field.name()) {
        None => Ok(default),
        Some(Item::Integer(n)) => if *n >= 0 && *n as u64 <= usize::MAX as u64 {
            Ok(*n as usize)
        } else {
            Err(SchemaError { field, flaw: Flaw::OutOfRange })
        },
        Some(_) => Err(SchemaError { field, flaw: Flaw::WrongType }),
    }
}

/// Reads `out_format`.
fn out_format_field(entries: &Vec<(String, Item)>) -> (r: Result<OutFormat, SchemaError>)
    ensures
        r == out_format_at(entries_view(entries@)),
{
    match find(entries, Field::OutFormat.name()) {
        None => Ok(OutFormat::File),
        Some(Item::Text(tag)) => match OutFormat::from_tag(tag.as_str()) {
            Some(format) => Ok(format),
            None => Err(SchemaError { field: Field::OutFormat, flaw: Flaw::UnknownTag }),
        },
        Some(_) => Err(SchemaError { field: Field::OutFormat, flaw: Flaw::WrongType }),
    }
}

/// Reads `archive_targets`.
fn archive_targets_field(entries: &Vec<(String, Item)>) -> (r: Result<ArchiveTargets, SchemaError>)
    ensures
        r == archive_targets_at(entries_view(entries@)),
{
    match find(entries, Field::ArchiveTargets.name()) {
        None => Ok(ArchiveTargets::Default),
        Some(Item::Text(tag)) => match ArchiveTargets::from_tag(tag.as_str()) {
            Some(targets) => Ok(targets),
            None => Err(SchemaError { field: Field::ArchiveTargets, flaw: Flaw::UnknownTag }),
        },
        Some(_) => Err(SchemaError { field: Field::ArchiveTargets, flaw: Flaw::WrongType }),
    }
}

/// Reads `git.mode`.
fn commit_mode_field(entries: &Vec<(String, Item)>) -> (r: Result<CommitMode, SchemaError>)
    ensures
        r == commit_mode_at(entries_view(entries@)),
{
    match find(entries, Field::Mode.name()) {
        None => Ok(CommitMode::Never),
        Some(Item::Text(tag)) => match CommitMode::from_tag(tag.as_str()) {
            Some(mode) => Ok(mode),
            None => Err(SchemaError { field: Field::Mode, flaw: Flaw::UnknownTag }),
        },
        Some(_) => Err(SchemaError { field: Field::Mode, flaw: Flaw::WrongType }),
    }
}

impl GitConfig {
    /// Reads the commit options from the entries of a `git` table.
    pub fn from_entries(entries: &Vec<(String, Item)>) -> (r: Result<GitConfig, SchemaError>)
        ensures
            agrees(r, resolve_git(entries_view(entries@))),
            r matches Ok(git) ==> git.chunk_size <= i64::MAX,
    {
        let mode = commit_mode_field(entries)?;
        let chunk_size = usize_field(entries, Field::ChunkSize, default_chunk_size())?;
        let per_file_template = text_field(
            entries,
            Field::PerFileTemplate,
            Some(default_per_file_template()),
        )?;
        let per_chunk_template = text_field(
            entries,
            Field::PerChunkTemplate,
            Some(default_per_chunk_template()),
        )?;
        let once_template = text_field(
            entries,
            Field::OnceTemplate,
            Some(default_once_template()),
        )?;
        Ok(GitConfig { mode, chunk_size, per_file_template, per_chunk_template, once_template })
    }
}

/// Reads `git`.
fn git_field(entries: &Vec<(String, Item)>) -> (r: Result<GitConfig, SchemaError>)
    ensures
        agrees(r, git_at(entries_view(entries@))),
        r matches Ok(git) ==> git.chunk_size <= i64::MAX,
{
    match find(entries, Field::Git.name()) {
        None => Ok(GitConfig::default()),
        Some(Item::Table(table)) => {
            proof {
                lemma_table_view(*table);
            }
            GitConfig::from_entries(table)
        },
        Some(_) => Err(SchemaError { field: Field::Git, flaw: Flaw::WrongType }),
    }
}

impl LangRule {
    /// Reads a rule from one member of `languages`.
    pub fn from_item(item: &Item) -> (r: Result<LangRule, SchemaError>)
        ensures
            agrees(r, resolve_rule(item@)),
    {
        match item {
            Item::Table(entries) => {
                proof {
                    lemma_table_view(*entries);
                }
                let prefix = text_field(entries, Field::RuleMatch, None)?;
                let id = text_field(entries, Field::RuleId, None)?;
                let ext = text_field(entries, Field::RuleExt, None)?;
                Ok(LangRule { prefix, id, ext })
            },
            _ => Err(SchemaError { field: Field::Rule, flaw: Flaw::WrongType }),
        }
    }
}

/// A fault among the first `upto` members is the fault of every longer run.
proof fn lemma_rules_fault_stays(items: Seq<ItemView>, upto: int, len: int)
    requires
        upto <= len,
        resolve_rules(items, upto) is Err,
    ensures
        resolve_rules(items, len) == resolve_rules(items, upto),
    decreases len - upto,
{
    if upto < len {
        lemma_rules_fault_stays(items, upto, len - 1);
    }
}

/// Reads the rules from the members of `languages`, in their order.
fn rules_from(items: &Vec<Item>) -> (r: Result<Vec<LangRule>, SchemaError>)
    ensures
        match resolve_rules(items_view(items@), items@.len() as int) {
            Ok(rules) => r matches Ok(v) && rules_view(v@) == rules,
            Err(fault) => r matches Err(e) && e == fault,
        },
{
    let ghost views = items_view(items@);
    let mut rules: Vec<LangRule> = Vec::new();
    let mut i: usize = 0;
    assert(rules_view(rules@) =~= Seq::empty());
    while i < items.len()
        invariant
            i <= items.len(),
            views == items_view(items@),
            resolve_rules(views, i as int) == Ok::<Seq<LangRuleView>, SchemaError>(
                rules_view(rules@),
            ),
        decreases items.len() - i,
    {
        let ghost before = rules_view(rules@);
        match LangRule::from_item(&items[i]) {
            Ok(rule) => {
                rules.push(rule);
                assert(rules_view(rules@) =~= before.push(rule@));
            },
            Err(e) => {
                proof {
                    lemma_rules_fault_stays(views, i as int + 1, items@.len() as int);
                }
                return Err(e);
            },
        }
        i += 1;
    }
    Ok(rules)
}

/// Reads `languages`.
fn languages_field(entries: &Vec<(String, Item)>) -> (r: Result<Vec<LangRule>, SchemaError>)
    ensures
        match languages_at(entries_view(entries@)) {
            Ok(rules) => r matches Ok(v) && rules_view(v@) == rules,
            Err(fault) => r matches Err(e) && e == fault,
        },
{
    match find(entries, Field::Languages.name()) {
        None => Ok(default_languages()),
        Some(Item::List(items)) => {
            proof {
                lemma_list_view(*items);
            }
            rules_from(items)
        },
        Some(_) => Err(SchemaError { field: Field::Languages, flaw: Flaw::WrongType }),
    }
}

impl AtCoderConfig {
    /// Reads the AtCoder options from the entries of an `atcoder` table.
    pub fn from_entries(entries: &Vec<(String, Item)>) -> (r: Result<AtCoderConfig, SchemaError>)
        ensures
            agrees(r, resolve_atcoder(entries_view(entries@))),
            r matches Ok(atcoder) ==> atcoder.writable(),
    {
        let enable = flag_field(entries, Field::Enable, false)?;
        let user_id = text_field(entries, Field::UserId, Some(String::new()))?;
        let out_dir = text_field(entries, Field::OutDir, Some(default_atcoder_out_dir()))?;
        let out_format = out_format_field(entries)?;
        let use_index = flag_field(entries, Field::UseIndex, false)?;
        let archive_targets = archive_targets_field(entries)?;
        let request_interval_ms = u64_field(
            entries,
            Field::RequestIntervalMs,
            default_request_interval_ms(),
        )?;
        let git = git_field(entries)?;
        let languages = languages_field(entries)?;
        Ok(
            AtCoderConfig {
                enable,
                user_id,
                out_dir,
                out_format,
                use_index: UseIndex(use_index),
                archive_targets,
                request_interval_ms,
                git,
                languages,
            },
        )
    }
}

/// Reads `atcoder`.
fn atcoder_field(entries: &Vec<(String, Item)>) -> (r: Result<AtCoderConfig, SchemaError>)
    ensures
        agrees(r, atcoder_at(entries_view(entries@))),
        r matches Ok(atcoder) ==> atcoder.writable(),
{
    match find(entries, Field::Atcoder.name()) {
        None => Ok(AtCoderConfig::default()),
        Some(Item::Table(table)) => {
            proof {
                lemma_table_view(*table);
            }
            AtCoderConfig::from_entries(table)
        },
        Some(_) => Err(SchemaError { field: Field::Atcoder, flaw: Flaw::WrongType }),
    }
}

impl Config {
    /// Reads the configuration from a parsed document: `Ok` with every field
    /// filled in where the document keeps the schema, and else the first
    /// fault, as [`resolve`] gives them. What was read can be written again.
    pub fn from_document(root: &Item) -> (r: Result<Config, SchemaError>)
        ensures
            agrees(r, resolve(root@)),
            r matches Ok(config) ==> config.atcoder.writable(),
    {
        match root {
            Item::Table(entries) => {
                proof {
                    lemma_table_view(*entries);
                }
                let state_dir = text_field(entries, Field::StateDir, Some(default_state_dir()))?;
                let atcoder = atcoder_field(entries)?;
                Ok(Config { state_dir, atcoder })
            },
            _ => Err(SchemaError { field: Field::Document, flaw: Flaw::WrongType }),
        }
    }
}

} // verus!
