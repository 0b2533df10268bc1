//! What holds of the schema as a whole, proved from the rules in
//! [`crate::schema`] and the documents of [`crate::writer`].

use crate::config::{builtin_rules, rule_of};
use crate::config::{
    ArchiveTargets, AtCoderConfigView, CommitMode, ConfigView, GitConfigView, LangRuleView,
    OutFormat,
};
use crate::document::{distinct_keys, lemma_lookup_entry, lookup, Entries, ItemView};
use crate::error::{fail, Field, Flaw, SchemaError};
use crate::schema::{
    archive_targets_at, count_at, flag_at, git_at, languages_at, out_format_at, resolve,
    resolve_atcoder, resolve_git, resolve_rule, resolve_rules, text_at,
};
use crate::writer::{atcoder_document, document_of, git_document, rule_document, rules_document};
use vstd::prelude::*;

verus! {

/// No two fields share a key.
pub proof fn law_keys_distinct()
    ensures
        forall|a: Field, b: Field|
            #![trigger a.key(), b.key()]
            a.keyed() && b.keyed() && a != b ==> a.key() != b.key(),
{
    reveal_strlit("state_dir");
    reveal_strlit("atcoder");
    reveal_strlit("enable");
    reveal_strlit("user_id");
    reveal_strlit("out_dir");
    reveal_strlit("out_format");
    reveal_strlit("use_index");
    reveal_strlit("archive_targets");
    reveal_strlit("request_interval_ms");
    reveal_strlit("git");
    reveal_strlit("mode");
    reveal_strlit("chunk_size");
    reveal_strlit("per_file_template");
    reveal_strlit("per_chunk_template");
    reveal_strlit("once_template");
    reveal_strlit("languages");
    reveal_strlit("match");
    reveal_strlit("id");
    reveal_strlit("ext");
    assert forall|a: Field, b: Field|
        #![trigger a.key(), b.key()]
        a.keyed() && b.keyed() && a != b implies a.key() != b.key() by {
        let x = a.key();
        let y = b.key();
        if x.len() == y.len() {
            assert(x[0] != y[0]);
        }
    }
}

/// Every variant is read back from its own spelling, and a text that spells a
/// variant is that variant's spelling.
pub proof fn law_tags_read_back()
    ensures
        forall|format: OutFormat| #[trigger] OutFormat::of_tag(format.tag()) == Some(format),
        forall|targets: ArchiveTargets| #[trigger]
            ArchiveTargets::of_tag(targets.tag()) == Some(targets),
        forall|mode: CommitMode| #[trigger] CommitMode::of_tag(mode.tag()) == Some(mode),
        forall|tag: Seq<char>, format: OutFormat|
            OutFormat::of_tag(tag) == Some(format) ==> format.tag() == tag,
        forall|tag: Seq<char>, targets: ArchiveTargets|
            ArchiveTargets::of_tag(tag) == Some(targets) ==> targets.tag() == tag,
        forall|tag: Seq<char>, mode: CommitMode|
            CommitMode::of_tag(tag) == Some(mode) ==> mode.tag() == tag,
{
    reveal_strlit("file");
    reveal_strlit("directory");
    reveal_strlit("all");
    reveal_strlit("ac_all");
    reveal_strlit("ac_latest");
    reveal_strlit("default");
    reveal_strlit("per_file");
    reveal_strlit("per_chunk");
    reveal_strlit("once");
    reveal_strlit("none");
    assert forall|format: OutFormat| #[trigger]
        OutFormat::of_tag(format.tag()) == Some(format) by {
        assert(format.tag().len() > 0);
    }
    assert forall|targets: ArchiveTargets| #[trigger]
        ArchiveTargets::of_tag(targets.tag()) == Some(targets) by {
        assert(targets.tag().len() > 0);
    }
    assert forall|mode: CommitMode| #[trigger] CommitMode::of_tag(mode.tag()) == Some(mode) by {
        assert(mode.tag().len() > 0);
        assert("once"@[0] != "none"@[0]);
    }
}

/// The empty document gives the default configuration.
pub proof fn law_empty_document()
    ensures
        resolve(ItemView::Table(Seq::empty())) == Ok::<ConfigView, SchemaError>(
            ConfigView::defaults(),
        ),
{
}

/// Whether an `atcoder` table holds none of the keys that have a default, and
/// `user_id` as a text or not at all. Keys that the schema does not know may
/// be there.
pub open spec fn only_user_id(table: Entries) -> bool {
    &&& lookup(table, Field::UserId.key()) matches Some(item) ==> item is Text
    &&& lookup(table, Field::Enable.key()) is None
    &&& lookup(table, Field::OutDir.key()) is None
    &&& lookup(table, Field::OutFormat.key()) is None
    &&& lookup(table, Field::UseIndex.key()) is None
    &&& lookup(table, Field::ArchiveTargets.key()) is None
    &&& lookup(table, Field::RequestIntervalMs.key()) is None
    &&& lookup(table, Field::Git.key()) is None
    &&& lookup(table, Field::Languages.key()) is None
}

/// Whether a document holds none of the keys that have a default: no
/// `state_dir`, and no `atcoder` table or one with at most `user_id`.
pub open spec fn minimal(root: ItemView) -> bool {
    &&& root matches ItemView::Table(entries)
    &&& lookup(entries, Field::StateDir.key()) is None
    &&& match lookup(entries, Field::Atcoder.key()) {
        None => true,
        Some(ItemView::Table(table)) => only_user_id(table),
        Some(_) => false,
    }
}

/// The `user_id` that a minimal document gives: the text in its `atcoder`
/// table, or the empty text where it names none.
pub open spec fn minimal_user_id(root: ItemView) -> Seq<char> {
    match lookup(root->Table_0, Field::Atcoder.key()) {
        Some(ItemView::Table(table)) => match lookup(table, Field::UserId.key()) {
            Some(ItemView::Text(user_id)) => user_id,
            _ => Seq::empty(),
        },
        _ => Seq::empty(),
    }
}

/// A minimal document loads, and every field but `user_id` has its default.
pub proof fn law_minimal_document(root: ItemView)
    requires
        minimal(root),
    ensures
        resolve(root) == Ok::<ConfigView, SchemaError>(
            ConfigView {
                atcoder: AtCoderConfigView {
                    user_id: minimal_user_id(root),
                    ..AtCoderConfigView::defaults()
                },
                ..ConfigView::defaults()
            },
        ),
{
}

/// Whether every field of a document but `enable` and `user_id` keeps the
/// schema: its key is absent, or its value is one that the field takes.
pub open spec fn others_keep_schema(entries: Entries, table: Entries) -> bool {
    &&& text_at(entries, Field::StateDir, Some(Seq::empty())) is Ok
    &&& text_at(table, Field::OutDir, Some(Seq::empty())) is Ok
    &&& out_format_at(table) is Ok
    &&& flag_at(table, Field::UseIndex, false) is Ok
    &&& archive_targets_at(table) is Ok
    &&& count_at(table, Field::RequestIntervalMs, 0, u64::MAX as int) is Ok
    &&& git_at(table) is Ok
    &&& languages_at(table) is Ok
}

/// A document that sets `atcoder.enable = true` and a `user_id` loads exactly
/// where its other fields keep the schema, and then `enable` reads back `true`
/// and `user_id` as it was set.
pub proof fn law_enable_reads_back(entries: Entries, table: Entries, user_id: Seq<char>)
    requires
        lookup(entries, Field::Atcoder.key()) == Some(ItemView::Table(table)),
        lookup(table, Field::Enable.key()) == Some(ItemView::Flag(true)),
        lookup(table, Field::UserId.key()) == Some(ItemView::Text(user_id)),
    ensures
        resolve(ItemView::Table(entries)) is Ok <==> others_keep_schema(entries, table),
        resolve(ItemView::Table(entries)) matches Ok(config) ==> config.atcoder.enable
            && config.atcoder.user_id == user_id,
{
}

/// `out_format` is `Directory` for the text `directory`, `File` for the text
/// `file` and a fault for every other text, `zip` among them.
pub proof fn law_out_format_spellings(table: Entries, tag: Seq<char>)
    requires
        lookup(table, Field::OutFormat.key()) == Some(ItemView::Text(tag)),
    ensures
        tag == "directory"@ ==> out_format_at(table) == Ok::<OutFormat, SchemaError>(
            OutFormat::Directory,
        ),
        tag == "file"@ ==> out_format_at(table) == Ok::<OutFormat, SchemaError>(OutFormat::File),
        tag != "directory"@ && tag != "file"@ ==> out_format_at(table) == fail::<OutFormat>(
            Field::OutFormat,
            Flaw::UnknownTag,
        ),
        "zip"@ != "directory"@ && "zip"@ != "file"@,
{
    reveal_strlit("zip");
    reveal_strlit("file");
    reveal_strlit("directory");
    assert("zip"@.len() == 3 && "file"@.len() == 4 && "directory"@.len() == 9);
}

/// The built-in table has fifteen rules; `Python` and `PyPy` are two of them,
/// side by side, with the same identifier and extension.
pub proof fn law_builtin_table()
    ensures
        builtin_rules().len() == 15,
        builtin_rules()[4] == rule_of("Python", "py", "py"),
        builtin_rules()[5] == rule_of("PyPy", "py", "py"),
        "Python"@ != "PyPy"@,
{
    reveal_strlit("Python");
    reveal_strlit("PyPy");
    assert("Python"@.len() == 6 && "PyPy"@.len() == 4);
}

/// Whether a member of `languages` spells the rule: a table with the rule's
/// three texts under `match`, `id` and `ext`, in whatever order and with
/// whatever else beside them.
pub open spec fn spells_rule(item: ItemView, rule: LangRuleView) -> bool {
    &&& item matches ItemView::Table(entries)
    &&& lookup(entries, Field::RuleMatch.key()) == Some(ItemView::Text(rule.prefix))
    &&& lookup(entries, Field::RuleId.key()) == Some(ItemView::Text(rule.id))
    &&& lookup(entries, Field::RuleExt.key()) == Some(ItemView::Text(rule.ext))
}

/// Whether a list spells the rules, member by member.
pub open spec fn spells_rules(items: Seq<ItemView>, rules: Seq<LangRuleView>) -> bool {
    &&& items.len() == rules.len()
    &&& forall|i: int| 0 <= i < items.len() ==> spells_rule(#[trigger] items[i], rules[i])
}

/// The first `upto` members of a list that spells rules load as the first
/// `upto` rules.
proof fn lemma_rules_as_spelled(items: Seq<ItemView>, rules: Seq<LangRuleView>, upto: int)
    requires
        spells_rules(items, rules),
        0 <= upto <= rules.len(),
    ensures
        resolve_rules(items, upto) == Ok::<Seq<LangRuleView>, SchemaError>(rules.take(upto)),
    decreases upto,
{
    if upto > 0 {
        lemma_rules_as_spelled(items, rules, upto - 1);
        assert(spells_rule(items[upto - 1], rules[upto - 1]));
        assert(rules.take(upto - 1).push(rules[upto - 1]) =~= rules.take(upto));
    } else {
        assert(rules.take(0) =~= Seq::empty());
    }
}

/// `languages` stands in place of the built-in table: a list that spells
/// rules loads as exactly those rules, in their order, with none added and
/// none taken from the built-in table.
pub proof fn law_languages_replace(table: Entries, items: Seq<ItemView>, rules: Seq<LangRuleView>)
    requires
        lookup(table, Field::Languages.key()) == Some(ItemView::List(items)),
        spells_rules(items, rules),
    ensures
        languages_at(table) == Ok::<Seq<LangRuleView>, SchemaError>(rules),
{
    lemma_rules_as_spelled(items, rules, rules.len() as int);
    assert(rules.take(rules.len() as int) =~= rules);
}

/// Without `languages` the rules are the built-in table.
pub proof fn law_languages_absent(table: Entries)
    requires
        lookup(table, Field::Languages.key()) is None,
    ensures
        languages_at(table) == Ok::<Seq<LangRuleView>, SchemaError>(builtin_rules()),
{
}

/// Without a `git` table the commit options are the defaults: the mode
/// `Never`, the chunk size 50.
pub proof fn law_git_defaults(table: Entries)
    requires
        lookup(table, Field::Git.key()) is None,
    ensures
        git_at(table) == Ok::<GitConfigView, SchemaError>(GitConfigView::defaults()),
        GitConfigView::defaults().mode == CommitMode::Never,
        GitConfigView::defaults().chunk_size == 50,
{
}

/// Whether the three templates of a `git` table keep the schema: each is
/// absent or a text.
pub open spec fn templates_keep_schema(git: Entries) -> bool {
    &&& text_at(git, Field::PerFileTemplate, Some(Seq::empty())) is Ok
    &&& text_at(git, Field::PerChunkTemplate, Some(Seq::empty())) is Ok
    &&& text_at(git, Field::OnceTemplate, Some(Seq::empty())) is Ok
}

/// A `git` table that sets `mode = "per_chunk"` and no `chunk_size` loads
/// exactly where its templates keep the schema, and then as `PerChunk` with
/// the chunk size 50.
pub proof fn law_per_chunk_default_size(git: Entries)
    requires
        lookup(git, Field::Mode.key()) == Some(ItemView::Text("per_chunk"@)),
        lookup(git, Field::ChunkSize.key()) is None,
    ensures
        resolve_git(git) is Ok <==> templates_keep_schema(git),
        resolve_git(git) matches Ok(options) ==> options.mode == CommitMode::PerChunk
            && options.chunk_size == 50,
{
    reveal_strlit("per_chunk");
    reveal_strlit("per_file");
    assert("per_chunk"@.len() == 9 && "per_file"@.len() == 8);
}

/// The table that is written for a rule spells the rule.
pub proof fn law_rule_read_back(rule: LangRuleView)
    ensures
        spells_rule(rule_document(rule), rule),
        resolve_rule(rule_document(rule)) == Ok::<LangRuleView, SchemaError>(rule),
{
    law_keys_distinct();
    let entries = rule_document(rule)->Table_0;
    assert(distinct_keys(entries));
    lemma_lookup_entry(entries, 0);
    lemma_lookup_entry(entries, 1);
    lemma_lookup_entry(entries, 2);
}

/// The list that is written for rules is read back as those rules.
pub proof fn law_rules_read_back(rules: Seq<LangRuleView>)
    ensures
        spells_rules(rules_document(rules), rules),
        resolve_rules(rules_document(rules), rules.len() as int) == Ok::<
            Seq<LangRuleView>,
            SchemaError,
        >(rules),
{
    let items = rules_document(rules);
    assert forall|i: int| 0 <= i < items.len() implies spells_rule(#[trigger] items[i], rules[i]) by {
        law_rule_read_back(rules[i]);
    }
    lemma_rules_as_spelled(items, rules, rules.len() as int);
    assert(rules.take(rules.len() as int) =~= rules);
}

/// The commit options are read back from the table that spells them.
pub proof fn law_git_read_back(git: GitConfigView)
    ensures
        resolve_git(git_document(git)->Table_0) == Ok::<GitConfigView, SchemaError>(git),
{
    law_keys_distinct();
    law_tags_read_back();
    let entries = git_document(git)->Table_0;
    assert(distinct_keys(entries));
    lemma_lookup_entry(entries, 0);
    lemma_lookup_entry(entries, 1);
    lemma_lookup_entry(entries, 2);
    lemma_lookup_entry(entries, 3);
    lemma_lookup_entry(entries, 4);
}

/// The AtCoder options are read back from the table that spells them.
pub proof fn law_atcoder_read_back(atcoder: AtCoderConfigView)
    ensures
        resolve_atcoder(atcoder_document(atcoder)->Table_0) == Ok::<
            AtCoderConfigView,
            SchemaError,
        >(atcoder),
{
    law_keys_distinct();
    law_tags_read_back();
    law_git_read_back(atcoder.git);
    law_rules_read_back(atcoder.languages);
    let entries = atcoder_document(atcoder)->Table_0;
    assert(distinct_keys(entries));
    lemma_lookup_entry(entries, 0);
    lemma_lookup_entry(entries, 1);
    lemma_lookup_entry(entries, 2);
    lemma_lookup_entry(entries, 3);
    lemma_lookup_entry(entries, 4);
    lemma_lookup_entry(entries, 5);
    lemma_lookup_entry(entries, 6);
    lemma_lookup_entry(entries, 7);
    lemma_lookup_entry(entries, 8);
}

/// Writing a configuration as a document and reading the document gives the
/// configuration back, equal in every field.
pub proof fn law_round_trip(config: ConfigView)
    ensures
        resolve(document_of(config)) == Ok::<ConfigView, SchemaError>(config),
{
    law_keys_distinct();
    law_atcoder_read_back(config.atcoder);
    let entries = document_of(config)->Table_0;
    assert(distinct_keys(entries));
    lemma_lookup_entry(entries, 0);
    lemma_lookup_entry(entries, 1);
}

} // verus!
