//! Writing a configuration back as a document: every field under its key, so
//! that reading the document gives the configuration again.

use crate::config::{
    AtCoderConfig, AtCoderConfigView, Config, ConfigView, GitConfig, GitConfigView, LangRule,
    LangRuleView,
};
use crate::config::rules_view;
use crate::document::{entries_view, items_view};
use crate::document::{Item, ItemView};
use crate::error::Field;
use vstd::prelude::*;

verus! {

/// The table that spells one rule.
pub open spec fn rule_document(rule: LangRuleView) -> ItemView {
    ItemView::Table(
        seq![
            (Field::RuleMatch.key(), ItemView::Text(rule.prefix)),
            (Field::RuleId.key(), ItemView::Text(rule.id)),
            (Field::RuleExt.key(), ItemView::Text(rule.ext)),
        ],
    )
}

/// The tables that spell a list of rules, in the list's order.
pub open spec fn rules_document(rules: Seq<LangRuleView>) -> Seq<ItemView> {
    Seq::new(rules.len(), |i: int| rule_document(rules[i]))
}

/// The `git` table that spells the commit options.
pub open spec fn git_document(git: GitConfigView) -> ItemView {
    ItemView::Table(
        seq![
            (Field::Mode.key(), ItemView::Text(git.mode.tag())),
            (Field::ChunkSize.key(), ItemView::Integer(git.chunk_size as int)),
            (Field::PerFileTemplate.key(), ItemView::Text(git.per_file_template)),
            (Field::PerChunkTemplate.key(), ItemView::Text(git.per_chunk_template)),
            (Field::OnceTemplate.key(), ItemView::Text(git.once_template)),
        ],
    )
}

/// The `atcoder` table that spells the AtCoder options.
pub open spec fn atcoder_document(atcoder: AtCoderConfigView) -> ItemView {
    ItemView::Table(
        seq![
            (Field::Enable.key(), ItemView::Flag(atcoder.enable)),
            (Field::UserId.key(), ItemView::Text(atcoder.user_id)),
            (Field::OutDir.key(), ItemView::Text(atcoder.out_dir)),
            (Field::OutFormat.key(), ItemView::Text(atcoder.out_format.tag())),
            (Field::UseIndex.key(), ItemView::Flag(atcoder.use_index.0)),
            (Field::ArchiveTargets.key(), ItemView::Text(atcoder.archive_targets.tag())),
            (Field::RequestIntervalMs.key(), ItemView::Integer(atcoder.request_interval_ms as int)),
            (Field::Git.key(), git_document(atcoder.git)),
            (Field::Languages.key(), ItemView::List(rules_document(atcoder.languages))),
        ],
    )
}

/// The document that spells a configuration: no key is left to its default.
pub open spec fn document_of(config: ConfigView) -> ItemView {
    ItemView::Table(
        seq![
            (Field::StateDir.key(), ItemView::Text(config.state_dir)),
            (Field::Atcoder.key(), atcoder_document(config.atcoder)),
        ],
    )
}

/// One entry of a table: the field's key and a value.
fn entry(field: Field, value: Item) -> (r: (String, Item))
    ensures
        r.0@ == field.key(),
        r.1 == value,
{
    (field.name().to_owned(), value)
}

impl LangRule {
    /// The table that spells the rule.
    pub fn to_item(&self) -> (r: Item)
        ensures
            r@ == rule_document(self@),
    {
        let mut entries: Vec<(String, Item)> = Vec::new();
        entries.push(entry(Field::RuleMatch, Item::Text(self.prefix.clone())));
        entries.push(entry(Field::RuleId, Item::Text(self.id.clone())));
        entries.push(entry(Field::RuleExt, Item::Text(self.ext.clone())));
        assert(entries_view(entries@) =~= rule_document(self@)->Table_0);
        Item::table(entries)
    }
}

/// The list of tables that spells a list of rules.
fn rules_to_item(rules: &Vec<LangRule>) -> (r: Item)
    ensures
        r@ == ItemView::List(rules_document(rules_view(rules@))),
{
    let mut items: Vec<Item> = Vec::new();
    let mut i: usize = 0;
    while i < rules.len()
        invariant
            i <= rules.len(),
            items.len() == i,
            forall|j: int| 0 <= j < i ==> (#[trigger] items@[j])@ == rule_document(rules@[j]@),
        decreases rules.len() - i,
    {
        items.push(rules[i].to_item());
        i += 1;
    }
    assert(items_view(items@) =~= rules_document(rules_view(rules@)));
    Item::list(items)
}

impl GitConfig {
    /// The `git` table that spells the commit options, where `chunk_size` is a
    /// number that a document can hold.
    pub fn to_item(&self) -> (r: Option<Item>)
        ensures
            r is Some <==> self.chunk_size <= i64::MAX,
            r matches Some(item) ==> item@ == git_document(self@),
    {
        if self.chunk_size as u64 > i64::MAX as u64 {
            return None;
        }
        let mut entries: Vec<(String, Item)> = Vec::new();
        entries.push(entry(Field::Mode, Item::Text(self.mode.to_tag().to_owned())));
        entries.push(entry(Field::ChunkSize, Item::Integer(self.chunk_size as i64)));
        entries.push(entry(Field::PerFileTemplate, Item::Text(self.per_file_template.clone())));
        entries.push(entry(Field::PerChunkTemplate, Item::Text(self.per_chunk_template.clone())));
        entries.push(entry(Field::OnceTemplate, Item::Text(self.once_template.clone())));
        assert(entries_view(entries@) =~= git_document(self@)->Table_0);
        Some(Item::table(entries))
    }
}

impl AtCoderConfig {
    /// The `atcoder` table that spells the options, where their numbers are
    /// such as a document can hold.
    pub fn to_item(&self) -> (r: Option<Item>)
        ensures
            r is Some <==> self.writable(),
            r matches Some(item) ==> item@ == atcoder_document(self@),
    {
        if self.request_interval_ms > i64::MAX as u64 {
            return None;
        }
        let git = match self.git.to_item() {
            Some(git) => git,
            None => {
                return None;
            },
        };
        let languages = rules_to_item(&self.languages);
        let mut entries: Vec<(String, Item)> = Vec::new();
        entries.push(entry(Field::Enable, Item::Flag(self.enable)));
        entries.push(entry(Field::UserId, Item::Text(self.user_id.clone())));
        entries.push(entry(Field::OutDir, Item::Text(self.out_dir.clone())));
        entries.push(entry(Field::OutFormat, Item::Text(self.out_format.to_tag().to_owned())));
        entries.push(entry(Field::UseIndex, Item::Flag(self.use_index.0)));
        entries.push(
            entry(Field::ArchiveTargets, Item::Text(self.archive_targets.to_tag().to_owned())),
        );
        entries.push(
            entry(Field::RequestIntervalMs, Item::Integer(self.request_interval_ms as i64)),
        );
        entries.push(entry(Field::Git, git));
        entries.push(entry(Field::Languages, languages));
        assert(entries_view(entries@) =~= atcoder_document(self@)->Table_0);
        Some(Item::table(entries))
    }
}

impl Config {
    /// The document that spells the configuration, every field under its key.
    /// A TOML number is at most `i64::MAX`: where `request_interval_ms` or
    /// `chunk_size` is larger there is no such document. A configuration that
    /// was read from a document always has one.
    pub fn to_document(&self) -> (r: Option<Item>)
        ensures
            r is Some <==> self.atcoder.writable(),
            r matches Some(root) ==> root@ == document_of(self@),
    {
        let atcoder = match self.atcoder.to_item() {
            Some(atcoder) => atcoder,
            None => {
                return None;
            },
        };
        let mut entries: Vec<(String, Item)> = Vec::new();
        entries.push(entry(Field::StateDir, Item::Text(self.state_dir.clone())));
        entries.push(entry(Field::Atcoder, atcoder));
        assert(entries_view(entries@) =~= document_of(self@)->Table_0);
        Some(Item::table(entries))
    }
}

} // verus!
