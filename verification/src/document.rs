//! A TOML document as plain data: the values of a table, in the order in which
//! the table hands them out.

use vstd::prelude::*;

verus! {

/// One TOML value. A float and a date carry no payload: no configuration field
/// reads one, so all that matters of them is that they are neither text, nor a
/// whole number, nor a flag, nor a collection.
#[derive(Debug, PartialEq, Eq)]
pub enum Item {
    Text(String),
    Integer(i64),
    Flag(bool),
    Float,
    Datetime,
    List(Vec<Item>),
    Table(Vec<(String, Item)>),
}

/// The mathematical value of an [`Item`].
pub enum ItemView {
    Text(Seq<char>),
    Integer(int),
    Flag(bool),
    Float,
    Datetime,
    List(Seq<ItemView>),
    Table(Seq<(Seq<char>, ItemView)>),
}

/// The entries of a table as mathematical values: keys and what stands under
/// them, in the table's order.
pub type Entries = Seq<(Seq<char>, ItemView)>;

impl Item {
    /// What the item holds, as a mathematical value.
    pub open spec fn content(self) -> ItemView
        decreases self,
    {
        match self {
            Item::Text(s) => ItemView::Text(s@),
            Item::Integer(i) => ItemView::Integer(i as int),
            Item::Flag(b) => ItemView::Flag(b),
            Item::Float => ItemView::Float,
            Item::Datetime => ItemView::Datetime,
            Item::List(items) => ItemView::List(
                Seq::new(
                    items@.len(),
                    |i: int|
                        if 0 <= i < items@.len() {
                            items@[i].content()
                        } else {
                            ItemView::Float
                        },
                ),
            ),
            Item::Table(entries) => ItemView::Table(
                Seq::new(
                    entries@.len(),
                    |i: int|
                        if 0 <= i < entries@.len() {
                            (entries@[i].0@, entries@[i].1.content())
                        } else {
                            (Seq::empty(), ItemView::Float)
                        },
                ),
            ),
        }
    }
}

impl View for Item {
    type V = ItemView;

    open spec fn view(&self) -> ItemView {
        self.content()
    }
}

/// The views of a table's entries, in the table's order.
pub open spec fn entries_view(entries: Seq<(String, Item)>) -> Entries {
    Seq::new(entries.len(), |i: int| (entries[i].0@, entries[i].1@))
}

/// The views of a list's members, in the list's order.
pub open spec fn items_view(items: Seq<Item>) -> Seq<ItemView> {
    Seq::new(items.len(), |i: int| items[i]@)
}

/// The view of a table is the table of its entries' views.
pub proof fn lemma_table_view(entries: Vec<(String, Item)>)
    ensures
        Item::Table(entries)@ == ItemView::Table(entries_view(entries@)),
{
    assert(Item::Table(entries)@->Table_0 =~= entries_view(entries@));
}

/// The view of a list is the list of its members' views.
pub proof fn lemma_list_view(items: Vec<Item>)
    ensures
        Item::List(items)@ == ItemView::List(items_view(items@)),
{
    assert(Item::List(items)@->List_0 =~= items_view(items@));
}

impl Item {
    /// The table with these entries.
    pub fn table(entries: Vec<(String, Item)>) -> (r: Item)
        ensures
            r == Item::Table(entries),
            r@ == ItemView::Table(entries_view(entries@)),
    {
        proof {
            lemma_table_view(entries);
        }
        Item::Table(entries)
    }

    /// The list with these members.
    pub fn list(items: Vec<Item>) -> (r: Item)
        ensures
            r == Item::List(items),
            r@ == ItemView::List(items_view(items@)),
    {
        proof {
            lemma_list_view(items);
        }
        Item::List(items)
    }
}

/// Whether two texts are the same.
pub fn same_text(a: &str, b: &str) -> (r: bool)
    ensures
        r == (a@ == b@),
{
    let left = a.to_owned();
    let right = b.to_owned();
    left == right
}

/// The value of the first entry at or behind `start` whose key is `key`.
pub open spec fn lookup_from(entries: Entries, key: Seq<char>, start: int) -> Option<ItemView>
    decreases entries.len() - start,
{
    if start < 0 || start >= entries.len() {
        None
    } else if entries[start].0 == key {
        Some(entries[start].1)
    } else {
        lookup_from(entries, key, start + 1)
    }
}

/// The value under `key`: that of the first entry with this key.
pub open spec fn lookup(entries: Entries, key: Seq<char>) -> Option<ItemView> {
    lookup_from(entries, key, 0)
}

/// Whether no key stands twice among the entries.
pub open spec fn distinct_keys(entries: Entries) -> bool {
    forall|i: int, j: int| 0 <= i < j < entries.len() ==> entries[i].0 != entries[j].0
}

/// Behind `start`, a lookup finds the entry at `at` where no entry between the
/// two has the same key.
proof fn lemma_lookup_from(entries: Entries, start: int, at: int)
    requires
        0 <= start <= at < entries.len(),
        forall|j: int| start <= j < at ==> entries[j].0 != entries[at].0,
    ensures
        lookup_from(entries, entries[at].0, start) == Some(entries[at].1),
    decreases at - start,
{
    if start < at {
        lemma_lookup_from(entries, start + 1, at);
    }
}

/// Among entries with distinct keys, the key of an entry finds its value.
pub proof fn lemma_lookup_entry(entries: Entries, at: int)
    requires
        distinct_keys(entries),
        0 <= at < entries.len(),
    ensures
        lookup(entries, entries[at].0) == Some(entries[at].1),
{
    lemma_lookup_from(entries, 0, at);
}

/// Finds the value under `key` among a table's entries.
pub fn find<'a>(entries: &'a Vec<(String, Item)>, key: &str) -> (r: Option<&'a Item>)
    ensures
        match lookup(entries_view(entries@), key@) {
            Some(value) => r matches Some(item) && item@ == value,
            None => r is None,
        },
{
    let wanted = key.to_owned();
    let ghost view = entries_view(entries@);
    let mut i: usize = 0;
    while i < entries.len()
        invariant
            i <= entries.len(),
            wanted@ == key@,
            view == entries_view(entries@),
            lookup(view, key@) == lookup_from(view, key@, i as int),
        decreases entries.len() - i,
    {
        if entries[i].0 == wanted {
            return Some(&entries[i].1);
        }
        i += 1;
    }
    None
}

} // verus!
