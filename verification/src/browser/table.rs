//! Named contexts, each under one name.

use vstd::prelude::*;

use crate::step::PageId;
use crate::text;

verus! {

/// A named group of pages, apart from the others.
#[derive(Debug, PartialEq, Eq)]
pub struct BrowserContext {
    pub pages: Vec<PageId>,
    pub active_page_index: usize,
}

/// The mathematical content of a [`BrowserContext`].
#[verifier::ext_equal]
pub struct ContextView {
    pub pages: Seq<PageId>,
    pub active_page_index: int,
}

impl DeepView for BrowserContext {
    type V = ContextView;

    open spec fn deep_view(&self) -> ContextView {
        ContextView { pages: self.pages@, active_page_index: self.active_page_index as int }
    }
}

/// Contexts by name. No two of them have the same name.
#[derive(Debug)]
pub struct ContextTable {
    entries: Vec<(String, BrowserContext)>,
}

spec fn named(entries: Seq<(String, BrowserContext)>, name: Seq<char>) -> bool {
    exists|i: int| 0 <= i < entries.len() && (#[trigger] entries[i]).0@ == name
}

spec fn position_of(entries: Seq<(String, BrowserContext)>, name: Seq<char>) -> int {
    choose|i: int| 0 <= i < entries.len() && (#[trigger] entries[i]).0@ == name
}

spec fn distinct(entries: Seq<(String, BrowserContext)>) -> bool {
    forall|i: int, j: int|
        0 <= i < entries.len() && 0 <= j < entries.len() && (#[trigger] entries[i]).0@ == (
        #[trigger] entries[j]).0@ ==> i == j
}

spec fn table_map(entries: Seq<(String, BrowserContext)>) -> Map<Seq<char>, ContextView> {
    Map::new(
        |name: Seq<char>| named(entries, name),
        |name: Seq<char>| entries[position_of(entries, name)].1.deep_view(),
    )
}

impl View for ContextTable {
    type V = Map<Seq<char>, ContextView>;

    closed spec fn view(&self) -> Map<Seq<char>, ContextView> {
        table_map(self.entries@)
    }
}

proof fn lemma_entry(entries: Seq<(String, BrowserContext)>, k: int)
    requires
        distinct(entries),
        0 <= k < entries.len(),
    ensures
        table_map(entries).dom().contains(entries[k].0@),
        table_map(entries)[entries[k].0@] == entries[k].1.deep_view(),
{
    assert(named(entries, entries[k].0@));
}

proof fn lemma_removed(entries: Seq<(String, BrowserContext)>, k: int)
    requires
        distinct(entries),
        0 <= k < entries.len(),
    ensures
        distinct(entries.remove(k)),
        table_map(entries.remove(k)) == table_map(entries).remove(entries[k].0@),
        !table_map(entries.remove(k)).dom().contains(entries[k].0@),
{
    let rest = entries.remove(k);
    let name = entries[k].0@;
    assert forall|i: int, j: int|
        0 <= i < rest.len() && 0 <= j < rest.len() && (#[trigger] rest[i]).0@ == (
        #[trigger] rest[j]).0@ implies i == j by {
        let oi = if i < k { i } else { i + 1 };
        let oj = if j < k { j } else { j + 1 };
        assert(rest[i] == entries[oi] && rest[j] == entries[oj]);
    }
    assert forall|n: Seq<char>| #[trigger] table_map(rest).dom().contains(n) <==> table_map(
        entries,
    ).remove(name).dom().contains(n) by {
        if named(rest, n) {
            let i = position_of(rest, n);
            let oi = if i < k { i } else { i + 1 };
            assert(rest[i] == entries[oi]);
            assert(named(entries, n));
        }
        if named(entries, n) && n != name {
            let oi = position_of(entries, n);
            let i = if oi < k { oi } else { oi - 1 };
            assert(rest[i] == entries[oi]);
        }
    }
    assert forall|n: Seq<char>| table_map(rest).dom().contains(n) implies #[trigger] table_map(
        rest,
    )[n] == table_map(entries)[n] by {
        let i = position_of(rest, n);
        let oi = if i < k { i } else { i + 1 };
        assert(rest[i] == entries[oi]);
        lemma_entry(rest, i);
        lemma_entry(entries, oi);
    }
    assert(table_map(rest) =~= table_map(entries).remove(name));
}

proof fn lemma_pushed(entries: Seq<(String, BrowserContext)>, entry: (String, BrowserContext))
    requires
        distinct(entries),
        !table_map(entries).dom().contains(entry.0@),
    ensures
        distinct(entries.push(entry)),
        table_map(entries.push(entry)) == table_map(entries).insert(entry.0@, entry.1.deep_view()),
{
    let more = entries.push(entry);
    assert forall|i: int, j: int|
        0 <= i < more.len() && 0 <= j < more.len() && (#[trigger] more[i]).0@ == (
        #[trigger] more[j]).0@ implies i == j by {
        if i < entries.len() {
            assert(more[i] == entries[i]);
            lemma_entry(entries, i);
        }
        if j < entries.len() {
            assert(more[j] == entries[j]);
            lemma_entry(entries, j);
        }
    }
    assert forall|n: Seq<char>| #[trigger] table_map(more).dom().contains(n) <==> table_map(
        entries,
    ).insert(entry.0@, entry.1.deep_view()).dom().contains(n) by {
        if named(entries, n) {
            let i = position_of(entries, n);
            assert(more[i] == entries[i]);
            assert(named(more, n));
        }
        if n == entry.0@ {
            assert(more[entries.len() as int].0@ == n);
            assert(named(more, n));
        }
        if named(more, n) {
            let i = position_of(more, n);
            if i < entries.len() {
                assert(more[i] == entries[i]);
                assert(named(entries, n));
            }
        }
    }
    assert forall|n: Seq<char>| table_map(more).dom().contains(n) implies #[trigger] table_map(
        more,
    )[n] == table_map(entries).insert(entry.0@, entry.1.deep_view())[n] by {
        let i = position_of(more, n);
        lemma_entry(more, i);
        if i < entries.len() {
            assert(more[i] == entries[i]);
            lemma_entry(entries, i);
        }
    }
    assert(table_map(more) =~= table_map(entries).insert(entry.0@, entry.1.deep_view()));
}

proof fn lemma_order(table: ContextTable)
    requires
        distinct(table.entries@),
    ensures
        table.order().no_duplicates(),
        table.order().to_set() == table@.dom(),
{
    let entries = table.entries@;
    let order = table.order();
    assert forall|i: int, j: int| 0 <= i < order.len() && 0 <= j < order.len() && i != j implies order[i]
        != order[j] by {
        assert(order[i] == entries[i].0@ && order[j] == entries[j].0@);
    }
    assert forall|n: Seq<char>| order.to_set().contains(n) <==> table@.dom().contains(n) by {
        if order.contains(n) {
            let i = choose|i: int| 0 <= i < order.len() && order[i] == n;
            lemma_entry(entries, i);
        }
        if named(entries, n) {
            let i = position_of(entries, n);
            assert(order[i] == n);
        }
    }
    assert(order.to_set() =~= table@.dom());
}

impl ContextTable {
    #[verifier::type_invariant]
    spec fn names_distinct(self) -> bool {
        distinct(self.entries@)
    }

    /// The names, in the order in which the contexts are listed.
    pub closed spec fn order(self) -> Seq<Seq<char>> {
        self.entries@.map_values(|e: (String, BrowserContext)| e.0@)
    }

    /// A table without contexts.
    pub fn new() -> (r: ContextTable)
        ensures
            r@ == Map::<Seq<char>, ContextView>::empty(),
    {
        let r: ContextTable = ContextTable { entries: Vec::new() };
        assert(r@ =~= Map::<Seq<char>, ContextView>::empty());
        r
    }

    fn position(&self, name: &str) -> (r: Option<usize>)
        ensures
            match r {
                Some(k) => k < self.entries@.len() && self.entries@[k as int].0@ == name@,
                None => !self@.dom().contains(name@),
            },
    {
        let mut i: usize = 0;
        while i < self.entries.len()
            invariant
                i <= self.entries@.len(),
                forall|j: int| 0 <= j < i ==> (#[trigger] self.entries@[j]).0@ != name@,
            decreases self.entries@.len() - i,
        {
            if text::same_text(self.entries[i].0.as_str(), name) {
                return Some(i);
            }
            i = i + 1;
        }
        None
    }

    /// Whether a context has that name.
    pub fn contains(&self, name: &str) -> (r: bool)
        ensures
            r == self@.dom().contains(name@),
    {
        proof {
            use_type_invariant(self);
        }
        match self.position(name) {
            Some(k) => {
                proof {
                    lemma_entry(self.entries@, k as int);
                }
                true
            },
            None => false,
        }
    }

    /// Takes the context with that name out of the table.
    pub fn remove(&mut self, name: &str) -> (r: Option<BrowserContext>)
        ensures
            final(self)@ == old(self)@.remove(name@),
            match r {
                Some(c) => old(self)@.dom().contains(name@) && c.deep_view() == old(self)@[name@],
                None => !old(self)@.dom().contains(name@),
            },
    {
        proof {
            use_type_invariant(&*self);
        }
        match self.position(name) {
            Some(k) => {
                proof {
                    lemma_entry(self.entries@, k as int);
                    lemma_removed(self.entries@, k as int);
                }
                let mut entries: Vec<(String, BrowserContext)> = Vec::new();
                std::mem::swap(&mut entries, &mut self.entries);
                let entry: (String, BrowserContext) = entries.remove(k);
                self.entries = entries;
                Some(entry.1)
            },
            None => {
                assert(self@ =~= old(self)@.remove(name@));
                None
            },
        }
    }

    /// Puts a context under a name; one that had the name before leaves the table.
    pub fn insert(&mut self, name: &str, context: BrowserContext)
        ensures
            final(self)@ == old(self)@.insert(name@, context.deep_view()),
    {
        self.remove(name);
        proof {
            use_type_invariant(&*self);
        }
        let ghost rest = self@;
        let mut entries: Vec<(String, BrowserContext)> = Vec::new();
        std::mem::swap(&mut entries, &mut self.entries);
        let entry: (String, BrowserContext) = (name.to_owned(), context);
        proof {
            lemma_pushed(entries@, entry);
        }
        entries.push(entry);
        self.entries = entries;
        assert(rest.insert(name@, context.deep_view()) =~= old(self)@.insert(
            name@,
            context.deep_view(),
        ));
    }

    /// The number of contexts. The order lists every context once.
    pub fn len(&self) -> (r: usize)
        ensures
            r == self.order().len(),
            self.order().no_duplicates(),
            self.order().to_set() == self@.dom(),
    {
        proof {
            use_type_invariant(self);
            lemma_order(*self);
        }
        self.entries.len()
    }

    /// The context at a place in the order, with its name.
    pub fn entry(&self, k: usize) -> (r: (&str, &BrowserContext))
        requires
            k < self.order().len(),
        ensures
            r.0@ == self.order()[k as int],
            self@.dom().contains(r.0@),
            r.1.deep_view() == self@[r.0@],
    {
        proof {
            use_type_invariant(self);
            lemma_entry(self.entries@, k as int);
        }
        let entry: &(String, BrowserContext) = &self.entries[k];
        (entry.0.as_str(), &entry.1)
    }
}

} // verus!
