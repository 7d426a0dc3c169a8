//! The alias table: user-configured shorthands, each mapping a command
//! name to an ordered token sequence that is re-dispatched as a fresh
//! invocation.
//!
//! The table is queried by exact name; the backing store that fills it
//! is an external collaborator.  Nothing at storage time rules out a
//! cycle among aliases — the dispatch loop detects cycles when it
//! resolves.

use vstd::prelude::*;

use crate::strutil::{clone_strings, str_eq};

verus! {

/// One alias definition: a name and the tokens it expands to.
#[derive(Debug, PartialEq, Eq)]
pub struct AliasDef {
    pub name: String,
    pub expansion: Vec<String>,
}

/// Mathematical image of an `AliasDef`.
pub ghost struct AliasDefView {
    pub name: Seq<char>,
    pub expansion: Seq<Seq<char>>,
}

impl View for AliasDef {
    type V = AliasDefView;

    open spec fn view(&self) -> AliasDefView {
        AliasDefView { name: self.name@, expansion: self.expansion.deep_view() }
    }
}

impl DeepView for AliasDef {
    type V = AliasDefView;

    open spec fn deep_view(&self) -> AliasDefView {
        self@
    }
}

/// Expansion of the first definition of `cmd` at or after `i`.
pub open spec fn alias_find_from(entries: Seq<AliasDefView>, cmd: Seq<char>, i: int) -> Option<
    Seq<Seq<char>>,
>
    decreases entries.len() - i,
{
    if i < 0 || i >= entries.len() {
        None
    } else if entries[i].name == cmd {
        Some(entries[i].expansion)
    } else {
        alias_find_from(entries, cmd, i + 1)
    }
}

/// What an alias lookup answers: the expansion of the first definition
/// of that name, if any.
pub open spec fn alias_lookup(entries: Seq<AliasDefView>, cmd: Seq<char>) -> Option<Seq<Seq<char>>> {
    alias_find_from(entries, cmd, 0)
}

/// The names the table defines.
pub open spec fn alias_keys(entries: Seq<AliasDefView>) -> Seq<Seq<char>> {
    entries.map_values(|e: AliasDefView| e.name)
}

/// Keys are unique: no name is defined twice.
pub open spec fn unique_keys(entries: Seq<AliasDefView>) -> bool {
    forall|i: int, j: int|
        0 <= i < j < entries.len() ==> entries[i].name != entries[j].name
}

/// A name whose lookup answers is one of the table's keys.
pub proof fn lemma_alias_hit_is_key(entries: Seq<AliasDefView>, cmd: Seq<char>, i: int)
    requires
        0 <= i <= entries.len(),
        alias_find_from(entries, cmd, i) is Some,
    ensures
        alias_keys(entries).contains(cmd),
    decreases entries.len() - i,
{
    if i < entries.len() {
        if entries[i].name == cmd {
            assert(alias_keys(entries)[i] == cmd);
        } else {
            lemma_alias_hit_is_key(entries, cmd, i + 1);
        }
    }
}

/// The user-configured alias mapping.
pub struct AliasTable {
    pub entries: Vec<AliasDef>,
}

impl View for AliasTable {
    type V = Seq<AliasDefView>;

    open spec fn view(&self) -> Seq<AliasDefView> {
        self.entries.deep_view()
    }
}

impl AliasTable {
    /// An empty table.
    pub fn new() -> (r: AliasTable)
        ensures
            r@ == Seq::<AliasDefView>::empty(),
    {
        let r = AliasTable { entries: Vec::new() };
        proof {
            assert(r@ =~= Seq::<AliasDefView>::empty());
        }
        r
    }

    /// Append one definition.
    pub fn add(&mut self, name: String, expansion: Vec<String>)
        ensures
            final(self)@ == old(self)@.push(
                AliasDefView { name: name@, expansion: expansion.deep_view() },
            ),
    {
        let ghost prev = self@;
        let ghost def_view = AliasDefView { name: name@, expansion: expansion.deep_view() };
        self.entries.push(AliasDef { name, expansion });
        proof {
            assert forall|k: int| 0 <= k < self@.len() implies self@[k] == prev.push(def_view)[k] by {
                if k < prev.len() {
                    assert(self@[k] == prev[k]);
                } else {
                    assert(self.entries@[k]@ == def_view);
                }
            }
            assert(self@ =~= prev.push(def_view));
        }
    }

    /// Exact-match lookup: a copy of the expansion of `cmd`, or `None`
    /// when no alias defines it.
    pub fn lookup(&self, cmd: &str) -> (r: Option<Vec<String>>)
        ensures
            match r {
                Some(exp) => alias_lookup(self@, cmd@) == Some(exp.deep_view()),
                None => alias_lookup(self@, cmd@) is None,
            },
    {
        let mut i: usize = 0;
        while i < self.entries.len()
            invariant
                i <= self.entries.len(),
                self.entries.len() == self@.len(),
                alias_find_from(self@, cmd@, i as int) == alias_lookup(self@, cmd@),
            decreases self.entries.len() - i,
        {
            if str_eq(self.entries[i].name.as_str(), cmd) {
                return Some(clone_strings(&self.entries[i].expansion));
            }
            i = i + 1;
        }
        None
    }
}

} // verus!
