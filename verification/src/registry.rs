//! The command registry: a static mapping from command name to a
//! built-in handler, queried by exact name match only.
//!
//! Handlers themselves are external collaborators; the registry knows
//! their names, in declaration order, and answers a lookup with the
//! position of the handler to call.

use vstd::prelude::*;

use crate::strutil::str_eq;

verus! {

/// First position of `cmd` in `names` at or after `i`.
pub open spec fn first_index_from(names: Seq<Seq<char>>, cmd: Seq<char>, i: int) -> Option<int>
    decreases names.len() - i,
{
    if i < 0 || i >= names.len() {
        None
    } else if names[i] == cmd {
        Some(i)
    } else {
        first_index_from(names, cmd, i + 1)
    }
}

/// Position of the handler a built-in lookup selects: the first
/// declared command of that name, if any.
pub open spec fn registry_index(names: Seq<Seq<char>>, cmd: Seq<char>) -> Option<int> {
    first_index_from(names, cmd, 0)
}

/// What a successful or failed lookup says about the name sequence.
pub proof fn lemma_first_index_from(names: Seq<Seq<char>>, cmd: Seq<char>, i: int)
    requires
        0 <= i <= names.len(),
    ensures
        match first_index_from(names, cmd, i) {
            Some(k) => i <= k < names.len() && names[k] == cmd && (forall|j: int|
                i <= j < k ==> names[j] != cmd),
            None => forall|j: int| i <= j < names.len() ==> names[j] != cmd,
        },
    decreases names.len() - i,
{
    if i < names.len() && names[i] != cmd {
        lemma_first_index_from(names, cmd, i + 1);
    }
}

/// A command name is in the registry exactly when the lookup answers.
pub proof fn lemma_registry_index(names: Seq<Seq<char>>, cmd: Seq<char>)
    ensures
        match registry_index(names, cmd) {
            Some(k) => 0 <= k < names.len() && names[k] == cmd && (forall|j: int|
                0 <= j < k ==> names[j] != cmd),
            None => forall|j: int| 0 <= j < names.len() ==> names[j] != cmd,
        },
{
    lemma_first_index_from(names, cmd, 0);
}

/// The static name-to-handler mapping.  Its view is the sequence of
/// command names in declaration order; a handler is identified by its
/// position in that order.
pub struct CommandRegistry {
    pub names: Vec<String>,
}

impl View for CommandRegistry {
    type V = Seq<Seq<char>>;

    open spec fn view(&self) -> Seq<Seq<char>> {
        self.names.deep_view()
    }
}

impl CommandRegistry {
    /// Build the registry from the built-in command names, in their
    /// declaration order.
    pub fn new(names: Vec<String>) -> (r: CommandRegistry)
        ensures
            r@ == names.deep_view(),
    {
        CommandRegistry { names }
    }

    /// Number of built-in commands.
    pub fn len(&self) -> (r: usize)
        ensures
            r == self@.len(),
    {
        self.names.len()
    }

    /// Name of the built-in command at a position.
    pub fn name_at(&self, i: usize) -> (r: &String)
        requires
            i < self@.len(),
        ensures
            r@ == self@[i as int],
    {
        &self.names[i]
    }

    /// Exact-match lookup: the position of the handler for `cmd`, or
    /// `None` when `cmd` is not a built-in.
    pub fn find(&self, cmd: &str) -> (r: Option<usize>)
        ensures
            match r {
                Some(k) => registry_index(self@, cmd@) == Some(k as int),
                None => registry_index(self@, cmd@) is None,
            },
    {
        let mut i: usize = 0;
        while i < self.names.len()
            invariant
                i <= self.names.len(),
                self.names.len() == self@.len(),
                first_index_from(self@, cmd@, i as int) == registry_index(self@, cmd@),
                forall|j: int| 0 <= j < i ==> self@[j] != cmd@,
            decreases self.names.len() - i,
        {
            if str_eq(self.names[i].as_str(), cmd) {
                return Some(i);
            }
            i = i + 1;
        }
        None
    }
}

} // verus!
