//! The named formulas a simulation keeps: material-property and physics
//! formulas, each stored under a property name. A table maps every name to
//! one formula; storing under a name already present replaces its formula.

use vstd::prelude::*;

use crate::text::str_eq;

verus! {

/// A table of formulas keyed by property name.
pub struct FormulaTable {
    entries: Vec<(String, String)>,
}

impl FormulaTable {
    /// No two entries share a name.
    #[verifier::type_invariant]
    spec fn names_distinct(self) -> bool {
        forall|a: int, b: int|
            0 <= a < b < self.entries@.len() ==> #[trigger] self.entries@[a].0@
                != #[trigger] self.entries@[b].0@
    }

    /// Whether the table has an entry named `name`.
    pub closed spec fn has(self, name: Seq<char>) -> bool {
        exists|i: int| 0 <= i < self.entries@.len() && #[trigger] self.entries@[i].0@ == name
    }

    /// The formula stored under `name` (meaningful when [`Self::has`] holds).
    pub closed spec fn formula_of(self, name: Seq<char>) -> Seq<char> {
        let i = choose|i: int| 0 <= i < self.entries@.len() && #[trigger] self.entries@[i].0@ == name;
        self.entries@[i].1@
    }

    /// Number of entries.
    pub closed spec fn size(self) -> nat {
        self.entries@.len()
    }

    /// An empty table.
    pub fn new() -> (r: Self)
        ensures
            r@ == Map::<Seq<char>, Seq<char>>::empty(),
    {
        let r = FormulaTable { entries: Vec::new() };
        assert(r@ =~= Map::<Seq<char>, Seq<char>>::empty());
        r
    }

    /// Position of the entry named `name`, if any.
    fn position(&self, name: &str) -> (r: Option<usize>)
        ensures
            r is None <==> !self.has(name@),
            r matches Some(i) ==> i < self.entries@.len() && self.entries@[i as int].0@ == name@,
    {
        let n = self.entries.len();
        let mut i: usize = 0;
        while i < n
            invariant
                n == self.entries@.len(),
                i <= n,
                forall|k: int| 0 <= k < i ==> #[trigger] self.entries@[k].0@ != name@,
            decreases n - i,
        {
            if str_eq(self.entries[i].0.as_str(), name) {
                return Some(i);
            }
            i = i + 1;
        }
        None
    }

    /// Stores `formula` under `name`, replacing the formula stored there.
    pub fn insert(&mut self, name: &str, formula: &str)
        ensures
            final(self)@ == old(self)@.insert(name@, formula@),
    {
        proof {
            use_type_invariant(&*self);
        }
        let ghost before = *self;
        let entry = (String::from_str(name), String::from_str(formula));
        match self.position(name) {
            Some(i) => {
                let mut entries: Vec<(String, String)> = Vec::new();
                std::mem::swap(&mut entries, &mut self.entries);
                entries.set(i, entry);
                self.entries = entries;
                proof {
                    assert(self.entries@ == before.entries@.update(i as int, entry));
                    lemma_view_after_update(before, *self, i as int);
                }
            },
            None => {
                let mut entries: Vec<(String, String)> = Vec::new();
                std::mem::swap(&mut entries, &mut self.entries);
                entries.push(entry);
                self.entries = entries;
                proof {
                    assert(self.entries@.drop_last() =~= before.entries@);
                    lemma_view_after_push(before, *self);
                }
            },
        }
    }

    /// The formula stored under `name`, if any.
    pub fn get(&self, name: &str) -> (r: Option<&String>)
        ensures
            r is Some <==> self@.contains_key(name@),
            r matches Some(f) ==> f@ == self@[name@],
    {
        proof {
            use_type_invariant(self);
        }
        match self.position(name) {
            Some(i) => {
                proof {
                    lemma_formula_at(*self, i as int);
                }
                Some(&self.entries[i].1)
            },
            None => None,
        }
    }

    /// Removes the entry named `name`; reports whether there was one.
    pub fn remove(&mut self, name: &str) -> (r: bool)
        ensures
            r == old(self)@.contains_key(name@),
            final(self)@ == old(self)@.remove(name@),
    {
        proof {
            use_type_invariant(&*self);
        }
        let ghost before = *self;
        match self.position(name) {
            Some(i) => {
                let mut entries: Vec<(String, String)> = Vec::new();
                std::mem::swap(&mut entries, &mut self.entries);
                let _removed = entries.remove(i);
                self.entries = entries;
                proof {
                    lemma_view_after_remove(before, *self, i as int);
                }
                true
            },
            None => {
                assert(self@ =~= before@.remove(name@));
                false
            },
        }
    }

    /// The names in the table, each once.
    pub fn names(&self) -> (r: Vec<String>)
        ensures
            forall|k: Seq<char>| self@.contains_key(k) <==> exists|i: int| 0 <= i < r@.len() && #[trigger] r@[i]@ == k,
            forall|a: int, b: int| 0 <= a < b < r@.len() ==> #[trigger] r@[a]@ != #[trigger] r@[b]@,
    {
        proof {
            use_type_invariant(self);
        }
        let n = self.entries.len();
        let mut names: Vec<String> = Vec::new();
        let mut i: usize = 0;
        while i < n
            invariant
                n == self.entries@.len(),
                i <= n,
                names@.len() == i,
                forall|k: int| 0 <= k < i ==> (#[trigger] names@[k])@ == self.entries@[k].0@,
            decreases n - i,
        {
            names.push(self.entries[i].0.clone());
            i = i + 1;
        }
        proof {
            assert forall|k: Seq<char>| self@.contains_key(k) implies exists|j: int|
                0 <= j < names@.len() && #[trigger] names@[j]@ == k by {
                let j = choose|j: int| 0 <= j < self.entries@.len() && #[trigger] self.entries@[j].0@ == k;
                assert(names@[j]@ == k);
            }
            assert forall|k: Seq<char>|
                (exists|j: int| 0 <= j < names@.len() && #[trigger] names@[j]@ == k) implies self@.contains_key(k) by {
                let j = choose|j: int| 0 <= j < names@.len() && #[trigger] names@[j]@ == k;
                assert(self.entries@[j].0@ == k);
            }
            assert forall|a: int, b: int| 0 <= a < b < names@.len() implies #[trigger] names@[a]@
                != #[trigger] names@[b]@ by {
                assert(self.entries@[a].0@ != self.entries@[b].0@);
            }
        }
        names
    }
}

impl View for FormulaTable {
    type V = Map<Seq<char>, Seq<char>>;

    /// Each name in the table mapped to its formula.
    closed spec fn view(&self) -> Map<Seq<char>, Seq<char>> {
        Map::new(|name: Seq<char>| self.has(name), |name: Seq<char>| self.formula_of(name))
    }
}

/// With distinct names, the formula read at a name is that of its entry.
proof fn lemma_formula_at(t: FormulaTable, i: int)
    requires
        t.names_distinct(),
        0 <= i < t.entries@.len(),
    ensures
        t@.contains_key(t.entries@[i].0@),
        t@[t.entries@[i].0@] == t.entries@[i].1@,
{
    let name = t.entries@[i].0@;
    assert(t.has(name));
    let j = choose|j: int| 0 <= j < t.entries@.len() && #[trigger] t.entries@[j].0@ == name;
    assert(j == i);
}

/// Replacing entry `i` (same name) changes the formula under that name only.
proof fn lemma_view_after_update(before: FormulaTable, after: FormulaTable, i: int)
    requires
        before.names_distinct(),
        0 <= i < before.entries@.len(),
        after.entries@ == before.entries@.update(i, after.entries@[i]),
        after.entries@[i].0@ == before.entries@[i].0@,
    ensures
        after.names_distinct(),
        after@ == before@.insert(before.entries@[i].0@, after.entries@[i].1@),
{
    let name = before.entries@[i].0@;
    assert forall|a: int, b: int| 0 <= a < b < after.entries@.len() implies #[trigger] after.entries@[a].0@
        != #[trigger] after.entries@[b].0@ by {
        assert(before.entries@[a].0@ != before.entries@[b].0@);
    }
    lemma_formula_at(after, i);
    assert forall|k: Seq<char>| #[trigger] after.has(k) == (before.has(k) || k == name) by {
        if after.has(k) {
            let j = choose|j: int| 0 <= j < after.entries@.len() && #[trigger] after.entries@[j].0@ == k;
            if j != i {
                assert(before.entries@[j].0@ == k);
            }
        }
        if before.has(k) && k != name {
            let j = choose|j: int| 0 <= j < before.entries@.len() && #[trigger] before.entries@[j].0@ == k;
            assert(after.entries@[j].0@ == k);
        }
    }
    assert forall|k: Seq<char>| after.has(k) && k != name implies after.formula_of(k)
        == before.formula_of(k) by {
        let j = choose|j: int| 0 <= j < after.entries@.len() && #[trigger] after.entries@[j].0@ == k;
        assert(j != i);
        assert(before.entries@[j].0@ == k);
        lemma_formula_at(before, j);
        lemma_formula_at(after, j);
    }
    assert(after@ =~= before@.insert(name, after.entries@[i].1@));
}

/// Appending an entry under a new name adds that name only.
proof fn lemma_view_after_push(before: FormulaTable, after: FormulaTable)
    requires
        before.names_distinct(),
        after.entries@.len() == before.entries@.len() + 1,
        after.entries@.drop_last() == before.entries@,
        !before.has(after.entries@.last().0@),
    ensures
        after.names_distinct(),
        after@ == before@.insert(after.entries@.last().0@, after.entries@.last().1@),
{
    let n = before.entries@.len() as int;
    let name = after.entries@[n].0@;
    assert forall|a: int| 0 <= a < n implies #[trigger] after.entries@[a] == before.entries@[a] by {
        assert(after.entries@.drop_last()[a] == after.entries@[a]);
    }
    assert forall|a: int, b: int| 0 <= a < b < after.entries@.len() implies #[trigger] after.entries@[a].0@
        != #[trigger] after.entries@[b].0@ by {
        if b < n {
            assert(before.entries@[a].0@ != before.entries@[b].0@);
        } else {
            assert(after.entries@[a] == before.entries@[a]);
        }
    }
    lemma_formula_at(after, n);
    assert forall|k: Seq<char>| #[trigger] after.has(k) == (before.has(k) || k == name) by {
        if after.has(k) {
            let j = choose|j: int| 0 <= j < after.entries@.len() && #[trigger] after.entries@[j].0@ == k;
            if j != n {
                assert(before.entries@[j].0@ == k);
            }
        }
        if before.has(k) && k != name {
            let j = choose|j: int| 0 <= j < before.entries@.len() && #[trigger] before.entries@[j].0@ == k;
            assert(after.entries@[j].0@ == k);
        }
    }
    assert forall|k: Seq<char>| after.has(k) && k != name implies after.formula_of(k)
        == before.formula_of(k) by {
        let j = choose|j: int| 0 <= j < after.entries@.len() && #[trigger] after.entries@[j].0@ == k;
        assert(j != n);
        assert(before.entries@[j].0@ == k);
        lemma_formula_at(before, j);
        lemma_formula_at(after, j);
    }
    assert(after@ =~= before@.insert(name, after.entries@[n].1@));
}

/// Dropping entry `i` removes its name only.
proof fn lemma_view_after_remove(before: FormulaTable, after: FormulaTable, i: int)
    requires
        before.names_distinct(),
        0 <= i < before.entries@.len(),
        after.entries@ == before.entries@.remove(i),
    ensures
        after.names_distinct(),
        after@ == before@.remove(before.entries@[i].0@),
{
    let name = before.entries@[i].0@;
    assert forall|a: int, b: int| 0 <= a < b < after.entries@.len() implies #[trigger] after.entries@[a].0@
        != #[trigger] after.entries@[b].0@ by {
        let a2 = if a < i { a } else { a + 1 };
        let b2 = if b < i { b } else { b + 1 };
        assert(after.entries@[a] == before.entries@[a2]);
        assert(after.entries@[b] == before.entries@[b2]);
        assert(before.entries@[a2].0@ != before.entries@[b2].0@);
    }
    assert forall|k: Seq<char>| #[trigger] after.has(k) == (before.has(k) && k != name) by {
        if after.has(k) {
            let j = choose|j: int| 0 <= j < after.entries@.len() && #[trigger] after.entries@[j].0@ == k;
            let j2 = if j < i { j } else { j + 1 };
            assert(after.entries@[j] == before.entries@[j2]);
            assert(before.entries@[j2].0@ == k);
            assert(j2 != i ==> before.entries@[j2].0@ != before.entries@[i].0@);
        }
        if before.has(k) && k != name {
            let j = choose|j: int| 0 <= j < before.entries@.len() && #[trigger] before.entries@[j].0@ == k;
            assert(j != i);
            let j2 = if j < i { j } else { j - 1 };
            assert(after.entries@[j2] == before.entries@[j]);
            assert(after.entries@[j2].0@ == k);
        }
    }
    assert forall|k: Seq<char>| after.has(k) implies after.formula_of(k) == before.formula_of(k) by {
        let j = choose|j: int| 0 <= j < after.entries@.len() && #[trigger] after.entries@[j].0@ == k;
        let j2 = if j < i { j } else { j + 1 };
        assert(after.entries@[j] == before.entries@[j2]);
        lemma_formula_at(before, j2);
        lemma_formula_at(after, j);
    }
    assert(after@ =~= before@.remove(name));
}

/// A formula table gives back what was stored: after storing `formula`
/// under `name`, reading `name` yields `formula` and every other name reads
/// as before; after removing `name` it is absent and the others unchanged.
pub proof fn law_formula_read_after_write(
    table: Map<Seq<char>, Seq<char>>,
    name: Seq<char>,
    formula: Seq<char>,
    other: Seq<char>,
)
    requires
        other != name,
    ensures
        table.insert(name, formula).contains_key(name),
        table.insert(name, formula)[name] == formula,
        table.insert(name, formula).contains_key(other) == table.contains_key(other),
        table.contains_key(other) ==> table.insert(name, formula)[other] == table[other],
        !table.remove(name).contains_key(name),
        table.remove(name).contains_key(other) == table.contains_key(other),
        table.contains_key(other) ==> table.remove(name)[other] == table[other],
{
}

} // verus!
