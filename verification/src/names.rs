//! A table from names to values that keeps the order in which the names came.

use vstd::prelude::*;

verus! {

/// Where `name` stands in `names`, if it stands there.
pub open spec fn find(names: Seq<Seq<char>>, name: Seq<char>) -> Option<int> {
    if names.contains(name) {
        Some(names.index_of(name))
    } else {
        None
    }
}

/// In a sequence without duplicates a name is found exactly where it stands.
pub proof fn lemma_find_unique(names: Seq<Seq<char>>, i: int)
    requires
        names.no_duplicates(),
        0 <= i < names.len(),
    ensures
        find(names, names[i]) == Some(i),
{
    assert(names.contains(names[i]));
    let j = names.index_of(names[i]);
    assert(0 <= j < names.len() && names[j] == names[i]);
}

/// A name that stands nowhere in the sequence is not found.
pub proof fn lemma_find_absent(names: Seq<Seq<char>>, name: Seq<char>)
    requires
        forall|j: int| 0 <= j < names.len() ==> names[j] != name,
    ensures
        find(names, name) is None,
{
    if names.contains(name) {
        let j = choose|j: int| 0 <= j < names.len() && names[j] == name;
        assert(names[j] != name);
    }
}

/// The names that `names` holds once `name` has been put there: the same
/// names where `name` is among them, and `name` behind them where it is not.
pub open spec fn put_name(names: Seq<Seq<char>>, name: Seq<char>) -> Seq<Seq<char>> {
    if find(names, name) is Some {
        names
    } else {
        names.push(name)
    }
}

/// The values of a table with the given names once `name` has been given
/// the value `v`.
pub open spec fn put_value<V>(names: Seq<Seq<char>>, values: Seq<V>, name: Seq<char>, v: V) -> Seq<
    V,
> {
    match find(names, name) {
        Some(i) => values.update(i, v),
        None => values.push(v),
    }
}

/// The names that `names` holds once `name` has been taken out.
pub open spec fn drop_name(names: Seq<Seq<char>>, name: Seq<char>) -> Seq<Seq<char>> {
    match find(names, name) {
        Some(i) => names.remove(i),
        None => names,
    }
}

/// The values of a table with the given names once `name` has been taken out.
pub open spec fn drop_value<V>(names: Seq<Seq<char>>, values: Seq<V>, name: Seq<char>) -> Seq<V> {
    match find(names, name) {
        Some(i) => values.remove(i),
        None => values,
    }
}

/// The views of the texts of a vector.
pub open spec fn texts(v: Seq<String>) -> Seq<Seq<char>> {
    Seq::new(v.len(), |i: int| v[i]@)
}

/// A table from names to values.
///
/// No name occurs twice; a name that is inserted again keeps its place and
/// gets the new value.
#[derive(Debug, Clone)]
pub struct NameMap<V> {
    keys: Vec<String>,
    vals: Vec<V>,
}

impl<V> NameMap<V> {
    /// The names of the table, in the order in which they were first inserted.
    pub closed spec fn names(&self) -> Seq<Seq<char>> {
        texts(self.keys@)
    }

    /// The values of the table, each at the index of its name.
    pub closed spec fn values(&self) -> Seq<V> {
        self.vals@
    }

    /// The invariant of the table: one value per name, and no name twice.
    pub closed spec fn wf(&self) -> bool {
        &&& self.keys.len() == self.vals.len()
        &&& self.names().no_duplicates()
    }

    /// The value that the table holds for `name`.
    pub open spec fn lookup(&self, name: Seq<char>) -> Option<V> {
        match find(self.names(), name) {
            Some(i) => Some(self.values()[i]),
            None => None,
        }
    }

    /// In a well-formed table names and values have the same length.
    pub proof fn lemma_lengths(&self)
        requires
            self.wf(),
        ensures
            self.names().len() == self.values().len(),
            self.names().no_duplicates(),
    {
    }

    /// An empty table.
    pub fn new() -> (r: Self)
        ensures
            r.wf(),
            r.names() == Seq::<Seq<char>>::empty(),
            r.values() == Seq::<V>::empty(),
    {
        let r = NameMap { keys: Vec::new(), vals: Vec::new() };
        assert(r.names() =~= Seq::<Seq<char>>::empty());
        r
    }

    /// A table is well formed where it has one value per name and no name
    /// twice.
    pub proof fn lemma_wf(&self)
        ensures
            self.wf() == (self.names().len() == self.values().len()
                && self.names().no_duplicates()),
    {
    }

    /// Decides whether the table is well formed.
    pub fn check(&self) -> (r: bool)
        ensures
            r == self.wf(),
    {
        if self.keys.len() != self.vals.len() {
            return false;
        }
        let n = self.keys.len();
        let mut i: usize = 0;
        while i < n
            invariant
                i <= n,
                n == self.keys.len(),
                n == self.names().len(),
                forall|a: int, b: int| 0 <= a < b < i ==> self.names()[a] != self.names()[b],
            decreases n - i,
        {
            let mut j: usize = 0;
            while j < i
                invariant
                    j <= i < n,
                    n == self.keys.len(),
                    n == self.names().len(),
                    forall|a: int| 0 <= a < j ==> self.names()[a] != self.names()[i as int],
                decreases i - j,
            {
                if same_text(self.keys[j].as_str(), self.keys[i].as_str()) {
                    assert(self.names()[j as int] == self.names()[i as int]);
                    return false;
                }
                j += 1;
            }
            i += 1;
        }
        assert forall|a: int, b: int|
            0 <= a < self.names().len() && 0 <= b < self.names().len() && a != b implies self.names()[a]
            != self.names()[b] by {
            if a < b {
            } else {
                assert(self.names()[b] != self.names()[a]);
            }
        }
        true
    }

    /// The number of names.
    pub fn len(&self) -> (n: usize)
        requires
            self.wf(),
        ensures
            n == self.names().len(),
            n == self.values().len(),
    {
        self.keys.len()
    }

    /// The index of `name`, if the table holds it.
    pub fn position(&self, name: &str) -> (r: Option<usize>)
        requires
            self.wf(),
        ensures
            self.names().len() == self.values().len(),
            match r {
                Some(i) => find(self.names(), name@) == Some(i as int) && i < self.names().len(),
                None => find(self.names(), name@) is None,
            },
    {
        let mut i: usize = 0;
        while i < self.keys.len()
            invariant
                i <= self.keys.len(),
                self.wf(),
                forall|j: int| 0 <= j < i ==> self.names()[j] != name@,
            decreases self.keys.len() - i,
        {
            if same_text(self.keys[i].as_str(), name) {
                proof {
                    lemma_find_unique(self.names(), i as int);
                }
                return Some(i);
            }
            i += 1;
        }
        proof {
            lemma_find_absent(self.names(), name@);
        }
        None
    }

    /// The value at index `i`.
    pub fn get(&self, i: usize) -> (r: &V)
        requires
            self.wf(),
            i < self.values().len(),
        ensures
            *r == self.values()[i as int],
    {
        &self.vals[i]
    }

    /// The name at index `i`.
    pub fn name_at(&self, i: usize) -> (r: &String)
        requires
            self.wf(),
            i < self.names().len(),
        ensures
            r@ == self.names()[i as int],
    {
        &self.keys[i]
    }

    /// Gives `name` the value `v`: in place where the table holds the name,
    /// and behind all other names where it does not.
    pub fn insert(&mut self, name: String, v: V)
        requires
            old(self).wf(),
        ensures
            final(self).wf(),
            match find(old(self).names(), name@) {
                Some(i) => {
                    &&& final(self).names() == old(self).names()
                    &&& final(self).values() == old(self).values().update(i, v)
                },
                None => {
                    &&& final(self).names() == old(self).names().push(name@)
                    &&& final(self).values() == old(self).values().push(v)
                },
            },
    {
        match self.position(name.as_str()) {
            Some(i) => {
                self.vals[i] = v;
            },
            None => {
                self.keys.push(name);
                self.vals.push(v);
                assert(self.names() =~= old(self).names().push(name@));
            },
        }
    }

    /// Takes `name` and its value out of the table, if it holds the name.
    pub fn remove(&mut self, name: &str)
        requires
            old(self).wf(),
        ensures
            final(self).wf(),
            match find(old(self).names(), name@) {
                Some(i) => {
                    &&& final(self).names() == old(self).names().remove(i)
                    &&& final(self).values() == old(self).values().remove(i)
                },
                None => {
                    &&& final(self).names() == old(self).names()
                    &&& final(self).values() == old(self).values()
                },
            },
            find(final(self).names(), name@) is None,
    {
        match self.position(name) {
            Some(i) => {
                self.keys.remove(i);
                self.vals.remove(i);
                assert(self.names() =~= old(self).names().remove(i as int));
                proof {
                    let ns = self.names();
                    assert forall|j: int| 0 <= j < ns.len() implies ns[j] != name@ by {
                        if j < i {
                            assert(ns[j] == old(self).names()[j]);
                        } else {
                            assert(ns[j] == old(self).names()[j + 1]);
                        }
                    }
                    lemma_find_absent(ns, name@);
                }
            },
            None => {},
        }
    }

    /// Empties the table.
    pub fn clear(&mut self)
        ensures
            final(self).wf(),
            final(self).names() == Seq::<Seq<char>>::empty(),
            final(self).values() == Seq::<V>::empty(),
    {
        self.keys.clear();
        self.vals.clear();
        assert(self.names() =~= Seq::<Seq<char>>::empty());
    }
}

/// Decides whether two texts are equal.
pub fn same_text(a: &str, b: &str) -> (r: bool)
    ensures
        r == (a@ == b@),
{
    let x = String::from_str(a);
    let y = String::from_str(b);
    x == y
}

} // verus!
