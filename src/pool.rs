//! The pool of entries and the edits that a command makes to it.
use vstd::prelude::*;
use vstd::string::*;

use crate::answer::{confirms, is_yes, lower_of, trim_of};

verus! {

/// The entries of a sequence of strings, as character sequences.
pub open spec fn entries(v: Seq<String>) -> Seq<Seq<char>> {
    v.map_values(|s: String| s@)
}

/// `p` with its first entry equal to `x` taken out; `p` itself when no entry equals `x`.
pub open spec fn remove_first(p: Seq<Seq<char>>, x: Seq<char>) -> Seq<Seq<char>>
    decreases p.len(),
{
    if p.len() == 0 {
        p
    } else if p[0] == x {
        p.drop_first()
    } else {
        seq![p[0]] + remove_first(p.drop_first(), x)
    }
}

/// The items written one after another, with `sep` between each two of them.
pub open spec fn joined(items: Seq<Seq<char>>, sep: Seq<char>) -> Seq<char>
    decreases items.len(),
{
    if items.len() == 0 {
        Seq::empty()
    } else if items.len() == 1 {
        items[0]
    } else {
        joined(items.drop_last(), sep) + sep + items.last()
    }
}

/// Removal takes out the first occurrence and keeps the rest in order: when
/// `x` occurs in `p`, there is an index `i` holding `x`, with no earlier
/// index holding it, and the result is `p` without index `i`.
pub proof fn lemma_remove_first_occurrence(p: Seq<Seq<char>>, x: Seq<char>)
    requires
        p.contains(x),
    ensures
        exists|i: int|
            0 <= i < p.len() && p[i] == x && (forall|j: int| 0 <= j < i ==> p[j] != x)
                && #[trigger] remove_first(p, x) == p.remove(i),
    decreases p.len(),
{
    let i = choose|i: int| 0 <= i < p.len() && p[i] == x;
    if p[0] == x {
        assert(p.drop_first() =~= p.remove(0));
    } else {
        assert(p.drop_first()[i - 1] == x);
        lemma_remove_first_occurrence(p.drop_first(), x);
        let k = choose|k: int|
            0 <= k < p.drop_first().len() && p.drop_first()[k] == x && (forall|j: int|
                0 <= j < k ==> p.drop_first()[j] != x) && #[trigger] remove_first(
                p.drop_first(),
                x,
            ) == p.drop_first().remove(k);
        assert(seq![p[0]] + p.drop_first().remove(k) =~= p.remove(k + 1));
        assert forall|j: int| 0 <= j < k + 1 implies p[j] != x by {
            if j > 0 {
                assert(p[j] == p.drop_first()[j - 1]);
            }
        }
    }
}

/// Removing a name that the pool does not hold leaves the pool as it is.
pub proof fn lemma_remove_absent(p: Seq<Seq<char>>, x: Seq<char>)
    requires
        !p.contains(x),
    ensures
        remove_first(p, x) == p,
    decreases p.len(),
{
    if p.len() > 0 {
        assert(p[0] != x);
        assert forall|k: int| 0 <= k < p.drop_first().len() implies p.drop_first()[k] != x by {
            assert(p.drop_first()[k] == p[k + 1]);
        }
        lemma_remove_absent(p.drop_first(), x);
        assert(seq![p[0]] + p.drop_first() =~= p);
    }
}

/// The first index at which `x` stands, when no index before `i` holds it.
proof fn lemma_remove_at_first(p: Seq<Seq<char>>, x: Seq<char>, i: int)
    requires
        0 <= i < p.len(),
        p[i] == x,
        forall|j: int| 0 <= j < i ==> p[j] != x,
    ensures
        remove_first(p, x) == p.remove(i),
    decreases p.len(),
{
    if i == 0 {
        assert(p.drop_first() =~= p.remove(0));
    } else {
        assert forall|j: int| 0 <= j < i - 1 implies p.drop_first()[j] != x by {
            assert(p.drop_first()[j] == p[j + 1]);
        }
        lemma_remove_at_first(p.drop_first(), x, i - 1);
        assert(seq![p[0]] + p.drop_first().remove(i - 1) =~= p.remove(i));
    }
}

/// Writes the entries one after another, with `sep` between each two of them.
pub fn join_entries(items: &Vec<String>, sep: &str) -> (r: String)
    ensures
        r@ == joined(entries(items@), sep@),
{
    let mut out = String::new();
    let mut i: usize = 0;
    while i < items.len()
        invariant
            i <= items.len(),
            out@ == joined(entries(items@).take(i as int), sep@),
        decreases items.len() - i,
    {
        let ghost before = entries(items@).take(i as int);
        if i > 0 {
            out.append(sep);
        }
        out.append(items[i].as_str());
        proof {
            let now = entries(items@).take(i + 1);
            assert(now.drop_last() =~= before);
            if i == 0 {
                assert(before =~= Seq::<Seq<char>>::empty());
                assert(out@ =~= now[0]);
            }
        }
        i = i + 1;
    }
    assert(entries(items@).take(i as int) =~= entries(items@));
    out
}

/// The persisted state: the pool of entries, in the order they were added.
pub struct Config {
    pub current_pool: Vec<String>,
}

impl View for Config {
    type V = Seq<Seq<char>>;

    open spec fn view(&self) -> Seq<Seq<char>> {
        entries(self.current_pool@)
    }
}

/// What a removal did.
#[derive(Debug, Clone, Copy, PartialEq, Eq, Structural)]
pub enum RemoveOutcome {
    /// The first entry equal to the name was taken out; the pool must be saved.
    Removed,
    /// The pool holds entries, none of them equal to the name.
    NotFound,
    /// The pool is empty; nothing was looked for.
    NoEntries,
}

impl Default for Config {
    /// A configuration with an empty pool, as a fresh file holds it.
    fn default() -> (r: Config)
        ensures
            r@ == Seq::<Seq<char>>::empty(),
    {
        Config::new()
    }
}

impl RemoveOutcome {
    /// Whether the removal changed the pool, so that it must be saved.
    pub fn must_save(&self) -> (r: bool)
        ensures
            r == (*self == RemoveOutcome::Removed),
    {
        *self == RemoveOutcome::Removed
    }
}

impl Config {
    /// A configuration with an empty pool.
    pub fn new() -> (r: Config)
        ensures
            r@ == Seq::<Seq<char>>::empty(),
    {
        let r = Config { current_pool: Vec::new() };
        assert(r@ =~= Seq::<Seq<char>>::empty());
        r
    }

    /// Appends `name` at the end of the pool.
    pub fn add(&mut self, name: String)
        ensures
            final(self)@ == old(self)@.push(name@),
            final(self)@.len() == old(self)@.len() + 1,
            forall|i: int| 0 <= i < old(self)@.len() ==> final(self)@[i] == old(self)@[i],
            final(self)@.last() == name@,
    {
        self.current_pool.push(name);
        assert(self@ =~= old(self)@.push(name@));
    }

    /// Takes out the first entry equal to `name`, when the pool holds one.
    pub fn remove(&mut self, name: &String) -> (r: RemoveOutcome)
        ensures
            final(self)@ == remove_first(old(self)@, name@),
            old(self)@.len() == 0 ==> r == RemoveOutcome::NoEntries,
            old(self)@.len() > 0 && !old(self)@.contains(name@) ==> r == RemoveOutcome::NotFound,
            old(self)@.contains(name@) ==> r == RemoveOutcome::Removed,
            r != RemoveOutcome::Removed ==> final(self)@ == old(self)@,
    {
        if self.current_pool.len() == 0 {
            proof {
                lemma_remove_absent(self@, name@);
            }
            return RemoveOutcome::NoEntries;
        }
        let mut i: usize = 0;
        while i < self.current_pool.len()
            invariant
                i <= self.current_pool.len(),
                self@ == old(self)@,
                forall|j: int| 0 <= j < i ==> self@[j] != name@,
            decreases self.current_pool.len() - i,
        {
            if self.current_pool[i] == *name {
                proof {
                    lemma_remove_at_first(self@, name@, i as int);
                }
                self.current_pool.remove(i);
                assert(self@ =~= old(self)@.remove(i as int));
                return RemoveOutcome::Removed;
            }
            i = i + 1;
        }
        proof {
            assert forall|k: int| 0 <= k < old(self)@.len() implies old(self)@[k] != name@ by {}
            lemma_remove_absent(self@, name@);
        }
        RemoveOutcome::NotFound
    }

    /// The entries, one per line, or `None` when the pool is empty.
    pub fn listing(&self) -> (r: Option<String>)
        ensures
            r is None <==> self@.len() == 0,
            r matches Some(s) ==> s@ == joined(self@, "\n"@),
    {
        if self.current_pool.len() == 0 {
            None
        } else {
            Some(join_entries(&self.current_pool, "\n"))
        }
    }

    /// Empties the pool when the answer typed at the prompt says yes; returns
    /// whether it did, and so whether the pool must be saved.
    pub fn clear(&mut self, answer: &str) -> (r: bool)
        ensures
            r == is_yes(lower_of(trim_of(answer@))),
            r ==> final(self)@ == Seq::<Seq<char>>::empty(),
            !r ==> final(self)@ == old(self)@,
    {
        if confirms(answer) {
            self.current_pool.clear();
            assert(self@ =~= Seq::<Seq<char>>::empty());
            true
        } else {
            false
        }
    }
}

} // verus!
