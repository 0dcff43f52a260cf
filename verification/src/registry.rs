//! The session registry: which sessions are currently eligible to receive
//! broadcasts, each listed at most once, in registration order.

use vstd::prelude::*;

verus! {

/// The ids a sequence of `String`s stands for.
pub open spec fn views_of_ids(s: Seq<String>) -> Seq<Seq<char>> {
    s.map_values(|x: String| x@)
}

pub proof fn lemma_views_of_ids_push(s: Seq<String>, x: String)
    ensures
        views_of_ids(s.push(x)) == views_of_ids(s).push(x@),
{
    assert(views_of_ids(s.push(x)) =~= views_of_ids(s).push(x@));
}

/// No session id occurs twice.
pub open spec fn unique_ids(reg: Seq<Seq<char>>) -> bool {
    forall|i: int, j: int| 0 <= i < j < reg.len() ==> reg[i] != reg[j]
}

/// Registration of an id: appended when new, a no-op when already present.
pub open spec fn insert_id(reg: Seq<Seq<char>>, x: Seq<char>) -> Seq<Seq<char>> {
    if reg.contains(x) {
        reg
    } else {
        reg.push(x)
    }
}

/// Deregistration of an id: every occurrence dropped, a no-op when absent.
pub open spec fn remove_id(reg: Seq<Seq<char>>, x: Seq<char>) -> Seq<Seq<char>>
    decreases reg.len(),
{
    if reg.len() == 0 {
        Seq::empty()
    } else {
        let rest = remove_id(reg.drop_last(), x);
        if reg.last() == x {
            rest
        } else {
            rest.push(reg.last())
        }
    }
}

pub proof fn lemma_insert_id_contains(reg: Seq<Seq<char>>, x: Seq<char>, y: Seq<char>)
    ensures
        insert_id(reg, x).contains(y) <==> (reg.contains(y) || y == x),
{
    if !reg.contains(x) {
        assert(reg.push(x)[reg.len() as int] == x);
        if reg.contains(y) {
            let i = choose|i: int| 0 <= i < reg.len() && reg[i] == y;
            assert(reg.push(x)[i] == y);
        }
        if insert_id(reg, x).contains(y) {
            let i = choose|i: int| 0 <= i < reg.push(x).len() && reg.push(x)[i] == y;
            if i < reg.len() {
                assert(reg[i] == y);
            }
        }
    }
}

pub proof fn lemma_insert_id_unique(reg: Seq<Seq<char>>, x: Seq<char>)
    requires
        unique_ids(reg),
    ensures
        unique_ids(insert_id(reg, x)),
{
    if !reg.contains(x) {
        let out = reg.push(x);
        assert forall|i: int, j: int| 0 <= i < j < out.len() implies out[i] != out[j] by {
            if j == reg.len() {
                assert(reg[i] == out[i]);
            }
        }
    }
}

pub proof fn lemma_remove_id_contains(reg: Seq<Seq<char>>, x: Seq<char>, y: Seq<char>)
    ensures
        remove_id(reg, x).contains(y) <==> (reg.contains(y) && y != x),
    decreases reg.len(),
{
    if reg.len() > 0 {
        let rest = reg.drop_last();
        lemma_remove_id_contains(rest, x, y);
        assert(rest.contains(y) ==> reg.contains(y)) by {
            if rest.contains(y) {
                let i = choose|i: int| 0 <= i < rest.len() && rest[i] == y;
                assert(reg[i] == y);
            }
        }
        if reg.last() != x {
            assert(remove_id(reg, x) == remove_id(rest, x).push(reg.last()));
            assert(remove_id(rest, x).push(reg.last())[remove_id(rest, x).len() as int]
                == reg.last());
            if remove_id(reg, x).contains(y) && !remove_id(rest, x).contains(y) {
                let i = choose|i: int|
                    0 <= i < remove_id(reg, x).len() && remove_id(reg, x)[i] == y;
                if i < remove_id(rest, x).len() {
                    assert(remove_id(rest, x)[i] == y);
                }
            }
            if remove_id(rest, x).contains(y) {
                let i = choose|i: int|
                    0 <= i < remove_id(rest, x).len() && remove_id(rest, x)[i] == y;
                assert(remove_id(reg, x)[i] == y);
            }
        }
        if reg.contains(y) && y != x && !rest.contains(y) {
            let i = choose|i: int| 0 <= i < reg.len() && reg[i] == y;
            if i < rest.len() {
                assert(rest[i] == y);
            }
            assert(reg.last() == y);
        }
    }
}

pub proof fn lemma_remove_id_unique(reg: Seq<Seq<char>>, x: Seq<char>)
    requires
        unique_ids(reg),
    ensures
        unique_ids(remove_id(reg, x)),
    decreases reg.len(),
{
    if reg.len() > 0 {
        let rest = reg.drop_last();
        assert(unique_ids(rest)) by {
            assert forall|i: int, j: int| 0 <= i < j < rest.len() implies rest[i] != rest[j] by {
                assert(reg[i] == rest[i] && reg[j] == rest[j]);
            }
        }
        lemma_remove_id_unique(rest, x);
        if reg.last() != x {
            let prev = remove_id(rest, x);
            let out = prev.push(reg.last());
            assert forall|i: int, j: int| 0 <= i < j < out.len() implies out[i] != out[j] by {
                if j == prev.len() {
                    lemma_remove_id_contains(rest, x, out[i]);
                    assert(prev[i] == out[i]);
                    assert(prev.contains(prev[i]));
                    let k = choose|k: int| 0 <= k < rest.len() && rest[k] == out[i];
                    assert(reg[k] == rest[k]);
                }
            }
        }
    }
}

/// How `remove_id` acts on an appended element.
pub proof fn lemma_remove_id_push(reg: Seq<Seq<char>>, e: Seq<char>, x: Seq<char>)
    ensures
        remove_id(reg.push(e), x) == if e == x {
            remove_id(reg, x)
        } else {
            remove_id(reg, x).push(e)
        },
{
    assert(reg.push(e).drop_last() =~= reg);
    assert(reg.push(e).last() == e);
}

/// Removing an absent id changes nothing.
pub proof fn lemma_remove_id_absent(reg: Seq<Seq<char>>, x: Seq<char>)
    requires
        !reg.contains(x),
    ensures
        remove_id(reg, x) == reg,
    decreases reg.len(),
{
    if reg.len() == 0 {
        assert(remove_id(reg, x) =~= reg);
    } else {
        let rest = reg.drop_last();
        assert(!rest.contains(x)) by {
            if rest.contains(x) {
                let i = choose|i: int| 0 <= i < rest.len() && rest[i] == x;
                assert(reg[i] == x);
            }
        }
        lemma_remove_id_absent(rest, x);
        assert(reg.last() != x) by {
            assert(reg[reg.len() - 1] == reg.last());
        }
        assert(remove_id(reg, x) =~= reg);
    }
}

/// A mapping from session id to delivery eligibility, mutated only inside the
/// hub's serialized event handling. The delivery handle itself lives with the
/// transport; the hub addresses a session by its id.
pub struct Registry {
    ids: Vec<String>,
}

impl View for Registry {
    type V = Seq<Seq<char>>;

    closed spec fn view(&self) -> Seq<Seq<char>> {
        views_of_ids(self.ids@)
    }
}

impl Registry {
    /// Well-formed: no session id registered twice.
    pub open spec fn wf(&self) -> bool {
        unique_ids(self@)
    }

    pub fn new() -> (r: Registry)
        ensures
            r@ =~= Seq::<Seq<char>>::empty(),
            r.wf(),
    {
        Registry { ids: Vec::new() }
    }

    pub fn len(&self) -> (r: usize)
        ensures
            r == self@.len(),
    {
        self.ids.len()
    }

    /// The id at a registration position.
    pub fn get(&self, i: usize) -> (r: &String)
        requires
            i < self@.len(),
        ensures
            r@ == self@[i as int],
    {
        &self.ids[i]
    }

    /// Whether a session id is currently registered.
    pub fn contains(&self, id: &String) -> (r: bool)
        ensures
            r == self@.contains(id@),
    {
        let mut i: usize = 0;
        while i < self.ids.len()
            invariant
                i <= self.ids.len(),
                forall|k: int| 0 <= k < i ==> self@[k] != id@,
            decreases self.ids.len() - i,
        {
            if self.ids[i] == *id {
                assert(self@[i as int] == id@);
                return true;
            }
            i += 1;
        }
        false
    }

    /// Registers a session id; a second registration of the same id is a
    /// no-op, so an id can never appear twice.
    pub fn insert(&mut self, id: String)
        requires
            old(self).wf(),
        ensures
            final(self).wf(),
            final(self)@ == insert_id(old(self)@, id@),
    {
        if !self.contains(&id) {
            let ghost before = self.ids@;
            let ghost idv = id@;
            self.ids.push(id);
            proof {
                lemma_views_of_ids_push(before, self.ids@.last());
                lemma_insert_id_unique(views_of_ids(before), idv);
            }
        }
    }

    /// Deregisters a session id; removing an absent id is a no-op, never an
    /// error.
    pub fn remove(&mut self, id: &String)
        requires
            old(self).wf(),
        ensures
            final(self).wf(),
            final(self)@ == remove_id(old(self)@, id@),
    {
        let ghost before = self@;
        let mut kept: Vec<String> = Vec::new();
        assert(views_of_ids(kept@) =~= remove_id(before.take(0), id@));
        let mut i: usize = 0;
        while i < self.ids.len()
            invariant
                i <= self.ids.len(),
                self@ == before,
                self@.len() == self.ids@.len(),
                views_of_ids(kept@) == remove_id(before.take(i as int), id@),
            decreases self.ids.len() - i,
        {
            let ghost prefix = before.take(i as int);
            proof {
                assert(before.take(i as int + 1) =~= prefix.push(before[i as int]));
                lemma_remove_id_push(prefix, before[i as int], id@);
            }
            if self.ids[i] == *id {
                assert(before[i as int] == id@);
            } else {
                let ghost kept_before = kept@;
                kept.push(self.ids[i].clone());
                proof {
                    lemma_views_of_ids_push(kept_before, kept@.last());
                }
            }
            i += 1;
        }
        assert(before.take(before.len() as int) =~= before);
        self.ids = kept;
        proof {
            lemma_remove_id_unique(before, id@);
        }
    }

    /// The registered ids, in registration order, for iteration by a caller.
    pub fn snapshot(&self) -> (r: Vec<String>)
        ensures
            views_of_ids(r@) == self@,
    {
        let mut out: Vec<String> = Vec::new();
        assert(views_of_ids(out@) =~= self@.take(0));
        let mut i: usize = 0;
        while i < self.ids.len()
            invariant
                i <= self.ids.len(),
                self@.len() == self.ids@.len(),
                views_of_ids(out@) == self@.take(i as int),
            decreases self.ids.len() - i,
        {
            let ghost out_before = out@;
            out.push(self.ids[i].clone());
            proof {
                lemma_views_of_ids_push(out_before, out@.last());
                assert(views_of_ids(out@) =~= self@.take(i as int + 1));
            }
            i += 1;
        }
        assert(self@.take(self@.len() as int) =~= self@);
        out
    }
}

} // verus!
