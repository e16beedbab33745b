use vstd::prelude::*;

use crate::state::State;

verus! {

/// The mapping that a list of entries stands for; a later entry for an id
/// overrides an earlier one.
pub open spec fn store_map(e: Seq<(String, State)>) -> Map<Seq<char>, State>
    decreases e.len(),
{
    if e.len() == 0 {
        Map::empty()
    } else {
        store_map(e.drop_last()).insert(e.last().0@, e.last().1)
    }
}

/// The ids named by a list.
pub open spec fn id_set(ids: Seq<String>) -> Set<Seq<char>> {
    Set::new(|k: Seq<char>| exists|i: int| 0 <= i < ids.len() && (#[trigger] ids[i])@ == k)
}

/// `m` after each id of `ids` was written with the state beside it.
pub open spec fn persist_all(
    m: Map<Seq<char>, State>,
    ids: Seq<String>,
    states: Seq<State>,
) -> Map<Seq<char>, State>
    decreases ids.len(),
{
    if ids.len() == 0 || states.len() == 0 {
        m
    } else {
        persist_all(m, ids.drop_last(), states.drop_last()).insert(ids.last()@, states.last())
    }
}

proof fn lemma_store_map_push(e: Seq<(String, State)>, p: (String, State))
    ensures
        store_map(e.push(p)) == store_map(e).insert(p.0@, p.1),
{
    assert(e.push(p).drop_last() =~= e);
}

fn contains_id(ids: &Vec<String>, id: &String) -> (r: bool)
    ensures
        r == id_set(ids@).contains(id@),
{
    let mut i: usize = 0;
    while i < ids.len()
        invariant
            i <= ids@.len(),
            forall|k: int| 0 <= k < i ==> (#[trigger] ids@[k])@ != id@,
        decreases ids@.len() - i,
    {
        if ids[i] == *id {
            assert(ids@[i as int]@ == id@);
            return true;
        }
        i = i + 1;
    }
    false
}

/// The remembered state of every task, by task id, and the file it is kept
/// in. Reading and writing the file is left to the caller.
#[derive(Debug, Clone)]
pub struct FileStore {
    path: String,
    state: Vec<(String, State)>,
}

impl View for FileStore {
    type V = Map<Seq<char>, State>;

    closed spec fn view(&self) -> Map<Seq<char>, State> {
        store_map(self.state@)
    }
}

impl FileStore {
    pub closed spec fn spec_path(&self) -> Seq<char> {
        self.path@
    }

    /// A store for `path` that remembers nothing yet (the file is absent).
    pub fn new(path: String) -> (r: FileStore)
        ensures
            r@ == Map::<Seq<char>, State>::empty(),
            r.spec_path() == path@,
    {
        FileStore { path, state: Vec::new() }
    }

    /// A store for `path` holding what was read from it.
    pub fn from_entries(path: String, entries: Vec<(String, State)>) -> (r: FileStore)
        ensures
            r@ == store_map(entries@),
            r.spec_path() == path@,
    {
        FileStore { path, state: entries }
    }

    pub fn path(&self) -> (r: &String)
        ensures
            r@ == self.spec_path(),
    {
        &self.path
    }

    /// The entries to write out.
    pub fn entries(&self) -> (r: &Vec<(String, State)>)
        ensures
            store_map(r@) == self@,
    {
        &self.state
    }

    /// The state remembered for `id`.
    pub fn get(&self, id: &str) -> (r: Option<&State>)
        ensures
            r is Some <==> self@.contains_key(id@),
            r matches Some(s) ==> *s == self@[id@],
    {
        let key = String::from_str(id);
        let mut i: usize = self.state.len();
        assert(self.state@.subrange(0, i as int) =~= self.state@);
        while i > 0
            invariant
                key@ == id@,
                i <= self.state@.len(),
                forall|k: int|
                    i <= k < self.state@.len() ==> (#[trigger] self.state@[k]).0@ != id@,
                store_map(self.state@).contains_key(id@) <==> store_map(
                    self.state@.subrange(0, i as int),
                ).contains_key(id@),
                store_map(self.state@).contains_key(id@) ==> store_map(self.state@)[id@]
                    == store_map(self.state@.subrange(0, i as int))[id@],
            decreases i,
        {
            let p = &self.state[i - 1];
            proof {
                assert(self.state@.subrange(0, i as int) =~= self.state@.subrange(
                    0,
                    i - 1,
                ).push(*p));
                lemma_store_map_push(self.state@.subrange(0, i - 1), *p);
            }
            if p.0 == key {
                return Some(&p.1);
            }
            i = i - 1;
        }
        assert(self.state@.subrange(0, 0) =~= Seq::<(String, State)>::empty());
        None
    }

    /// Forgets every task whose id is not in `task_ids`.
    pub fn retain(&mut self, task_ids: &Vec<String>)
        ensures
            final(self)@ == old(self)@.restrict(id_set(task_ids@)),
            final(self).spec_path() == old(self).spec_path(),
    {
        let ghost ids = id_set(task_ids@);
        let ghost orig = self.state@;
        let mut kept: Vec<(String, State)> = Vec::new();
        let n = self.state.len();
        let mut i: usize = 0;
        while i < n
            invariant
                n == orig.len(),
                self.state@ == orig,
                ids == id_set(task_ids@),
                i <= n,
                store_map(kept@) == store_map(orig.subrange(0, i as int)).restrict(ids),
            decreases n - i,
        {
            let p = &self.state[i];
            proof {
                assert(orig.subrange(0, i + 1) =~= orig.subrange(0, i as int).push(*p));
                lemma_store_map_push(orig.subrange(0, i as int), *p);
            }
            if contains_id(task_ids, &p.0) {
                let q = (p.0.clone(), p.1.copied());
                proof {
                    lemma_store_map_push(kept@, q);
                }
                kept.push(q);
                assert(store_map(kept@) =~= store_map(orig.subrange(0, i + 1)).restrict(ids));
            } else {
                assert(store_map(kept@) =~= store_map(orig.subrange(0, i + 1)).restrict(ids));
            }
            i = i + 1;
        }
        assert(orig.subrange(0, n as int) =~= orig);
        self.state = kept;
    }

    /// Remembers `state` for task `id`, replacing what was remembered.
    pub fn persist(&mut self, id: String, state: State)
        ensures
            final(self)@ == old(self)@.insert(id@, state),
            final(self).spec_path() == old(self).spec_path(),
    {
        let ghost orig = self.state@;
        let mut kept: Vec<(String, State)> = Vec::new();
        let n = self.state.len();
        let mut i: usize = 0;
        while i < n
            invariant
                n == orig.len(),
                self.state@ == orig,
                i <= n,
                store_map(kept@) == store_map(orig.subrange(0, i as int)).remove(id@),
            decreases n - i,
        {
            let p = &self.state[i];
            proof {
                assert(orig.subrange(0, i + 1) =~= orig.subrange(0, i as int).push(*p));
                lemma_store_map_push(orig.subrange(0, i as int), *p);
            }
            if p.0 != id {
                let q = (p.0.clone(), p.1.copied());
                proof {
                    lemma_store_map_push(kept@, q);
                }
                kept.push(q);
                assert(store_map(kept@) =~= store_map(orig.subrange(0, i + 1)).remove(id@));
            } else {
                assert(store_map(kept@) =~= store_map(orig.subrange(0, i + 1)).remove(id@));
            }
            i = i + 1;
        }
        assert(orig.subrange(0, n as int) =~= orig);
        let q = (id, state);
        proof {
            lemma_store_map_push(kept@, q);
        }
        kept.push(q);
        assert(store_map(kept@) =~= store_map(orig).insert(q.0@, q.1));
        self.state = kept;
    }
}

/// Pruning a loaded store to the current task ids (`retain`) and then
/// writing each of those tasks (`persist`) leaves a store whose ids are
/// exactly the current task ids.
pub proof fn lemma_prune_then_persist(
    loaded: Map<Seq<char>, State>,
    ids: Seq<String>,
    states: Seq<State>,
)
    requires
        states.len() == ids.len(),
    ensures
        persist_all(loaded.restrict(id_set(ids)), ids, states).dom() == id_set(ids),
{
    let m = loaded.restrict(id_set(ids));
    lemma_persist_all_dom(m, ids, states);
    assert(m.dom() =~= loaded.dom().intersect(id_set(ids)));
    assert(persist_all(m, ids, states).dom() =~= id_set(ids));
}

/// Writing the ids of `ids` adds exactly those ids.
proof fn lemma_persist_all_dom(m: Map<Seq<char>, State>, ids: Seq<String>, states: Seq<State>)
    requires
        states.len() == ids.len(),
    ensures
        persist_all(m, ids, states).dom() == m.dom().union(id_set(ids)),
    decreases ids.len(),
{
    if ids.len() == 0 {
        assert(m.dom().union(id_set(ids)) =~= m.dom());
    } else {
        let pre = ids.drop_last();
        lemma_persist_all_dom(m, pre, states.drop_last());
        assert forall|k: Seq<char>| #[trigger] id_set(ids).contains(k) <==> (id_set(
            pre,
        ).contains(k) || k == ids.last()@) by {
            if id_set(ids).contains(k) && k != ids.last()@ {
                let j = choose|j: int| 0 <= j < ids.len() && (#[trigger] ids[j])@ == k;
                assert(j < ids.len() - 1);
                assert(pre[j]@ == k);
            }
            if id_set(pre).contains(k) {
                let j = choose|j: int| 0 <= j < pre.len() && (#[trigger] pre[j])@ == k;
                assert(ids[j]@ == k);
            }
            if k == ids.last()@ {
                assert(ids[ids.len() - 1]@ == k);
            }
        }
        assert(persist_all(m, ids, states).dom() =~= m.dom().union(id_set(ids)));
    }
}

} // verus!
