//! The table of live runs.
use vstd::prelude::*;

verus! {

/// No identifier occurs twice.
spec fn distinct(ids: Seq<String>) -> bool {
    forall|i: int, j: int| 0 <= i < j < ids.len() ==> ids[i]@ != ids[j]@
}

/// Some place holds `id`.
spec fn has_id(ids: Seq<String>, id: Seq<char>) -> bool {
    exists|i: int| 0 <= i < ids.len() && #[trigger] ids[i]@ == id
}

/// The place that holds `id`.
spec fn position(ids: Seq<String>, id: Seq<char>) -> int {
    choose|i: int| 0 <= i < ids.len() && #[trigger] ids[i]@ == id
}

/// Identifiers and handles, place by place, read as a map.
spec fn table<H>(ids: Seq<String>, handles: Seq<H>) -> Map<Seq<char>, H> {
    Map::new(|id: Seq<char>| has_id(ids, id), |id: Seq<char>| handles[position(ids, id)])
}

proof fn lemma_position(ids: Seq<String>, at: int)
    requires
        distinct(ids),
        0 <= at < ids.len(),
    ensures
        has_id(ids, ids[at]@),
        position(ids, ids[at]@) == at,
{
    let id = ids[at]@;
    assert(ids[at]@ == id);
    let p = position(ids, id);
    assert(0 <= p < ids.len() && ids[p]@ == id);
    if p < at {
        assert(ids[p]@ != ids[at]@);
    } else if at < p {
        assert(ids[at]@ != ids[p]@);
    }
}

proof fn lemma_table_push<H>(ids: Seq<String>, handles: Seq<H>, id: String, handle: H)
    requires
        distinct(ids),
        ids.len() == handles.len(),
        !has_id(ids, id@),
    ensures
        distinct(ids.push(id)),
        table(ids.push(id), handles.push(handle)) == table(ids, handles).insert(id@, handle),
{
    let grown = ids.push(id);
    assert forall|i: int, j: int| 0 <= i < j < grown.len() implies grown[i]@ != grown[j]@ by {
        if j == ids.len() {
            assert(ids[i]@ == grown[i]@);
        } else {
            assert(ids[i]@ != ids[j]@);
        }
    }
    assert forall|x: Seq<char>| has_id(grown, x) <==> (x == id@ || has_id(ids, x)) by {
        if has_id(grown, x) {
            let i = choose|i: int| 0 <= i < grown.len() && #[trigger] grown[i]@ == x;
            if i < ids.len() {
                assert(ids[i]@ == x);
            }
        }
        if has_id(ids, x) {
            let i = choose|i: int| 0 <= i < ids.len() && #[trigger] ids[i]@ == x;
            assert(grown[i]@ == x);
        }
        if x == id@ {
            assert(grown[ids.len() as int]@ == x);
        }
    }
    assert forall|x: Seq<char>| has_id(grown, x) implies #[trigger] table(
        grown,
        handles.push(handle),
    )[x] == table(ids, handles).insert(id@, handle)[x] by {
        let i = position(grown, x);
        lemma_position(grown, i);
        if i < ids.len() {
            assert(grown[i] == ids[i]);
            lemma_position(ids, i);
        }
    }
    assert(table(grown, handles.push(handle)) =~= table(ids, handles).insert(id@, handle));
}

proof fn lemma_table_remove<H>(ids: Seq<String>, handles: Seq<H>, at: int)
    requires
        distinct(ids),
        ids.len() == handles.len(),
        0 <= at < ids.len(),
    ensures
        distinct(ids.remove(at)),
        table(ids.remove(at), handles.remove(at)) == table(ids, handles).remove(ids[at]@),
{
    let rest = ids.remove(at);
    let gone = ids[at]@;
    assert forall|i: int, j: int| 0 <= i < j < rest.len() implies rest[i]@ != rest[j]@ by {
        let a = if i < at { i } else { i + 1 };
        let b = if j < at { j } else { j + 1 };
        assert(ids[a]@ != ids[b]@);
    }
    assert forall|x: Seq<char>| has_id(rest, x) <==> (x != gone && has_id(ids, x)) by {
        if has_id(rest, x) {
            let i = choose|i: int| 0 <= i < rest.len() && #[trigger] rest[i]@ == x;
            let a = if i < at { i } else { i + 1 };
            assert(ids[a]@ == x);
            if a < at {
                assert(ids[a]@ != ids[at]@);
            } else {
                assert(ids[at]@ != ids[a]@);
            }
        }
        if x != gone && has_id(ids, x) {
            let a = choose|a: int| 0 <= a < ids.len() && #[trigger] ids[a]@ == x;
            let i = if a < at { a } else { a - 1 };
            assert(rest[i]@ == x);
        }
    }
    assert forall|x: Seq<char>| has_id(rest, x) implies #[trigger] table(
        rest,
        handles.remove(at),
    )[x] == table(ids, handles).remove(gone)[x] by {
        let i = position(rest, x);
        lemma_position(rest, i);
        let a = if i < at { i } else { i + 1 };
        lemma_position(ids, a);
    }
    assert(table(rest, handles.remove(at)) =~= table(ids, handles).remove(gone));
}

proof fn lemma_table_update<H>(ids: Seq<String>, handles: Seq<H>, at: int, handle: H)
    requires
        distinct(ids),
        ids.len() == handles.len(),
        0 <= at < ids.len(),
    ensures
        table(ids, handles.update(at, handle)) == table(ids, handles).insert(ids[at]@, handle),
{
    lemma_position(ids, at);
    assert forall|x: Seq<char>| has_id(ids, x) implies #[trigger] table(
        ids,
        handles.update(at, handle),
    )[x] == table(ids, handles).insert(ids[at]@, handle)[x] by {
        let i = position(ids, x);
        lemma_position(ids, i);
    }
    assert(table(ids, handles.update(at, handle)) =~= table(ids, handles).insert(
        ids[at]@,
        handle,
    ));
}

/// The table after an attempt to register `handle` under `id`: an identifier
/// that names a run keeps that run, a free one gets the new handle.
pub open spec fn registered<H>(table: Map<Seq<char>, H>, id: Seq<char>, handle: H) -> Map<
    Seq<char>,
    H,
> {
    if table.contains_key(id) {
        table
    } else {
        table.insert(id, handle)
    }
}

/// The handle that a removal of `id` hands out: that of the run under `id`,
/// or none where there is no such run.
pub open spec fn taken<H>(table: Map<Seq<char>, H>, id: Seq<char>) -> Option<H> {
    if table.contains_key(id) {
        Some(table[id])
    } else {
        None
    }
}

/// The live runs, each under its identifier. An identifier names at most one
/// run at a time and is free again once its run has been removed.
pub struct RunnerManager<H> {
    ids: Vec<String>,
    handles: Vec<H>,
}

impl<H> View for RunnerManager<H> {
    type V = Map<Seq<char>, H>;

    closed spec fn view(&self) -> Map<Seq<char>, H> {
        table(self.ids@, self.handles@)
    }
}

impl<H> RunnerManager<H> {
    #[verifier::type_invariant]
    spec fn well_formed(&self) -> bool {
        &&& self.ids@.len() == self.handles@.len()
        &&& distinct(self.ids@)
    }

    /// A table without runs.
    pub fn new() -> (manager: Self)
        ensures
            manager@ == Map::<Seq<char>, H>::empty(),
    {
        let manager = RunnerManager { ids: Vec::new(), handles: Vec::new() };
        assert(manager@ =~= Map::<Seq<char>, H>::empty());
        manager
    }

    fn find(&self, id: &String) -> (found: Option<usize>)
        ensures
            match found {
                Some(at) => at < self.ids@.len() && self.ids@[at as int]@ == id@,
                None => !has_id(self.ids@, id@),
            },
    {
        let mut at: usize = 0;
        while at < self.ids.len()
            invariant
                at <= self.ids@.len(),
                forall|i: int| 0 <= i < at ==> self.ids@[i]@ != id@,
            decreases self.ids@.len() - at,
        {
            if self.ids[at] == *id {
                return Some(at);
            }
            at += 1;
        }
        None
    }

    /// Whether a run is registered under `id`.
    pub fn contains(&self, id: &String) -> (present: bool)
        ensures
            present == self@.contains_key(id@),
    {
        let found = self.find(id);
        proof {
            if let Some(at) = found {
                assert(self.ids@[at as int]@ == id@);
            }
        }
        found.is_some()
    }

    /// Registers `handle` under `id`, unless `id` already names a run: then
    /// the table stays as it is and the handle comes back.
    pub fn insert(&mut self, id: String, handle: H) -> (outcome: Result<(), H>)
        ensures
            final(self)@ == registered(old(self)@, id@, handle),
            outcome == if old(self)@.contains_key(id@) {
                Err::<(), H>(handle)
            } else {
                Ok(())
            },
    {
        proof {
            use_type_invariant(&*self);
        }
        match self.find(&id) {
            Some(at) => {
                assert(self.ids@[at as int]@ == id@);
                Err(handle)
            },
            None => {
                proof {
                    lemma_table_push(self.ids@, self.handles@, id, handle);
                }
                let mut taken = RunnerManager { ids: Vec::new(), handles: Vec::new() };
                core::mem::swap(self, &mut taken);
                let RunnerManager { mut ids, mut handles } = taken;
                ids.push(id);
                handles.push(handle);
                *self = RunnerManager { ids, handles };
                Ok(())
            },
        }
    }

    /// Takes the run under `id` out of the table and returns its handle;
    /// without such a run nothing changes.
    pub fn remove(&mut self, id: &String) -> (handle: Option<H>)
        ensures
            final(self)@ == old(self)@.remove(id@),
            handle == taken(old(self)@, id@),
    {
        proof {
            use_type_invariant(&*self);
        }
        match self.find(id) {
            Some(at) => {
                proof {
                    lemma_position(self.ids@, at as int);
                    lemma_table_remove(self.ids@, self.handles@, at as int);
                }
                let mut taken = RunnerManager { ids: Vec::new(), handles: Vec::new() };
                core::mem::swap(self, &mut taken);
                let RunnerManager { mut ids, mut handles } = taken;
                ids.remove(at);
                let handle = handles.remove(at);
                *self = RunnerManager { ids, handles };
                Some(handle)
            },
            None => {
                assert(self@.remove(id@) =~= self@);
                None
            },
        }
    }

    /// The handle of the run under `id`, for use in place.
    pub fn get_mut(&mut self, id: &String) -> (handle: Option<&mut H>)
        ensures
            match handle {
                Some(h) => old(self)@.contains_key(id@) && *h == old(self)@[id@] && final(self)@
                    == old(self)@.insert(id@, *final(h)),
                None => !old(self)@.contains_key(id@) && final(self)@ == old(self)@,
            },
    {
        proof {
            use_type_invariant(&*self);
        }
        match self.find(id) {
            Some(at) => {
                proof {
                    lemma_position(self.ids@, at as int);
                    assert forall|h: H| #[trigger] table(self.ids@, self.handles@.update(at as int, h)) == self@.insert(id@, h) by {
                        lemma_table_update(self.ids@, self.handles@, at as int, h);
                    }
                }
                Some(&mut self.handles[at])
            },
            None => None,
        }
    }

    /// The identifiers of all live runs, each once, in no particular order.
    pub fn list(&self) -> (ids: Vec<String>)
        ensures
            ids.deep_view().no_duplicates(),
            ids.deep_view().to_set() == self@.dom(),
    {
        proof {
            use_type_invariant(self);
        }
        let mut ids: Vec<String> = Vec::new();
        let mut at: usize = 0;
        while at < self.ids.len()
            invariant
                at <= self.ids@.len(),
                ids@.len() == at,
                forall|i: int| 0 <= i < at ==> ids@[i]@ == self.ids@[i]@,
            decreases self.ids@.len() - at,
        {
            ids.push(self.ids[at].clone());
            at += 1;
        }
        proof {
            let texts = ids.deep_view();
            assert forall|i: int, j: int| 0 <= i < texts.len() && 0 <= j < texts.len() && i
                != j implies texts[i] != texts[j] by {
                if i < j {
                    assert(self.ids@[i]@ != self.ids@[j]@);
                } else {
                    assert(self.ids@[j]@ != self.ids@[i]@);
                }
            }
            assert forall|id: Seq<char>| texts.to_set().contains(id) <==> self@.dom().contains(
                id,
            ) by {
                if texts.to_set().contains(id) {
                    let i = choose|i: int| 0 <= i < texts.len() && texts[i] == id;
                    assert(self.ids@[i]@ == id);
                }
                if has_id(self.ids@, id) {
                    let i = choose|i: int| 0 <= i < self.ids@.len() && #[trigger] self.ids@[i]@
                        == id;
                    assert(texts[i] == id);
                }
            }
            assert(texts.to_set() =~= self@.dom());
        }
        ids
    }
}

} // verus!
