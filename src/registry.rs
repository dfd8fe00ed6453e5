use vstd::prelude::*;

verus! {

/// The engine thread's table of callable functions: each registered name is
/// bound to one opaque engine handle `H`.
///
/// Names are unique; registering a name again replaces its handle.
pub struct FunctionRegistry<H> {
    names: Vec<String>,
    handles: Vec<H>,
}

impl<H> View for FunctionRegistry<H> {
    type V = Map<Seq<char>, H>;

    closed spec fn view(&self) -> Map<Seq<char>, H> {
        Map::new(
            |k: Seq<char>| self.slot_of(k) >= 0,
            |k: Seq<char>| self.handles@[self.slot_of(k)],
        )
    }
}

impl<H> FunctionRegistry<H> {
    /// The position at which `name` is stored, or -1 where it is absent.
    closed spec fn slot_of(&self, name: Seq<char>) -> int {
        if exists|i: int| 0 <= i < self.names@.len() && self.names@[i]@ == name {
            choose|i: int| 0 <= i < self.names@.len() && self.names@[i]@ == name
        } else {
            -1
        }
    }

    /// Names and handles are paired position by position, and no name occurs
    /// twice.
    pub closed spec fn wf(&self) -> bool {
        &&& self.names@.len() == self.handles@.len()
        &&& forall|i: int, j: int|
            0 <= i < j < self.names@.len() ==> self.names@[i]@ != self.names@[j]@
    }

    proof fn lemma_slot_of(&self, i: int)
        requires
            self.wf(),
            0 <= i < self.names@.len(),
        ensures
            self.slot_of(self.names@[i]@) == i,
    {
    }

    /// An empty registry.
    pub fn new() -> (r: Self)
        ensures
            r.wf(),
            r@ == Map::<Seq<char>, H>::empty(),
    {
        let r = FunctionRegistry { names: Vec::new(), handles: Vec::new() };
        assert(r@ =~= Map::<Seq<char>, H>::empty());
        r
    }

    /// The position of `name`, if it is registered.
    fn position(&self, name: &String) -> (r: Option<usize>)
        requires
            self.wf(),
        ensures
            r is None ==> self.slot_of(name@) == -1,
            r matches Some(i) ==> self.slot_of(name@) == i && i < self.names@.len(),
    {
        let mut i: usize = 0;
        while i < self.names.len()
            invariant
                self.wf(),
                i <= self.names@.len(),
                forall|j: int| 0 <= j < i ==> self.names@[j]@ != name@,
            decreases self.names@.len() - i,
        {
            if self.names[i] == *name {
                proof {
                    self.lemma_slot_of(i as int);
                }
                return Some(i);
            }
            i = i + 1;
        }
        None
    }

    /// Whether `name` is registered.
    pub fn contains(&self, name: &String) -> (r: bool)
        requires
            self.wf(),
        ensures
            r == self@.contains_key(name@),
    {
        self.position(name).is_some()
    }

    /// The handle registered under `name`.
    pub fn get(&self, name: &String) -> (r: Option<&H>)
        requires
            self.wf(),
        ensures
            r is Some <==> self@.contains_key(name@),
            r matches Some(h) ==> *h == self@[name@],
    {
        match self.position(name) {
            Some(i) => Some(&self.handles[i]),
            None => None,
        }
    }

    /// Binds `name` to `handle`, replacing any earlier binding of that name.
    pub fn insert(&mut self, name: String, handle: H)
        requires
            old(self).wf(),
        ensures
            final(self).wf(),
            final(self)@ == old(self)@.insert(name@, handle),
    {
        match self.position(&name) {
            Some(i) => {
                self.handles[i] = handle;
                assert forall|k: Seq<char>| #[trigger] self.slot_of(k) == old(self).slot_of(k) by {
                    if old(self).slot_of(k) >= 0 {
                        old(self).lemma_slot_of(old(self).slot_of(k));
                        self.lemma_slot_of(old(self).slot_of(k));
                    }
                }
            },
            None => {
                let ghost key = name@;
                self.names.push(name);
                self.handles.push(handle);
                let ghost n = self.names@.len() - 1;
                proof {
                    self.lemma_slot_of(n);
                }
                assert forall|k: Seq<char>| k != key implies #[trigger] self.slot_of(k)
                    == old(self).slot_of(k) by {
                    if old(self).slot_of(k) >= 0 {
                        old(self).lemma_slot_of(old(self).slot_of(k));
                        self.lemma_slot_of(old(self).slot_of(k));
                    }
                }
            },
        }
        assert(self@ =~= old(self)@.insert(name@, handle));
    }
}

} // verus!
