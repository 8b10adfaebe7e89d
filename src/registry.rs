//! The command registry: a table from command name to handler, built once and
//! then only read.
use vstd::prelude::*;
use vstd::string::*;
use serde_json::Value;
use crate::json::{json_text, value_text};
use crate::reply::{failure, failure_reply, success, success_reply, Reply, ReplyView};

verus! {

/// Why a command could not be registered.
pub enum RegistryError {
    /// A handler is already registered under this name.
    DuplicateName(String),
}

struct Entry<H> {
    name: String,
    handler: H,
}

/// Named command handlers. Each handler takes the command's arguments as one JSON
/// value and gives back a JSON value or an error message.
pub struct Registry<H> {
    entries: Vec<Entry<H>>,
}

/// The message of a dispatch to a name that nothing is registered under.
pub open spec fn unknown_command(name: Seq<char>) -> Seq<char> {
    "Unknown command: "@ + name
}

/// A handler of the registry accepts every JSON value.
pub open spec fn accepts_any<H: Fn(Value) -> Result<Value, String>>(h: H) -> bool {
    forall|v: Value| call_requires(h, (v,))
}

/// No two entries of a list share a name.
pub open spec fn distinct_names<H>(list: Seq<(String, H)>) -> bool {
    forall|i: int, j: int| 0 <= i < j < list.len() ==> (#[trigger] list[i]).0@ != (#[trigger] list[j]).0@
}

/// What dispatching `name` with `args` may return, given the registered handlers.
pub open spec fn dispatch_outcome<H: Fn(Value) -> Result<Value, String>>(
    handlers: Map<Seq<char>, H>,
    name: Seq<char>,
    args: Value,
    r: Result<Value, String>,
) -> bool {
    if handlers.contains_key(name) {
        call_ensures(handlers[name], (args,), r)
    } else {
        r is Err && r->Err_0@ == unknown_command(name)
    }
}

/// The reply that the outcome of a dispatch is written back as.
pub open spec fn outcome_reply(r: Result<Value, String>) -> ReplyView {
    match r {
        Ok(v) => success_reply(json_text(v)),
        Err(m) => failure_reply(m@),
    }
}

/// What replying to an invocation of `name` with `args` may give.
pub open spec fn invocation_reply<H: Fn(Value) -> Result<Value, String>>(
    handlers: Map<Seq<char>, H>,
    name: Seq<char>,
    args: Value,
    r: ReplyView,
) -> bool {
    exists|o: Result<Value, String>| dispatch_outcome(handlers, name, args, o) && r == outcome_reply(o)
}

impl<H: Fn(Value) -> Result<Value, String>> Registry<H> {
    spec fn holds(&self, k: Seq<char>) -> bool {
        exists|i: int| 0 <= i < self.entries@.len() && (#[trigger] self.entries@[i]).name@ == k
    }

    spec fn index_of(&self, k: Seq<char>) -> int {
        choose|i: int| 0 <= i < self.entries@.len() && (#[trigger] self.entries@[i]).name@ == k
    }

    /// The handlers by name.
    pub closed spec fn view(&self) -> Map<Seq<char>, H> {
        Map::new(|k: Seq<char>| self.holds(k), |k: Seq<char>| self.entries@[self.index_of(k)].handler)
    }

    /// Names are unique and every handler accepts any JSON value.
    pub closed spec fn wf(&self) -> bool {
        &&& forall|i: int, j: int|
            0 <= i < self.entries@.len() && 0 <= j < self.entries@.len() && i != j
                ==> (#[trigger] self.entries@[i]).name@ != (#[trigger] self.entries@[j]).name@
        &&& forall|i: int| 0 <= i < self.entries@.len() ==> accepts_any((#[trigger] self.entries@[i]).handler)
    }

    proof fn lemma_entry(&self, i: int)
        requires
            self.wf(),
            0 <= i < self.entries@.len(),
        ensures
            self@.contains_key(self.entries@[i].name@),
            self@[self.entries@[i].name@] == self.entries@[i].handler,
    {
        let k = self.entries@[i].name@;
        assert(self.holds(k));
        let j = self.index_of(k);
        assert(self.entries@[j].name@ == k);
    }

    proof fn lemma_handlers_accept(&self)
        requires
            self.wf(),
        ensures
            forall|k: Seq<char>| #[trigger] self@.contains_key(k) ==> accepts_any(self@[k]),
    {
        assert forall|k: Seq<char>| #[trigger] self@.contains_key(k) implies accepts_any(self@[k]) by {
            let j = self.index_of(k);
            assert(self.entries@[j].name@ == k);
        }
    }

    /// A registry with no commands.
    pub fn new() -> (r: Self)
        ensures
            r.wf(),
            r@ == Map::<Seq<char>, H>::empty(),
    {
        let r = Registry { entries: Vec::new() };
        assert(r@ =~= Map::<Seq<char>, H>::empty());
        r
    }

    /// The registry of an explicit list of named handlers. Names must be unique:
    /// a name listed twice is refused.
    pub fn from_list(list: Vec<(String, H)>) -> (r: Result<Self, RegistryError>)
        requires
            forall|i: int| 0 <= i < list@.len() ==> accepts_any((#[trigger] list@[i]).1),
        ensures
            r is Ok <==> distinct_names(list@),
            r is Ok ==> r->Ok_0.wf(),
            r is Ok ==> forall|i: int| 0 <= i < list@.len() ==> r->Ok_0@.contains_key((#[trigger] list@[i]).0@)
                && r->Ok_0@[list@[i].0@] == list@[i].1,
            r is Ok ==> forall|k: Seq<char>| #[trigger] r->Ok_0@.contains_key(k) ==> exists|i: int|
                0 <= i < list@.len() && (#[trigger] list@[i]).0@ == k,
            r matches Err(RegistryError::DuplicateName(n)) ==> exists|i: int, j: int|
                0 <= i < j < list@.len() && (#[trigger] list@[i]).0@ == n@ && (#[trigger] list@[j]).0@ == n@,
    {
        let ghost all = list@;
        let mut rest = list;
        let mut registry = Self::new();
        while rest.len() > 0
            invariant
                registry.wf(),
                all == list@,
                rest@.len() <= all.len(),
                rest@ == all.subrange(0, rest@.len() as int),
                forall|i: int| 0 <= i < all.len() ==> accepts_any((#[trigger] all[i]).1),
                forall|i: int| rest@.len() <= i < all.len() ==> registry@.contains_key((#[trigger] all[i]).0@)
                    && registry@[all[i].0@] == all[i].1,
                forall|k: Seq<char>| #[trigger] registry@.contains_key(k) ==> exists|i: int|
                    rest@.len() <= i < all.len() && (#[trigger] all[i]).0@ == k,
                forall|i: int, j: int| rest@.len() <= i < j < all.len() ==> (#[trigger] all[i]).0@ != (#[trigger] all[j]).0@,
            decreases rest@.len(),
        {
            let ghost at = rest@.len() - 1;
            let (name, handler) = rest.pop().unwrap();
            assert(all[at] == (name, handler));
            let ghost key = name@;
            let ghost before = registry@;
            match registry.register(name, handler) {
                Ok(()) => {
                    assert forall|i: int, j: int| rest@.len() <= i < j < all.len() implies (#[trigger] all[i]).0@
                        != (#[trigger] all[j]).0@ by {
                        if i == at {
                            assert(before.contains_key(all[j].0@));
                        }
                    }
                    assert forall|k: Seq<char>| #[trigger] registry@.contains_key(k) implies exists|i: int|
                        rest@.len() <= i < all.len() && (#[trigger] all[i]).0@ == k by {
                        if k == key {
                            assert(all[at].0@ == k);
                        }
                    }
                },
                Err(e) => {
                    proof {
                        assert(before.contains_key(key));
                        let j = choose|j: int| at < j < all.len() && (#[trigger] all[j]).0@ == key;
                        assert(all[at].0@ == key && all[j].0@ == key);
                        assert(!distinct_names(all));
                    }
                    return Err(e);
                },
            }
        }
        assert(rest@.len() == 0);
        Ok(registry)
    }

    /// Where `name` stands in the table, if anywhere.
    fn position(&self, name: &str) -> (r: Option<usize>)
        requires
            self.wf(),
        ensures
            r is None ==> !self@.contains_key(name@),
            r is Some ==> r->Some_0 < self.entries@.len() && self.entries@[r->Some_0 as int].name@
                == name@,
    {
        let key = String::from_str(name);
        let mut i: usize = 0;
        while i < self.entries.len()
            invariant
                key@ == name@,
                i <= self.entries@.len(),
                forall|j: int| 0 <= j < i ==> (#[trigger] self.entries@[j]).name@ != name@,
            decreases self.entries@.len() - i,
        {
            if self.entries[i].name == key {
                return Some(i);
            }
            i = i + 1;
        }
        proof {
            if self.holds(name@) {
                let j = self.index_of(name@);
                assert(self.entries@[j].name@ == name@);
            }
        }
        None
    }

    /// Whether a handler is registered under `name`.
    pub fn contains(&self, name: &str) -> (r: bool)
        requires
            self.wf(),
        ensures
            r == self@.contains_key(name@),
    {
        let p = self.position(name);
        proof {
            if p is Some {
                self.lemma_entry(p->Some_0 as int);
            }
        }
        p.is_some()
    }

    /// The handler registered under `name`.
    pub fn lookup(&self, name: &str) -> (r: Option<&H>)
        requires
            self.wf(),
        ensures
            r is None <==> !self@.contains_key(name@),
            r is Some ==> *r->Some_0 == self@[name@],
    {
        match self.position(name) {
            Some(i) => {
                proof {
                    self.lemma_entry(i as int);
                }
                Some(&self.entries[i].handler)
            },
            None => None,
        }
    }

    /// Adds `handler` under `name`; a name can be registered once.
    pub fn register(&mut self, name: String, handler: H) -> (r: Result<(), RegistryError>)
        requires
            old(self).wf(),
            accepts_any(handler),
        ensures
            final(self).wf(),
            old(self)@.contains_key(name@) ==> (r matches Err(RegistryError::DuplicateName(n))
                && n@ == name@) && final(self)@ == old(self)@,
            !old(self)@.contains_key(name@) ==> r is Ok && final(self)@ == old(self)@.insert(
                name@,
                handler,
            ),
    {
        if self.contains(name.as_str()) {
            return Err(RegistryError::DuplicateName(name));
        }
        let ghost before = *self;
        let ghost key = name@;
        self.entries.push(Entry { name, handler });
        proof {
            let n = before.entries@.len() as int;
            assert(self.entries@[n].name@ == key);
            assert forall|i: int| 0 <= i < n implies (#[trigger] self.entries@[i]).name@ != key by {
                before.lemma_entry(i);
                assert(self.entries@[i] == before.entries@[i]);
            }
            assert(self.wf());
            self.lemma_entry(n);
            assert forall|k: Seq<char>| #[trigger] self@.contains_key(k) == before@.insert(key, handler).contains_key(k) by {
                if before.holds(k) {
                    let j = before.index_of(k);
                    assert(self.entries@[j] == before.entries@[j]);
                }
                if self.holds(k) && k != key {
                    let j = self.index_of(k);
                    assert(self.entries@[j].name@ == k);
                    assert(j < n);
                    assert(before.entries@[j] == self.entries@[j]);
                }
            }
            assert forall|k: Seq<char>| #[trigger] self@.contains_key(k) implies self@[k] == before@.insert(key, handler)[k] by {
                if k != key {
                    let j = self.index_of(k);
                    assert(self.entries@[j].name@ == k);
                    assert(j < n);
                    assert(before.entries@[j] == self.entries@[j]);
                    before.lemma_entry(j);
                    self.lemma_entry(j);
                }
            }
            assert(self@ =~= before@.insert(key, handler));
        }
        Ok(())
    }

    /// Runs the handler registered under `name` on `args`; the handler's result or
    /// error message comes back unchanged.
    pub fn dispatch(&self, name: &str, args: Value) -> (r: Result<Value, String>)
        requires
            self.wf(),
        ensures
            dispatch_outcome(self@, name@, args, r),
    {
        proof {
            self.lemma_handlers_accept();
        }
        match self.lookup(name) {
            Some(handler) => handler(args),
            None => Err(String::from_str("Unknown command: ").concat(name)),
        }
    }

    /// Dispatches `name` with `args` and writes the outcome as a reply: the result
    /// as JSON with status 200, or `{"error":<message>}` with status 500.
    pub fn invoke(&self, name: &str, args: Value) -> (r: Reply)
        requires
            self.wf(),
        ensures
            invocation_reply(self@, name@, args, r@),
            !self@.contains_key(name@) ==> r@ == failure_reply(unknown_command(name@)),
    {
        let outcome = self.dispatch(name, args);
        let r = match &outcome {
            Ok(v) => success(value_text(v)),
            Err(m) => failure(m.as_str()),
        };
        assert(dispatch_outcome(self@, name@, args, outcome) && r@ == outcome_reply(outcome));
        r
    }
}

} // verus!
