use vstd::prelude::*;

use crate::error::{ApiFailure, TransportFailure};

verus! {

/// A typed parameter or payload value.
#[derive(Debug)]
pub enum Value {
    Int(i32),
    Text(String),
}

/// The value stored under `k` in a list of entries: the first entry with
/// that key.
pub open spec fn lookup(entries: Seq<(String, Value)>, k: Seq<char>) -> Option<Value>
    decreases entries.len(),
{
    if entries.len() == 0 {
        None
    } else if entries[0].0@ == k {
        Some(entries[0].1)
    } else {
        lookup(entries.drop_first(), k)
    }
}

/// `v` is text with these characters.
pub open spec fn holds_text(v: Option<Value>, s: Seq<char>) -> bool {
    match v {
        Some(Value::Text(t)) => t@ == s,
        _ => false,
    }
}

/// No key occurs twice.
pub open spec fn keys_unique(entries: Seq<(String, Value)>) -> bool {
    forall|i: int, j: int|
        0 <= i < j < entries.len() ==> #[trigger] entries[i].0@ != #[trigger] entries[j].0@
}

proof fn lemma_lookup_absent(entries: Seq<(String, Value)>, k: Seq<char>)
    requires
        forall|i: int| 0 <= i < entries.len() ==> #[trigger] entries[i].0@ != k,
    ensures
        lookup(entries, k) is None,
    decreases entries.len(),
{
    if entries.len() > 0 {
        let d = entries.drop_first();
        assert forall|i: int| 0 <= i < d.len() implies #[trigger] d[i].0@ != k by {
            assert(d[i] == entries[i + 1]);
        }
        lemma_lookup_absent(d, k);
    }
}

proof fn lemma_lookup_at(entries: Seq<(String, Value)>, i: int)
    requires
        0 <= i < entries.len(),
        forall|j: int| 0 <= j < i ==> #[trigger] entries[j].0@ != entries[i].0@,
    ensures
        lookup(entries, entries[i].0@) == Some(entries[i].1),
    decreases entries.len(),
{
    if i > 0 {
        let d = entries.drop_first();
        assert(d[i - 1] == entries[i]);
        assert forall|j: int| 0 <= j < i - 1 implies #[trigger] d[j].0@ != d[i - 1].0@ by {
            assert(d[j] == entries[j + 1]);
        }
        lemma_lookup_at(d, i - 1);
    }
}

proof fn lemma_lookup_update(entries: Seq<(String, Value)>, i: int, e: (String, Value), k: Seq<char>)
    requires
        0 <= i < entries.len(),
        entries[i].0@ == e.0@,
        forall|j: int| 0 <= j < i ==> #[trigger] entries[j].0@ != e.0@,
    ensures
        lookup(entries.update(i, e), k) == if k == e.0@ {
            Some(e.1)
        } else {
            lookup(entries, k)
        },
    decreases entries.len(),
{
    let u = entries.update(i, e);
    if i > 0 {
        let d = entries.drop_first();
        assert(u.drop_first() =~= d.update(i - 1, e));
        assert(u[0] == entries[0]);
        assert forall|j: int| 0 <= j < i - 1 implies #[trigger] d[j].0@ != e.0@ by {
            assert(d[j] == entries[j + 1]);
        }
        assert(entries[0].0@ != e.0@);
        lemma_lookup_update(d, i - 1, e, k);
    } else {
        assert(u.drop_first() =~= entries.drop_first());
    }
}

proof fn lemma_lookup_push(entries: Seq<(String, Value)>, e: (String, Value), k: Seq<char>)
    requires
        lookup(entries, e.0@) is None,
    ensures
        lookup(entries.push(e), k) == if k == e.0@ {
            Some(e.1)
        } else {
            lookup(entries, k)
        },
    decreases entries.len(),
{
    let p = entries.push(e);
    if entries.len() > 0 {
        assert(p[0] == entries[0]);
        assert(p.drop_first() =~= entries.drop_first().push(e));
        assert(entries[0].0@ != e.0@);
        assert(lookup(entries.drop_first(), e.0@) is None);
        lemma_lookup_push(entries.drop_first(), e, k);
        assert(lookup(p, k) == if p[0].0@ == k {
            Some(p[0].1)
        } else {
            lookup(p.drop_first(), k)
        });
    } else {
        assert(p[0] == e);
        assert(p.drop_first().len() == 0);
        assert(lookup(p.drop_first(), k) is None);
    }
}

/// A mapping from parameter names to values, with each name at most once.
#[derive(Debug)]
pub struct Params {
    pub entries: Vec<(String, Value)>,
}

impl Params {
    /// The key set is duplicate-free.
    pub open spec fn wf(&self) -> bool {
        keys_unique(self.entries@)
    }

    /// The value under `k`, if any.
    pub open spec fn get_spec(&self, k: Seq<char>) -> Option<Value> {
        lookup(self.entries@, k)
    }

    /// An empty mapping.
    pub fn new() -> (r: Params)
        ensures
            r.wf(),
            forall|k: Seq<char>| #[trigger] r.get_spec(k) is None,
    {
        Params { entries: Vec::new() }
    }

    fn position(&self, name: &str) -> (r: Option<usize>)
        ensures
            match r {
                Some(i) => {
                    &&& i < self.entries@.len()
                    &&& self.entries@[i as int].0@ == name@
                    &&& forall|j: int| 0 <= j < i ==> #[trigger] self.entries@[j].0@ != name@
                },
                None => forall|i: int| 0 <= i < self.entries@.len() ==> #[trigger] self.entries@[i].0@ != name@,
            },
    {
        let key = name.to_owned();
        let mut i: usize = 0;
        while i < self.entries.len()
            invariant
                i <= self.entries@.len(),
                key@ == name@,
                forall|j: int| 0 <= j < i ==> #[trigger] self.entries@[j].0@ != name@,
            decreases self.entries@.len() - i,
        {
            if self.entries[i].0 == key {
                return Some(i);
            }
            i = i + 1;
        }
        None
    }

    /// Sets `name` to `value` and hands back the value it replaces.
    pub fn insert(&mut self, name: &str, value: Value) -> (r: Option<Value>)
        ensures
            old(self).wf() ==> final(self).wf(),
            r == old(self).get_spec(name@),
            forall|k: Seq<char>| #[trigger] final(self).get_spec(k) == if k == name@ {
                Some(value)
            } else {
                old(self).get_spec(k)
            },
    {
        let ghost before = self.entries@;
        match self.position(name) {
            Some(i) => {
                let e = (name.to_owned(), value);
                proof {
                    lemma_lookup_at(before, i as int);
                }
                let prev = self.entries.remove(i);
                self.entries.insert(i, e);
                proof {
                    assert(self.entries@ =~= before.update(i as int, e));
                    assert forall|k: Seq<char>| #[trigger] lookup(self.entries@, k) == if k == name@ {
                        Some(value)
                    } else {
                        lookup(before, k)
                    } by {
                        lemma_lookup_update(before, i as int, e, k);
                    }
                    assert forall|a: int, b: int|
                        keys_unique(before) && 0 <= a < b < self.entries@.len() implies
                        #[trigger] self.entries@[a].0@ != #[trigger] self.entries@[b].0@ by {
                        assert(self.entries@[a].0@ == before[a].0@ && self.entries@[b].0@ == before[b].0@);
                    }
                }
                Some(prev.1)
            },
            None => {
                let e = (name.to_owned(), value);
                proof {
                    lemma_lookup_absent(before, name@);
                }
                self.entries.push(e);
                proof {
                    assert(self.entries@ =~= before.push(e));
                    assert forall|k: Seq<char>| #[trigger] lookup(self.entries@, k) == if k == name@ {
                        Some(value)
                    } else {
                        lookup(before, k)
                    } by {
                        lemma_lookup_push(before, e, k);
                    }
                    assert forall|a: int, b: int|
                        keys_unique(before) && 0 <= a < b < self.entries@.len() implies
                        #[trigger] self.entries@[a].0@ != #[trigger] self.entries@[b].0@ by {
                        if b < before.len() {
                            assert(self.entries@[a] == before[a] && self.entries@[b] == before[b]);
                        }
                    }
                }
                None
            },
        }
    }

    /// The value under `name`, if any.
    pub fn get(&self, name: &str) -> (r: Option<&Value>)
        ensures
            match r {
                Some(v) => self.get_spec(name@) == Some(*v),
                None => self.get_spec(name@) is None,
            },
    {
        match self.position(name) {
            Some(i) => {
                proof {
                    lemma_lookup_at(self.entries@, i as int);
                }
                Some(&self.entries[i].1)
            },
            None => {
                proof {
                    lemma_lookup_absent(self.entries@, name@);
                }
                None
            },
        }
    }
}

/// Whether a status code reports a completed command: 1000, or 1500 for a
/// command that also ended the session.
pub open spec fn is_success_code(code: i32) -> bool {
    code == 1000 || code == 1500
}

/// Executable form of `is_success_code`.
pub fn success_code(code: i32) -> (r: bool)
    ensures
        r == is_success_code(code),
{
    code == 1000 || code == 1500
}

/// A request: a method name and its parameters.
#[derive(Debug)]
pub struct RpcCall {
    pub method: String,
    pub params: Params,
}

impl RpcCall {
    /// A call of `method` without parameters.
    pub fn new(method: &str) -> (r: RpcCall)
        ensures
            r.method@ == method@,
            r.params.wf(),
            forall|k: Seq<char>| #[trigger] r.params.get_spec(k) is None,
    {
        RpcCall { method: method.to_owned(), params: Params::new() }
    }
}

/// A decoded response: status code, message and optional payload.
#[derive(Debug)]
pub struct RpcResponse {
    pub code: i32,
    pub message: String,
    pub payload: Option<Params>,
}

/// The failure that an exchange reports, if any: the transport's own, or
/// the remote service's code and message when the code is not a success.
pub open spec fn failure_of(outcome: Result<RpcResponse, TransportFailure>) -> Option<ApiFailure> {
    match outcome {
        Err(t) => Some(ApiFailure::Transport(t)),
        Ok(resp) => if is_success_code(resp.code) {
            None
        } else {
            Some(ApiFailure::CallError(resp.code, resp.message))
        },
    }
}

/// Turns the outcome of one exchange into the payload of a completed
/// command, or the failure it reports.
pub fn interpret(outcome: Result<RpcResponse, TransportFailure>) -> (r: Result<
    Option<Params>,
    ApiFailure,
>)
    ensures
        match failure_of(outcome) {
            Some(f) => r == Err::<Option<Params>, ApiFailure>(f),
            None => r == Ok::<Option<Params>, ApiFailure>(outcome->Ok_0.payload),
        },
        outcome is Err ==> !(r->Err_0 is CallError),
{
    match outcome {
        Err(t) => Err(ApiFailure::Transport(t)),
        Ok(resp) => if success_code(resp.code) {
            Ok(resp.payload)
        } else {
            Err(ApiFailure::CallError(resp.code, resp.message))
        },
    }
}

} // verus!
