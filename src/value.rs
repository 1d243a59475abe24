//! The schemaless document value exchanged with the datastore.

use vstd::prelude::*;

verus! {

broadcast use vstd::std_specs::vec::group_vec_axioms;

/// A dynamically typed document value.
#[derive(Debug, PartialEq)]
pub enum Value {
    /// The absence of a value.
    Absent,
    Null,
    Bool(bool),
    Number(i64),
    Strand(String),
    /// A record reference, in its textual form `table:key`.
    Thing(String),
    Array(Vec<Value>),
    Object(Object),
    /// A value this library does not interpret, kept in its textual form.
    Other(String),
}

/// A mapping from field names to values. Later entries override earlier
/// entries with the same key; the operations here keep keys unique.
#[derive(Debug, PartialEq)]
pub struct Object {
    pub entries: Vec<(String, Value)>,
}

/// The mathematical content of a document value.
pub enum Doc {
    Absent,
    Null,
    Bool(bool),
    Number(int),
    Strand(Seq<char>),
    Thing(Seq<char>),
    Array(Seq<Doc>),
    Object(Map<Seq<char>, Doc>),
    Other(Seq<char>),
}

impl Value {
    pub open spec fn view(self) -> Doc
        decreases self, 0nat,
    {
        match self {
            Value::Absent => Doc::Absent,
            Value::Null => Doc::Null,
            Value::Bool(b) => Doc::Bool(b),
            Value::Number(n) => Doc::Number(n as int),
            Value::Strand(s) => Doc::Strand(s@),
            Value::Thing(s) => Doc::Thing(s@),
            Value::Array(a) => Doc::Array(docs_of(a@)),
            Value::Object(o) => Doc::Object(entries_map(o.entries@)),
            Value::Other(s) => Doc::Other(s@),
        }
    }
}

impl Value {
    /// A copy of the value with the same content.
    pub fn copy(&self) -> (r: Value)
        ensures
            r@ == self@,
        decreases self,
    {
        match self {
            Value::Absent => Value::Absent,
            Value::Null => Value::Null,
            Value::Bool(b) => Value::Bool(*b),
            Value::Number(n) => Value::Number(*n),
            Value::Strand(s) => Value::Strand(s.clone()),
            Value::Thing(s) => Value::Thing(s.clone()),
            Value::Other(s) => Value::Other(s.clone()),
            Value::Array(a) => {
                let mut out: Vec<Value> = Vec::new();
                let mut i: usize = 0;
                while i < a.len()
                    invariant
                        i <= a.len(),
                        *self == Value::Array(*a),
                        docs_of(out@) == docs_of(a@.take(i as int)),
                    decreases a.len() - i,
                {
                    proof {
                        assert(decreases_to!(*self => self->Array_0));
                        assert(decreases_to!(self->Array_0 => self->Array_0[i as int]));
                    }
                    let v = a[i].copy();
                    proof {
                        lemma_docs_of_push(out@, v);
                        lemma_docs_of_push(a@.take(i as int), a@[i as int]);
                        assert(a@.take(i as int + 1) =~= a@.take(i as int).push(a@[i as int]));
                    }
                    out.push(v);
                    i = i + 1;
                }
                proof {
                    assert(a@.take(a.len() as int) =~= a@);
                }
                Value::Array(out)
            },
            Value::Object(o) => {
                proof {
                    assert(decreases_to!(*self => self->Object_0));
                }
                Value::Object(o.copy())
            },
        }
    }
}

/// The contents of a sequence of values.
pub open spec fn docs_of(s: Seq<Value>) -> Seq<Doc>
    decreases s, 1nat,
{
    if s.len() == 0 {
        Seq::empty()
    } else {
        docs_of(s.drop_last()).push(s.last().view())
    }
}

/// The mapping that a sequence of entries denotes: later entries override
/// earlier ones with the same key.
pub open spec fn entries_map(s: Seq<(String, Value)>) -> Map<Seq<char>, Doc>
    decreases s, 1nat,
{
    if s.len() == 0 {
        Map::empty()
    } else {
        entries_map(s.drop_last()).insert(s.last().0@, s.last().1.view())
    }
}

proof fn lemma_entries_map_push(s: Seq<(String, Value)>, e: (String, Value))
    ensures
        entries_map(s.push(e)) == entries_map(s).insert(e.0@, e.1@),
{
    assert(s.push(e).drop_last() =~= s);
}

/// The contents of a sequence of values, element by element.
pub proof fn lemma_docs_of_index(s: Seq<Value>)
    ensures
        docs_of(s).len() == s.len(),
        forall|i: int| 0 <= i < s.len() ==> #[trigger] docs_of(s)[i] == s[i]@,
    decreases s.len(),
{
    if s.len() > 0 {
        lemma_docs_of_index(s.drop_last());
        assert forall|i: int| 0 <= i < s.len() implies #[trigger] docs_of(s)[i] == s[i]@ by {
            if i < s.len() - 1 {
                assert(s.drop_last()[i] == s[i]);
            }
        }
    }
}

proof fn lemma_docs_of_push(s: Seq<Value>, v: Value)
    ensures
        docs_of(s.push(v)) == docs_of(s).push(v@),
{
    assert(s.push(v).drop_last() =~= s);
}

/// Whether two strings hold the same characters.
pub fn same_text(a: &str, b: &str) -> (r: bool)
    ensures
        r == (a@ == b@),
{
    let n = a.unicode_len();
    if n != b.unicode_len() {
        return false;
    }
    let mut i: usize = 0;
    while i < n
        invariant
            n == a@.len() == b@.len(),
            0 <= i <= n,
            forall|j: int| 0 <= j < i ==> a@[j] == b@[j],
        decreases n - i,
    {
        if a.get_char(i) != b.get_char(i) {
            return false;
        }
        i = i + 1;
    }
    proof {
        assert(a@ =~= b@);
    }
    true
}

impl Object {
    /// The fields of the object, by name.
    pub open spec fn view(&self) -> Map<Seq<char>, Doc> {
        entries_map(self.entries@)
    }

    pub fn new() -> (r: Object)
        ensures
            r@ == Map::<Seq<char>, Doc>::empty(),
    {
        Object { entries: Vec::new() }
    }

    /// A copy of the object with the same content.
    pub fn copy(&self) -> (r: Object)
        ensures
            r@ == self@,
        decreases self,
    {
        let mut out = Object::new();
        let mut i: usize = 0;
        while i < self.entries.len()
            invariant
                i <= self.entries.len(),
                out@ == entries_map(self.entries@.take(i as int)),
            decreases self.entries.len() - i,
        {
            let k = self.entries[i].0.clone();
            proof {
                assert(decreases_to!(*self => self.entries));
                assert(decreases_to!(self.entries => self.entries[i as int]));
                assert(decreases_to!(self.entries[i as int] => self.entries[i as int].1));
            }
            let v = self.entries[i].1.copy();
            proof {
                lemma_entries_map_push(self.entries@.take(i as int), self.entries@[i as int]);
                assert(self.entries@.take(i as int + 1) =~= self.entries@.take(i as int).push(
                    self.entries@[i as int],
                ));
            }
            out.insert(k, v);
            i = i + 1;
        }
        proof {
            assert(self.entries@.take(self.entries.len() as int) =~= self.entries@);
        }
        out
    }

    /// Removes the field `k`, returning its value if it was present.
    pub fn remove(&mut self, k: &str) -> (r: Option<Value>)
        ensures
            final(self)@ == old(self)@.remove(k@),
            r is Some <==> old(self)@.contains_key(k@),
            r is Some ==> r->0@ == old(self)@[k@],
    {
        let mut rest: Vec<(String, Value)> = Vec::new();
        std::mem::swap(&mut rest, &mut self.entries);
        let ghost orig = rest@;
        let ghost n = rest.len();
        let mut found: Option<Value> = None;
        let mut i: usize = 0;
        while rest.len() > 0
            invariant
                0 <= i <= n,
                n == orig.len(),
                rest@ == orig.subrange(i as int, n as int),
                self@ == entries_map(orig.take(i as int)).remove(k@),
                found is Some <==> entries_map(orig.take(i as int)).contains_key(k@),
                found is Some ==> found->0@ == entries_map(orig.take(i as int))[k@],
            decreases rest.len(),
        {
            let e = rest.remove(0);
            proof {
                assert(e == orig[i as int]);
                assert(orig.take(i as int + 1) =~= orig.take(i as int).push(e));
                lemma_entries_map_push(orig.take(i as int), e);
                lemma_entries_map_push(self.entries@, e);
            }
            if same_text(e.0.as_str(), k) {
                found = Some(e.1);
                proof {
                    assert(entries_map(orig.take(i as int + 1)).remove(k@) =~= entries_map(
                        orig.take(i as int),
                    ).remove(k@));
                }
            } else {
                self.entries.push(e);
                proof {
                    assert(self@ =~= entries_map(orig.take(i as int + 1)).remove(k@));
                }
            }
            i = i + 1;
        }
        proof {
            assert(orig.take(n as int) =~= orig);
        }
        found
    }

    /// Sets the field `k` to `v`.
    pub fn insert(&mut self, k: String, v: Value)
        ensures
            final(self)@ == old(self)@.insert(k@, v@),
    {
        let _ = self.remove(k.as_str());
        let ghost before = self.entries@;
        let e = (k, v);
        let ghost ge = e;
        self.entries.push(e);
        proof {
            lemma_entries_map_push(before, ge);
            assert(self@ =~= old(self)@.insert(ge.0@, ge.1@));
        }
    }
}

} // verus!
