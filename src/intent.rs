//! The intent entity: its typed record, its payloads, and its controller.

use crate::error::{Error, Fault};
use crate::extract::{take, take_fault, take_val, text_of, FromValue};
use crate::model::{Event, ModelDeleteResultData, Mutation};
use crate::store::{
    decimal_text, first_record, merged, millis_text, now_millis, record_text, Creatable,
    Patchable, Query, Store,
};
use crate::value::{docs_of, Doc, Object, Value};
use vstd::prelude::*;
use vstd::string::*;

verus! {

/// An intent as stored.
#[derive(Debug, Clone, PartialEq)]
pub struct Intent {
    pub id: String,
    pub label: String,
    pub pinned: bool,
    pub tags: Vec<String>,
    pub created_at: String,
    pub archived_at: Option<String>,
}

/// The content of an intent.
pub struct IntentModel {
    pub id: Seq<char>,
    pub label: Seq<char>,
    pub pinned: bool,
    pub tags: Seq<Seq<char>>,
    pub created_at: Seq<char>,
    pub archived_at: Option<Seq<char>>,
}

pub open spec fn texts_view(s: Seq<String>) -> Seq<Seq<char>> {
    s.map_values(|t: String| t@)
}

impl Intent {
    pub open spec fn view(&self) -> IntentModel {
        IntentModel {
            id: self.id@,
            label: self.label@,
            pinned: self.pinned,
            tags: texts_view(self.tags@),
            created_at: self.created_at@,
            archived_at: match self.archived_at {
                Some(a) => Some(a@),
                None => None,
            },
        }
    }
}

/// The text of the required field `k`.
pub open spec fn text_field(m: Map<Seq<char>, Doc>, k: Seq<char>) -> Result<Seq<char>, Fault> {
    match take_fault::<String>(m, k) {
        Some(f) => Err(f),
        None => Ok(text_of(m[k])->0),
    }
}

/// The flag of the required field `k`.
pub open spec fn bool_field(m: Map<Seq<char>, Doc>, k: Seq<char>) -> Result<bool, Fault> {
    match take_fault::<bool>(m, k) {
        Some(f) => Err(f),
        None => Ok(m[k]->Bool_0),
    }
}

/// The texts of the required array field `k`.
pub open spec fn texts_field(m: Map<Seq<char>, Doc>, k: Seq<char>) -> Result<
    Seq<Seq<char>>,
    Fault,
> {
    match take_fault::<Vec<Value>>(m, k) {
        Some(f) => Err(f),
        None => {
            let s = m[k]->Array_0;
            if forall|i: int| 0 <= i < s.len() ==> (#[trigger] text_of(s[i])) is Some {
                Ok(s.map_values(|d: Doc| text_of(d)->0))
            } else {
                Err(Fault::NotOfType("String"))
            }
        },
    }
}

/// The text of the optional field `k`.
pub open spec fn opt_text_field(m: Map<Seq<char>, Doc>, k: Seq<char>) -> Result<
    Option<Seq<char>>,
    Fault,
> {
    if !m.contains_key(k) {
        Ok(None)
    } else if text_of(m[k]) is Some {
        Ok(text_of(m[k]))
    } else {
        Err(Fault::NotOfType("String"))
    }
}

/// The intent that a stored document reads as, or the first fault met in
/// reading its fields in the order `id`, `label`, `pinned`, `tags`,
/// `created_at`, `archived_at`.
pub open spec fn intent_of(m: Map<Seq<char>, Doc>) -> Result<IntentModel, Fault> {
    let id = text_field(m, "id"@);
    let label = text_field(m, "label"@);
    let pinned = bool_field(m, "pinned"@);
    let tags = texts_field(m, "tags"@);
    let created_at = text_field(m, "created_at"@);
    let archived_at = opt_text_field(m, "archived_at"@);
    if id is Err {
        Err(id->Err_0)
    } else if label is Err {
        Err(label->Err_0)
    } else if pinned is Err {
        Err(pinned->Err_0)
    } else if tags is Err {
        Err(tags->Err_0)
    } else if created_at is Err {
        Err(created_at->Err_0)
    } else if archived_at is Err {
        Err(archived_at->Err_0)
    } else {
        Ok(
            IntentModel {
                id: id->Ok_0,
                label: label->Ok_0,
                pinned: pinned->Ok_0,
                tags: tags->Ok_0,
                created_at: created_at->Ok_0,
                archived_at: archived_at->Ok_0,
            },
        )
    }
}

/// Whether `r` is what reading the document `m` as an intent gives.
pub open spec fn reads_intent(r: Result<Intent, Error>, m: Map<Seq<char>, Doc>) -> bool {
    match intent_of(m) {
        Ok(i) => r is Ok && r->Ok_0@ == i,
        Err(f) => r is Err && r->Err_0.reports(f),
    }
}

proof fn lemma_keys_distinct()
    ensures
        "id"@ != "label"@,
        "id"@ != "pinned"@,
        "id"@ != "tags"@,
        "id"@ != "created_at"@,
        "id"@ != "archived_at"@,
        "label"@ != "pinned"@,
        "label"@ != "tags"@,
        "label"@ != "created_at"@,
        "label"@ != "archived_at"@,
        "pinned"@ != "tags"@,
        "pinned"@ != "created_at"@,
        "pinned"@ != "archived_at"@,
        "tags"@ != "created_at"@,
        "tags"@ != "archived_at"@,
        "created_at"@ != "archived_at"@,
{
    reveal_strlit("id");
    reveal_strlit("label");
    reveal_strlit("pinned");
    reveal_strlit("tags");
    reveal_strlit("created_at");
    reveal_strlit("archived_at");
    assert("id"@[0] != "label"@[0]);
    assert("id"@[0] != "pinned"@[0]);
    assert("id"@[0] != "tags"@[0]);
    assert("id"@[0] != "created_at"@[0]);
    assert("id"@.len() != "archived_at"@.len());
    assert("label"@[0] != "pinned"@[0]);
    assert("label"@[0] != "tags"@[0]);
    assert("label"@[0] != "created_at"@[0]);
    assert("label"@[0] != "archived_at"@[0]);
    assert("pinned"@[0] != "tags"@[0]);
    assert("pinned"@[0] != "created_at"@[0]);
    assert("pinned"@[0] != "archived_at"@[0]);
    assert("tags"@[0] != "created_at"@[0]);
    assert("tags"@[0] != "archived_at"@[0]);
    assert("created_at"@[0] != "archived_at"@[0]);
}

/// Reads each value of `a` as a text. Fails on the first that is none.
fn texts_from(items: Vec<Value>) -> (r: Result<Vec<String>, Error>)
    ensures
        (forall|i: int| 0 <= i < items@.len() ==> (#[trigger] text_of(items@[i]@)) is Some) ==> {
            &&& r is Ok
            &&& texts_view(r->Ok_0@) == docs_of(items@).map_values(|d: Doc| text_of(d)->0)
        },
        !(forall|i: int| 0 <= i < items@.len() ==> (#[trigger] text_of(items@[i]@)) is Some) ==> r
            == Err::<Vec<String>, Error>(Error::XValueNotOfType("String")),
{
    let ghost orig = items@;
    let n: usize = items.len();
    proof {
        crate::value::lemma_docs_of_index(orig);
    }
    let mut a = items;
    let mut out: Vec<String> = Vec::new();
    let mut i: usize = 0;
    while a.len() > 0
        invariant
            0 <= i <= n,
            n == orig.len(),
            orig == items@,
            a@ == orig.subrange(i as int, n as int),
            out@.len() == i,
            forall|j: int| 0 <= j < i ==> (#[trigger] text_of(orig[j]@)) is Some,
            forall|j: int| 0 <= j < i ==> #[trigger] out@[j]@ == text_of(orig[j]@)->0,
        decreases a.len(),
    {
        let v = a.remove(0);
        proof {
            assert(v == orig[i as int]);
        }
        match String::from_value(v) {
            Ok(s) => {
                out.push(s);
            },
            Err(e) => {
                proof {
                    assert(text_of(orig[i as int]@) is None);
                    assert(!(forall|j: int|
                        0 <= j < orig.len() ==> (#[trigger] text_of(orig[j]@)) is Some));

                }
                return Err(e);
            },
        }
        i = i + 1;
    }
    proof {
        let d = docs_of(orig);
        assert(texts_view(out@) =~= d.map_values(|x: Doc| text_of(x)->0));
    }
    Ok(out)
}

impl Intent {
    /// Reads a stored document as an intent. Every field is required to be
    /// present with its type, but `archived_at`, which may be absent.
    pub fn try_from(val: Object) -> (r: Result<Intent, Error>)
        ensures
            reads_intent(r, val@),
    {
        let ghost m = val@;
        proof {
            lemma_keys_distinct();
        }
        let mut val = val;
        let id = match take_val::<String>(&mut val, "id") {
            Ok(v) => v,
            Err(e) => return Err(e),
        };
        let label = match take_val::<String>(&mut val, "label") {
            Ok(v) => v,
            Err(e) => return Err(e),
        };
        let pinned = match take_val::<bool>(&mut val, "pinned") {
            Ok(v) => v,
            Err(e) => return Err(e),
        };
        let arr = match take_val::<Vec<Value>>(&mut val, "tags") {
            Ok(v) => v,
            Err(e) => return Err(e),
        };
        proof {
            crate::value::lemma_docs_of_index(arr@);
            assert(m["tags"@]->Array_0 == docs_of(arr@));
            let s = m["tags"@]->Array_0;
            assert((forall|i: int| 0 <= i < s.len() ==> (#[trigger] text_of(s[i])) is Some) <==> (
            forall|i: int| 0 <= i < arr@.len() ==> (#[trigger] text_of(arr@[i]@)) is Some)) by {
                if forall|i: int| 0 <= i < s.len() ==> (#[trigger] text_of(s[i])) is Some {
                    assert forall|i: int| 0 <= i < arr@.len() implies (#[trigger] text_of(
                        arr@[i]@,
                    )) is Some by {
                        assert(s[i] == arr@[i]@);
                    }
                }
                if forall|i: int| 0 <= i < arr@.len() ==> (#[trigger] text_of(arr@[i]@)) is Some {
                    assert forall|i: int| 0 <= i < s.len() implies (#[trigger] text_of(
                        s[i],
                    )) is Some by {
                        assert(s[i] == arr@[i]@);
                    }
                }
            }
        }
        let tags = match texts_from(arr) {
            Ok(v) => v,
            Err(e) => return Err(e),
        };
        let created_at = match take_val::<String>(&mut val, "created_at") {
            Ok(v) => v,
            Err(e) => return Err(e),
        };
        let archived_at = match take::<String>(&mut val, "archived_at") {
            Ok(v) => v,
            Err(e) => return Err(e),
        };
        let r = Intent { id, label, pinned, tags, created_at, archived_at };
        proof {
            assert(r@.archived_at == opt_text_field(m, "archived_at"@)->Ok_0);
        }
        Ok(r)
    }
}

/// The fields a caller supplies to create an intent.
#[derive(Debug)]
pub struct IntentForCreate {
    pub label: String,
}

/// The document stored for a new intent labelled `label`, created at `now`.
pub open spec fn new_intent_doc(label: Seq<char>, now: int) -> Map<Seq<char>, Doc> {
    map![
        "label"@ => Doc::Strand(label),
        "created_at"@ => Doc::Strand(decimal_text(now)),
        "pinned"@ => Doc::Bool(false),
        "tags"@ => Doc::Array(Seq::empty()),
    ]
}

impl Creatable for IntentForCreate {
    open spec fn content(self, now: int) -> Map<Seq<char>, Doc> {
        new_intent_doc(self.label@, now)
    }

    fn into_content(self, now: i64) -> (r: Object) {
        let mut data = Object::new();
        data.insert(String::from_str("label"), Value::Strand(self.label));
        data.insert(String::from_str("created_at"), Value::Strand(millis_text(now)));
        data.insert(String::from_str("pinned"), Value::Bool(false));
        data.insert(String::from_str("tags"), Value::Array(Vec::new()));
        proof {
            assert(docs_of(Seq::<Value>::empty()) =~= Seq::<Doc>::empty());
            assert(data@ =~= new_intent_doc(self.label@, now as int));
        }
        data
    }
}

/// The fields a caller may change on an intent; an absent field is left as
/// it is.
#[derive(Debug, Clone)]
pub struct IntentForUpdate {
    pub label: Option<String>,
    pub pinned: Option<bool>,
    pub tags: Option<Vec<String>>,
}

/// The array document of a list of texts.
pub open spec fn texts_doc(tags: Seq<Seq<char>>) -> Doc {
    Doc::Array(tags.map_values(|t: Seq<char>| Doc::Strand(t)))
}

impl Patchable for IntentForUpdate {
    open spec fn patch(self) -> Map<Seq<char>, Doc> {
        let m0 = Map::<Seq<char>, Doc>::empty();
        let m1 = match self.label {
            Some(l) => m0.insert("label"@, Doc::Strand(l@)),
            None => m0,
        };
        let m2 = match self.pinned {
            Some(p) => m1.insert("pinned"@, Doc::Bool(p)),
            None => m1,
        };
        match self.tags {
            Some(t) => m2.insert("tags"@, texts_doc(texts_view(t@))),
            None => m2,
        }
    }

    fn into_patch(self) -> (r: Object) {
        let mut data = Object::new();
        if let Some(label) = self.label {
            data.insert(String::from_str("label"), Value::Strand(label));
        }
        if let Some(pinned) = self.pinned {
            data.insert(String::from_str("pinned"), Value::Bool(pinned));
        }
        if let Some(tags) = self.tags {
            let mut items: Vec<Value> = Vec::new();
            let mut i: usize = 0;
            while i < tags.len()
                invariant
                    i <= tags.len(),
                    items@.len() == i,
                    forall|j: int| 0 <= j < i ==> #[trigger] items@[j]@ == Doc::Strand(tags@[j]@),
                decreases tags.len() - i,
            {
                let v = Value::Strand(tags[i].clone());
                items.push(v);
                i = i + 1;
            }
            proof {
                crate::value::lemma_docs_of_index(items@);
                assert(docs_of(items@) =~= texts_view(tags@).map_values(
                    |t: Seq<char>| Doc::Strand(t),
                ));
            }
            data.insert(String::from_str("tags"), Value::Array(items));
        }
        proof {
            assert(data@ =~= self.patch());
        }
        data
    }
}

/// The cause reported when a fetch of `id` returns no record.
pub open spec fn get_cause(id: Seq<char>) -> Seq<char> {
    "nothing returned for "@ + id
}

/// The cause reported when a create returns no record.
pub open spec fn create_cause() -> Seq<char> {
    "exec_create intent, nothing returned."@
}

/// The cause reported when an update of `id` returns no record.
pub open spec fn update_cause(id: Seq<char>) -> Seq<char> {
    "can't update "@ + id + ", nothing returned."@
}

/// The cause reported when a delete of `id` returns no record.
pub open spec fn delete_cause(id: Seq<char>) -> Seq<char> {
    "can't delete "@ + id + ", nothing returned."@
}

/// Whether `r` is what reading the rows of a query on one record as an
/// intent gives: a failed query fails as it did, no record fails with
/// `StoreFailToCreate(cause)`, and a record reads as `intent_of` says.
pub open spec fn fetched(r: Result<Intent, Error>, rows: Result<Value, Error>, cause: Seq<char>) -> bool {
    &&& rows is Err ==> r is Err && r->Err_0 == rows->Err_0
    &&& rows is Ok && first_record(rows->Ok_0@) is None ==> r is Err && r->Err_0 is StoreFailToCreate
        && r->Err_0->StoreFailToCreate_0@ == cause
    &&& rows is Ok && first_record(rows->Ok_0@) is Some ==> reads_intent(
        r,
        first_record(rows->Ok_0@)->0,
    )
}

/// Whether `m` is the outcome of a mutation of one intent whose query
/// returned `rows`: its result as `fetched` says, and an event named `name`
/// carrying the stored record exactly when it succeeds.
pub open spec fn mutated(
    m: Mutation<Intent>,
    rows: Result<Value, Error>,
    name: Seq<char>,
    cause: Seq<char>,
) -> bool {
    &&& fetched(m.result, rows, cause)
    &&& m.event is Some <==> m.result is Ok
    &&& m.event is Some ==> {
        &&& m.event->0.name@ == name
        &&& m.event->0.payload@ == Doc::Object(first_record(rows->Ok_0@)->0)
    }
}

/// What makes the `i`th row of a listing fail, if anything does.
pub open spec fn row_fault(s: Seq<Doc>, i: int) -> Option<Fault> {
    if !(s[i] is Object) {
        Some(Fault::NotOfType("Object"))
    } else {
        match intent_of(s[i]->Object_0) {
            Err(f) => Some(f),
            Ok(_) => None,
        }
    }
}

/// Whether `m` is the outcome of deleting the record `id` whose query
/// returned `rows`: a failed query fails as it did, no record fails with
/// `StoreFailToCreate`, and otherwise the result holds the reference of the
/// deleted record, as its `id` field gives it, and an event named
/// `intent_deleted` carries it.
pub open spec fn deleted(
    m: Mutation<ModelDeleteResultData>,
    id: Seq<char>,
    rows: Result<Value, Error>,
) -> bool {
    &&& rows is Err ==> m.result is Err && m.result->Err_0 == rows->Err_0
    &&& rows is Ok && first_record(rows->Ok_0@) is None ==> m.result is Err
        && m.result->Err_0 is StoreFailToCreate
        && m.result->Err_0->StoreFailToCreate_0@ == delete_cause(id)
    &&& rows is Ok && first_record(rows->Ok_0@) is Some ==> {
        let rid = text_field(first_record(rows->Ok_0@)->0, "id"@);
        &&& rid is Ok ==> m.result is Ok && m.result->Ok_0.id@ == rid->Ok_0
        &&& rid is Err ==> m.result is Err && m.result->Err_0.reports(rid->Err_0)
    }
    &&& m.event is Some <==> m.result is Ok
    &&& m.event is Some ==> m.event->0.name@ == "intent_deleted"@ && m.event->0.payload@
        == Doc::Object(map!["id"@ => Doc::Strand(m.result->Ok_0.id@)])
}

/// The intent `i` with the fields that `u` sets replaced.
pub open spec fn updated(i: IntentModel, u: IntentForUpdate) -> IntentModel {
    IntentModel {
        label: match u.label {
            Some(l) => l@,
            None => i.label,
        },
        pinned: match u.pinned {
            Some(p) => p,
            None => i.pinned,
        },
        tags: match u.tags {
            Some(t) => texts_view(t@),
            None => i.tags,
        },
        ..i
    }
}

/// A new intent's stored document, once the datastore has given it the
/// record reference `id`, reads back as an intent with that id, the payload's
/// label, the creation time, no pin, no tags and no archive mark.
pub proof fn lemma_created_reads_back(data: IntentForCreate, now: int, id: Seq<char>)
    ensures
        intent_of(data.content(now).insert("id"@, Doc::Thing(id))) == Ok::<IntentModel, Fault>(
            IntentModel {
                id,
                label: data.label@,
                pinned: false,
                tags: Seq::empty(),
                created_at: decimal_text(now),
                archived_at: None,
            },
        ),
{
    lemma_keys_distinct();
    let m = data.content(now).insert("id"@, Doc::Thing(id));
    assert(m["tags"@]->Array_0.map_values(|d: Doc| text_of(d)->0) =~= Seq::<Seq<char>>::empty());
}

/// Fetching the record that a create stored gives the intent that the create
/// returned.
pub proof fn lemma_create_then_get(
    created: Mutation<Intent>,
    got: Result<Intent, Error>,
    id: Seq<char>,
    rows: Result<Value, Error>,
)
    requires
        mutated(created, rows, "intent_created"@, create_cause()),
        created.result is Ok,
        fetched(got, rows, get_cause(id)),
    ensures
        got is Ok,
        got->Ok_0@ == created.result->Ok_0@,
{
}

/// Merging an update into a stored intent changes exactly the fields the
/// update sets, and leaves every other field as it was.
pub proof fn lemma_update_changes_only_set_fields(m: Map<Seq<char>, Doc>, u: IntentForUpdate)
    requires
        intent_of(m) is Ok,
    ensures
        intent_of(merged(m, u.patch())) == Ok::<IntentModel, Fault>(updated(intent_of(m)->Ok_0, u)),
{
    lemma_keys_distinct();
    let p = u.patch();
    let mm = merged(m, p);
    if let Some(t) = u.tags {
        let ts = texts_view(t@);
        let s = mm["tags"@]->Array_0;
        assert(s == ts.map_values(|x: Seq<char>| Doc::Strand(x)));
        assert(forall|i: int| 0 <= i < s.len() ==> (#[trigger] text_of(s[i])) is Some);
        assert(s.map_values(|d: Doc| text_of(d)->0) =~= ts);
    }
    let i = intent_of(m)->Ok_0;
    let j = intent_of(mm)->Ok_0;
    assert(j == updated(i, u));
}

/// A query that returns no record makes both a fetch and a delete fail, and
/// the delete emits no event: nothing is reported for a record that is gone.
pub proof fn lemma_missing_record_fails(
    got: Result<Intent, Error>,
    removed: Mutation<ModelDeleteResultData>,
    id: Seq<char>,
    rows: Result<Value, Error>,
)
    requires
        rows is Ok,
        rows->Ok_0@ == Doc::Array(Seq::empty()),
        fetched(got, rows, get_cause(id)),
        deleted(removed, id, rows),
    ensures
        got is Err && got->Err_0 is StoreFailToCreate,
        removed.result is Err && removed.result->Err_0 is StoreFailToCreate,
        removed.event is None,
{
}

/// The controller of intents: each operation takes what the datastore
/// returned for its query and gives the typed result and the event to emit.
pub struct IntentBmc {}

impl IntentBmc {
    /// The query that stores a new intent created at `now`.
    pub fn create_query_at(data: IntentForCreate, now: i64) -> (r: Query)
        ensures
            r.sql@ == "CREATE type::table($tb) CONTENT $data RETURN AFTER"@,
            r.vars@ == map![
                "tb"@ => Doc::Strand("intent"@),
                "data"@ => Doc::Object(new_intent_doc(data.label@, now as int)),
            ],
    {
        Store::create_query("intent", data, now)
    }

    /// The query that stores a new intent created now.
    pub fn create_query(data: IntentForCreate) -> (r: Query)
        ensures
            r.sql@ == "CREATE type::table($tb) CONTENT $data RETURN AFTER"@,
            exists|now: i64|
                r.vars@ == map![
                    "tb"@ => Doc::Strand("intent"@),
                    "data"@ => Doc::Object(new_intent_doc(data.label@, now as int)),
                ],
    {
        let now = now_millis();
        Self::create_query_at(data, now)
    }

    /// The query that lists all intents.
    pub fn list_query() -> (r: Query)
        ensures
            r.sql@ == "SELECT * FROM type::table($tb)"@,
            r.vars@ == map!["tb"@ => Doc::Strand("intent"@)],
    {
        Store::select_query("intent")
    }

    /// Reads the record of `id` that a fetch returned.
    pub fn get(id: &str, rows: Result<Value, Error>) -> (r: Result<Intent, Error>)
        ensures
            fetched(r, rows, get_cause(id@)),
    {
        match Store::first(rows, String::from_str("nothing returned for ").concat(id)) {
            Ok(obj) => Intent::try_from(obj),
            Err(e) => Err(e),
        }
    }

    fn mutation(rows: Result<Value, Error>, cause: String, name: &str) -> (r: Mutation<Intent>)
        ensures
            mutated(r, rows, name@, cause@),
    {
        match Store::first(rows, cause) {
            Err(e) => Mutation { result: Err(e), event: None },
            Ok(obj) => {
                let copy = obj.copy();
                match Intent::try_from(copy) {
                    Ok(i) => Mutation {
                        result: Ok(i),
                        event: Some(Event { name: name.to_string(), payload: Value::Object(obj) }),
                    },
                    Err(e) => Mutation { result: Err(e), event: None },
                }
            },
        }
    }

    /// The outcome of creating an intent, from the rows its query returned.
    pub fn create(rows: Result<Value, Error>) -> (r: Mutation<Intent>)
        ensures
            mutated(r, rows, "intent_created"@, create_cause()),
    {
        Self::mutation(rows, String::from_str("exec_create intent, nothing returned."), "intent_created")
    }

    /// The outcome of updating the intent `id`, from the rows its query
    /// returned.
    pub fn update(id: &str, rows: Result<Value, Error>) -> (r: Mutation<Intent>)
        ensures
            mutated(r, rows, "intent_updated"@, update_cause(id@)),
    {
        Self::mutation(rows, Self::update_cause(id), "intent_updated")
    }

    /// The outcome of deleting the intent `id`, from the rows its query
    /// returned: the deleted identifier, and an event that carries it.
    pub fn delete(id: &str, rows: Result<Value, Error>) -> (r: Mutation<ModelDeleteResultData>)
        ensures
            deleted(r, id@, rows),
    {
        let cause = String::from_str("can't delete ").concat(id).concat(", nothing returned.");
        match Store::first(rows, cause) {
            Err(e) => Mutation { result: Err(e), event: None },
            Ok(obj) => {
                proof {
                    reveal_strlit("id");
                }
                let mut obj = obj;
                match take_val::<String>(&mut obj, "id") {
                    Err(e) => Mutation { result: Err(e), event: None },
                    Ok(rid) => {
                        let data = ModelDeleteResultData::from(rid);
                        let mut payload = Object::new();
                        payload.insert(String::from_str("id"), Value::Strand(data.id.clone()));
                        proof {
                            assert(payload@ =~= map!["id"@ => Doc::Strand(data.id@)]);
                        }
                        Mutation {
                            result: Ok(data),
                            event: Some(
                                Event {
                                    name: String::from_str("intent_deleted"),
                                    payload: Value::Object(payload),
                                },
                            ),
                        }
                    },
                }
            },
        }
    }

    /// The cause reported when an update of `id` returns no record.
    fn update_cause(id: &str) -> (r: String)
        ensures
            r@ == update_cause(id@),
    {
        String::from_str("can't update ").concat(id).concat(", nothing returned.")
    }

    /// Reads every row of a listing as an intent. The whole listing fails on
    /// the first row that does not read as one.
    pub fn list(rows: Result<Value, Error>) -> (r: Result<Vec<Intent>, Error>)
        ensures
            rows is Err ==> r is Err && r->Err_0 == rows->Err_0,
            rows is Ok && !(rows->Ok_0@ is Array) ==> r is Err && r->Err_0
                == Error::XValueNotOfType("Vec<Value>"),
            rows is Ok && rows->Ok_0@ is Array ==> {
                let s = rows->Ok_0@->Array_0;
                &&& (forall|i: int| 0 <= i < s.len() ==> (#[trigger] row_fault(s, i)) is None) ==> {
                    &&& r is Ok
                    &&& r->Ok_0@.len() == s.len()
                    &&& forall|i: int|
                        0 <= i < s.len() ==> #[trigger] r->Ok_0@[i]@ == intent_of(
                            s[i]->Object_0,
                        )->Ok_0
                }
                &&& forall|i: int|
                    0 <= i < s.len() && (#[trigger] row_fault(s, i)) is Some && (forall|j: int|
                        0 <= j < i ==> (#[trigger] row_fault(s, j)) is None) ==> r is Err
                        && r->Err_0.reports(row_fault(s, i)->0)
            },
    {
        let items = match rows {
            Err(e) => return Err(e),
            Ok(Value::Array(a)) => a,
            Ok(_) => return Err(Error::XValueNotOfType("Vec<Value>")),
        };
        let ghost orig = items@;
        let ghost s = docs_of(orig);
        proof {
            crate::value::lemma_docs_of_index(orig);
        }
        let n: usize = items.len();
        let mut a = items;
        let mut out: Vec<Intent> = Vec::new();
        let mut i: usize = 0;
        while a.len() > 0
            invariant
                0 <= i <= n,
                n == orig.len() == s.len(),
                rows is Ok && rows->Ok_0@ == Doc::Array(s),
                forall|j: int| 0 <= j < n ==> #[trigger] s[j] == orig[j]@,
                a@ == orig.subrange(i as int, n as int),
                out@.len() == i,
                forall|j: int| 0 <= j < i ==> (#[trigger] row_fault(s, j)) is None,
                forall|j: int|
                    0 <= j < i ==> #[trigger] out@[j]@ == intent_of(s[j]->Object_0)->Ok_0,
            decreases a.len(),
        {
            let v = a.remove(0);
            proof {
                assert(v == orig[i as int]);
                assert(s[i as int] == v@);
            }
            match v {
                Value::Object(o) => match Intent::try_from(o) {
                    Ok(t) => {
                        out.push(t);
                    },
                    Err(e) => {
                        proof {
                            assert(row_fault(s, i as int) is Some);
                            assert forall|k: int|
                                0 <= k < s.len() && (#[trigger] row_fault(s, k)) is Some && (forall|
                                    j: int,
                                | 0 <= j < k ==> (#[trigger] row_fault(s, j)) is None) implies k
                                == i by {
                                if k > i {
                                    assert(row_fault(s, i as int) is Some);
                                }
                            }
                        }
                        return Err(e);
                    },
                },
                _ => {
                    proof {
                        assert(row_fault(s, i as int) is Some);
                        assert forall|k: int|
                            0 <= k < s.len() && (#[trigger] row_fault(s, k)) is Some && (forall|
                                j: int,
                            | 0 <= j < k ==> (#[trigger] row_fault(s, j)) is None) implies k
                            == i by {
                            if k > i {
                                assert(row_fault(s, i as int) is Some);
                            }
                        }
                    }
                    return Err(Error::XValueNotOfType("Object"));
                },
            }
            i = i + 1;
        }
        Ok(out)
    }

    /// The query that marks the intent `id` archived at `now`.
    pub fn archive_query_at(id: &str, now: i64) -> (r: Result<Query, Error>)
        ensures
            r is Ok <==> record_text(id@) is Some,
            r is Ok ==> r->Ok_0.sql@
                == "UPDATE $th SET archived_at = $timestamp WHERE id != NONE RETURN AFTER"@,
            r is Ok ==> r->Ok_0.vars@ == map![
                "th"@ => Doc::Thing(record_text(id@)->0),
                "timestamp"@ => Doc::Strand(decimal_text(now as int)),
            ],
            r is Err ==> r->Err_0 is Surreal,
    {
        let q = Store::get_query(id)?;
        let mut vars = q.vars;
        vars.insert(String::from_str("timestamp"), Value::Strand(millis_text(now)));
        proof {
            reveal_strlit("th");
            reveal_strlit("timestamp");
            assert(vars@ =~= map![
                "th"@ => Doc::Thing(record_text(id@)->0),
                "timestamp"@ => Doc::Strand(decimal_text(now as int)),
            ]);
        }
        Ok(Query { sql: String::from_str("UPDATE $th SET archived_at = $timestamp WHERE id != NONE RETURN AFTER"), vars })
    }

    /// The query that marks the intent `id` archived now.
    pub fn archive_query(id: &str) -> (r: Result<Query, Error>)
        ensures
            r is Ok <==> record_text(id@) is Some,
            r is Ok ==> r->Ok_0.sql@
                == "UPDATE $th SET archived_at = $timestamp WHERE id != NONE RETURN AFTER"@,
            r is Ok ==> exists|now: i64|
                r->Ok_0.vars@ == map![
                    "th"@ => Doc::Thing(record_text(id@)->0),
                    "timestamp"@ => Doc::Strand(decimal_text(now as int)),
                ],
            r is Err ==> r->Err_0 is Surreal,
    {
        let now = now_millis();
        Self::archive_query_at(id, now)
    }

    /// The outcome of archiving the intent `id`, from the rows its query
    /// returned.
    pub fn archive(id: &str, rows: Result<Value, Error>) -> (r: Mutation<Intent>)
        ensures
            mutated(r, rows, "intent_archived"@, update_cause(id@)),
    {
        Self::mutation(rows, Self::update_cause(id), "intent_archived")
    }

    /// The query that clears the archive mark of the intent `id`.
    pub fn unarchive_query(id: &str) -> (r: Result<Query, Error>)
        ensures
            r is Ok <==> record_text(id@) is Some,
            r is Ok ==> r->Ok_0.sql@
                == "UPDATE $th SET archived_at = NONE WHERE id != NONE RETURN AFTER"@,
            r is Ok ==> r->Ok_0.vars@ == map!["th"@ => Doc::Thing(record_text(id@)->0)],
            r is Err ==> r->Err_0 is Surreal,
    {
        let q = Store::get_query(id)?;
        Ok(Query { sql: String::from_str("UPDATE $th SET archived_at = NONE WHERE id != NONE RETURN AFTER"), vars: q.vars })
    }

    /// The outcome of clearing the archive mark of the intent `id`, from the
    /// rows its query returned.
    pub fn unarchive(id: &str, rows: Result<Value, Error>) -> (r: Mutation<Intent>)
        ensures
            mutated(r, rows, "intent_unarchived"@, update_cause(id@)),
    {
        Self::mutation(rows, Self::update_cause(id), "intent_unarchived")
    }
}

} // verus!
