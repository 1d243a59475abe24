//! The generic store operations: the queries they issue against the
//! datastore session, and how the rows that come back are read.

use crate::error::Error;
use crate::value::{Doc, Object, Value};
use vstd::prelude::*;
use vstd::string::*;

verus! {

/// The decimal digits of `n`.
pub open spec fn digits_of(n: nat) -> Seq<char>
    decreases n,
{
    if n < 10 {
        seq![digit_char(n)]
    } else {
        digits_of(n / 10).push(digit_char(n % 10))
    }
}

pub open spec fn digit_char(d: nat) -> char {
    if d == 0 { '0' }
    else if d == 1 { '1' }
    else if d == 2 { '2' }
    else if d == 3 { '3' }
    else if d == 4 { '4' }
    else if d == 5 { '5' }
    else if d == 6 { '6' }
    else if d == 7 { '7' }
    else if d == 8 { '8' }
    else { '9' }
}

/// The decimal text of an integer, with a leading `-` when it is negative.
pub open spec fn decimal_text(n: int) -> Seq<char> {
    if n < 0 {
        seq!['-'] + digits_of((-n) as nat)
    } else {
        digits_of(n as nat)
    }
}

/// The canonical text of the record reference that `s` parses to, if it
/// parses as one.
pub uninterp spec fn record_text(s: Seq<char>) -> Option<Seq<char>>;

/// Relies on `surrealdb::sql::thing`: parses a record reference `table:key`,
/// rendered back through its `Display`. An empty text is refused.
#[verifier::external_body]
pub(crate) fn parse_record(id: &str) -> (r: Result<String, surrealdb::error::Db>)
    ensures
        r is Ok ==> record_text(id@) == Some(r->Ok_0@),
        r is Err ==> record_text(id@) is None,
        id@.len() == 0 ==> r is Err,
{
    match surrealdb::sql::thing(id) {
        Ok(t) => Ok(t.to_string()),
        Err(e) => Err(e),
    }
}

/// Relies on `surrealdb::sql::Datetime::default`: the current time, as
/// milliseconds since the Unix epoch.
#[verifier::external_body]
pub(crate) fn now_millis() -> (r: i64) {
    surrealdb::sql::Datetime::default().timestamp_millis()
}

/// Relies on `i64::to_string`: the decimal text of the number.
#[verifier::external_body]
pub(crate) fn millis_text(ms: i64) -> (r: String)
    ensures
        r@ == decimal_text(ms as int),
{
    ms.to_string()
}

/// A payload that can be stored as a new record: it converts to the complete
/// document, with the fields that the store owns filled in.
pub trait Creatable: Sized {
    /// The document stored for this payload when created at time `now`.
    spec fn content(self, now: int) -> Map<Seq<char>, Doc>;

    fn into_content(self, now: i64) -> (r: Object)
        ensures
            r@ == self.content(now as int),
    ;
}

/// A payload that can be merged into an existing record: it converts to the
/// partial document of the fields it sets, and no others.
pub trait Patchable: Sized {
    /// The fields that this payload sets.
    spec fn patch(self) -> Map<Seq<char>, Doc>;

    fn into_patch(self) -> (r: Object)
        ensures
            r@ == self.patch(),
    ;
}

/// A query for the datastore session: its text and its bound parameters.
pub struct Query {
    pub sql: String,
    pub vars: Object,
}

/// The record that a merge of `patch` into `record` leaves: the fields of
/// `patch` replace those of `record`, the others stay.
pub open spec fn merged(record: Map<Seq<char>, Doc>, patch: Map<Seq<char>, Doc>) -> Map<
    Seq<char>,
    Doc,
> {
    record.union_prefer_right(patch)
}

/// The first record among the rows that a query returned, if there is one.
pub open spec fn first_record(rows: Doc) -> Option<Map<Seq<char>, Doc>> {
    match rows {
        Doc::Array(s) => if s.len() > 0 && s[0] is Object {
            Some(s[0]->Object_0)
        } else {
            None
        },
        Doc::Object(m) => Some(m),
        _ => None,
    }
}

/// The handle through which the entity controllers reach the datastore.
pub struct Store {}

impl Store {
    /// The query that stores `data` as a new record of table `tb`, created at
    /// time `now`.
    pub fn create_query<D: Creatable>(tb: &str, data: D, now: i64) -> (r: Query)
        ensures
            r.sql@ == "CREATE type::table($tb) CONTENT $data RETURN AFTER"@,
            r.vars@ == map![
                "tb"@ => Doc::Strand(tb@),
                "data"@ => Doc::Object(data.content(now as int)),
            ],
    {
        let content = data.into_content(now);
        let mut vars = Object::new();
        vars.insert(String::from_str("tb"), Value::Strand(tb.to_string()));
        vars.insert(String::from_str("data"), Value::Object(content));
        proof {
            assert(vars@ =~= map![
                "tb"@ => Doc::Strand(tb@),
                "data"@ => Doc::Object(data.content(now as int)),
            ]);
        }
        Query { sql: String::from_str("CREATE type::table($tb) CONTENT $data RETURN AFTER"), vars }
    }

    /// The variables of a query on the single record `id`, or the datastore's
    /// error when `id` is no record reference.
    fn record_vars(id: &str) -> (r: Result<Object, Error>)
        ensures
            r is Ok <==> record_text(id@) is Some,
            r is Ok ==> r->Ok_0@ == map!["th"@ => Doc::Thing(record_text(id@)->0)],
            r is Err ==> r->Err_0 is Surreal,
    {
        match parse_record(id) {
            Ok(th) => {
                let mut vars = Object::new();
                vars.insert(String::from_str("th"), Value::Thing(th));
                proof {
                    assert(vars@ =~= map!["th"@ => Doc::Thing(record_text(id@)->0)]);
                }
                Ok(vars)
            },
            Err(e) => Err(Error::Surreal(e)),
        }
    }

    /// The query that fetches the record `id`.
    pub fn get_query(id: &str) -> (r: Result<Query, Error>)
        ensures
            r is Ok <==> record_text(id@) is Some,
            r is Ok ==> r->Ok_0.sql@ == "SELECT * FROM $th"@,
            r is Ok ==> r->Ok_0.vars@ == map!["th"@ => Doc::Thing(record_text(id@)->0)],
            r is Err ==> r->Err_0 is Surreal,
    {
        let vars = Self::record_vars(id)?;
        Ok(Query { sql: String::from_str("SELECT * FROM $th"), vars })
    }

    /// The query that lists the records of table `tb`.
    pub fn select_query(tb: &str) -> (r: Query)
        ensures
            r.sql@ == "SELECT * FROM type::table($tb)"@,
            r.vars@ == map!["tb"@ => Doc::Strand(tb@)],
    {
        let mut vars = Object::new();
        vars.insert(String::from_str("tb"), Value::Strand(tb.to_string()));
        proof {
            assert(vars@ =~= map!["tb"@ => Doc::Strand(tb@)]);
        }
        Query { sql: String::from_str("SELECT * FROM type::table($tb)"), vars }
    }

    /// The query that merges `data` into the record `id`. The condition on
    /// `id` keeps the datastore from creating the record when it is missing:
    /// then nothing is returned.
    pub fn merge_query<D: Patchable>(id: &str, data: D) -> (r: Result<Query, Error>)
        ensures
            r is Ok <==> record_text(id@) is Some,
            r is Ok ==> r->Ok_0.sql@ == "UPDATE $th MERGE $data WHERE id != NONE RETURN AFTER"@,
            r is Ok ==> r->Ok_0.vars@ == map![
                "th"@ => Doc::Thing(record_text(id@)->0),
                "data"@ => Doc::Object(data.patch()),
            ],
            r is Err ==> r->Err_0 is Surreal,
    {
        let mut vars = Self::record_vars(id)?;
        let patch = data.into_patch();
        vars.insert(String::from_str("data"), Value::Object(patch));
        proof {
            assert(vars@ =~= map![
                "th"@ => Doc::Thing(record_text(id@)->0),
                "data"@ => Doc::Object(data.patch()),
            ]);
        }
        Ok(Query { sql: String::from_str("UPDATE $th MERGE $data WHERE id != NONE RETURN AFTER"), vars })
    }

    /// The query that deletes the record `id`, returning it as it was.
    pub fn delete_query(id: &str) -> (r: Result<Query, Error>)
        ensures
            r is Ok <==> record_text(id@) is Some,
            r is Ok ==> r->Ok_0.sql@ == "DELETE $th RETURN BEFORE"@,
            r is Ok ==> r->Ok_0.vars@ == map!["th"@ => Doc::Thing(record_text(id@)->0)],
            r is Err ==> r->Err_0 is Surreal,
    {
        let vars = Self::record_vars(id)?;
        Ok(Query { sql: String::from_str("DELETE $th RETURN BEFORE"), vars })
    }

    /// The first record of the rows a query returned. Fails with
    /// `StoreFailToCreate(cause)` when there is none; a failed query fails as
    /// it did.
    pub fn first(rows: Result<Value, Error>, cause: String) -> (r: Result<Object, Error>)
        ensures
            rows is Err ==> r is Err && r->Err_0 == rows->Err_0,
            rows is Ok ==> (r is Ok <==> first_record(rows->Ok_0@) is Some),
            rows is Ok && r is Ok ==> r->Ok_0@ == first_record(rows->Ok_0@)->0,
            rows is Ok && r is Err ==> r->Err_0 is StoreFailToCreate
                && r->Err_0->StoreFailToCreate_0@ == cause@,
    {
        match rows {
            Err(e) => Err(e),
            Ok(Value::Object(o)) => Ok(o),
            Ok(Value::Array(mut a)) => {
                proof {
                    crate::value::lemma_docs_of_index(a@);
                }
                if a.len() > 0 {
                    let v = a.swap_remove(0);
                    if let Value::Object(o) = v {
                        return Ok(o);
                    }
                }
                Err(Error::StoreFailToCreate(cause))
            },
            Ok(_) => Err(Error::StoreFailToCreate(cause)),
        }
    }
}

} // verus!
