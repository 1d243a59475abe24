//! Typed extraction of fields from documents: a field is removed from the
//! object as it is read, so that a value is never taken twice.

use crate::error::{Error, Fault};
use crate::value::{Doc, Object, Value};
use vstd::prelude::*;

verus! {

/// A type that a document value can be read as.
pub trait FromValue: Sized {
    /// Whether a value with content `d` reads as this type.
    spec fn accepts(d: Doc) -> bool;

    /// Whether `r` is what a value with content `d` reads as.
    spec fn reads_as(d: Doc, r: Self) -> bool;

    /// The name of the type, as reported when a value does not read as it.
    spec fn kind_name() -> &'static str;

    fn from_value(v: Value) -> (r: Result<Self, Error>)
        ensures
            r is Ok <==> Self::accepts(v@),
            r is Ok ==> Self::reads_as(v@, r->Ok_0),
            r is Err ==> r->Err_0 == Error::XValueNotOfType(Self::kind_name()),
    ;
}

/// The text that a string value or a record reference holds.
pub open spec fn text_of(d: Doc) -> Option<Seq<char>> {
    match d {
        Doc::Strand(s) => Some(s),
        Doc::Thing(s) => Some(s),
        _ => None,
    }
}

impl FromValue for String {
    open spec fn accepts(d: Doc) -> bool {
        text_of(d) is Some
    }

    open spec fn reads_as(d: Doc, r: String) -> bool {
        text_of(d) == Some(r@)
    }

    open spec fn kind_name() -> &'static str {
        "String"
    }

    fn from_value(v: Value) -> (r: Result<String, Error>) {
        match v {
            Value::Strand(s) => Ok(s),
            Value::Thing(s) => Ok(s),
            _ => Err(Error::XValueNotOfType("String")),
        }
    }
}

impl FromValue for bool {
    open spec fn accepts(d: Doc) -> bool {
        d is Bool
    }

    open spec fn reads_as(d: Doc, r: bool) -> bool {
        d == Doc::Bool(r)
    }

    open spec fn kind_name() -> &'static str {
        "bool"
    }

    fn from_value(v: Value) -> (r: Result<bool, Error>) {
        match v {
            Value::Bool(b) => Ok(b),
            _ => Err(Error::XValueNotOfType("bool")),
        }
    }
}

impl FromValue for i64 {
    open spec fn accepts(d: Doc) -> bool {
        d is Number
    }

    open spec fn reads_as(d: Doc, r: i64) -> bool {
        d == Doc::Number(r as int)
    }

    open spec fn kind_name() -> &'static str {
        "i64"
    }

    fn from_value(v: Value) -> (r: Result<i64, Error>) {
        match v {
            Value::Number(n) => Ok(n),
            _ => Err(Error::XValueNotOfType("i64")),
        }
    }
}

impl FromValue for Vec<Value> {
    open spec fn accepts(d: Doc) -> bool {
        d is Array
    }

    open spec fn reads_as(d: Doc, r: Vec<Value>) -> bool {
        d == Doc::Array(crate::value::docs_of(r@))
    }

    open spec fn kind_name() -> &'static str {
        "Vec<Value>"
    }

    fn from_value(v: Value) -> (r: Result<Vec<Value>, Error>) {
        match v {
            Value::Array(a) => Ok(a),
            _ => Err(Error::XValueNotOfType("Vec<Value>")),
        }
    }
}

impl FromValue for Object {
    open spec fn accepts(d: Doc) -> bool {
        d is Object
    }

    open spec fn reads_as(d: Doc, r: Object) -> bool {
        d == Doc::Object(r@)
    }

    open spec fn kind_name() -> &'static str {
        "Object"
    }

    fn from_value(v: Value) -> (r: Result<Object, Error>) {
        match v {
            Value::Object(o) => Ok(o),
            _ => Err(Error::XValueNotOfType("Object")),
        }
    }
}

/// What reading the field `k` of `m` as `T` fails with, if it fails.
pub open spec fn take_fault<T: FromValue>(m: Map<Seq<char>, Doc>, k: Seq<char>) -> Option<Fault> {
    if !m.contains_key(k) {
        Some(Fault::NotFound(k))
    } else if !T::accepts(m[k]) {
        Some(Fault::NotOfType(T::kind_name()))
    } else {
        None
    }
}

/// Removes the field `k` of `obj` and reads it as `T`. Fails with
/// `XPropertyNotFound` when it is absent and with `XValueNotOfType` when it
/// does not read as `T`.
pub fn take_val<T: FromValue>(obj: &mut Object, k: &str) -> (r: Result<T, Error>)
    ensures
        final(obj)@ == old(obj)@.remove(k@),
        r is Ok <==> take_fault::<T>(old(obj)@, k@) is None,
        r is Ok ==> T::reads_as(old(obj)@[k@], r->Ok_0),
        r is Err ==> r->Err_0.reports(take_fault::<T>(old(obj)@, k@)->0),
{
    match take::<T>(obj, k) {
        Ok(Some(v)) => Ok(v),
        Ok(None) => Err(Error::XPropertyNotFound(k.to_string())),
        Err(e) => Err(e),
    }
}

/// Removes the field `k` of `obj` and reads it as `T`, if it is present.
/// An absent field gives `None`; a present one that does not read as `T`
/// fails with `XValueNotOfType`.
pub fn take<T: FromValue>(obj: &mut Object, k: &str) -> (r: Result<Option<T>, Error>)
    ensures
        final(obj)@ == old(obj)@.remove(k@),
        !old(obj)@.contains_key(k@) ==> r == Ok::<Option<T>, Error>(None),
        old(obj)@.contains_key(k@) ==> {
            &&& r is Ok <==> T::accepts(old(obj)@[k@])
            &&& r is Ok ==> r->Ok_0 is Some && T::reads_as(old(obj)@[k@], r->Ok_0->0)
            &&& r is Err ==> r->Err_0 == Error::XValueNotOfType(T::kind_name())
        },
{
    match obj.remove(k) {
        None => Ok(None),
        Some(v) => match T::from_value(v) {
            Ok(t) => Ok(Some(t)),
            Err(e) => Err(e),
        },
    }
}

} // verus!
