//! Decoding one request into a typed command.
//!
//! A request is one JSON object. Its `@` field names the method; `q` (or
//! `sql`) carries the SQL text of a statement-producing method; `p`
//! optionally carries bound parameters, as an array for positional binding
//! or as an object for named binding; `h` names a cursor handle and `n` a
//! row count for the fetch-by-handle methods. Every malformed request is
//! rejected with an error naming the offending field; an unknown method tag
//! is rejected with a message that names the tag.

use vstd::prelude::*;
use crate::error::Error;
use crate::value::Value;
use crate::wire::JsonVal;
use crate::wire::json_scalar_spec;
use crate::wire::json_scalar_to_value;
use crate::wire::obj_get;
use crate::wire::obj_lookup;
use crate::number::number_value;
use crate::number::number_to_value;

verus! {

/// One request to run SQL: the text, and the values to bind, if any.
#[derive(Debug, PartialEq)]
pub struct Query {
    pub sql: String,
    pub params: Option<ParamList>,
}

/// Bound parameters, in the two shapes the wire allows.
#[derive(Debug, PartialEq)]
pub enum ParamList {
    /// An ordered list, bound by position.
    Positional(Vec<Value>),
    /// A mapping, bound by name.
    Named(Vec<(String, Value)>),
}

/// One decoded command.
#[derive(Debug, PartialEq)]
pub enum Command {
    /// Run a statement with no result set; answer with the affected row count.
    Execute(Query),
    /// Run a query and answer with all of its rows at once.
    QueryImmediate(Query),
    /// Run a query, keep its cursor, and answer with a fresh handle.
    QueryHandle(Query),
    /// Fetch one row from the cursor behind a handle.
    QueryRow(u32),
    /// Fetch up to the given number of rows from the cursor behind a handle.
    QueryRows(u32, u32),
    /// Close the cursor behind a handle.
    CloseHandle(u32),
}

/// The method tag of a request object.
pub open spec fn method_of(fields: Seq<(String, JsonVal)>) -> Result<String, Error> {
    match obj_lookup(fields, "@"@) {
        None => Err(Error::General("method key absent")),
        Some(JsonVal::Str(s)) => Ok(s),
        Some(_) => Err(Error::General("method not string")),
    }
}

/// The SQL text of a request object, under `q` or, failing that, `sql`.
pub open spec fn sql_of(fields: Seq<(String, JsonVal)>) -> Result<String, Error> {
    match obj_lookup(fields, "q"@) {
        Some(JsonVal::Str(s)) => Ok(s),
        Some(_) => Err(Error::General("query not string")),
        None => match obj_lookup(fields, "sql"@) {
            Some(JsonVal::Str(s)) => Ok(s),
            Some(_) => Err(Error::General("query not string")),
            None => Err(Error::General("query key absent")),
        },
    }
}

/// Whether every element of a parameter array bridges to a `Value`.
pub open spec fn all_scalars_ok(items: Seq<JsonVal>) -> bool {
    forall|i: int| 0 <= i < items.len() ==> json_scalar_spec(items[i]) is Ok
}

/// Whether `vs` is exactly the bridging of the parameter array `items`.
pub open spec fn scalars_decode_ok(items: Seq<JsonVal>, vs: Seq<Value>) -> bool {
    &&& vs.len() == items.len()
    &&& forall|i: int| 0 <= i < items.len() ==> json_scalar_spec(items[i]) == Ok::<Value, Error>(
        vs[i],
    )
}

/// Whether every value of a parameter mapping bridges to a `Value`.
pub open spec fn all_named_ok(nf: Seq<(String, JsonVal)>) -> bool {
    forall|i: int| 0 <= i < nf.len() ==> json_scalar_spec(nf[i].1) is Ok
}

/// Whether `ps` is exactly the bridging of the parameter mapping `nf`,
/// names kept in order.
pub open spec fn named_decode_ok(nf: Seq<(String, JsonVal)>, ps: Seq<(String, Value)>) -> bool {
    &&& ps.len() == nf.len()
    &&& forall|i: int|
        0 <= i < nf.len() ==> ps[i].0 == nf[i].0 && json_scalar_spec(nf[i].1) == Ok::<
            Value,
            Error,
        >(ps[i].1)
}

/// How the optional `p` field decodes: absent means no parameters; an array
/// decodes elementwise to positional parameters; an object decodes
/// entrywise to named parameters; a scalar is rejected; a nested value
/// among the parameters is rejected as unsupported.
pub open spec fn params_decode_to(
    fields: Seq<(String, JsonVal)>,
    r: Result<Option<ParamList>, Error>,
) -> bool {
    match obj_lookup(fields, "p"@) {
        None => r == Ok::<Option<ParamList>, Error>(None::<ParamList>),
        Some(JsonVal::Arr(items)) => match r {
            Ok(Some(ParamList::Positional(vs))) => scalars_decode_ok(items@, vs@),
            Err(e) => e == Error::UnsupportedType && !all_scalars_ok(items@),
            _ => false,
        },
        Some(JsonVal::Obj(nf)) => match r {
            Ok(Some(ParamList::Named(ps))) => named_decode_ok(nf@, ps@),
            Err(e) => e == Error::UnsupportedType && !all_named_ok(nf@),
            _ => false,
        },
        Some(_) => r == Err::<Option<ParamList>, Error>(Error::General("params not array or object")),
    }
}

/// How a whole query decodes from a request object: the SQL text must be
/// present and a string, and the parameters, if present, must decode.
pub open spec fn query_decode_to(fields: Seq<(String, JsonVal)>, r: Result<Query, Error>) -> bool {
    match sql_of(fields) {
        Err(e) => r == Err::<Query, Error>(e),
        Ok(s) => match r {
            Ok(q) => q.sql == s && params_decode_to(fields, Ok::<Option<ParamList>, Error>(q.params)),
            Err(e) => params_decode_to(fields, Err::<Option<ParamList>, Error>(e)),
        },
    }
}

/// A small unsigned integer field: present, a number that reads as a whole
/// value within the unsigned 32-bit range.
pub open spec fn uint_field_of(
    fields: Seq<(String, JsonVal)>,
    key: Seq<char>,
    absent: &'static str,
    bad: &'static str,
) -> Result<u32, Error> {
    match obj_lookup(fields, key) {
        None => Err(Error::General(absent)),
        Some(JsonVal::Num(p, m, e)) => match number_value(p, m, e) {
            Value::Int(i) => if 0 <= i <= u32::MAX as i64 {
                Ok(i as u32)
            } else {
                Err(Error::General(bad))
            },
            _ => Err(Error::General(bad)),
        },
        Some(_) => Err(Error::General(bad)),
    }
}

/// The cursor handle named by a fetch or close request.
pub open spec fn handle_of(fields: Seq<(String, JsonVal)>) -> Result<u32, Error> {
    uint_field_of(fields, "h"@, "handle key absent", "handle not integer")
}

/// The row count named by a fetch-many request.
pub open spec fn count_of(fields: Seq<(String, JsonVal)>) -> Result<u32, Error> {
    uint_field_of(fields, "n"@, "count key absent", "count not integer")
}

/// How one request decodes into a command, or into the error reported for
/// it: the method tag selects the command; its required fields must decode;
/// a reserved tag of the append family is rejected as such; any other tag
/// is rejected with a message naming it.
pub open spec fn command_decode_to(v: JsonVal, r: Result<Command, Error>) -> bool {
    match v {
        JsonVal::Obj(fields) => obj_command_decode_to(fields@, r),
        _ => r == Err::<Command, Error>(Error::General("request not object")),
    }
}

/// `command_decode_to`, on the field list of the request object.
pub open spec fn obj_command_decode_to(
    fields: Seq<(String, JsonVal)>,
    r: Result<Command, Error>,
) -> bool {
    match method_of(fields) {
        Err(e) => r == Err::<Command, Error>(e),
        Ok(m) => if m@ == "e"@ {
            match r {
                Ok(Command::Execute(q)) => query_decode_to(fields, Ok::<Query, Error>(q)),
                Err(e) => query_decode_to(fields, Err::<Query, Error>(e)),
                _ => false,
            }
        } else if m@ == "q"@ {
            match r {
                Ok(Command::QueryImmediate(q)) => query_decode_to(fields, Ok::<Query, Error>(q)),
                Err(e) => query_decode_to(fields, Err::<Query, Error>(e)),
                _ => false,
            }
        } else if m@ == "qh"@ {
            match r {
                Ok(Command::QueryHandle(q)) => query_decode_to(fields, Ok::<Query, Error>(q)),
                Err(e) => query_decode_to(fields, Err::<Query, Error>(e)),
                _ => false,
            }
        } else if m@ == "qr"@ {
            match r {
                Ok(Command::QueryRow(h)) => handle_of(fields) == Ok::<u32, Error>(h),
                Err(e) => handle_of(fields) == Err::<u32, Error>(e),
                _ => false,
            }
        } else if m@ == "qrr"@ {
            match r {
                Ok(Command::QueryRows(h, n)) => handle_of(fields) == Ok::<u32, Error>(h)
                    && count_of(fields) == Ok::<u32, Error>(n),
                Err(e) => handle_of(fields) == Err::<u32, Error>(e) || (handle_of(fields) is Ok
                    && count_of(fields) == Err::<u32, Error>(e)),
                _ => false,
            }
        } else if m@ == "ch"@ {
            match r {
                Ok(Command::CloseHandle(h)) => handle_of(fields) == Ok::<u32, Error>(h),
                Err(e) => handle_of(fields) == Err::<u32, Error>(e),
                _ => false,
            }
        } else if m@ == "a"@ || m@ == "ar"@ || m@ == "arr"@ || m@ == "ae"@ {
            r == Err::<Command, Error>(Error::General("method reserved"))
        } else {
            r matches Err(Error::UnknownMethod(u)) && u == m
        },
    }
}

/// Reads the method tag out of a request object's field list.
fn read_method(fields: &Vec<(String, JsonVal)>) -> (r: Result<String, Error>)
    ensures
        r == method_of(fields@),
{
    match obj_get(fields, "@") {
        None => Err(Error::General("method key absent")),
        Some(JsonVal::Str(s)) => Ok(s.clone()),
        Some(_) => Err(Error::General("method not string")),
    }
}

/// Reads the SQL text out of a request object's field list.
fn read_sql(fields: &Vec<(String, JsonVal)>) -> (r: Result<String, Error>)
    ensures
        r == sql_of(fields@),
{
    match obj_get(fields, "q") {
        Some(JsonVal::Str(s)) => Ok(s.clone()),
        Some(_) => Err(Error::General("query not string")),
        None => match obj_get(fields, "sql") {
            Some(JsonVal::Str(s)) => Ok(s.clone()),
            Some(_) => Err(Error::General("query not string")),
            None => Err(Error::General("query key absent")),
        },
    }
}

/// Bridges a parameter array elementwise.
fn read_positional(items: &Vec<JsonVal>) -> (r: Result<Vec<Value>, Error>)
    ensures
        match r {
            Ok(vs) => scalars_decode_ok(items@, vs@),
            Err(e) => e == Error::UnsupportedType && !all_scalars_ok(items@),
        },
{
    let mut vs: Vec<Value> = Vec::new();
    let mut i: usize = 0;
    while i < items.len()
        invariant
            i <= items@.len(),
            vs@.len() == i as int,
            forall|j: int|
                0 <= j < i as int ==> json_scalar_spec(items@[j]) == Ok::<Value, Error>(vs@[j]),
        decreases items@.len() - i,
    {
        match json_scalar_to_value(&items[i]) {
            Ok(v) => vs.push(v),
            Err(_) => {
                return Err(Error::UnsupportedType);
            },
        }
        i = i + 1;
    }
    Ok(vs)
}

/// Bridges a parameter mapping entrywise, names kept in order.
fn read_named(nf: &Vec<(String, JsonVal)>) -> (r: Result<Vec<(String, Value)>, Error>)
    ensures
        match r {
            Ok(ps) => named_decode_ok(nf@, ps@),
            Err(e) => e == Error::UnsupportedType && !all_named_ok(nf@),
        },
{
    let mut ps: Vec<(String, Value)> = Vec::new();
    let mut i: usize = 0;
    while i < nf.len()
        invariant
            i <= nf@.len(),
            ps@.len() == i as int,
            forall|j: int|
                0 <= j < i as int ==> ps@[j].0 == nf@[j].0 && json_scalar_spec(nf@[j].1) == Ok::<
                    Value,
                    Error,
                >(ps@[j].1),
        decreases nf@.len() - i,
    {
        match json_scalar_to_value(&nf[i].1) {
            Ok(v) => ps.push((nf[i].0.clone(), v)),
            Err(_) => {
                return Err(Error::UnsupportedType);
            },
        }
        i = i + 1;
    }
    Ok(ps)
}

/// Reads the optional parameters out of a request object's field list.
fn read_params(fields: &Vec<(String, JsonVal)>) -> (r: Result<Option<ParamList>, Error>)
    ensures
        params_decode_to(fields@, r),
{
    match obj_get(fields, "p") {
        None => Ok(None),
        Some(JsonVal::Arr(items)) => match read_positional(items) {
            Ok(vs) => Ok(Some(ParamList::Positional(vs))),
            Err(e) => Err(e),
        },
        Some(JsonVal::Obj(nf)) => match read_named(nf) {
            Ok(ps) => Ok(Some(ParamList::Named(ps))),
            Err(e) => Err(e),
        },
        Some(_) => Err(Error::General("params not array or object")),
    }
}

/// Reads a whole query — SQL text and parameters — out of a request object.
fn read_query(fields: &Vec<(String, JsonVal)>) -> (r: Result<Query, Error>)
    ensures
        query_decode_to(fields@, r),
{
    let sql = match read_sql(fields) {
        Ok(s) => s,
        Err(e) => {
            return Err(e);
        },
    };
    match read_params(fields) {
        Ok(params) => Ok(Query { sql, params }),
        Err(e) => Err(e),
    }
}

/// Reads a small unsigned integer field out of a request object.
fn read_uint_field(
    fields: &Vec<(String, JsonVal)>,
    key: &str,
    absent: &'static str,
    bad: &'static str,
) -> (r: Result<u32, Error>)
    ensures
        r == uint_field_of(fields@, key@, absent, bad),
{
    match obj_get(fields, key) {
        None => Err(Error::General(absent)),
        Some(JsonVal::Num(p, m, e)) => match number_to_value(*p, *m, *e) {
            Value::Int(i) => if 0 <= i && i <= u32::MAX as i64 {
                Ok(i as u32)
            } else {
                Err(Error::General(bad))
            },
            _ => Err(Error::General(bad)),
        },
        Some(_) => Err(Error::General(bad)),
    }
}

/// Decodes one request into a typed command, or into the error to report.
pub fn read_command(v: &JsonVal) -> (r: Result<Command, Error>)
    ensures
        command_decode_to(*v, r),
{
    let fields = match v {
        JsonVal::Obj(fields) => fields,
        _ => {
            return Err(Error::General("request not object"));
        },
    };
    let m = match read_method(fields) {
        Ok(m) => m,
        Err(e) => {
            return Err(e);
        },
    };
    if m == String::from_str("e") {
        match read_query(fields) {
            Ok(q) => Ok(Command::Execute(q)),
            Err(e) => Err(e),
        }
    } else if m == String::from_str("q") {
        match read_query(fields) {
            Ok(q) => Ok(Command::QueryImmediate(q)),
            Err(e) => Err(e),
        }
    } else if m == String::from_str("qh") {
        match read_query(fields) {
            Ok(q) => Ok(Command::QueryHandle(q)),
            Err(e) => Err(e),
        }
    } else if m == String::from_str("qr") {
        match read_uint_field(fields, "h", "handle key absent", "handle not integer") {
            Ok(h) => Ok(Command::QueryRow(h)),
            Err(e) => Err(e),
        }
    } else if m == String::from_str("qrr") {
        let h = match read_uint_field(fields, "h", "handle key absent", "handle not integer") {
            Ok(h) => h,
            Err(e) => {
                return Err(e);
            },
        };
        match read_uint_field(fields, "n", "count key absent", "count not integer") {
            Ok(n) => Ok(Command::QueryRows(h, n)),
            Err(e) => Err(e),
        }
    } else if m == String::from_str("ch") {
        match read_uint_field(fields, "h", "handle key absent", "handle not integer") {
            Ok(h) => Ok(Command::CloseHandle(h)),
            Err(e) => Err(e),
        }
    } else if m == String::from_str("a") || m == String::from_str("ar") || m == String::from_str(
        "arr",
    ) || m == String::from_str("ae") {
        Err(Error::General("method reserved"))
    } else {
        Err(Error::UnknownMethod(m))
    }
}

} // verus!
