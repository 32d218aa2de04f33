//! Encoding one outcome into a response object.
//!
//! Every response is one JSON object that opens with an `ok` boolean. A
//! success carries its payload beside it: `aff` (affected row count), `h`
//! (a fresh cursor handle), `c` (column names), `r` (one row, flat), or
//! `rr` (a row batch: an array of rows, each an array of `stride` cells,
//! the last one possibly shorter). A failure carries `err` with a stable,
//! human-readable message — never a mix of the two.

use vstd::prelude::*;
use vstd::arithmetic::div_mod::lemma_fundamental_div_mod_converse_div;
use vstd::arithmetic::mul::lemma_mul_basics;
use crate::error::Error;
use crate::error::message_of;
use crate::value::Row;
use crate::value::Value;
use crate::wire::JsonVal;
use crate::wire::value_json_spec;
use crate::wire::value_to_json_scalar;

verus! {

/// One outcome of a command, ready to be encoded.
#[derive(Debug)]
pub enum Response {
    /// Plain success with no payload; also the end-of-rows answer of the
    /// fetch methods, which carries no row field.
    Okay,
    /// Failure, encoded with the error's message.
    Error(Error),
    /// A statement ran to completion and changed this many rows.
    Done { affected_rows: u64 },
    /// A query's cursor was registered under `handle`.
    QueryHandleOpened { handle: u32, col_names: Vec<String> },
    /// One fetched row.
    QueryRow(Row),
    /// A fetched row batch, flat in row-major order, `stride` cells per row.
    QueryRows { col_names: Option<Vec<String>>, stride: u32, values: Row },
    /// Reserved for the append family.
    AppendHandleOpened(u32),
}

/// Whether a field carries the `ok` marker.
pub open spec fn ok_field(f: (String, JsonVal), ok: bool) -> bool {
    f.0@ == "ok"@ && f.1 == JsonVal::Bool(ok)
}

/// The wire number for an unsigned count.
pub open spec fn uint_json(n: u64) -> JsonVal {
    JsonVal::Num(true, n, 0)
}

/// Whether `arr` is the elementwise wire form of the row `vs`.
pub open spec fn row_encodes_to(vs: Seq<Value>, arr: JsonVal) -> bool {
    arr matches JsonVal::Arr(cells) && cells@.len() == vs.len() && (forall|i: int|
        0 <= i < vs.len() ==> cells@[i] == value_json_spec(vs[i]))
}

/// Whether `arr` is the elementwise wire form of the column-name list `cs`.
pub open spec fn names_encode_to(cs: Seq<String>, arr: JsonVal) -> bool {
    arr matches JsonVal::Arr(cells) && cells@.len() == cs.len() && (forall|i: int|
        0 <= i < cs.len() ==> cells@[i] == JsonVal::Str(cs[i]))
}

/// How many rows a flat buffer of `total` cells holds at `stride` cells
/// per row, the last row possibly shorter. A zero stride holds no rows.
pub open spec fn chunk_count(total: int, stride: int) -> int {
    if stride <= 0 {
        0
    } else {
        (total + stride - 1) / stride
    }
}

/// The length of row `i`: `stride`, or what remains for the last row.
pub open spec fn chunk_len(total: int, stride: int, i: int) -> int {
    if (i + 1) * stride <= total {
        stride
    } else {
        total - i * stride
    }
}

/// Whether `c` is the wire form of row `i` of the flat buffer `vs`.
pub open spec fn chunk_encodes_to(vs: Seq<Value>, stride: int, i: int, c: JsonVal) -> bool {
    c matches JsonVal::Arr(cells) && cells@.len() == chunk_len(vs.len() as int, stride, i) && (
    forall|j: int|
        0 <= j < cells@.len() ==> cells@[j] == value_json_spec(vs[i * stride + j]))
}

/// Whether `arr` is the wire form of the whole flat buffer `vs`, cut into
/// rows of `stride` cells.
pub open spec fn chunks_encode_to(vs: Seq<Value>, stride: int, arr: JsonVal) -> bool {
    arr matches JsonVal::Arr(rows) && rows@.len() == chunk_count(vs.len() as int, stride) && (
    forall|i: int|
        0 <= i < rows@.len() ==> chunk_encodes_to(vs, stride, i, rows@[i]))
}

/// How each outcome reads on the wire: the exact field list, in order.
pub open spec fn response_encodes_to(resp: Response, r: JsonVal) -> bool {
    match resp {
        Response::Okay => r matches JsonVal::Obj(fs) && fs@.len() == 1 && ok_field(fs@[0], true),
        Response::Error(e) => r matches JsonVal::Obj(fs) && fs@.len() == 2 && ok_field(fs@[0], false)
            && fs@[1].0@ == "err"@ && (fs@[1].1 matches JsonVal::Str(s) && s@ == message_of(e)),
        Response::Done { affected_rows } => r matches JsonVal::Obj(fs) && fs@.len() == 2 && ok_field(
            fs@[0],
            true,
        ) && fs@[1].0@ == "aff"@ && fs@[1].1 == uint_json(affected_rows),
        Response::QueryHandleOpened { handle, col_names } => r matches JsonVal::Obj(fs)
            && fs@.len() == 3 && ok_field(fs@[0], true) && fs@[1].0@ == "h"@ && fs@[1].1
            == uint_json(handle as u64) && fs@[2].0@ == "c"@ && names_encode_to(
            col_names@,
            fs@[2].1,
        ),
        Response::QueryRow(row) => r matches JsonVal::Obj(fs) && fs@.len() == 2 && ok_field(
            fs@[0],
            true,
        ) && fs@[1].0@ == "r"@ && row_encodes_to(row@, fs@[1].1),
        Response::QueryRows { col_names, stride, values } => r matches JsonVal::Obj(fs) && ok_field(
            fs@[0],
            true,
        ) && fs@.len() >= 2 && fs@[1].0@ == "rr"@ && chunks_encode_to(
            values@,
            stride as int,
            fs@[1].1,
        ) && match col_names {
            None => fs@.len() == 2,
            Some(cs) => fs@.len() == 3 && fs@[2].0@ == "c"@ && names_encode_to(cs@, fs@[2].1),
        },
        Response::AppendHandleOpened(handle) => r matches JsonVal::Obj(fs) && fs@.len() == 2
            && ok_field(fs@[0], true) && fs@[1].0@ == "h"@ && fs@[1].1 == uint_json(handle as u64),
    }
}

/// Encodes a row as a wire array, cell by cell.
fn encode_row(vs: &Vec<Value>) -> (r: JsonVal)
    ensures
        row_encodes_to(vs@, r),
{
    let mut cells: Vec<JsonVal> = Vec::new();
    let mut i: usize = 0;
    while i < vs.len()
        invariant
            i <= vs@.len(),
            cells@.len() == i as int,
            forall|j: int| 0 <= j < i as int ==> cells@[j] == value_json_spec(vs@[j]),
        decreases vs@.len() - i,
    {
        cells.push(value_to_json_scalar(&vs[i]));
        i = i + 1;
    }
    JsonVal::Arr(cells)
}

/// Encodes a column-name list as a wire array of strings.
fn encode_names(cs: &Vec<String>) -> (r: JsonVal)
    ensures
        names_encode_to(cs@, r),
{
    let mut cells: Vec<JsonVal> = Vec::new();
    let mut i: usize = 0;
    while i < cs.len()
        invariant
            i <= cs@.len(),
            cells@.len() == i as int,
            forall|j: int| 0 <= j < i as int ==> cells@[j] == JsonVal::Str(cs@[j]),
        decreases cs@.len() - i,
    {
        cells.push(JsonVal::Str(cs[i].clone()));
        i = i + 1;
    }
    JsonVal::Arr(cells)
}

/// Cuts a flat row-major buffer into its wire rows of `stride` cells.
fn encode_chunks(vs: &Vec<Value>, stride: u32) -> (r: JsonVal)
    ensures
        chunks_encode_to(vs@, stride as int, r),
{
    let mut rows: Vec<JsonVal> = Vec::new();
    if stride == 0 {
        return JsonVal::Arr(rows);
    }
    let stride_us: usize = stride as usize;
    let total: usize = vs.len();
    let ghost s = stride as int;
    let mut start: usize = 0;
    proof {
        lemma_mul_basics(s);
        if total == 0 {
            lemma_fundamental_div_mod_converse_div(s - 1, s, 0, s - 1);
        }
    }
    while start < total
        invariant
            stride_us == s,
            stride as int == s,
            s > 0,
            total == vs@.len(),
            start <= total,
            start < total ==> start as int == rows@.len() * s,
            start >= total ==> rows@.len() == chunk_count(total as int, s),
            forall|i: int| 0 <= i < rows@.len() ==> chunk_encodes_to(vs@, s, i, rows@[i]),
        decreases total - start,
    {
        let remain: usize = total - start;
        let this_len: usize = if remain < stride_us {
            remain
        } else {
            stride_us
        };
        let ghost k = rows@.len() as int;
        let mut cells: Vec<JsonVal> = Vec::new();
        let mut j: usize = 0;
        while j < this_len
            invariant
                j <= this_len,
                start + this_len <= total,
                total == vs@.len(),
                cells@.len() == j as int,
                forall|kk: int|
                    0 <= kk < j as int ==> cells@[kk] == value_json_spec(vs@[start as int + kk]),
            decreases this_len - j,
        {
            cells.push(value_to_json_scalar(&vs[start + j]));
            j = j + 1;
        }
        proof {
            assert(start as int == k * s);
            assert((k + 1) * s == k * s + s) by (nonlinear_arith);
            // the cells built are exactly chunk `k` of the buffer
            assert(chunk_len(total as int, s, k) == this_len as int);
        }
        rows.push(JsonVal::Arr(cells));
        start = start + this_len;
        proof {
            assert(forall|i: int|
                0 <= i < rows@.len() ==> chunk_encodes_to(vs@, s, i, rows@[i]));
            if start < total {
                // a full row was cut; more rows follow
                assert(start as int == (k + 1) * s);
            } else {
                // the last row was cut: the row count is the chunk count
                assert(start == total);
                let r = this_len as int - 1;
                assert(total as int + s - 1 == (k + 1) * s + r) by (nonlinear_arith)
                    requires
                        total as int == k * s + this_len as int,
                        r == this_len as int - 1,
                ;
                lemma_fundamental_div_mod_converse_div(total as int + s - 1, s, k + 1, r);
            }
        }
    }
    JsonVal::Arr(rows)
}

/// Encodes one outcome as its response object, with the exact field layout
/// stated by `response_encodes_to`.
pub fn encode_response(resp: &Response) -> (r: JsonVal)
    ensures
        response_encodes_to(*resp, r),
{
    let mut fs: Vec<(String, JsonVal)> = Vec::new();
    match resp {
        Response::Okay => {
            fs.push((String::from_str("ok"), JsonVal::Bool(true)));
            JsonVal::Obj(fs)
        },
        Response::Error(e) => {
            fs.push((String::from_str("ok"), JsonVal::Bool(false)));
            fs.push((String::from_str("err"), JsonVal::Str(e.message())));
            JsonVal::Obj(fs)
        },
        Response::Done { affected_rows } => {
            fs.push((String::from_str("ok"), JsonVal::Bool(true)));
            fs.push((String::from_str("aff"), JsonVal::Num(true, *affected_rows, 0)));
            JsonVal::Obj(fs)
        },
        Response::QueryHandleOpened { handle, col_names } => {
            fs.push((String::from_str("ok"), JsonVal::Bool(true)));
            fs.push((String::from_str("h"), JsonVal::Num(true, *handle as u64, 0)));
            fs.push((String::from_str("c"), encode_names(col_names)));
            JsonVal::Obj(fs)
        },
        Response::QueryRow(row) => {
            fs.push((String::from_str("ok"), JsonVal::Bool(true)));
            fs.push((String::from_str("r"), encode_row(row)));
            JsonVal::Obj(fs)
        },
        Response::QueryRows { col_names, stride, values } => {
            fs.push((String::from_str("ok"), JsonVal::Bool(true)));
            fs.push((String::from_str("rr"), encode_chunks(values, *stride)));
            match col_names {
                Some(cs) => {
                    fs.push((String::from_str("c"), encode_names(cs)));
                },
                None => {},
            }
            JsonVal::Obj(fs)
        },
        Response::AppendHandleOpened(handle) => {
            fs.push((String::from_str("ok"), JsonVal::Bool(true)));
            fs.push((String::from_str("h"), JsonVal::Num(true, *handle as u64, 0)));
            JsonVal::Obj(fs)
        },
    }
}

} // verus!
