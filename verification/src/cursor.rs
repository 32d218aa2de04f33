//! The statement cursor: one prepared statement's result set, owned as one
//! unit and fetched from incrementally.
//!
//! The engine binding used by this server materializes a statement's whole
//! result inside the statement when the query starts, so the unit here owns
//! the rows already bridged to wire values, flat in row-major order, and a
//! cursor position. Fetching never re-runs the query: it only advances the
//! position, and once the end is reached the unit stays exhausted — every
//! later fetch answers `Eof` without touching anything.
//!
//! Lifecycle: created on prepare (no cursor attached) → a result attached
//! by `query`, which also (re)captures the column names and drops any
//! earlier result first → rows drawn by `fetch_row` / `fetch_rows` →
//! destroyed on close or handle-table eviction.

use vstd::prelude::*;
use vstd::arithmetic::mul::lemma_mul_basics;
use vstd::arithmetic::mul::lemma_mul_inequality;
use vstd::arithmetic::mul::lemma_mul_is_distributive_add_other_way;
use crate::error::Error;
use crate::value::Row;
use crate::value::Value;

verus! {

/// Copies one wire value.
pub fn dup_value(v: &Value) -> (r: Value)
    ensures
        r == *v,
{
    match v {
        Value::Null => Value::Null,
        Value::Bool(b) => Value::Bool(*b),
        Value::Int(i) => Value::Int(*i),
        Value::Float(p, m, e) => Value::Float(*p, *m, *e),
        Value::Text(s) => Value::Text(s.clone()),
    }
}

/// Copies a column-name list.
pub fn dup_names(cs: &Vec<String>) -> (r: Vec<String>)
    ensures
        r@ =~= cs@,
{
    let mut out: Vec<String> = Vec::new();
    let mut i: usize = 0;
    while i < cs.len()
        invariant
            i <= cs@.len(),
            out@.len() == i as int,
            forall|j: int| 0 <= j < i as int ==> out@[j] == cs@[j],
        decreases cs@.len() - i,
    {
        out.push(cs[i].clone());
        i = i + 1;
    }
    out
}

/// One prepared statement's cursor unit.
pub struct StmtHandle {
    /// Column names, as captured when the current result was attached.
    cols: Vec<String>,
    /// Cells per row of the attached result.
    stride: usize,
    /// How many rows the attached result holds.
    nrows: usize,
    /// The result's cells, flat in row-major order: `nrows · stride` cells.
    buf: Vec<Value>,
    /// The next row to fetch.
    pos: usize,
    /// Whether a result is attached.
    queried: bool,
    /// Whether a fetch has already hit the end of the result.
    exhausted: bool,
}

impl StmtHandle {
    /// The unit's internal consistency: the flat buffer holds exactly
    /// `nrows` rows of `stride` cells, the position never passes the end,
    /// exhaustion only happens at the end, and before the first query
    /// there is no result and no column list.
    pub open spec fn wf(self) -> bool {
        &&& self.spec_buf().len() == self.spec_rows() * self.spec_stride()
        &&& self.spec_stride() <= u32::MAX as int
        &&& 0 <= self.spec_pos() <= self.spec_rows()
        &&& (self.is_exhausted() ==> self.spec_pos() == self.spec_rows())
        &&& (!self.is_queried() ==> self.spec_rows() == 0 && self.spec_pos() == 0
            && self.spec_cols().len() == 0)
    }

    /// How many rows are still to be fetched.
    pub open spec fn remaining(self) -> int {
        self.spec_rows() - self.spec_pos()
    }

    pub closed spec fn spec_cols(self) -> Seq<String> {
        self.cols@
    }

    pub closed spec fn spec_stride(self) -> int {
        self.stride as int
    }

    pub closed spec fn spec_pos(self) -> int {
        self.pos as int
    }

    pub closed spec fn spec_rows(self) -> int {
        self.nrows as int
    }

    pub closed spec fn spec_buf(self) -> Seq<Value> {
        self.buf@
    }

    pub closed spec fn is_exhausted(self) -> bool {
        self.exhausted
    }

    pub closed spec fn is_queried(self) -> bool {
        self.queried
    }

    /// A fresh unit in the prepared state: no result, no column names yet.
    pub fn new() -> (h: StmtHandle)
        ensures
            h.wf(),
            !h.is_queried(),
            h.remaining() == 0,
            h.spec_cols().len() == 0,
    {
        let h = StmtHandle {
            cols: Vec::new(),
            stride: 0,
            nrows: 0,
            buf: Vec::new(),
            pos: 0,
            queried: false,
            exhausted: false,
        };
        proof {
            lemma_mul_basics(0);
        }
        h
    }

    /// Attaches a result to the unit, replacing any earlier one — the old
    /// result is dropped before the new one is stored — and (re)captures
    /// the column names. The cursor starts at the first row.
    pub fn query(&mut self, cols: Vec<String>, stride: usize, nrows: usize, buf: Vec<Value>)
        requires
            buf@.len() == nrows * stride,
            stride <= u32::MAX as usize,
        ensures
            final(self).wf(),
            final(self).is_queried(),
            !final(self).is_exhausted(),
            final(self).spec_cols() == cols@,
            final(self).spec_stride() == stride as int,
            final(self).spec_rows() == nrows as int,
            final(self).spec_buf() == buf@,
            final(self).spec_pos() == 0,
    {
        self.cols = cols;
        self.stride = stride;
        self.nrows = nrows;
        self.buf = buf;
        self.pos = 0;
        self.queried = true;
        self.exhausted = false;
    }

    /// The captured column-name list; empty before the first query.
    pub fn col_names(&self) -> (r: Vec<String>)
        ensures
            r@ =~= self.spec_cols(),
    {
        dup_names(&self.cols)
    }

    /// The cells per row of the attached result.
    pub fn column_count(&self) -> (r: usize)
        ensures
            r as int == self.spec_stride(),
    {
        self.stride
    }

    /// Fetches the next row, or answers `Eof` — with the exhausted flag set
    /// so later fetches stay cheap — once no row is left (also when no
    /// result was ever attached).
    pub fn fetch_row(&mut self) -> (r: Result<Row, Error>)
        requires
            old(self).wf(),
        ensures
            final(self).wf(),
            old(self).remaining() == 0 ==> (r matches Err(e) && e == Error::Eof
                && final(self).is_exhausted() && final(self).spec_pos() == old(self).spec_pos()),
            old(self).remaining() > 0 ==> (r matches Ok(row) && row@.len() == old(
                self,
            ).spec_stride() && (forall|j: int|
                0 <= j < row@.len() ==> row@[j] == old(self).spec_buf()[old(self).spec_pos() * old(
                    self,
                ).spec_stride() + j]) && final(self).spec_pos() == old(self).spec_pos() + 1
                && final(self).is_exhausted() == old(self).is_exhausted()),
            final(self).spec_cols() == old(self).spec_cols(),
            final(self).spec_stride() == old(self).spec_stride(),
            final(self).spec_rows() == old(self).spec_rows(),
            final(self).spec_buf() == old(self).spec_buf(),
            final(self).is_queried() == old(self).is_queried(),
    {
        if self.pos >= self.nrows {
            self.exhausted = true;
            return Err(Error::Eof);
        }
        let blen: usize = self.buf.len();
        proof {
            lemma_mul_inequality(self.pos as int, self.pos as int + 1, self.stride as int);
            lemma_mul_inequality(self.pos as int + 1, self.nrows as int, self.stride as int);
            lemma_mul_is_distributive_add_other_way(self.stride as int, self.pos as int, 1);
        }
        let base: usize = self.pos * self.stride;
        let mut row: Row = Vec::new();
        let mut j: usize = 0;
        while j < self.stride
            invariant
                blen == self.buf@.len(),
                base + self.stride <= blen,
                j <= self.stride,
                row@.len() == j as int,
                forall|k: int| 0 <= k < j as int ==> row@[k] == self.buf@[base as int + k],
            decreases self.stride - j,
        {
            row.push(dup_value(&self.buf[base + j]));
            j = j + 1;
        }
        self.pos = self.pos + 1;
        Ok(row)
    }

    /// Fetches up to `max_rows` rows into one flat row-major buffer,
    /// paired with the cells-per-row count. A shorter batch than asked for
    /// is the normal sign that the result ended — the unit is then
    /// exhausted. `Eof` comes back only when not a single row was left,
    /// and fetching an exhausted unit again keeps answering `Eof` without
    /// re-running anything.
    pub fn fetch_rows(&mut self, max_rows: usize) -> (r: Result<(usize, Row), Error>)
        requires
            old(self).wf(),
        ensures
            final(self).wf(),
            old(self).remaining() == 0 || max_rows == 0 ==> (r matches Err(e) && e == Error::Eof
                && final(self).is_exhausted() == (old(self).is_exhausted() || old(self).remaining()
                == 0) && final(self).spec_pos() == old(self).spec_pos()),
            old(self).remaining() > 0 && max_rows > 0 ==> (r matches Ok((stride, out)) && {
                let cnt = if max_rows <= old(self).remaining() {
                    max_rows as int
                } else {
                    old(self).remaining()
                };
                &&& stride as int == old(self).spec_stride()
                &&& out@.len() == cnt * old(self).spec_stride()
                &&& (forall|k: int|
                    0 <= k < out@.len() ==> out@[k] == old(self).spec_buf()[old(self).spec_pos()
                        * old(self).spec_stride() + k])
                &&& final(self).spec_pos() == old(self).spec_pos() + cnt
                &&& final(self).is_exhausted() == (old(self).is_exhausted() || (max_rows as int
                    > cnt))
            }),
            final(self).spec_cols() == old(self).spec_cols(),
            final(self).spec_stride() == old(self).spec_stride(),
            final(self).spec_rows() == old(self).spec_rows(),
            final(self).spec_buf() == old(self).spec_buf(),
            final(self).is_queried() == old(self).is_queried(),
    {
        let left: usize = self.nrows - self.pos;
        if left == 0 || max_rows == 0 {
            if left == 0 {
                self.exhausted = true;
            }
            return Err(Error::Eof);
        }
        let cnt: usize = if max_rows <= left {
            max_rows
        } else {
            left
        };
        let blen: usize = self.buf.len();
        proof {
            lemma_mul_inequality(self.pos as int, self.pos as int + cnt as int,
                self.stride as int);
            lemma_mul_inequality(cnt as int, self.pos as int + cnt as int, self.stride as int);
            lemma_mul_inequality(self.pos as int + cnt as int, self.nrows as int,
                self.stride as int);
            lemma_mul_is_distributive_add_other_way(self.stride as int, self.pos as int,
                cnt as int);
        }
        let base: usize = self.pos * self.stride;
        let total: usize = cnt * self.stride;
        let mut out: Row = Vec::new();
        let mut k: usize = 0;
        while k < total
            invariant
                blen == self.buf@.len(),
                base + total <= blen,
                k <= total,
                out@.len() == k as int,
                forall|j: int| 0 <= j < k as int ==> out@[j] == self.buf@[base as int + j],
            decreases total - k,
        {
            out.push(dup_value(&self.buf[base + k]));
            k = k + 1;
        }
        self.pos = self.pos + cnt;
        if cnt < max_rows {
            self.exhausted = true;
        }
        Ok((self.stride, out))
    }
}

/// A batch shorter than asked for means the result has ended: with the
/// position `fetch_rows` leaves behind, nothing remains, so every later
/// fetch of any count answers `Eof` — and, `fetch_rows` states, without
/// running anything.
pub proof fn lemma_partial_batch_exhausts(c0: StmtHandle, c1: StmtHandle, max_rows: usize, cnt: int)
    requires
        c0.wf(),
        cnt == if max_rows as int <= c0.remaining() {
            max_rows as int
        } else {
            c0.remaining()
        },
        cnt < max_rows as int,
        c1.spec_pos() == c0.spec_pos() + cnt,
        c1.spec_rows() == c0.spec_rows(),
    ensures
        c1.remaining() == 0,
{
}

} // verus!
