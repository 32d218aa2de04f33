//! The handle table: small integer handles naming live statement cursors.
//!
//! A handle is the index at which a cursor unit was stored; handles are
//! allocated monotonically and an index is never reused once closed, so a
//! closed handle stays invalid for the rest of the session. The table is
//! the only way to reach a stored cursor, and every access runs through it
//! one command at a time.

use vstd::prelude::*;
use crate::cursor::StmtHandle;
use crate::error::Error;
use crate::value::Row;

verus! {

/// The registry of open cursor handles.
pub struct HandleTable {
    entries: Vec<Option<StmtHandle>>,
}

impl HandleTable {
    /// The stored slots: `Some` for an open handle, `None` for a closed one.
    pub closed spec fn spec_entries(self) -> Seq<Option<StmtHandle>> {
        self.entries@
    }

    /// Every stored cursor unit is internally consistent.
    pub open spec fn wf(self) -> bool {
        forall|i: int|
            0 <= i < self.spec_entries().len() && self.spec_entries()[i] is Some ==> (
            #[trigger] self.spec_entries()[i])->Some_0.wf()
    }

    /// How many handles were ever allocated.
    pub open spec fn spec_len(self) -> int {
        self.spec_entries().len() as int
    }

    /// Whether `h` names a live cursor.
    pub open spec fn has(self, h: u32) -> bool {
        h < self.spec_entries().len() && self.spec_entries()[h as int] is Some
    }

    /// The cursor behind a live handle.
    pub open spec fn at(self, h: u32) -> StmtHandle {
        self.spec_entries()[h as int]->Some_0
    }

    /// An empty table: no handle was ever allocated.
    pub fn new() -> (t: HandleTable)
        ensures
            t.wf(),
            t.spec_len() == 0,
    {
        HandleTable { entries: Vec::new() }
    }

    /// Stores a cursor unit and hands back a fresh handle — the next index,
    /// never one used before. Fails only when the handle space is spent.
    pub fn open(&mut self, cursor: StmtHandle) -> (r: Option<u32>)
        requires
            old(self).wf(),
            cursor.wf(),
        ensures
            final(self).wf(),
            match r {
                Some(h) => {
                    &&& old(self).spec_len() < u32::MAX as int
                    &&& h as int == old(self).spec_len()
                    &&& final(self).spec_entries() == old(self).spec_entries().push(
                        Some(cursor),
                    )
                    &&& final(self).has(h)
                    &&& final(self).at(h) == cursor
                },
                None => final(self).spec_entries() == old(self).spec_entries() && old(self).spec_len() >= u32::MAX as int,
            },
    {
        if self.entries.len() >= u32::MAX as usize {
            return None;
        }
        let h: u32 = self.entries.len() as u32;
        self.entries.push(Some(cursor));
        Some(h)
    }

    /// Removes and drops the cursor behind a handle; the handle stays
    /// invalid for good. An unknown or already closed handle is `NotFound`.
    pub fn close(&mut self, h: u32) -> (r: Result<(), Error>)
        requires
            old(self).wf(),
        ensures
            final(self).wf(),
            old(self).has(h) ==> (r is Ok && final(self).spec_entries() == old(self).spec_entries().update(h as int, None::<StmtHandle>) && !final(self).has(h)),
            !old(self).has(h) ==> (r matches Err(e) && e == Error::NotFound && final(self).spec_entries() == old(self).spec_entries()),
    {
        let hl = h as usize;
        if hl >= self.entries.len() {
            return Err(Error::NotFound);
        }
        let slot = &mut self.entries[hl];
        match slot {
            None => Err(Error::NotFound),
            Some(_) => {
                *slot = None;
                Ok(())
            },
        }
    }

    /// Fetches the next row from the cursor behind a handle. An unknown or
    /// closed handle is `NotFound`, and the table is left untouched — a
    /// closed handle can never reach rows again.
    pub fn fetch_row_at(&mut self, h: u32) -> (r: Result<Row, Error>)
        requires
            old(self).wf(),
        ensures
            final(self).wf(),
            !old(self).has(h) ==> (r matches Err(e) && e == Error::NotFound && final(self).spec_entries() == old(self).spec_entries()),
            old(self).has(h) ==> {
                let c = old(self).at(h);
                &&& final(self).spec_entries() == old(self).spec_entries().update(
                    h as int,
                    Some(final(self).at(h)),
                )
                &&& final(self).has(h)
                &&& (c.remaining() == 0 ==> (r matches Err(e) && e == Error::Eof && final(self).at(h).is_exhausted() && final(self).at(h).spec_pos() == c.spec_pos()))
                &&& (c.remaining() > 0 ==> (r matches Ok(row) && row@.len() == c.spec_stride() && (
                forall|j: int|
                    0 <= j < row@.len() ==> row@[j] == c.spec_buf()[c.spec_pos() * c.spec_stride()
                        + j]) && final(self).at(h).spec_pos() == c.spec_pos() + 1))
                &&& final(self).at(h).spec_buf() == c.spec_buf()
                &&& final(self).at(h).spec_stride() == c.spec_stride()
                &&& final(self).at(h).spec_rows() == c.spec_rows()
                &&& final(self).at(h).spec_cols() == c.spec_cols()
            },
    {
        let hl = h as usize;
        if hl >= self.entries.len() {
            return Err(Error::NotFound);
        }
        match &mut self.entries[hl] {
            None => Err(Error::NotFound),
            Some(c) => c.fetch_row(),
        }
    }

    /// Fetches up to `max_rows` rows, flat, from the cursor behind a
    /// handle, with the cells-per-row count. An unknown or closed handle is
    /// `NotFound`; a cursor with nothing left is `Eof`, and stays `Eof` on
    /// every later fetch — nothing is ever re-run.
    pub fn fetch_rows_at(&mut self, h: u32, max_rows: usize) -> (r: Result<(usize, Row), Error>)
        requires
            old(self).wf(),
        ensures
            final(self).wf(),
            !old(self).has(h) ==> (r matches Err(e) && e == Error::NotFound && final(self).spec_entries() == old(self).spec_entries()),
            old(self).has(h) ==> {
                let c = old(self).at(h);
                &&& final(self).spec_entries() == old(self).spec_entries().update(
                    h as int,
                    Some(final(self).at(h)),
                )
                &&& final(self).has(h)
                &&& (c.remaining() == 0 || max_rows == 0 ==> (r matches Err(e) && e == Error::Eof
                    && final(self).at(h).spec_pos() == c.spec_pos() && final(self).at(h).is_exhausted() == (c.is_exhausted() || c.remaining() == 0)))
                &&& (c.remaining() > 0 && max_rows > 0 ==> (r matches Ok((stride, out)) && {
                    let cnt = if max_rows <= c.remaining() {
                        max_rows as int
                    } else {
                        c.remaining()
                    };
                    &&& stride as int == c.spec_stride()
                    &&& out@.len() == cnt * c.spec_stride()
                    &&& (forall|k: int|
                        0 <= k < out@.len() ==> out@[k] == c.spec_buf()[c.spec_pos()
                            * c.spec_stride() + k])
                    &&& final(self).at(h).spec_pos() == c.spec_pos() + cnt
                    &&& final(self).at(h).is_exhausted() == (c.is_exhausted() || (max_rows as int
                        > cnt))
                }))
                &&& final(self).at(h).spec_buf() == c.spec_buf()
                &&& final(self).at(h).spec_stride() == c.spec_stride()
                &&& final(self).at(h).spec_rows() == c.spec_rows()
                &&& final(self).at(h).spec_cols() == c.spec_cols()
            },
    {
        let hl = h as usize;
        if hl >= self.entries.len() {
            return Err(Error::NotFound);
        }
        match &mut self.entries[hl] {
            None => Err(Error::NotFound),
            Some(c) => c.fetch_rows(max_rows),
        }
    }
}

} // verus!
