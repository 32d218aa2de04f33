//! Dispatching one command at a time.
//!
//! The session alternates decisions, made here, with engine work, done by
//! whoever drives the session: a command either completes locally against
//! the handle table, or names the one engine call it needs. The engine's
//! answer comes back as plain values (`EngineReply`), and `finish_command`
//! turns it into the response — bridging every column reading, cutting
//! nothing short and coercing nothing silently.

use vstd::prelude::*;
use vstd::arithmetic::mul::lemma_mul_is_distributive_add_other_way;
use crate::cursor::StmtHandle;
use crate::error::Error;
use crate::input::Command;
use crate::input::Query;
use crate::input::command_decode_to;
use crate::input::read_command;
use crate::jsontext::json_parse;
use crate::jsontext::json_text;
use crate::jsontext::parse_request;
use crate::jsontext::render_json;
use crate::output::Response;
use crate::output::encode_response;
use crate::output::response_encodes_to;
use crate::table::HandleTable;
use crate::value::EngineCol;
use crate::value::Value;
use crate::value::from_engine;
use crate::value::from_engine_spec;
use crate::wire::JsonVal;

verus! {

/// The one engine call a command needs, if any.
#[derive(Debug)]
pub enum EngineCall {
    /// Run the statement to completion and report the affected row count.
    Exec(Query),
    /// Run the query for an immediate, whole answer.
    RunImmediate(Query),
    /// Run the query and keep its cursor behind a fresh handle.
    RunOpen(Query),
}

/// What the engine answered: plain values only.
#[derive(Debug)]
pub enum EngineReply {
    /// The statement completed and changed this many rows.
    Done(u64),
    /// The query's whole result: column names, then the rows' readings.
    Table { cols: Vec<String>, rows: Vec<Vec<EngineCol>> },
    /// The engine rejected the statement or a binding; its diagnostic text.
    Fail(String),
}

/// One step of the session: a finished response, or the engine call that
/// must run before `finish_command` can answer.
#[derive(Debug)]
pub enum Step {
    Reply(Response),
    Engine(EngineCall),
}

/// Whether every row of a result has exactly `stride` readings.
pub open spec fn rows_rect(rows: Seq<Vec<EngineCol>>, stride: int) -> bool {
    forall|i: int| 0 <= i < rows.len() ==> (#[trigger] rows[i])@.len() == stride
}

/// Whether every reading of a result bridges to a wire value.
pub open spec fn rows_all_ok(rows: Seq<Vec<EngineCol>>) -> bool {
    forall|i: int| 0 <= i < rows.len() ==> row_all_ok(#[trigger] rows[i])
}

/// Whether every reading of one row bridges to a wire value.
pub open spec fn row_all_ok(row: Vec<EngineCol>) -> bool {
    forall|j: int| 0 <= j < row@.len() ==> from_engine_spec(#[trigger] row@[j]) is Ok
}

/// The bridged form of one row of readings (meaningful when they all
/// bridge).
pub open spec fn conv_row(row: Vec<EngineCol>) -> Seq<Value> {
    Seq::new(row@.len(), |j: int| from_engine_spec(row@[j])->Ok_0)
}

/// The bridged rows of a result, flat in row-major order.
pub open spec fn conv_rows_flat(rows: Seq<Vec<EngineCol>>) -> Seq<Value>
    decreases rows.len(),
{
    if rows.len() == 0 {
        Seq::empty()
    } else {
        conv_rows_flat(rows.drop_last()) + conv_row(rows.last())
    }
}

/// Bridges a whole result to a flat row-major buffer: first every row's
/// width is checked against the column count, then every reading is
/// bridged; the first failure of each pass is the answer.
fn convert_rows(rows: &Vec<Vec<EngineCol>>, stride: usize) -> (r: Result<Vec<Value>, Error>)
    ensures
        match r {
            Ok(out) => rows_rect(rows@, stride as int) && rows_all_ok(rows@) && out@
                == conv_rows_flat(rows@) && out@.len() == rows@.len() * stride,
            Err(e) => (e == Error::General("row width mismatch") && !rows_rect(
                rows@,
                stride as int,
            )) || (e == Error::UnsupportedType && rows_rect(rows@, stride as int) && !rows_all_ok(
                rows@,
            )),
        },
{
    let mut i: usize = 0;
    while i < rows.len()
        invariant
            i <= rows@.len(),
            forall|k: int| 0 <= k < i as int ==> (#[trigger] rows@[k])@.len() == stride as int,
        decreases rows@.len() - i,
    {
        if rows[i].len() != stride {
            proof {
                assert(rows@[i as int]@.len() != stride as int);
                assert(!rows_rect(rows@, stride as int));
            }
            return Err(Error::General("row width mismatch"));
        }
        i = i + 1;
    }
    let mut out: Vec<Value> = Vec::new();
    let mut g: usize = 0;
    proof {
        assert(rows@.take(0) =~= Seq::<Vec<EngineCol>>::empty());
        assert(conv_rows_flat(rows@.take(0)) =~= Seq::<Value>::empty());
    }
    while g < rows.len()
        invariant
            g <= rows@.len(),
            rows_rect(rows@, stride as int),
            out@ == conv_rows_flat(rows@.take(g as int)),
            out@.len() == g as int * stride,
            forall|k: int| 0 <= k < g as int ==> row_all_ok(#[trigger] rows@[k]),
        decreases rows@.len() - g,
    {
        let row = &rows[g];
        let mut cells: Vec<Value> = Vec::new();
        let mut j: usize = 0;
        while j < row.len()
            invariant
                rows_rect(rows@, stride as int),
                (g as int) < rows@.len(),
                *row == rows@[g as int],
                j <= row@.len(),
                cells@.len() == j as int,
                forall|k: int|
                    0 <= k < j as int ==> from_engine_spec(row@[k]) == Ok::<Value, Error>(
                        cells@[k],
                    ),
            decreases row@.len() - j,
        {
            match from_engine(&row[j]) {
                Ok(v) => cells.push(v),
                Err(_) => {
                    proof {
                        assert(from_engine_spec(rows@[g as int]@[j as int]) is Err);
                        assert(!row_all_ok(rows@[g as int]));
                        assert(!rows_all_ok(rows@));
                    }
                    return Err(Error::UnsupportedType);
                },
            }
            j = j + 1;
        }
        proof {
            assert(cells@ =~= conv_row(rows@[g as int]));
            assert(rows@.take(g as int + 1).drop_last() =~= rows@.take(g as int));
            assert(rows@.take(g as int + 1).last() == rows@[g as int]);
            lemma_mul_is_distributive_add_other_way(stride as int, g as int, 1);
        }
        out.append(&mut cells);
        proof {
            assert(out@ =~= conv_rows_flat(rows@.take(g as int + 1)));
        }
        g = g + 1;
    }
    proof {
        assert(rows@.take(rows@.len() as int) =~= rows@);
    }
    Ok(out)
}

/// What `dispatch_command` answers or asks for, for each command: the
/// statement-running commands name their engine call; the fetch commands
/// are answered from the handle table — an unknown or closed handle is
/// `NotFound`, a spent cursor answers plain success with no row field, and
/// a fetch never runs anything again.
pub open spec fn dispatch_ok(t0: HandleTable, t1: HandleTable, cmd: Command, r: Step) -> bool {
    match cmd {
        Command::Execute(q) => r == Step::Engine(EngineCall::Exec(q)) && t1.spec_entries()
            == t0.spec_entries(),
        Command::QueryImmediate(q) => r == Step::Engine(EngineCall::RunImmediate(q))
            && t1.spec_entries() == t0.spec_entries(),
        Command::QueryHandle(q) => r == Step::Engine(EngineCall::RunOpen(q)) && t1.spec_entries()
            == t0.spec_entries(),
        Command::QueryRow(h) => if !t0.has(h) {
            r == Step::Reply(Response::Error(Error::NotFound)) && t1.spec_entries()
                == t0.spec_entries()
        } else {
            let c = t0.at(h);
            &&& t1.has(h)
            &&& t1.spec_entries() == t0.spec_entries().update(h as int, Some(t1.at(h)))
            &&& if c.remaining() == 0 {
                r == Step::Reply(Response::Okay) && t1.at(h).is_exhausted() && t1.at(h).spec_pos()
                    == c.spec_pos()
            } else {
                r matches Step::Reply(Response::QueryRow(row)) && row@.len() == c.spec_stride() && (
                forall|j: int|
                    0 <= j < row@.len() ==> row@[j] == c.spec_buf()[c.spec_pos() * c.spec_stride()
                        + j]) && t1.at(h).spec_pos() == c.spec_pos() + 1
            }
        },
        Command::QueryRows(h, n) => if !t0.has(h) {
            r == Step::Reply(Response::Error(Error::NotFound)) && t1.spec_entries()
                == t0.spec_entries()
        } else {
            let c = t0.at(h);
            &&& t1.has(h)
            &&& t1.spec_entries() == t0.spec_entries().update(h as int, Some(t1.at(h)))
            &&& if c.remaining() == 0 || n == 0 {
                r == Step::Reply(Response::Okay) && t1.at(h).spec_pos() == c.spec_pos()
            } else {
                let cnt = if n <= c.remaining() {
                    n as int
                } else {
                    c.remaining()
                };
                match r {
                    Step::Reply(Response::QueryRows { col_names: cs, stride, values }) => {
                        &&& cs is None
                        &&& stride as int == c.spec_stride()
                        &&& values@.len() == cnt * c.spec_stride()
                        &&& (forall|k: int|
                            0 <= k < values@.len() ==> values@[k] == c.spec_buf()[c.spec_pos()
                                * c.spec_stride() + k])
                        &&& t1.at(h).spec_pos() == c.spec_pos() + cnt
                    },
                    _ => false,
                }
            }
        },
        Command::CloseHandle(h) => if !t0.has(h) {
            r == Step::Reply(Response::Error(Error::NotFound)) && t1.spec_entries()
                == t0.spec_entries()
        } else {
            r == Step::Reply(Response::Okay) && t1.spec_entries() == t0.spec_entries().update(
                h as int,
                None::<StmtHandle>,
            )
        },
    }
}

/// Answers one command from local state, or names its engine call.
pub fn dispatch_command(table: &mut HandleTable, cmd: Command) -> (r: Step)
    requires
        old(table).wf(),
    ensures
        final(table).wf(),
        dispatch_ok(*old(table), *final(table), cmd, r),
{
    match cmd {
        Command::Execute(q) => Step::Engine(EngineCall::Exec(q)),
        Command::QueryImmediate(q) => Step::Engine(EngineCall::RunImmediate(q)),
        Command::QueryHandle(q) => Step::Engine(EngineCall::RunOpen(q)),
        Command::QueryRow(h) => match table.fetch_row_at(h) {
            Ok(row) => Step::Reply(Response::QueryRow(row)),
            Err(Error::Eof) => Step::Reply(Response::Okay),
            Err(_) => Step::Reply(Response::Error(Error::NotFound)),
        },
        Command::QueryRows(h, n) => match table.fetch_rows_at(h, n as usize) {
            Ok((stride, values)) => Step::Reply(
                Response::QueryRows { col_names: None, stride: stride as u32, values },
            ),
            Err(Error::Eof) => Step::Reply(Response::Okay),
            Err(_) => Step::Reply(Response::Error(Error::NotFound)),
        },
        Command::CloseHandle(h) => match table.close(h) {
            Ok(_) => Step::Reply(Response::Okay),
            Err(_) => Step::Reply(Response::Error(Error::NotFound)),
        },
    }
}

/// What `finish_command` answers for each engine call and reply: a failure
/// becomes an error response with the engine's text; a completed statement
/// reports its count; a result is bridged whole — a malformed or
/// unsupported result is reported, never trimmed — and either answered at
/// once or registered under a fresh handle with its column names.
pub open spec fn finish_ok(
    t0: HandleTable,
    t1: HandleTable,
    call: EngineCall,
    reply: EngineReply,
    r: Response,
) -> bool {
    match (call, reply) {
        (_, EngineReply::Fail(t)) => r == Response::Error(Error::Db(t)) && t1.spec_entries()
            == t0.spec_entries(),
        (EngineCall::Exec(_), EngineReply::Done(n)) => r == Response::Done { affected_rows: n }
            && t1.spec_entries() == t0.spec_entries(),
        (EngineCall::RunImmediate(_), EngineReply::Table { cols, rows }) => if !rows_rect(
            rows@,
            cols@.len() as int,
        ) {
            r == Response::Error(Error::General("row width mismatch")) && t1.spec_entries()
                == t0.spec_entries()
        } else if !rows_all_ok(rows@) {
            r == Response::Error(Error::UnsupportedType) && t1.spec_entries() == t0.spec_entries()
        } else if cols@.len() > u32::MAX as int {
            r == Response::Error(Error::General("too many columns")) && t1.spec_entries()
                == t0.spec_entries()
        } else {
            match r {
                Response::QueryRows { col_names: cs, stride, values } => {
                    &&& (cs matches Some(c) && c@ == cols@)
                    &&& stride as int == cols@.len()
                    &&& values@ == conv_rows_flat(rows@)
                    &&& t1.spec_entries() == t0.spec_entries()
                },
                _ => false,
            }
        },
        (EngineCall::RunOpen(_), EngineReply::Table { cols, rows }) => if !rows_rect(
            rows@,
            cols@.len() as int,
        ) {
            r == Response::Error(Error::General("row width mismatch")) && t1.spec_entries()
                == t0.spec_entries()
        } else if !rows_all_ok(rows@) {
            r == Response::Error(Error::UnsupportedType) && t1.spec_entries() == t0.spec_entries()
        } else if cols@.len() > u32::MAX as int {
            r == Response::Error(Error::General("too many columns")) && t1.spec_entries()
                == t0.spec_entries()
        } else if t0.spec_len() >= u32::MAX as int {
            r == Response::Error(Error::General("handle space exhausted")) && t1.spec_entries()
                == t0.spec_entries()
        } else {
            match r {
                Response::QueryHandleOpened { handle, col_names } => {
                    &&& handle as int == t0.spec_len()
                    &&& col_names@ == cols@
                    &&& t1.spec_len() == t0.spec_len() + 1
                    &&& t1.has(handle)
                    &&& t1.at(handle).spec_cols() == cols@
                    &&& t1.at(handle).spec_stride() == cols@.len()
                    &&& t1.at(handle).spec_buf() == conv_rows_flat(rows@)
                    &&& t1.at(handle).spec_pos() == 0
                    &&& (forall|g: u32|
                        (g as int) < t0.spec_len() ==> t1.spec_entries()[g as int]
                            == t0.spec_entries()[g as int])
                },
                _ => false,
            }
        },
        _ => r == Response::Error(Error::General("engine reply mismatch")) && t1.spec_entries()
            == t0.spec_entries(),
    }
}

/// Turns the engine's answer to a command's call into the response.
pub fn finish_command(table: &mut HandleTable, call: EngineCall, reply: EngineReply) -> (r:
    Response)
    requires
        old(table).wf(),
    ensures
        final(table).wf(),
        finish_ok(*old(table), *final(table), call, reply, r),
{
    match reply {
        EngineReply::Fail(t) => Response::Error(Error::Db(t)),
        EngineReply::Done(n) => match call {
            EngineCall::Exec(_) => Response::Done { affected_rows: n },
            _ => Response::Error(Error::General("engine reply mismatch")),
        },
        EngineReply::Table { cols, rows } => {
            match call {
                EngineCall::Exec(_) => Response::Error(Error::General("engine reply mismatch")),
                EngineCall::RunImmediate(_) => {
                    let stride: usize = cols.len();
                    let values = match convert_rows(&rows, stride) {
                        Ok(v) => v,
                        Err(e) => {
                            return Response::Error(e);
                        },
                    };
                    if stride > u32::MAX as usize {
                        return Response::Error(Error::General("too many columns"));
                    }
                    Response::QueryRows {
                        col_names: Some(cols),
                        stride: stride as u32,
                        values,
                    }
                },
                EngineCall::RunOpen(_) => {
                    let stride: usize = cols.len();
                    let buf = match convert_rows(&rows, stride) {
                        Ok(v) => v,
                        Err(e) => {
                            return Response::Error(e);
                        },
                    };
                    if stride > u32::MAX as usize {
                        return Response::Error(Error::General("too many columns"));
                    }
                    let col_names = crate::cursor::dup_names(&cols);
                    let mut unit = StmtHandle::new();
                    unit.query(col_names, stride, rows.len(), buf);
                    match table.open(unit) {
                        Some(handle) => Response::QueryHandleOpened { handle, col_names: cols },
                        None => Response::Error(Error::General("handle space exhausted")),
                    }
                },
            }
        },
    }
}

/// Reads one request line: parsed by the JSON codec, then decoded into a
/// command exactly as `command_decode_to` states; a line that is not valid
/// JSON is a transport error carrying the parser's text.
pub fn read_request(line: &str) -> (r: Result<Command, Error>)
    ensures
        match json_parse(line@) {
            Err(m) => (r matches Err(e) && e matches Error::Json(t) && t@ == m),
            Ok(v) => command_decode_to(v, r),
        },
{
    match parse_request(line) {
        Err(t) => Err(Error::Json(t)),
        Ok(v) => read_command(&v),
    }
}

/// Prints one response as its wire line, newline-terminated: the encoding
/// follows `response_encodes_to` exactly, and the JSON codec prints it.
pub fn write_response(resp: &Response) -> (line: String)
    ensures
        exists|v: JsonVal|
            #[trigger] response_encodes_to(*resp, v) && line@ == json_text(v) + "\n"@,
{
    let v = encode_response(resp);
    let mut line = render_json(&v);
    line.append("\n");
    proof {
        assert(response_encodes_to(*resp, v) && line@ == json_text(v) + "\n"@);
    }
    line
}

/// Closing a handle and then fetching through it can never reach rows:
/// the close leaves the table without the handle, so the later fetch is
/// answered `NotFound` and the table is left untouched — no crash, no
/// stale read.
pub proof fn lemma_close_then_fetch_not_found(
    t0: HandleTable,
    t1: HandleTable,
    t2: HandleTable,
    h: u32,
    r1: Step,
    r2: Step,
)
    requires
        t0.wf(),
        t0.has(h),
        dispatch_ok(t0, t1, Command::CloseHandle(h), r1),
        dispatch_ok(t1, t2, Command::QueryRow(h), r2),
    ensures
        r2 == Step::Reply(Response::Error(Error::NotFound)),
        t2.spec_entries() == t1.spec_entries(),
{
    assert(!t1.has(h));
}

} // verus!
