use dbwire::error::Error;
use dbwire::input::Command;
use dbwire::input::ParamList;
use dbwire::output::Response;
use dbwire::session::dispatch_command;
use dbwire::session::finish_command;
use dbwire::session::read_request;
use dbwire::session::write_response;
use dbwire::session::EngineCall;
use dbwire::session::EngineReply;
use dbwire::session::Step;
use dbwire::table::HandleTable;
use dbwire::value::EngineCol;
use dbwire::value::Value;

fn sample_table_reply() -> EngineReply {
    EngineReply::Table {
        cols: vec![String::from("id"), String::from("name")],
        rows: vec![
            vec![EngineCol::I64(1), EngineCol::Text(String::from("a"))],
            vec![EngineCol::I64(2), EngineCol::Text(String::from("b"))],
        ],
    }
}

#[test]
fn greeting_and_done_lines() {
    assert_eq!(write_response(&Response::Okay), "{\"ok\":true}\n");
    assert_eq!(
        write_response(&Response::Done { affected_rows: 2 }),
        "{\"ok\":true,\"aff\":2}\n"
    );
    assert_eq!(
        write_response(&Response::Done { affected_rows: 0 }),
        "{\"ok\":true,\"aff\":0}\n"
    );
}

#[test]
fn unknown_method_names_the_tag() {
    let r = read_request("{\"@\":\"zz\",\"q\":\"select 1\"}");
    let e = match r {
        Err(e) => e,
        Ok(_) => panic!("an unknown method must be rejected"),
    };
    assert_eq!(e, Error::UnknownMethod(String::from("zz")));
    assert_eq!(
        write_response(&Response::Error(e)),
        "{\"ok\":false,\"err\":\"unknown method: zz\"}\n"
    );
    // The session goes on: the next, valid request still decodes.
    let next = read_request("{\"@\":\"e\",\"q\":\"create table t(id integer)\"}");
    match next {
        Ok(Command::Execute(q)) => {
            assert_eq!(q.sql, "create table t(id integer)");
            assert_eq!(q.params, None);
        },
        other => panic!("expected an execute command, got {:?}", other),
    }
}

#[test]
fn query_rows_response_line() {
    // The immediate-query path, given the engine's materialized answer.
    let mut t = HandleTable::new();
    let call = EngineCall::RunImmediate(match read_request("{\"@\":\"q\",\"q\":\"select * from t order by id\"}") {
        Ok(Command::QueryImmediate(q)) => q,
        other => panic!("expected a query command, got {:?}", other),
    });
    let resp = finish_command(&mut t, call, sample_table_reply());
    assert_eq!(
        write_response(&resp),
        "{\"ok\":true,\"rr\":[[1,\"a\"],[2,\"b\"]],\"c\":[\"id\",\"name\"]}\n"
    );
}

#[test]
fn empty_result_is_an_empty_batch_not_an_error() {
    let mut t = HandleTable::new();
    let call = EngineCall::RunImmediate(match read_request("{\"@\":\"q\",\"q\":\"select * from t\"}") {
        Ok(Command::QueryImmediate(q)) => q,
        other => panic!("expected a query command, got {:?}", other),
    });
    let reply = EngineReply::Table { cols: vec![String::from("id")], rows: vec![] };
    let resp = finish_command(&mut t, call, reply);
    assert_eq!(write_response(&resp), "{\"ok\":true,\"rr\":[],\"c\":[\"id\"]}\n");
}

#[test]
fn engine_failure_becomes_an_error_line() {
    let mut t = HandleTable::new();
    let call = EngineCall::Exec(match read_request("{\"@\":\"e\",\"q\":\"nonsense\"}") {
        Ok(Command::Execute(q)) => q,
        other => panic!("expected an execute command, got {:?}", other),
    });
    let resp = finish_command(&mut t, call, EngineReply::Fail(String::from("syntax error")));
    assert_eq!(
        write_response(&resp),
        "{\"ok\":false,\"err\":\"syntax error\"}\n"
    );
}

#[test]
fn big_integer_parameter_survives_parsing() {
    // 9007199254740993 == 2^53 + 1: a float would round it to 2^53.
    let r = read_request("{\"@\":\"e\",\"q\":\"insert into t values (?)\",\"p\":[9007199254740993,null,true,\"x\"]}");
    match r {
        Ok(Command::Execute(q)) => {
            assert_eq!(
                q.params,
                Some(ParamList::Positional(vec![
                    Value::Int(9007199254740993),
                    Value::Null,
                    Value::Bool(true),
                    Value::Text(String::from("x")),
                ]))
            );
        },
        other => panic!("expected an execute command, got {:?}", other),
    }
}

#[test]
fn named_parameters_decode_as_a_mapping() {
    let r = read_request("{\"@\":\"e\",\"q\":\"insert into t values ($a)\",\"p\":{\"a\":1,\"b\":\"x\"}}");
    match r {
        Ok(Command::Execute(q)) => {
            assert_eq!(
                q.params,
                Some(ParamList::Named(vec![
                    (String::from("a"), Value::Int(1)),
                    (String::from("b"), Value::Text(String::from("x"))),
                ]))
            );
        },
        other => panic!("expected an execute command, got {:?}", other),
    }
}

#[test]
fn malformed_requests_name_the_fault() {
    assert_eq!(read_request("[1,2]"), Err(Error::General("request not object")));
    assert_eq!(read_request("{\"q\":\"select 1\"}"), Err(Error::General("method key absent")));
    assert_eq!(read_request("{\"@\":1}"), Err(Error::General("method not string")));
    assert_eq!(read_request("{\"@\":\"e\"}"), Err(Error::General("query key absent")));
    assert_eq!(read_request("{\"@\":\"e\",\"q\":7}"), Err(Error::General("query not string")));
    assert_eq!(
        read_request("{\"@\":\"e\",\"q\":\"x\",\"p\":3}"),
        Err(Error::General("params not array or object"))
    );
    assert_eq!(
        read_request("{\"@\":\"e\",\"q\":\"x\",\"p\":[[1]]}"),
        Err(Error::UnsupportedType)
    );
    assert_eq!(read_request("{\"@\":\"qr\"}"), Err(Error::General("handle key absent")));
    assert_eq!(
        read_request("{\"@\":\"qr\",\"h\":1.5}"),
        Err(Error::General("handle not integer"))
    );
    assert_eq!(
        read_request("{\"@\":\"qrr\",\"h\":0}"),
        Err(Error::General("count key absent"))
    );
    assert_eq!(read_request("{\"@\":\"a\"}"), Err(Error::General("method reserved")));
    assert!(matches!(read_request("not json"), Err(Error::Json(_))));
}

#[test]
fn sql_key_is_accepted_in_place_of_q() {
    match read_request("{\"@\":\"e\",\"sql\":\"delete from t\"}") {
        Ok(Command::Execute(q)) => assert_eq!(q.sql, "delete from t"),
        other => panic!("expected an execute command, got {:?}", other),
    }
}

#[test]
fn handle_lifecycle_over_the_wire() {
    let mut t = HandleTable::new();

    // Open a cursor behind a handle.
    let q = match read_request("{\"@\":\"qh\",\"q\":\"select * from t order by id\"}") {
        Ok(Command::QueryHandle(q)) => q,
        other => panic!("expected a handle-opening query, got {:?}", other),
    };
    let resp = finish_command(&mut t, EngineCall::RunOpen(q), sample_table_reply());
    assert_eq!(
        write_response(&resp),
        "{\"ok\":true,\"h\":0,\"c\":[\"id\",\"name\"]}\n"
    );

    // Fetch one row at a time.
    let cmd = match read_request("{\"@\":\"qr\",\"h\":0}") {
        Ok(cmd) => cmd,
        other => panic!("expected a fetch command, got {:?}", other),
    };
    assert_eq!(cmd, Command::QueryRow(0));
    match dispatch_command(&mut t, cmd) {
        Step::Reply(resp) => {
            assert_eq!(write_response(&resp), "{\"ok\":true,\"r\":[1,\"a\"]}\n");
        },
        Step::Engine(_) => panic!("a fetch must not need the engine"),
    }

    // Fetch the rest in one short batch, then see the end-of-rows answer.
    match dispatch_command(&mut t, Command::QueryRows(0, 5)) {
        Step::Reply(resp) => {
            assert_eq!(write_response(&resp), "{\"ok\":true,\"rr\":[[2,\"b\"]]}\n");
        },
        Step::Engine(_) => panic!("a fetch must not need the engine"),
    }
    match dispatch_command(&mut t, Command::QueryRows(0, 5)) {
        Step::Reply(resp) => {
            assert_eq!(write_response(&resp), "{\"ok\":true}\n");
        },
        Step::Engine(_) => panic!("a fetch must not need the engine"),
    }

    // Close the handle; fetching through it afterwards is NotFound.
    match dispatch_command(&mut t, Command::CloseHandle(0)) {
        Step::Reply(resp) => {
            assert_eq!(write_response(&resp), "{\"ok\":true}\n");
        },
        Step::Engine(_) => panic!("closing must not need the engine"),
    }
    match dispatch_command(&mut t, Command::QueryRow(0)) {
        Step::Reply(resp) => {
            assert_eq!(
                write_response(&resp),
                "{\"ok\":false,\"err\":\"handle not found\"}\n"
            );
        },
        Step::Engine(_) => panic!("a fetch must not need the engine"),
    }
}

#[test]
fn unsupported_engine_reading_is_reported_not_coerced() {
    let mut t = HandleTable::new();
    let q = match read_request("{\"@\":\"q\",\"q\":\"select ts from t\"}") {
        Ok(Command::QueryImmediate(q)) => q,
        other => panic!("expected a query command, got {:?}", other),
    };
    let reply = EngineReply::Table {
        cols: vec![String::from("ts")],
        rows: vec![vec![EngineCol::Other]],
    };
    let resp = finish_command(&mut t, EngineCall::RunImmediate(q), reply);
    assert_eq!(
        write_response(&resp),
        "{\"ok\":false,\"err\":\"unsupported type\"}\n"
    );
}

#[test]
fn float_readings_pass_through_exactly() {
    let mut t = HandleTable::new();
    let q = match read_request("{\"@\":\"q\",\"q\":\"select x from t\"}") {
        Ok(Command::QueryImmediate(q)) => q,
        other => panic!("expected a query command, got {:?}", other),
    };
    let reply = EngineReply::Table {
        cols: vec![String::from("x")],
        rows: vec![vec![EngineCol::F64(true, 25, -1)]],
    };
    let resp = finish_command(&mut t, EngineCall::RunImmediate(q), reply);
    assert_eq!(
        write_response(&resp),
        "{\"ok\":true,\"rr\":[[2.5]],\"c\":[\"x\"]}\n"
    );
}

#[test]
fn append_handle_line_is_reserved_but_well_formed() {
    assert_eq!(
        write_response(&Response::AppendHandleOpened(3)),
        "{\"ok\":true,\"h\":3}\n"
    );
}
