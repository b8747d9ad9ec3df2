use undermoon::command::CmdCtx;
use undermoon::executor::{ForwardHandler, HandleResult, OLD_EPOCH_REPLY};
use undermoon::migration::MigrationEvent;
use undermoon::resp::{parse_u64, u64_to_dec, Array, BulkStr, Resp};
use undermoon::slots::key_slot;

fn bulk(s: &[u8]) -> Resp {
    Resp::Bulk(BulkStr::Str(s.to_vec()))
}

fn cmd(args: &[&[u8]]) -> Resp {
    Resp::Arr(Array::Arr(args.iter().map(|a| bulk(a)).collect()))
}

fn ctx(args: &[&[u8]], db: &[u8]) -> CmdCtx {
    let mut c = CmdCtx::new(cmd(args));
    c.set_db_name(db.to_vec());
    c
}

fn reply_of(r: HandleResult) -> Resp {
    match r {
        HandleResult::Replied(rep) => rep.resp,
        _ => panic!("expected a reply"),
    }
}

fn expect_simple(r: HandleResult, want: &[u8]) {
    match reply_of(r) {
        Resp::Simple(v) => assert_eq!(v, want.to_vec()),
        other => panic!("expected a simple string, got {:?}", kind_of(&other)),
    }
}

fn expect_error(r: HandleResult, want: &[u8]) {
    match reply_of(r) {
        Resp::Error(v) => assert_eq!(v, want.to_vec()),
        other => panic!("expected an error, got {:?}", kind_of(&other)),
    }
}

fn expect_bulk(r: HandleResult, want: &[u8]) {
    match reply_of(r) {
        Resp::Bulk(BulkStr::Str(v)) => {
            assert_eq!(String::from_utf8_lossy(&v), String::from_utf8_lossy(want))
        }
        other => panic!("expected a bulk string, got {:?}", kind_of(&other)),
    }
}

fn kind_of(r: &Resp) -> &'static str {
    match r {
        Resp::Simple(_) => "simple",
        Resp::Error(_) => "error",
        Resp::Bulk(_) => "bulk",
        Resp::Arr(_) => "array",
    }
}

fn setdb_cmd(epoch: &[u8], entries: &[[&'static str; 8]]) -> Vec<Vec<u8>> {
    let mut args: Vec<Vec<u8>> = vec![
        b"UMCTL".to_vec(),
        b"SETDB".to_vec(),
        epoch.to_vec(),
        b"NOFLAG".to_vec(),
    ];
    for e in entries {
        for f in e {
            args.push(f.as_bytes().to_vec());
        }
    }
    args
}

fn handle(handler: &mut ForwardHandler, args: Vec<Vec<u8>>, db: &[u8]) -> HandleResult {
    let refs: Vec<&[u8]> = args.iter().map(|a| a.as_slice()).collect();
    handler.handle_cmd_ctx(ctx(&refs, db))
}

#[test]
fn test_ping_replies_ok() {
    let mut h = ForwardHandler::new(b"127.0.0.1:5299".to_vec());
    expect_simple(h.handle_cmd_ctx(ctx(&[b"PING"], b"")), b"OK");
    expect_simple(h.handle_cmd_ctx(ctx(&[b"quit"], b"")), b"OK");
    expect_simple(h.handle_cmd_ctx(ctx(&[b"Select", b"0"], b"")), b"OK");
}

#[test]
fn test_info_replies_version() {
    let mut h = ForwardHandler::new(b"127.0.0.1:5299".to_vec());
    expect_bulk(h.handle_cmd_ctx(ctx(&[b"INFO"], b"")), b"version:dev\r\n");
}

fn resp_eq(a: &Resp, b: &Resp) -> bool {
    match (a, b) {
        (Resp::Simple(x), Resp::Simple(y)) => x == y,
        (Resp::Error(x), Resp::Error(y)) => x == y,
        (Resp::Bulk(BulkStr::Str(x)), Resp::Bulk(BulkStr::Str(y))) => x == y,
        (Resp::Bulk(BulkStr::Nil), Resp::Bulk(BulkStr::Nil)) => true,
        (Resp::Arr(Array::Nil), Resp::Arr(Array::Nil)) => true,
        (Resp::Arr(Array::Arr(x)), Resp::Arr(Array::Arr(y))) => {
            x.len() == y.len() && x.iter().zip(y.iter()).all(|(p, q)| resp_eq(p, q))
        }
        _ => false,
    }
}

#[test]
fn test_echo_returns_request() {
    let mut h = ForwardHandler::new(b"127.0.0.1:5299".to_vec());
    let request = cmd(&[b"ECHO", b"hello"]);
    let r = h.handle_cmd_ctx(CmdCtx::new(cmd(&[b"ECHO", b"hello"])));
    match r {
        HandleResult::Replied(rep) => assert!(resp_eq(&rep.resp, &request)),
        _ => panic!("expected a reply"),
    }
}

#[test]
fn test_invalid_command() {
    let mut h = ForwardHandler::new(b"127.0.0.1:5299".to_vec());
    let r = h.handle_cmd_ctx(CmdCtx::new(Resp::Simple(b"PING".to_vec())));
    expect_error(r, b"Invalid command");
}

#[test]
fn test_auth_sets_database() {
    let mut h = ForwardHandler::new(b"127.0.0.1:5299".to_vec());
    let r = h.handle_cmd_ctx(ctx(&[b"AUTH", b"mydb"], b""));
    match r {
        HandleResult::Replied(rep) => {
            assert_eq!(rep.db_name, b"mydb".to_vec());
            match rep.resp {
                Resp::Simple(v) => assert_eq!(v, b"OK".to_vec()),
                _ => panic!("expected +OK"),
            }
        }
        _ => panic!("expected a reply"),
    }
}

#[test]
fn test_auth_missing_database_name() {
    let mut h = ForwardHandler::new(b"127.0.0.1:5299".to_vec());
    expect_error(h.handle_cmd_ctx(ctx(&[b"AUTH"], b"")), b"Missing database name");
}

#[test]
fn test_auth_invalid_database_name() {
    let mut h = ForwardHandler::new(b"127.0.0.1:5299".to_vec());
    let bad = [0xffu8, 0xfe];
    expect_error(
        h.handle_cmd_ctx(ctx(&[b"AUTH", &bad], b"")),
        b"Invalid database name",
    );
}

#[test]
fn test_cluster_sub_command_errors() {
    let mut h = ForwardHandler::new(b"127.0.0.1:5299".to_vec());
    expect_error(h.handle_cmd_ctx(ctx(&[b"CLUSTER"], b"")), b"Missing sub command");
    let bad = [0xffu8];
    expect_error(h.handle_cmd_ctx(ctx(&[b"CLUSTER", &bad], b"")), b"Invalid sub command");
    expect_error(
        h.handle_cmd_ctx(ctx(&[b"CLUSTER", b"info"], b"")),
        b"Unsupported sub command",
    );
}

#[test]
fn test_cluster_nodes_rendering() {
    let mut h = ForwardHandler::new(b"127.0.0.1:7001".to_vec());
    let args = setdb_cmd(
        b"5",
        &[["mydb", "127.0.0.1:7001", "STABLE", "-", "0", "0", "0", "8192"],
            ["mydb", "127.0.0.1:7002", "STABLE", "-", "0", "0", "8192", "16384"],
            ["otherdb", "127.0.0.1:7003", "STABLE", "-", "0", "0", "0", "16384"]],
    );
    expect_simple(handle(&mut h, args, b""), b"OK");
    let mut peer_args = setdb_cmd(
        b"5",
        &[["mydb", "127.0.0.1:6001", "STABLE", "-", "0", "0", "0", "16384"]],
    );
    peer_args[1] = b"SETPEER".to_vec();
    expect_simple(handle(&mut h, peer_args, b""), b"OK");
    let want: &[u8] = b"mydb 127.0.0.1:7001 myself STABLE 0-8192\nmydb 127.0.0.1:7002 STABLE 8192-16384\nmydb 127.0.0.1:6001 STABLE 0-16384\n";
    let r = handle(&mut h, vec![b"CLUSTER".to_vec(), b"nodes".to_vec()], b"mydb");
    expect_bulk(r, want);
    // caseless matching of the sub command
    let r2 = handle(&mut h, vec![b"CLUSTER".to_vec(), b"NoDeS".to_vec()], b"mydb");
    expect_bulk(r2, want);
}

#[test]
fn test_cluster_slots() {
    let mut h = ForwardHandler::new(b"127.0.0.1:7001".to_vec());
    let args = setdb_cmd(b"5", &[["mydb", "127.0.0.1:7001", "STABLE", "-", "0", "0", "0", "16384"]]);
    expect_simple(handle(&mut h, args, b""), b"OK");
    let r = handle(&mut h, vec![b"CLUSTER".to_vec(), b"SLOTS".to_vec()], b"mydb");
    match reply_of(r) {
        Resp::Arr(Array::Arr(elems)) => {
            assert_eq!(elems.len(), 1);
            match &elems[0] {
                Resp::Arr(Array::Arr(t)) => {
                    assert_eq!(t.len(), 3);
                    match (&t[0], &t[1], &t[2]) {
                        (
                            Resp::Bulk(BulkStr::Str(a)),
                            Resp::Bulk(BulkStr::Str(b)),
                            Resp::Bulk(BulkStr::Str(c)),
                        ) => {
                            assert_eq!(a, &b"0".to_vec());
                            assert_eq!(b, &b"16384".to_vec());
                            assert_eq!(c, &b"127.0.0.1:7001".to_vec());
                        }
                        _ => panic!("slots entry fields must be bulks"),
                    }
                }
                _ => panic!("slots entry must be an array"),
            }
        }
        _ => panic!("expected an array"),
    }
    let r2 = handle(&mut h, vec![b"CLUSTER".to_vec(), b"slots".to_vec()], b"nosuch");
    expect_error(r2, b"No such database");
}

#[test]
fn test_setdb_epoch_rejection() {
    let mut h = ForwardHandler::new(b"127.0.0.1:5299".to_vec());
    let args = setdb_cmd(b"5", &[["mydb", "127.0.0.1:7001", "STABLE", "-", "0", "0", "0", "16384"]]);
    expect_simple(handle(&mut h, args, b""), b"OK");
    let again = setdb_cmd(
        b"5",
        &[["otherdb", "127.0.0.1:7009", "STABLE", "-", "0", "0", "0", "16384"]],
    );
    expect_error(handle(&mut h, again, b""), OLD_EPOCH_REPLY.as_bytes());
    // the first map's databases are still the ones listed
    let r = handle(&mut h, vec![b"UMCTL".to_vec(), b"LISTDB".to_vec()], b"");
    match reply_of(r) {
        Resp::Arr(Array::Arr(elems)) => {
            assert_eq!(elems.len(), 1);
            match &elems[0] {
                Resp::Bulk(BulkStr::Str(v)) => assert_eq!(v, &b"mydb".to_vec()),
                _ => panic!("expected a bulk"),
            }
        }
        _ => panic!("expected an array"),
    }
}

#[test]
fn test_setdb_install_order() {
    // A slot tagged IMPORTING is handled by the migration overlay right
    // after the SETDB is accepted: the command is redirected, not unrouted.
    let mut h = ForwardHandler::new(b"127.0.0.1:7001".to_vec());
    let args = setdb_cmd(
        b"1",
        &[["mydb", "127.0.0.1:7001", "IMPORTING", "127.0.0.1:7002", "7", "1", "0", "16384"]],
    );
    expect_simple(handle(&mut h, args, b""), b"OK");
    let r = h.handle_cmd_ctx(ctx(&[b"GET", b"foo"], b"mydb"));
    match r {
        HandleResult::Forwarded { target, redirection, .. } => {
            assert_eq!(target, b"127.0.0.1:7002".to_vec());
            assert!(redirection);
        }
        _ => panic!("the migration overlay must route the command"),
    }
}

#[test]
fn test_setdb_invalid_arguments() {
    let mut h = ForwardHandler::new(b"127.0.0.1:5299".to_vec());
    let r = handle(
        &mut h,
        vec![b"UMCTL".to_vec(), b"SETDB".to_vec(), b"notanumber".to_vec(), b"NOFLAG".to_vec()],
        b"",
    );
    expect_error(r, b"Invalid arguments");
}

#[test]
fn test_setpeer_epoch_gate() {
    let mut h = ForwardHandler::new(b"127.0.0.1:5299".to_vec());
    let mut args = setdb_cmd(b"3", &[["mydb", "127.0.0.1:8001", "STABLE", "-", "0", "0", "0", "16384"]]);
    args[1] = b"SETPEER".to_vec();
    expect_simple(handle(&mut h, args.clone(), b""), b"OK");
    expect_error(handle(&mut h, args, b""), OLD_EPOCH_REPLY.as_bytes());
}

#[test]
fn test_setrepl_and_inforepl() {
    let mut h = ForwardHandler::new(b"127.0.0.1:5299".to_vec());
    let args: Vec<Vec<u8>> = vec![
        b"UMCTL".to_vec(),
        b"SETREPL".to_vec(),
        b"4".to_vec(),
        b"mydb".to_vec(),
        b"127.0.0.1:7001".to_vec(),
        b"127.0.0.1:7101".to_vec(),
    ];
    expect_simple(handle(&mut h, args.clone(), b""), b"OK");
    expect_error(handle(&mut h, args, b""), OLD_EPOCH_REPLY.as_bytes());
    let r = handle(&mut h, vec![b"UMCTL".to_vec(), b"INFOREPL".to_vec()], b"");
    expect_bulk(r, b"epoch 4\nmydb master 127.0.0.1:7001 replica 127.0.0.1:7101\n");
}

#[test]
fn test_listdb_lower_case_sub_command() {
    // the sub command is matched after upper-casing
    let mut h = ForwardHandler::new(b"127.0.0.1:5299".to_vec());
    let args = setdb_cmd(b"2", &[["mydb", "127.0.0.1:7001", "STABLE", "-", "0", "0", "0", "16384"]]);
    expect_simple(handle(&mut h, args, b""), b"OK");
    let r = handle(&mut h, vec![b"UMCTL".to_vec(), b"listdb".to_vec()], b"");
    match reply_of(r) {
        Resp::Arr(Array::Arr(elems)) => assert_eq!(elems.len(), 1),
        _ => panic!("expected an array"),
    }
}

#[test]
fn test_cleardb_keeps_epoch() {
    let mut h = ForwardHandler::new(b"127.0.0.1:5299".to_vec());
    let args = setdb_cmd(b"6", &[["mydb", "127.0.0.1:7001", "STABLE", "-", "0", "0", "0", "16384"]]);
    expect_simple(handle(&mut h, args, b""), b"OK");
    expect_simple(handle(&mut h, vec![b"UMCTL".to_vec(), b"CLEARDB".to_vec()], b""), b"OK");
    let r = handle(&mut h, vec![b"UMCTL".to_vec(), b"LISTDB".to_vec()], b"");
    match reply_of(r) {
        Resp::Arr(Array::Arr(elems)) => assert_eq!(elems.len(), 0),
        _ => panic!("expected an array"),
    }
    // a replayed stale update is still rejected after the clear
    let stale = setdb_cmd(b"6", &[["mydb", "127.0.0.1:7001", "STABLE", "-", "0", "0", "0", "16384"]]);
    expect_error(handle(&mut h, stale, b""), OLD_EPOCH_REPLY.as_bytes());
}

#[test]
fn test_umctl_sub_command_errors() {
    let mut h = ForwardHandler::new(b"127.0.0.1:5299".to_vec());
    expect_error(h.handle_cmd_ctx(ctx(&[b"UMCTL"], b"")), b"Missing sub command");
    expect_error(
        h.handle_cmd_ctx(ctx(&[b"UMCTL", b"BOGUS"], b"")),
        b"Invalid sub command",
    );
}

#[test]
fn test_tmpswitch_and_infomgr() {
    let mut h = ForwardHandler::new(b"127.0.0.1:7001".to_vec());
    let args = setdb_cmd(
        b"1",
        &[["mydb", "127.0.0.1:7001", "IMPORTING", "127.0.0.1:7002", "7", "1", "0", "16384"]],
    );
    expect_simple(handle(&mut h, args, b""), b"OK");
    // a task still in pre-check cannot be switched
    expect_error(
        handle(&mut h, vec![b"UMCTL".to_vec(), b"TMPSWITCH".to_vec(), b"7".to_vec()], b""),
        b"No matching task",
    );
    assert!(h.migration_manager.advance_task(7, true, MigrationEvent::PreCheckPassed));
    expect_simple(
        handle(&mut h, vec![b"UMCTL".to_vec(), b"TMPSWITCH".to_vec(), b"7".to_vec()], b""),
        b"OK",
    );
    // once committing, the overlay serves the slot locally
    match h.handle_cmd_ctx(ctx(&[b"GET", b"foo"], b"mydb")) {
        HandleResult::Forwarded { target, redirection, .. } => {
            assert_eq!(target, b"127.0.0.1:7001".to_vec());
            assert!(!redirection);
        }
        _ => panic!("the overlay must serve the committing slot locally"),
    }
    assert!(h.migration_manager.advance_task(7, true, MigrationEvent::CommitAccepted));
    let r = handle(&mut h, vec![b"UMCTL".to_vec(), b"INFOMGR".to_vec()], b"");
    match reply_of(r) {
        Resp::Arr(Array::Arr(elems)) => {
            assert_eq!(elems.len(), 1);
            match &elems[0] {
                Resp::Bulk(BulkStr::Str(v)) => assert_eq!(
                    String::from_utf8_lossy(v),
                    "mydb 7 1 IMPORTING 127.0.0.1:7001 127.0.0.1:7002 0-16384"
                ),
                _ => panic!("expected a bulk"),
            }
        }
        _ => panic!("expected an array"),
    }
    expect_error(
        handle(&mut h, vec![b"UMCTL".to_vec(), b"TMPSWITCH".to_vec(), b"x".to_vec()], b""),
        b"Invalid arguments",
    );
}

#[test]
fn test_data_command_routing() {
    let mut h = ForwardHandler::new(b"127.0.0.1:7001".to_vec());
    let args = setdb_cmd(b"9", &[["mydb", "127.0.0.1:7001", "STABLE", "-", "0", "0", "0", "16384"]]);
    expect_simple(handle(&mut h, args, b""), b"OK");
    match h.handle_cmd_ctx(ctx(&[b"GET", b"foo"], b"mydb")) {
        HandleResult::Forwarded { target, redirection, .. } => {
            assert_eq!(target, b"127.0.0.1:7001".to_vec());
            assert!(!redirection);
        }
        _ => panic!("a stable slot routes to its backend"),
    }
    // unknown database: no slot, dropped
    match h.handle_cmd_ctx(ctx(&[b"GET", b"foo"], b"nosuch")) {
        HandleResult::Dropped(_) => {}
        _ => panic!("an unrouted command is dropped"),
    }
    // a command without a key is dropped
    match h.handle_cmd_ctx(ctx(&[b"GET"], b"mydb")) {
        HandleResult::Dropped(_) => {}
        _ => panic!("a keyless data command is dropped"),
    }
}

#[test]
fn test_key_slot_values() {
    // CRC16/XMODEM of "123456789" is 0x31C3 = 12739, within the slot space
    assert_eq!(key_slot(b"123456789"), 12739);
    // the hash tag selects the braced part
    assert_eq!(key_slot(b"{123456789}.suffix"), 12739);
    // an empty tag hashes the whole key
    assert_ne!(key_slot(b"{}123456789"), key_slot(b"123456789"));
}

#[test]
fn test_decimal_parsing_and_printing() {
    assert_eq!(parse_u64(b"0"), Some(0));
    assert_eq!(parse_u64(b"16384"), Some(16384));
    assert_eq!(parse_u64(b"18446744073709551615"), Some(u64::MAX));
    assert_eq!(parse_u64(b"18446744073709551616"), None);
    assert_eq!(parse_u64(b""), None);
    assert_eq!(parse_u64(b"12a"), None);
    assert_eq!(u64_to_dec(0), b"0".to_vec());
    assert_eq!(u64_to_dec(16384), b"16384".to_vec());
    assert_eq!(u64_to_dec(u64::MAX), b"18446744073709551615".to_vec());
}
