//! The forward handler: the top-level dispatcher of one client request. It
//! classifies the command, answers the session-level ones itself, routes
//! data commands through the migration overlay and then the routing store,
//! and carries the `UMCTL` control surface that installs new metadata under
//! the epoch discipline.
//!
//! `UMCTL SETDB` installs migration metadata strictly before the routing
//! store is touched, so a slot tagged importing is never served as stable by
//! a routing table the overlay has not caught up with.

use vstd::prelude::*;
use vstd::string::StringSliceAdditionalSpecFns;
use vstd::utf8::valid_utf8;
use vstd::utf8::decode_utf8;
use crate::command::CmdCtx;
use crate::command::SessionReply;
use crate::command::cmd_key;
use crate::resp::Array;
use crate::resp::BulkStr;
use crate::resp::CmdType;
use crate::resp::Resp;
use crate::resp::classify_cmd;
use crate::resp::cmd_type_of;
use crate::resp::bytes_as_str;
use crate::resp::is_simple;
use crate::resp::is_error;
use crate::resp::is_bulk;
use crate::resp::simple_reply;
use crate::resp::error_reply;
use crate::resp::bulk_reply;
use crate::resp::bytes_of_str;
use crate::resp::str_bytes;
use crate::slots::slot_of;
use crate::store::DBError;
use crate::store::DBSendError;
use crate::store::DatabaseMap;
use crate::store::DbEntry;
use crate::store::HostDBMap;
use crate::store::db_exists;
use crate::store::dbs_update_ok;
use crate::store::peers_update_ok;
use crate::store::host_db_map_wf;
use crate::store::map_matches;
use crate::store::nodes_text;
use crate::store::route_from;
use crate::store::served_idxs;
use crate::store::slots_elem_matches;
use crate::migration::MigrationManager;
use crate::migration::MigrationTask;
use crate::migration::commit_importing_effect;
use crate::migration::done_idxs;
use crate::migration::migration_update_ok;
use crate::migration::overlay_from;
use crate::migration::overlay_route;
use crate::migration::task_line;
use crate::replication::ReplicatorManager;
use crate::replication::ReplicatorMeta;
use crate::replication::repl_meta_matches;
use crate::replication::repl_report;
use crate::replication::repl_update_ok;
use crate::replication::replicator_meta_wf;

verus! {

/// The exact reply every epoch-stale update is answered with.
pub const OLD_EPOCH_REPLY: &'static str = "old_epoch";

/// What became of one handled request.
pub enum HandleResult {
    /// Answered on the spot; the session gets this reply.
    Replied(SessionReply),
    /// Handed to the backend sender for `target`, with or without a
    /// redirection marker.
    Forwarded { target: Vec<u8>, redirection: bool, ctx: CmdCtx },
    /// Unroutable; logged and dropped by the session layer.
    Dropped(CmdCtx),
}

/// The reply carried by a `Replied` result.
pub open spec fn reply_resp(r: HandleResult) -> Option<Resp> {
    match r {
        HandleResult::Replied(rep) => Some(rep.resp),
        _ => None,
    }
}

/// The session tag carried back by a `Replied` result.
pub open spec fn reply_db(r: HandleResult) -> Option<Vec<u8>> {
    match r {
        HandleResult::Replied(rep) => Some(rep.db_name),
        _ => None,
    }
}

/// The result is a simple-string reply of `s`.
pub open spec fn replied_simple(r: HandleResult, s: Seq<char>) -> bool {
    reply_resp(r) matches Some(rep) && is_simple(rep, s)
}

/// The result is an error reply of `s`.
pub open spec fn replied_error(r: HandleResult, s: Seq<char>) -> bool {
    reply_resp(r) matches Some(rep) && is_error(rep, s)
}

/// The result is a bulk reply holding exactly the bytes `b`.
pub open spec fn replied_bulk(r: HandleResult, b: Seq<u8>) -> bool {
    reply_resp(r) matches Some(rep) && is_bulk(rep, b)
}

/// The bulk payload of a RESP value, empty when it is not a bulk string.
pub open spec fn bulk_bytes(r: Resp) -> Seq<u8> {
    match r {
        Resp::Bulk(BulkStr::Str(v)) => v@,
        _ => Seq::empty(),
    }
}

/// Some element of `elems` is a bulk string holding `x`.
pub open spec fn bulk_in(elems: Seq<Resp>, x: Seq<u8>) -> bool {
    exists|i: int|
        0 <= i < elems.len() && ((#[trigger] elems[i]) matches Resp::Bulk(BulkStr::Str(v)) && v@
            == x)
}

/// The `LISTDB` reply: an array of bulk strings naming exactly the distinct
/// databases of the routing table.
pub open spec fn listdb_reply(rep: Resp, entries: Seq<DbEntry>) -> bool {
    rep matches Resp::Arr(Array::Arr(elems)) && {
        &&& forall|j: int|
            0 <= j < elems@.len() ==> ((#[trigger] elems@[j]) matches Resp::Bulk(BulkStr::Str(v))
                && db_exists(entries, v@))
        &&& forall|j2: int|
            0 <= j2 < entries.len() ==> bulk_in(elems@, (#[trigger] entries[j2]).db@)
        &&& forall|i: int, k: int|
            0 <= i < k < elems@.len() ==> bulk_bytes(elems@[i]) != bulk_bytes(elems@[k])
    }
}

/// The `INFOMGR` reply: an array of bulk strings, one per finished task, in
/// task order, each the task's fields joined by single spaces.
pub open spec fn infomgr_reply(rep: Resp, tasks: Seq<MigrationTask>) -> bool {
    let idxs = done_idxs(tasks, tasks.len() as int);
    rep matches Resp::Arr(Array::Arr(elems)) && elems@.len() == idxs.len() && forall|j: int|
        0 <= j < idxs.len() ==> bulk_bytes(#[trigger] elems@[j]) == task_line(tasks[idxs[j]])
            && elems@[j] is Bulk
}

/// What `AUTH` does: a missing key or a key that is not UTF-8 is answered
/// with the exact error; a well-formed name retags the session and is
/// answered `OK`.
pub open spec fn auth_effect(cmd: Resp, db0: Vec<u8>, r: HandleResult) -> bool {
    match cmd_key(cmd) {
        None => replied_error(r, "Missing database name"@) && reply_db(r) == Some(db0),
        Some(k) => if valid_utf8(k) {
            replied_simple(r, "OK"@) && (reply_db(r) matches Some(d) && d@ == k)
        } else {
            replied_error(r, "Invalid database name"@) && reply_db(r) == Some(db0)
        },
    }
}

/// What `CLUSTER <sub>` answers, given the state it reads.
pub open spec fn cluster_effect(pre: ForwardHandler, cmd: Resp, db0: Vec<u8>, r: HandleResult) -> bool {
    match cmd_key(cmd) {
        None => replied_error(r, "Missing sub command"@),
        Some(k) => if !valid_utf8(k) {
            replied_error(r, "Invalid sub command"@)
        } else {
            let sub = decode_utf8(k);
            if caseless_key(sub) == caseless_key("nodes"@) {
                replied_bulk(
                    r,
                    nodes_text(
                        pre.db.local@,
                        db0@,
                        pre.service_address@,
                        pre.db.local@.len() as int,
                    ) + nodes_text(
                        pre.db.peers@,
                        db0@,
                        pre.service_address@,
                        pre.db.peers@.len() as int,
                    ),
                )
            } else if caseless_key(sub) == caseless_key("slots"@) {
                if db_exists(pre.db.local@, db0@) {
                    reply_resp(r) matches Some(rep) && cluster_slots_reply(rep, pre.db.local@, db0@)
                } else {
                    replied_error(r, "No such database"@)
                }
            } else {
                replied_error(r, "Unsupported sub command"@)
            }
        },
    }
}

/// The `CLUSTER SLOTS` reply: one three-element array per served range of
/// the database, in table order.
pub open spec fn cluster_slots_reply(rep: Resp, entries: Seq<DbEntry>, db: Seq<u8>) -> bool {
    let idxs = served_idxs(entries, db, entries.len() as int);
    rep matches Resp::Arr(Array::Arr(elems)) && elems@.len() == idxs.len() && forall|j: int|
        0 <= j < idxs.len() ==> slots_elem_matches(#[trigger] elems@[j], entries[idxs[j]])
}

/// What a data command comes to: the migration overlay first, the routing
/// store second, dropped when neither places it.
pub open spec fn others_effect(pre: ForwardHandler, ctx: CmdCtx, r: HandleResult) -> bool {
    match cmd_key(ctx.cmd) {
        None => r matches HandleResult::Dropped(c) && c == ctx,
        Some(k) => {
            let slot = slot_of(k);
            match overlay_from(pre.migration_manager.tasks@, ctx.db_name@, slot, 0) {
                Some(i) => r matches HandleResult::Forwarded { target, redirection, ctx: c }
                    && overlay_route(pre.migration_manager.tasks@[i]) == Some(
                    (target@, redirection),
                ) && c == ctx,
                None => match route_from(pre.db.local@, ctx.db_name@, slot, 0) {
                    Some(i) => r matches HandleResult::Forwarded { target, redirection, ctx: c }
                        && target@ == pre.db.local@[i].addr@ && redirection == false && c == ctx,
                    None => r matches HandleResult::Dropped(c) && c == ctx,
                },
            }
        },
    }
}

/// What `UMCTL SETDB` does, once the payload parses to `m`: migration
/// metadata is gated and installed first; only when it was admitted is the
/// routing store updated under its own gate; any staleness answers the exact
/// `old_epoch` error and leaves the later stages untouched.
pub open spec fn setdb_apply(
    pre: ForwardHandler,
    m: HostDBMap,
    post: ForwardHandler,
    rep: Resp,
) -> bool {
    &&& post.service_address == pre.service_address
    &&& post.replicator_manager == pre.replicator_manager
    &&& if m.epoch <= pre.migration_manager.epoch {
        post.migration_manager == pre.migration_manager && post.db == pre.db && is_error(
            rep,
            OLD_EPOCH_REPLY@,
        )
    } else {
        migration_update_ok(pre.migration_manager, m, post.migration_manager) && if m.epoch
            <= pre.db.epoch {
            post.db == pre.db && is_error(rep, OLD_EPOCH_REPLY@)
        } else {
            dbs_update_ok(pre.db, m, post.db) && is_simple(rep, "OK"@)
        }
    }
}

/// What `UMCTL SETDB` does: an unparseable payload is rejected untouched;
/// a parsed one is applied as `setdb_apply` says.
pub open spec fn setdb_effect(
    pre: ForwardHandler,
    cmd: Resp,
    post: ForwardHandler,
    rep: Resp,
) -> bool {
    if host_db_map_wf(cmd) {
        exists|m: HostDBMap| #[trigger] map_matches(cmd, m) && setdb_apply(pre, m, post, rep)
    } else {
        post == pre && is_error(rep, "Invalid arguments"@)
    }
}

/// What `UMCTL SETPEER` does: the peer map alone, under its own epoch gate.
pub open spec fn setpeer_effect(
    pre: ForwardHandler,
    cmd: Resp,
    post: ForwardHandler,
    rep: Resp,
) -> bool {
    if host_db_map_wf(cmd) {
        exists|m: HostDBMap|
            #[trigger] map_matches(cmd, m) && post.service_address == pre.service_address
                && post.replicator_manager == pre.replicator_manager && post.migration_manager
                == pre.migration_manager && if m.epoch <= pre.db.peer_epoch {
                post.db == pre.db && is_error(rep, OLD_EPOCH_REPLY@)
            } else {
                peers_update_ok(pre.db, m, post.db) && is_simple(rep, "OK"@)
            }
    } else {
        post == pre && is_error(rep, "Invalid arguments"@)
    }
}

/// What `UMCTL SETREPL` does: the replication topology alone, under its own
/// epoch gate.
pub open spec fn setrepl_effect(
    pre: ForwardHandler,
    cmd: Resp,
    post: ForwardHandler,
    rep: Resp,
) -> bool {
    if replicator_meta_wf(cmd) {
        exists|m: ReplicatorMeta|
            #[trigger] repl_meta_matches(cmd, m) && post.service_address == pre.service_address
                && post.db == pre.db && post.migration_manager == pre.migration_manager && if m.epoch
                <= pre.replicator_manager.epoch {
                post.replicator_manager == pre.replicator_manager && is_error(
                    rep,
                    OLD_EPOCH_REPLY@,
                )
            } else {
                repl_update_ok(pre.replicator_manager, m, post.replicator_manager)
                    && is_simple(rep, "OK"@)
            }
    } else {
        post == pre && is_error(rep, "Invalid arguments"@)
    }
}

/// What the whole `UMCTL` surface does, dispatched on the upper-cased
/// sub-command.
pub open spec fn umctl_effect(
    pre: ForwardHandler,
    ctx: CmdCtx,
    post: ForwardHandler,
    r: HandleResult,
) -> bool {
    match cmd_key(ctx.cmd) {
        None => post == pre && replied_error(r, "Missing sub command"@),
        Some(k) => if !valid_utf8(k) {
            post == pre && replied_error(r, "Invalid sub command"@)
        } else {
            let u = upper_of(decode_utf8(k));
            if u == "LISTDB"@ {
                post == pre && (reply_resp(r) matches Some(rep) && listdb_reply(
                    rep,
                    pre.db.local@,
                ))
            } else if u == "CLEARDB"@ {
                cleardb_effect(pre, post) && replied_simple(r, "OK"@)
            } else if u == "SETDB"@ {
                reply_resp(r) matches Some(rep) && setdb_effect(pre, ctx.cmd, post, rep)
            } else if u == "SETPEER"@ {
                reply_resp(r) matches Some(rep) && setpeer_effect(pre, ctx.cmd, post, rep)
            } else if u == "SETREPL"@ {
                reply_resp(r) matches Some(rep) && setrepl_effect(pre, ctx.cmd, post, rep)
            } else if u == "INFOREPL"@ {
                post == pre && replied_bulk(r, repl_report(pre.replicator_manager))
            } else if u == "INFOMGR"@ {
                post == pre && (reply_resp(r) matches Some(rep) && infomgr_reply(
                    rep,
                    pre.migration_manager.tasks@,
                ))
            } else if u == "TMPSWITCH"@ {
                post.service_address == pre.service_address && post.db == pre.db
                    && post.replicator_manager == pre.replicator_manager && (reply_resp(r)
                    matches Some(rep) && commit_importing_effect(
                    pre.migration_manager,
                    ctx.cmd,
                    post.migration_manager,
                    rep,
                ))
            } else {
                post == pre && replied_error(r, "Invalid sub command"@)
            }
        },
    }
}

/// What `UMCTL CLEARDB` does: every map and task list is emptied; the epochs
/// stay, so stale updates replayed afterwards are still rejected.
pub open spec fn cleardb_effect(pre: ForwardHandler, post: ForwardHandler) -> bool {
    &&& post.service_address == pre.service_address
    &&& post.db.epoch == pre.db.epoch
    &&& post.db.peer_epoch == pre.db.peer_epoch
    &&& post.db.local@ =~= Seq::<DbEntry>::empty()
    &&& post.db.peers@ =~= Seq::<DbEntry>::empty()
    &&& post.migration_manager.epoch == pre.migration_manager.epoch
    &&& post.migration_manager.tasks@ =~= Seq::<MigrationTask>::empty()
    &&& post.replicator_manager.epoch == pre.replicator_manager.epoch
    &&& post.replicator_manager.entries@.len() == 0
}

/// Migration-before-routing: whenever a `SETDB` installed its map into the
/// routing store, the same map's migration metadata was installed too — no
/// reachable state carries new routing entries over old migration state.
pub proof fn lemma_migration_before_routing(
    pre: ForwardHandler,
    m: HostDBMap,
    post: ForwardHandler,
    rep: Resp,
)
    requires
        setdb_apply(pre, m, post, rep),
        dbs_update_ok(pre.db, m, post.db),
    ensures
        migration_update_ok(pre.migration_manager, m, post.migration_manager),
{
    if m.epoch <= pre.migration_manager.epoch {
        assert(post.db == pre.db);
        assert(m.epoch > pre.db.epoch && post.db.epoch == m.epoch);
    }
}

/// Names what `str::to_uppercase` returns: a function of the characters
/// alone.
pub uninterp spec fn upper_of(s: Seq<char>) -> Seq<char>;

/// Relies on `str::to_uppercase`: the result depends on the characters of
/// the input alone.
#[verifier::external_body]
fn to_uppercase_str(s: &str) -> (r: String)
    ensures
        r@ == upper_of(s@),
{
    s.to_uppercase()
}

/// Names the canonical caseless key of a character sequence: both sides of
/// a caseless match are folded through the same pipeline and compared.
pub uninterp spec fn caseless_key(s: Seq<char>) -> Seq<char>;

/// Relies on `caseless::canonical_caseless_match_str`: it normalises and
/// case-folds both arguments the same way and compares the results.
#[verifier::external_body]
fn caseless_match(a: &str, b: &str) -> (r: bool)
    ensures
        r == (caseless_key(a@) == caseless_key(b@)),
{
    caseless::canonical_caseless_match_str(a, b)
}

/// The forward handler: this proxy's advertised address and the three
/// epoch-guarded stores.
pub struct ForwardHandler {
    pub service_address: Vec<u8>,
    pub db: DatabaseMap,
    pub replicator_manager: ReplicatorManager,
    pub migration_manager: MigrationManager,
}

impl ForwardHandler {
    /// A handler with empty stores, all at epoch zero.
    pub fn new(service_address: Vec<u8>) -> (r: ForwardHandler)
        ensures
            r.service_address == service_address,
            r.db.epoch == 0 && r.db.peer_epoch == 0,
            r.db.local@ =~= Seq::<DbEntry>::empty(),
            r.db.peers@ =~= Seq::<DbEntry>::empty(),
            r.migration_manager.epoch == 0,
            r.migration_manager.tasks@ =~= Seq::<MigrationTask>::empty(),
            r.replicator_manager.epoch == 0,
            r.replicator_manager.entries@.len() == 0,
    {
        ForwardHandler {
            service_address,
            db: DatabaseMap::new(),
            replicator_manager: ReplicatorManager::new(),
            migration_manager: MigrationManager::new(),
        }
    }

    /// Handle one client request: classify it and dispatch as the command
    /// table says. The contract pins the reply, the forwarding target or the
    /// drop for every class, and the state change for the `UMCTL` surface.
    pub fn handle_cmd_ctx(&mut self, cmd_ctx: CmdCtx) -> (r: HandleResult)
        ensures
            match cmd_type_of(cmd_ctx.cmd) {
                CmdType::Ping => *final(self) == *old(self) && replied_simple(r, "OK"@)
                    && reply_db(r) == Some(cmd_ctx.db_name),
                CmdType::Quit => *final(self) == *old(self) && replied_simple(r, "OK"@)
                    && reply_db(r) == Some(cmd_ctx.db_name),
                CmdType::Select => *final(self) == *old(self) && replied_simple(r, "OK"@)
                    && reply_db(r) == Some(cmd_ctx.db_name),
                CmdType::Info => *final(self) == *old(self) && replied_bulk(
                    r,
                    str_bytes("version:dev\r\n"@),
                ),
                CmdType::Echo => *final(self) == *old(self) && (r matches HandleResult::Replied(
                    rep,
                ) && rep.resp == cmd_ctx.cmd && rep.db_name == cmd_ctx.db_name),
                CmdType::Auth => *final(self) == *old(self) && auth_effect(
                    cmd_ctx.cmd,
                    cmd_ctx.db_name,
                    r,
                ),
                CmdType::Cluster => *final(self) == *old(self) && cluster_effect(
                    *old(self),
                    cmd_ctx.cmd,
                    cmd_ctx.db_name,
                    r,
                ),
                CmdType::UmCtl => umctl_effect(*old(self), cmd_ctx, *final(self), r)
                    && reply_db(r) == Some(cmd_ctx.db_name),
                CmdType::Invalid => *final(self) == *old(self) && replied_error(
                    r,
                    "Invalid command"@,
                ),
                CmdType::Others => *final(self) == *old(self) && others_effect(
                    *old(self),
                    cmd_ctx,
                    r,
                ),
            },
    {
        let cmd_type = classify_cmd(cmd_ctx.get_cmd());
        match cmd_type {
            CmdType::Ping => HandleResult::Replied(cmd_ctx.set_resp_result(simple_reply("OK"))),
            CmdType::Quit => HandleResult::Replied(cmd_ctx.set_resp_result(simple_reply("OK"))),
            CmdType::Select => HandleResult::Replied(cmd_ctx.set_resp_result(simple_reply("OK"))),
            CmdType::Info => HandleResult::Replied(
                cmd_ctx.set_resp_result(bulk_reply(bytes_of_str("version:dev\r\n"))),
            ),
            CmdType::Echo => {
                let CmdCtx { cmd, db_name } = cmd_ctx;
                HandleResult::Replied(SessionReply { db_name, resp: cmd })
            },
            CmdType::Auth => self.handle_auth(cmd_ctx),
            CmdType::Cluster => self.handle_cluster(cmd_ctx),
            CmdType::UmCtl => self.handle_umctl(cmd_ctx),
            CmdType::Invalid => HandleResult::Replied(
                cmd_ctx.set_resp_result(error_reply("Invalid command")),
            ),
            CmdType::Others => {
                match self.migration_manager.send(cmd_ctx) {
                    Ok(mroute) => HandleResult::Forwarded {
                        target: mroute.target,
                        redirection: mroute.redirection,
                        ctx: mroute.ctx,
                    },
                    Err(DBSendError::SlotNotFound(c)) => match self.db.send(c) {
                        Ok(t) => HandleResult::Forwarded {
                            target: t.addr,
                            redirection: false,
                            ctx: t.ctx,
                        },
                        Err(DBSendError::SlotNotFound(c2)) => HandleResult::Dropped(c2),
                        Err(DBSendError::MissingKey(c2)) => HandleResult::Dropped(c2),
                    },
                    Err(DBSendError::MissingKey(c)) => HandleResult::Dropped(c),
                }
            },
        }
    }

    /// `AUTH <db>`: retag the session, or answer the exact error.
    fn handle_auth(&self, cmd_ctx: CmdCtx) -> (r: HandleResult)
        ensures
            auth_effect(cmd_ctx.cmd, cmd_ctx.db_name, r),
    {
        let verdict: Option<Option<Vec<u8>>> = match cmd_ctx.get_key() {
            None => None,
            Some(k) => match bytes_as_str(k.as_slice()) {
                Some(_) => Some(Some(k.clone())),
                None => Some(None),
            },
        };
        match verdict {
            None => HandleResult::Replied(
                cmd_ctx.set_resp_result(error_reply("Missing database name")),
            ),
            Some(None) => HandleResult::Replied(
                cmd_ctx.set_resp_result(error_reply("Invalid database name")),
            ),
            Some(Some(name)) => {
                let mut cmd_ctx = cmd_ctx;
                cmd_ctx.set_db_name(name);
                HandleResult::Replied(cmd_ctx.set_resp_result(simple_reply("OK")))
            },
        }
    }

    /// `CLUSTER <sub>`: render the advertised views, matching the
    /// sub-command caselessly.
    fn handle_cluster(&self, cmd_ctx: CmdCtx) -> (r: HandleResult)
        ensures
            cluster_effect(*self, cmd_ctx.cmd, cmd_ctx.db_name, r),
    {
        let (cmd_ctx, sub) = match Self::get_sub_command(cmd_ctx) {
            Ok(p) => p,
            Err(rep) => {
                return HandleResult::Replied(rep);
            },
        };
        if caseless_match(sub.as_str(), "nodes") {
            let text = self.db.gen_cluster_nodes(cmd_ctx.get_db_name(), &self.service_address);
            HandleResult::Replied(cmd_ctx.set_resp_result(bulk_reply(text)))
        } else if caseless_match(sub.as_str(), "slots") {
            let res = self.db.gen_cluster_slots(cmd_ctx.get_db_name());
            match res {
                Ok(resp) => HandleResult::Replied(cmd_ctx.set_resp_result(resp)),
                Err(msg) => HandleResult::Replied(cmd_ctx.set_resp_result(Resp::Error(msg))),
            }
        } else {
            HandleResult::Replied(cmd_ctx.set_resp_result(error_reply("Unsupported sub command")))
        }
    }

    /// Pull the sub-command out of the request, answering the exact error
    /// when it is missing or not UTF-8.
    fn get_sub_command(cmd_ctx: CmdCtx) -> (r: Result<(CmdCtx, String), SessionReply>)
        ensures
            match cmd_key(cmd_ctx.cmd) {
                None => r matches Err(rep) && is_error(rep.resp, "Missing sub command"@)
                    && rep.db_name == cmd_ctx.db_name,
                Some(k) => if valid_utf8(k) {
                    r matches Ok((c, s)) && c == cmd_ctx && s@ == decode_utf8(k)
                } else {
                    r matches Err(rep) && is_error(rep.resp, "Invalid sub command"@) && rep.db_name
                        == cmd_ctx.db_name
                },
            },
    {
        let parsed: Result<String, &'static str> = match cmd_ctx.get_key() {
            None => Err("Missing sub command"),
            Some(k) => match bytes_as_str(k.as_slice()) {
                Some(s) => Ok(s.to_owned()),
                None => Err("Invalid sub command"),
            },
        };
        match parsed {
            Ok(s) => Ok((cmd_ctx, s)),
            Err(msg) => Err(cmd_ctx.set_resp_result(error_reply(msg))),
        }
    }

    /// `UMCTL <sub>`: the control surface, dispatched on the upper-cased
    /// sub-command.
    pub fn handle_umctl(&mut self, cmd_ctx: CmdCtx) -> (r: HandleResult)
        ensures
            umctl_effect(*old(self), cmd_ctx, *final(self), r),
            reply_db(r) == Some(cmd_ctx.db_name),
    {
        let (cmd_ctx, sub) = match Self::get_sub_command(cmd_ctx) {
            Ok(p) => p,
            Err(rep) => {
                return HandleResult::Replied(rep);
            },
        };
        let upper = to_uppercase_str(sub.as_str());
        if upper == String::from_str("LISTDB") {
            HandleResult::Replied(self.handle_umctl_listdb(cmd_ctx))
        } else if upper == String::from_str("CLEARDB") {
            self.db.clear();
            self.migration_manager.clear();
            self.replicator_manager.clear();
            HandleResult::Replied(cmd_ctx.set_resp_result(simple_reply("OK")))
        } else if upper == String::from_str("SETDB") {
            HandleResult::Replied(self.handle_umctl_setdb(cmd_ctx))
        } else if upper == String::from_str("SETPEER") {
            HandleResult::Replied(self.handle_umctl_setpeer(cmd_ctx))
        } else if upper == String::from_str("SETREPL") {
            HandleResult::Replied(self.handle_umctl_setrepl(cmd_ctx))
        } else if upper == String::from_str("INFOREPL") {
            HandleResult::Replied(self.handle_umctl_info_repl(cmd_ctx))
        } else if upper == String::from_str("INFOMGR") {
            HandleResult::Replied(self.handle_umctl_info_migration(cmd_ctx))
        } else if upper == String::from_str("TMPSWITCH") {
            HandleResult::Replied(self.handle_umctl_tmp_switch(cmd_ctx))
        } else {
            HandleResult::Replied(cmd_ctx.set_resp_result(error_reply("Invalid sub command")))
        }
    }

    /// `UMCTL LISTDB`: the distinct database names as an array of bulks.
    fn handle_umctl_listdb(&self, cmd_ctx: CmdCtx) -> (rep: SessionReply)
        ensures
            listdb_reply(rep.resp, self.db.local@),
            rep.db_name == cmd_ctx.db_name,
    {
        let names = self.db.get_dbs();
        let mut elems: Vec<Resp> = Vec::new();
        let n = names.len();
        let mut i: usize = 0;
        while i < n
            invariant
                n == names@.len(),
                i <= n,
                elems@.len() == i,
                forall|j: int|
                    0 <= j < i ==> ((#[trigger] elems@[j]) matches Resp::Bulk(BulkStr::Str(v))
                        && v@ == names@[j]@),
            decreases n - i,
        {
            elems.push(Resp::Bulk(BulkStr::Str(names[i].clone())));
            i += 1;
        }
        proof {
            assert forall|j2: int| 0 <= j2 < self.db.local@.len() implies bulk_in(
                elems@,
                (#[trigger] self.db.local@[j2]).db@,
            ) by {
                let i0 = choose|i0: int|
                    0 <= i0 < names@.len() && #[trigger] names@[i0]@ == self.db.local@[j2].db@;
                assert(elems@[i0] matches Resp::Bulk(BulkStr::Str(v)) && v@
                    == self.db.local@[j2].db@);
            }
            assert forall|i1: int, k: int| 0 <= i1 < k < elems@.len() implies bulk_bytes(
                elems@[i1],
            ) != bulk_bytes(elems@[k]) by {
                assert(bulk_bytes(elems@[i1]) == names@[i1]@);
                assert(bulk_bytes(elems@[k]) == names@[k]@);
            }
        }
        cmd_ctx.set_resp_result(Resp::Arr(Array::Arr(elems)))
    }

    /// `UMCTL SETDB`: migration metadata first, the routing store second,
    /// both under the epoch gate.
    fn handle_umctl_setdb(&mut self, cmd_ctx: CmdCtx) -> (rep: SessionReply)
        ensures
            setdb_effect(*old(self), cmd_ctx.cmd, *final(self), rep.resp),
            rep.db_name == cmd_ctx.db_name,
    {
        let db_map = match HostDBMap::from_resp(cmd_ctx.get_cmd()) {
            Ok(m) => m,
            Err(_) => {
                return cmd_ctx.set_resp_result(error_reply("Invalid arguments"));
            },
        };
        match self.migration_manager.update(&db_map) {
            Ok(()) => {
                match self.db.set_dbs(db_map) {
                    Ok(()) => cmd_ctx.set_resp_result(simple_reply("OK")),
                    Err(DBError::OldEpoch) => cmd_ctx.set_resp_result(
                        error_reply(OLD_EPOCH_REPLY),
                    ),
                }
            },
            Err(DBError::OldEpoch) => cmd_ctx.set_resp_result(error_reply(OLD_EPOCH_REPLY)),
        }
    }

    /// `UMCTL SETPEER`: the peer map, under its own epoch gate.
    fn handle_umctl_setpeer(&mut self, cmd_ctx: CmdCtx) -> (rep: SessionReply)
        ensures
            setpeer_effect(*old(self), cmd_ctx.cmd, *final(self), rep.resp),
            rep.db_name == cmd_ctx.db_name,
    {
        let db_map = match HostDBMap::from_resp(cmd_ctx.get_cmd()) {
            Ok(m) => m,
            Err(_) => {
                return cmd_ctx.set_resp_result(error_reply("Invalid arguments"));
            },
        };
        match self.db.set_peers(db_map) {
            Ok(()) => cmd_ctx.set_resp_result(simple_reply("OK")),
            Err(DBError::OldEpoch) => cmd_ctx.set_resp_result(error_reply(OLD_EPOCH_REPLY)),
        }
    }

    /// `UMCTL SETREPL`: the replication topology, under its own epoch gate.
    fn handle_umctl_setrepl(&mut self, cmd_ctx: CmdCtx) -> (rep: SessionReply)
        ensures
            setrepl_effect(*old(self), cmd_ctx.cmd, *final(self), rep.resp),
            rep.db_name == cmd_ctx.db_name,
    {
        let meta = match ReplicatorMeta::from_resp(cmd_ctx.get_cmd()) {
            Ok(m) => m,
            Err(_) => {
                return cmd_ctx.set_resp_result(error_reply("Invalid arguments"));
            },
        };
        match self.replicator_manager.update_replicators(meta) {
            Ok(()) => cmd_ctx.set_resp_result(simple_reply("OK")),
            Err(DBError::OldEpoch) => cmd_ctx.set_resp_result(error_reply(OLD_EPOCH_REPLY)),
        }
    }

    /// `UMCTL INFOREPL`: the replication report as a bulk.
    fn handle_umctl_info_repl(&self, cmd_ctx: CmdCtx) -> (rep: SessionReply)
        ensures
            is_bulk(rep.resp, repl_report(self.replicator_manager)),
            rep.db_name == cmd_ctx.db_name,
    {
        let report = self.replicator_manager.get_metadata_report();
        cmd_ctx.set_resp_result(bulk_reply(report))
    }

    /// `UMCTL TMPSWITCH`: hand the request to the migration manager.
    fn handle_umctl_tmp_switch(&mut self, cmd_ctx: CmdCtx) -> (rep: SessionReply)
        ensures
            commit_importing_effect(
                old(self).migration_manager,
                cmd_ctx.cmd,
                final(self).migration_manager,
                rep.resp,
            ),
            final(self).db == old(self).db,
            final(self).service_address == old(self).service_address,
            final(self).replicator_manager == old(self).replicator_manager,
            rep.db_name == cmd_ctx.db_name,
    {
        self.migration_manager.commit_importing(cmd_ctx)
    }

    /// `UMCTL INFOMGR`: one bulk line per finished task.
    fn handle_umctl_info_migration(&self, cmd_ctx: CmdCtx) -> (rep: SessionReply)
        ensures
            infomgr_reply(rep.resp, self.migration_manager.tasks@),
            rep.db_name == cmd_ctx.db_name,
    {
        let lines = self.migration_manager.get_finished_tasks();
        let mut elems: Vec<Resp> = Vec::new();
        let n = lines.len();
        let mut i: usize = 0;
        while i < n
            invariant
                n == lines@.len(),
                lines@.len() == done_idxs(
                    self.migration_manager.tasks@,
                    self.migration_manager.tasks@.len() as int,
                ).len(),
                forall|h: int|
                    0 <= h < lines@.len() ==> #[trigger] lines@[h]@ == task_line(
                        self.migration_manager.tasks@[done_idxs(
                            self.migration_manager.tasks@,
                            self.migration_manager.tasks@.len() as int,
                        )[h]],
                    ),
                i <= n,
                elems@.len() == i,
                forall|j: int|
                    0 <= j < i ==> ((#[trigger] elems@[j]) matches Resp::Bulk(BulkStr::Str(v))
                        && v@ == lines@[j]@),
            decreases n - i,
        {
            elems.push(Resp::Bulk(BulkStr::Str(lines[i].clone())));
            i += 1;
        }
        cmd_ctx.set_resp_result(Resp::Arr(Array::Arr(elems)))
    }
}

} // verus!
