//! The command context: one client request travelling through the proxy,
//! with its session's database tag and its one-shot reply.
//!
//! The reply sink of a session accepts exactly one reply per request. The
//! context is consumed when the reply is produced, so a double reply is ruled
//! out by ownership.

use vstd::prelude::*;
use crate::resp::Array;
use crate::resp::BulkStr;
use crate::resp::Resp;

verus! {

/// A client request owned by the proxy, tagged with the session's current
/// database name.
pub struct CmdCtx {
    pub cmd: Resp,
    pub db_name: Vec<u8>,
}

/// What flows back to the session once a context is answered: the (possibly
/// updated) database tag and the reply value.
pub struct SessionReply {
    pub db_name: Vec<u8>,
    pub resp: Resp,
}

/// The command's key: the second element of the request array, which must be
/// a bulk string.
pub open spec fn cmd_key(r: Resp) -> Option<Seq<u8>> {
    match r {
        Resp::Arr(Array::Arr(items)) => if items@.len() > 1 {
            match items@[1] {
                Resp::Bulk(BulkStr::Str(v)) => Some(v@),
                _ => None,
            }
        } else {
            None
        },
        _ => None,
    }
}

/// The argument at position `i` of the request array, if it is a bulk string.
pub open spec fn cmd_arg(r: Resp, i: int) -> Option<Seq<u8>> {
    match r {
        Resp::Arr(Array::Arr(items)) => if 0 <= i < items@.len() {
            match items@[i] {
                Resp::Bulk(BulkStr::Str(v)) => Some(v@),
                _ => None,
            }
        } else {
            None
        },
        _ => None,
    }
}

/// How many elements the request array has; zero when the request is not an
/// array.
pub open spec fn cmd_arg_count(r: Resp) -> int {
    match r {
        Resp::Arr(Array::Arr(items)) => items@.len() as int,
        _ => 0,
    }
}

impl CmdCtx {
    /// A fresh context for a request, with an empty database tag.
    pub fn new(cmd: Resp) -> (r: CmdCtx)
        ensures
            r.cmd == cmd,
            r.db_name@ =~= Seq::<u8>::empty(),
    {
        CmdCtx { cmd, db_name: Vec::new() }
    }

    /// Borrow the request.
    pub fn get_cmd(&self) -> (r: &Resp)
        ensures
            *r == self.cmd,
    {
        &self.cmd
    }

    /// Borrow the session's database tag.
    pub fn get_db_name(&self) -> (r: &Vec<u8>)
        ensures
            r@ == self.db_name@,
    {
        &self.db_name
    }

    /// Retag the session's database.
    pub fn set_db_name(&mut self, db_name: Vec<u8>)
        ensures
            final(self).db_name == db_name,
            final(self).cmd == old(self).cmd,
    {
        self.db_name = db_name;
    }

    /// Borrow the command's key, when the request has one.
    pub fn get_key(&self) -> (r: Option<&Vec<u8>>)
        ensures
            match r {
                Some(v) => cmd_key(self.cmd) == Some(v@),
                None => cmd_key(self.cmd) is None,
            },
    {
        match &self.cmd {
            Resp::Arr(Array::Arr(items)) => {
                if items.len() > 1 {
                    match &items[1] {
                        Resp::Bulk(BulkStr::Str(v)) => Some(v),
                        _ => None,
                    }
                } else {
                    None
                }
            },
            _ => None,
        }
    }

    /// Borrow the argument at position `i`, when it is a bulk string.
    pub fn get_arg(&self, i: usize) -> (r: Option<&Vec<u8>>)
        ensures
            match r {
                Some(v) => cmd_arg(self.cmd, i as int) == Some(v@),
                None => cmd_arg(self.cmd, i as int) is None,
            },
    {
        match &self.cmd {
            Resp::Arr(Array::Arr(items)) => {
                if i < items.len() {
                    match &items[i] {
                        Resp::Bulk(BulkStr::Str(v)) => Some(v),
                        _ => None,
                    }
                } else {
                    None
                }
            },
            _ => None,
        }
    }

    /// Answer the request. Consuming the context makes a second reply to the
    /// same request impossible.
    pub fn set_resp_result(self, resp: Resp) -> (r: SessionReply)
        ensures
            r.resp == resp,
            r.db_name == self.db_name,
    {
        SessionReply { db_name: self.db_name, resp }
    }
}

} // verus!
