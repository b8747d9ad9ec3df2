//! The replicator manager: the control-plane view of the replication
//! topology, installed under the same epoch discipline as the routing store,
//! and a textual report of it.
//!
//! The wire form accepted by `UMCTL SETREPL` is `UMCTL SETREPL <epoch>
//! (<db> <master> <replica>)*`, every field one bulk string; a master with
//! no replica carries the single byte `-` in the replica field.

use vstd::prelude::*;
use crate::resp::Array;
use crate::resp::BulkStr;
use crate::resp::Resp;
use crate::resp::dec_value;
use crate::resp::str_bytes;
use crate::resp::u64_to_dec;
use crate::resp::dec_repr;
use crate::store::DBError;
use crate::store::ParseError;
use crate::store::bulk_at;
use crate::store::is_bulk_at;
use crate::store::bulk_arg;
use crate::store::valid_u64;
use crate::store::push_all;

verus! {

/// One row of the replication topology: a master of one database and one of
/// its replicas (`-` for none).
pub struct ReplEntry {
    pub db: Vec<u8>,
    pub master: Vec<u8>,
    pub replica: Vec<u8>,
}

/// A whole replication topology as carried by one `SETREPL` update.
pub struct ReplicatorMeta {
    pub epoch: u64,
    pub entries: Vec<ReplEntry>,
}

/// The triple of entry group `g` (its first argument stands at position
/// `3 + 3 g`) is well-formed.
pub open spec fn repl_group_wf(items: Seq<Resp>, g: int) -> bool {
    let base = 3 + 3 * g;
    forall|k: int| base <= k < base + 3 ==> is_bulk_at(items, k)
}

/// The whole `SETREPL` payload is well-formed.
pub open spec fn replicator_meta_wf(cmd: Resp) -> bool {
    match cmd {
        Resp::Arr(Array::Arr(items)) => {
            &&& items@.len() >= 3
            &&& (items@.len() - 3) % 3 == 0
            &&& is_bulk_at(items@, 2)
            &&& valid_u64(bulk_at(items@, 2))
            &&& forall|g: int|
                0 <= g < (items@.len() - 3) / 3 ==> #[trigger] repl_group_wf(items@, g)
        },
        _ => false,
    }
}

/// The parsed entry equals what the three arguments of its group say.
pub open spec fn repl_entry_matches(items: Seq<Resp>, g: int, e: ReplEntry) -> bool {
    let base = 3 + 3 * g;
    e.db@ == bulk_at(items, base) && e.master@ == bulk_at(items, base + 1) && e.replica@
        == bulk_at(items, base + 2)
}

/// The parsed meta equals what the whole payload says.
pub open spec fn repl_meta_matches(cmd: Resp, m: ReplicatorMeta) -> bool {
    match cmd {
        Resp::Arr(Array::Arr(items)) => {
            &&& m.epoch == dec_value(bulk_at(items@, 2))
            &&& m.entries@.len() == (items@.len() - 3) / 3
            &&& forall|g: int|
                0 <= g < m.entries@.len() ==> repl_entry_matches(
                    items@,
                    g,
                    #[trigger] m.entries@[g],
                )
        },
        _ => false,
    }
}

impl ReplicatorMeta {
    /// Parse a `SETREPL` payload. Succeeds exactly on well-formed payloads,
    /// and the result mirrors the arguments.
    pub fn from_resp(cmd: &Resp) -> (r: Result<ReplicatorMeta, ParseError>)
        ensures
            r is Ok <==> replicator_meta_wf(*cmd),
            r matches Ok(m) ==> repl_meta_matches(*cmd, m),
    {
        let items: &Vec<Resp> = match cmd {
            Resp::Arr(Array::Arr(items)) => items,
            _ => {
                return Err(ParseError::InvalidArguments);
            },
        };
        if items.len() < 3 || (items.len() - 3) % 3 != 0 {
            return Err(ParseError::InvalidArguments);
        }
        let epoch: u64 = match bulk_arg(items, 2) {
            Some(b) => match crate::resp::parse_u64(b.as_slice()) {
                Some(v) => v,
                None => {
                    return Err(ParseError::InvalidArguments);
                },
            },
            None => {
                return Err(ParseError::InvalidArguments);
            },
        };
        let n = items.len();
        let count = (n - 3) / 3;
        proof {
            assert(3 * ((items@.len() - 3) / 3) == items@.len() - 3);
        }
        let mut entries: Vec<ReplEntry> = Vec::new();
        let mut g: usize = 0;
        while g < count
            invariant
                *cmd == Resp::Arr(Array::Arr(*items)),
                items@.len() >= 3,
                items@.len() == n,
                (items@.len() - 3) % 3 == 0,
                count == (items@.len() - 3) / 3,
                3 * (count as int) + 3 == items@.len(),
                g <= count,
                entries@.len() == g,
                forall|h: int| 0 <= h < g ==> #[trigger] repl_group_wf(items@, h),
                forall|h: int|
                    0 <= h < g ==> repl_entry_matches(items@, h, #[trigger] entries@[h]),
            decreases count - g,
        {
            let base = 3 + 3 * g;
            let db = match bulk_arg(items, base) {
                Some(v) => v,
                None => {
                    proof {
                        assert(!repl_group_wf(items@, g as int));
                        assert(!replicator_meta_wf(*cmd));
                    }
                    return Err(ParseError::InvalidArguments);
                },
            };
            let master = match bulk_arg(items, base + 1) {
                Some(v) => v,
                None => {
                    proof {
                        assert(!repl_group_wf(items@, g as int));
                        assert(!replicator_meta_wf(*cmd));
                    }
                    return Err(ParseError::InvalidArguments);
                },
            };
            let replica = match bulk_arg(items, base + 2) {
                Some(v) => v,
                None => {
                    proof {
                        assert(!repl_group_wf(items@, g as int));
                        assert(!replicator_meta_wf(*cmd));
                    }
                    return Err(ParseError::InvalidArguments);
                },
            };
            entries.push(
                ReplEntry { db: db.clone(), master: master.clone(), replica: replica.clone() },
            );
            g += 1;
        }
        Ok(ReplicatorMeta { epoch, entries })
    }
}

/// A successful replacement of the replication topology.
pub open spec fn repl_update_ok(
    before: ReplicatorManager,
    meta: ReplicatorMeta,
    after: ReplicatorManager,
) -> bool {
    &&& meta.epoch > before.epoch
    &&& after.epoch == meta.epoch
    &&& after.entries == meta.entries
}

/// The report line of one entry.
pub open spec fn repl_line(e: ReplEntry) -> Seq<u8> {
    e.db@ + str_bytes(" master "@) + e.master@ + str_bytes(" replica "@) + e.replica@ + str_bytes(
        "\n"@,
    )
}

/// The report of the first `i` entries, under the installed epoch heading.
pub open spec fn repl_report_body(entries: Seq<ReplEntry>, i: int) -> Seq<u8>
    decreases i,
{
    if i <= 0 {
        Seq::empty()
    } else {
        repl_report_body(entries, i - 1) + repl_line(entries[i - 1])
    }
}

/// The whole report: the epoch heading, then one line per entry.
pub open spec fn repl_report(m: ReplicatorManager) -> Seq<u8> {
    str_bytes("epoch "@) + dec_repr(m.epoch as nat) + str_bytes("\n"@) + repl_report_body(
        m.entries@,
        m.entries@.len() as int,
    )
}

/// The replicator manager: the installed epoch and the current topology.
pub struct ReplicatorManager {
    pub epoch: u64,
    pub entries: Vec<ReplEntry>,
}

impl ReplicatorManager {
    /// An empty topology at epoch zero.
    pub fn new() -> (r: ReplicatorManager)
        ensures
            r.epoch == 0,
            r.entries@ =~= Seq::<ReplEntry>::empty(),
    {
        ReplicatorManager { epoch: 0, entries: Vec::new() }
    }

    /// Drop the whole topology. The epoch stays, keeping monotonicity over
    /// the process lifetime.
    pub fn clear(&mut self)
        ensures
            final(self).entries@ =~= Seq::<ReplEntry>::empty(),
            final(self).epoch == old(self).epoch,
    {
        self.entries = Vec::new();
    }

    /// Install a new topology. Succeeds exactly when the update's epoch is
    /// strictly newer; a stale update changes nothing.
    pub fn update_replicators(&mut self, meta: ReplicatorMeta) -> (r: Result<(), DBError>)
        ensures
            r is Ok <==> meta.epoch > old(self).epoch,
            r is Ok ==> repl_update_ok(*old(self), meta, *final(self)),
            r is Err ==> *final(self) == *old(self) && r matches Err(DBError::OldEpoch),
    {
        if meta.epoch <= self.epoch {
            return Err(DBError::OldEpoch);
        }
        self.epoch = meta.epoch;
        self.entries = meta.entries;
        Ok(())
    }

    /// Render the textual report `UMCTL INFOREPL` answers with.
    pub fn get_metadata_report(&self) -> (r: Vec<u8>)
        ensures
            r@ == repl_report(*self),
    {
        let mut out: Vec<u8> = Vec::new();
        push_all(&mut out, "epoch ".as_bytes());
        let ep = u64_to_dec(self.epoch);
        push_all(&mut out, ep.as_slice());
        push_all(&mut out, "\n".as_bytes());
        let mut j: usize = 0;
        while j < self.entries.len()
            invariant
                j <= self.entries@.len(),
                out@ == str_bytes("epoch "@) + dec_repr(self.epoch as nat) + str_bytes("\n"@)
                    + repl_report_body(self.entries@, j as int),
            decreases self.entries@.len() - j,
        {
            let e = &self.entries[j];
            push_all(&mut out, e.db.as_slice());
            push_all(&mut out, " master ".as_bytes());
            push_all(&mut out, e.master.as_slice());
            push_all(&mut out, " replica ".as_bytes());
            push_all(&mut out, e.replica.as_slice());
            push_all(&mut out, "\n".as_bytes());
            proof {
                assert(out@ =~= str_bytes("epoch "@) + dec_repr(self.epoch as nat) + str_bytes(
                    "\n"@,
                ) + repl_report_body(self.entries@, j as int) + repl_line(
                    self.entries@[j as int],
                ));
            }
            j += 1;
        }
        out
    }
}

/// Replication epoch monotonicity: across any two successful topology
/// updates the installed epoch strictly increases.
pub proof fn lemma_repl_epoch_monotonic(
    s0: ReplicatorManager,
    m1: ReplicatorMeta,
    s1: ReplicatorManager,
    m2: ReplicatorMeta,
    s2: ReplicatorManager,
)
    requires
        repl_update_ok(s0, m1, s1),
        repl_update_ok(s1, m2, s2),
    ensures
        s0.epoch < s1.epoch < s2.epoch,
{
}

} // verus!
