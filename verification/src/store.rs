//! The epoch-guarded routing store: the databases' slot maps and the peer
//! map, each replaced wholesale by coordinator updates and admitted only when
//! the update's epoch is strictly newer than the installed one.
//!
//! A routing table is a flat list of entries `(database, backend address,
//! slot range)`. The wire form accepted by `UMCTL SETDB` / `SETPEER` is
//! `UMCTL SETDB <epoch> <flags> (<db> <addr> <tag> <peer> <task_id>
//! <task_epoch> <start> <end>)*`, every field one bulk string; `<tag>` is
//! `STABLE`, `IMPORTING` or `MIGRATING`, and `<peer>`, `<task_id>`,
//! `<task_epoch>` name the other half of a migration (free text for
//! `STABLE`). `<start> <end>` bound the half-open slot interval.

use vstd::prelude::*;
use crate::resp::Array;
use crate::resp::BulkStr;
use crate::resp::Resp;
use crate::resp::bytes_eq;
use crate::resp::dec_value;
use crate::resp::is_digits;
use crate::resp::str_bytes;
use crate::resp::bytes_of_str;
use crate::resp::u64_to_dec;
use crate::resp::dec_repr;
use crate::slots::MigrationMeta;
use crate::slots::SlotRange;
use crate::slots::SlotRangeTag;
use crate::slots::SLOT_COUNT;
use crate::slots::range_contains;
use crate::slots::slot_of;
use crate::slots::key_slot;
use crate::command::CmdCtx;
use crate::command::cmd_key;

verus! {

/// One row of a routing table: a backend address serving a slot range of a
/// database.
pub struct DbEntry {
    pub db: Vec<u8>,
    pub addr: Vec<u8>,
    pub range: SlotRange,
}

/// A whole routing table as carried by one `SETDB`/`SETPEER` update.
pub struct HostDBMap {
    pub epoch: u64,
    pub entries: Vec<DbEntry>,
}

/// Failure of an epoch-gated update.
pub enum DBError {
    OldEpoch,
}

/// Failure of parsing an `UMCTL` payload.
pub enum ParseError {
    InvalidArguments,
}

/// The digit sequence denotes a number that fits in a `u64`.
pub open spec fn valid_u64(s: Seq<u8>) -> bool {
    is_digits(s) && dec_value(s) <= u64::MAX
}

/// The bulk-string payload at position `i`, empty when out of range or not a
/// bulk string.
pub open spec fn bulk_at(items: Seq<Resp>, i: int) -> Seq<u8> {
    if 0 <= i < items.len() {
        match items[i] {
            Resp::Bulk(BulkStr::Str(v)) => v@,
            _ => Seq::empty(),
        }
    } else {
        Seq::empty()
    }
}

/// Position `i` holds a bulk string.
pub open spec fn is_bulk_at(items: Seq<Resp>, i: int) -> bool {
    0 <= i < items.len() && items[i] matches Resp::Bulk(BulkStr::Str(_))
}

/// The tag/meta fields of one entry group are well-formed.
pub open spec fn tag_wf(tag: Seq<u8>, task_id: Seq<u8>, task_epoch: Seq<u8>) -> bool {
    ||| tag == str_bytes("STABLE"@)
    ||| ((tag == str_bytes("IMPORTING"@) || tag == str_bytes("MIGRATING"@)) && valid_u64(task_id)
        && valid_u64(task_epoch))
}

/// The slot fields of one entry group are well-formed: digits, ordered, and
/// within the slot space.
pub open spec fn slots_wf(start: Seq<u8>, end: Seq<u8>) -> bool {
    valid_u64(start) && valid_u64(end) && dec_value(start) <= dec_value(end) <= SLOT_COUNT
}

/// The eight arguments of entry group `g` (its first argument stands at
/// position `4 + 8 g`) are well-formed.
pub open spec fn group_wf(items: Seq<Resp>, g: int) -> bool {
    let base = 4 + 8 * g;
    &&& forall|k: int| base <= k < base + 8 ==> is_bulk_at(items, k)
    &&& tag_wf(bulk_at(items, base + 2), bulk_at(items, base + 4), bulk_at(items, base + 5))
    &&& slots_wf(bulk_at(items, base + 6), bulk_at(items, base + 7))
}

/// The whole `SETDB`/`SETPEER` payload is well-formed.
pub open spec fn host_db_map_wf(cmd: Resp) -> bool {
    match cmd {
        Resp::Arr(Array::Arr(items)) => {
            &&& items@.len() >= 4
            &&& (items@.len() - 4) % 8 == 0
            &&& is_bulk_at(items@, 2)
            &&& valid_u64(bulk_at(items@, 2))
            &&& is_bulk_at(items@, 3)
            &&& forall|g: int|
                0 <= g < (items@.len() - 4) / 8 ==> #[trigger] group_wf(items@, g)
        },
        _ => false,
    }
}

/// The parsed tag equals what the three meta fields of a group say.
pub open spec fn tag_matches(
    tag: SlotRangeTag,
    name: Seq<u8>,
    peer: Seq<u8>,
    task_id: Seq<u8>,
    task_epoch: Seq<u8>,
) -> bool {
    if name == str_bytes("STABLE"@) {
        tag is Stable
    } else if name == str_bytes("IMPORTING"@) {
        tag matches SlotRangeTag::Importing(m) && meta_matches(m, peer, task_id, task_epoch)
    } else if name == str_bytes("MIGRATING"@) {
        tag matches SlotRangeTag::Migrating(m) && meta_matches(m, peer, task_id, task_epoch)
    } else {
        false
    }
}

/// The parsed migration meta equals its three fields.
pub open spec fn meta_matches(
    m: MigrationMeta,
    peer: Seq<u8>,
    task_id: Seq<u8>,
    task_epoch: Seq<u8>,
) -> bool {
    m.peer@ == peer && m.task_id == dec_value(task_id) && m.epoch == dec_value(task_epoch)
}

/// The parsed entry equals what the eight arguments of its group say.
pub open spec fn entry_matches(items: Seq<Resp>, g: int, e: DbEntry) -> bool {
    let base = 4 + 8 * g;
    &&& e.db@ == bulk_at(items, base)
    &&& e.addr@ == bulk_at(items, base + 1)
    &&& tag_matches(
        e.range.tag,
        bulk_at(items, base + 2),
        bulk_at(items, base + 3),
        bulk_at(items, base + 4),
        bulk_at(items, base + 5),
    )
    &&& e.range.start == dec_value(bulk_at(items, base + 6))
    &&& e.range.end == dec_value(bulk_at(items, base + 7))
}

/// The parsed map equals what the whole payload says.
pub open spec fn map_matches(cmd: Resp, m: HostDBMap) -> bool {
    match cmd {
        Resp::Arr(Array::Arr(items)) => {
            &&& m.epoch == dec_value(bulk_at(items@, 2))
            &&& m.entries@.len() == (items@.len() - 4) / 8
            &&& forall|g: int|
                0 <= g < m.entries@.len() ==> entry_matches(items@, g, #[trigger] m.entries@[g])
        },
        _ => false,
    }
}

impl HostDBMap {
    /// Parse a `SETDB`/`SETPEER` payload. Succeeds exactly on well-formed
    /// payloads, and the result mirrors the arguments.
    pub fn from_resp(cmd: &Resp) -> (r: Result<HostDBMap, ParseError>)
        ensures
            r is Ok <==> host_db_map_wf(*cmd),
            r matches Ok(m) ==> map_matches(*cmd, m),
    {
        let items: &Vec<Resp> = match cmd {
            Resp::Arr(Array::Arr(items)) => items,
            _ => {
                return Err(ParseError::InvalidArguments);
            },
        };
        if items.len() < 4 || (items.len() - 4) % 8 != 0 {
            return Err(ParseError::InvalidArguments);
        }
        let epoch: u64 = match bulk_arg(items, 2) {
            Some(b) => match crate::resp::parse_u64(b.as_slice()) {
                Some(v) => v,
                None => {
                    return Err(ParseError::InvalidArguments);
                },
            },
            None => {
                return Err(ParseError::InvalidArguments);
            },
        };
        if bulk_arg(items, 3).is_none() {
            return Err(ParseError::InvalidArguments);
        }
        let n = items.len();
        let count = (n - 4) / 8;
        let mut entries: Vec<DbEntry> = Vec::new();
        let mut g: usize = 0;
        proof {
            assert(8 * ((items@.len() - 4) / 8) == items@.len() - 4);
        }
        while g < count
            invariant
                *cmd == Resp::Arr(Array::Arr(*items)),
                items@.len() >= 4,
                items@.len() == n,
                (items@.len() - 4) % 8 == 0,
                count == (items@.len() - 4) / 8,
                8 * (count as int) + 4 == items@.len(),
                g <= count,
                entries@.len() == g,
                forall|h: int| 0 <= h < g ==> #[trigger] group_wf(items@, h),
                forall|h: int|
                    0 <= h < g ==> entry_matches(items@, h, #[trigger] entries@[h]),
            decreases count - g,
        {
            match parse_group(items, g) {
                Some(e) => {
                    entries.push(e);
                },
                None => {
                    proof {
                        assert(4 + 8 * (g as int) + 8 <= items@.len());
                        assert(!group_wf(items@, g as int));
                        assert(!host_db_map_wf(*cmd));
                    }
                    return Err(ParseError::InvalidArguments);
                },
            }
            g += 1;
        }
        Ok(HostDBMap { epoch, entries })
    }
}

/// Append a byte slice to a byte vector.
pub fn push_all(dst: &mut Vec<u8>, src: &[u8])
    ensures
        final(dst)@ =~= old(dst)@ + src@,
{
    let mut i: usize = 0;
    while i < src.len()
        invariant
            i <= src@.len(),
            dst@ =~= old(dst)@ + src@.take(i as int),
        decreases src@.len() - i,
    {
        dst.push(src[i]);
        proof {
            assert(old(dst)@ + src@.take(i + 1) =~= (old(dst)@ + src@.take(i as int)).push(
                src@[i as int],
            ));
        }
        i += 1;
    }
    proof {
        assert(src@.take(src@.len() as int) =~= src@);
    }
}

/// The byte string `x` occurs in `list`, by content.
pub open spec fn name_in(list: Seq<Vec<u8>>, x: Seq<u8>) -> bool {
    exists|i: int| 0 <= i < list.len() && #[trigger] list[i]@ == x
}

/// Find a byte string in a list, by content.
pub fn find_bytes(list: &Vec<Vec<u8>>, x: &[u8]) -> (r: Option<usize>)
    ensures
        r matches Some(i) ==> i < list@.len() && list@[i as int]@ == x@,
        r is None ==> forall|h: int| 0 <= h < list@.len() ==> #[trigger] list@[h]@ != x@,
{
    let mut i: usize = 0;
    while i < list.len()
        invariant
            i <= list@.len(),
            forall|h: int| 0 <= h < i ==> #[trigger] list@[h]@ != x@,
        decreases list@.len() - i,
    {
        if bytes_eq(list[i].as_slice(), x) {
            return Some(i);
        }
        i += 1;
    }
    None
}

/// The entry serves `slot` of database `db`: its range holds the slot and is
/// owned here (stable) or still owned while moving out (migrating).
pub open spec fn entry_routes(e: DbEntry, db: Seq<u8>, slot: u16) -> bool {
    e.db@ == db && range_contains(e.range, slot) && (e.range.tag is Stable
        || e.range.tag is Migrating)
}

/// Position of the first entry at or after `from` that serves `slot` of
/// `db`, if any.
pub open spec fn route_from(entries: Seq<DbEntry>, db: Seq<u8>, slot: u16, from: int) -> Option<
    int,
>
    decreases entries.len() - from,
{
    if from < 0 || from >= entries.len() {
        None
    } else if entry_routes(entries[from], db, slot) {
        Some(from)
    } else {
        route_from(entries, db, slot, from + 1)
    }
}

/// Some entry of `entries` belongs to database `db`.
pub open spec fn db_exists(entries: Seq<DbEntry>, db: Seq<u8>) -> bool {
    exists|i: int| 0 <= i < entries.len() && #[trigger] entries[i].db@ == db
}

/// The routing decision for one request: the backend to forward it to, and
/// the request handed back.
pub struct RouteTarget {
    pub addr: Vec<u8>,
    pub ctx: CmdCtx,
}

/// Why the routing store could not place a request; the request is handed
/// back untouched.
pub enum DBSendError {
    MissingKey(CmdCtx),
    SlotNotFound(CmdCtx),
}

/// A successful replacement of the routing table.
pub open spec fn dbs_update_ok(before: DatabaseMap, map: HostDBMap, after: DatabaseMap) -> bool {
    &&& map.epoch > before.epoch
    &&& after.epoch == map.epoch
    &&& after.local == map.entries
    &&& after.peer_epoch == before.peer_epoch
    &&& after.peers == before.peers
}

/// A successful replacement of the peer map.
pub open spec fn peers_update_ok(before: DatabaseMap, map: HostDBMap, after: DatabaseMap) -> bool {
    &&& map.epoch > before.peer_epoch
    &&& after.peer_epoch == map.epoch
    &&& after.peers == map.entries
    &&& after.epoch == before.epoch
    &&& after.local == before.local
}

/// The rendered `CLUSTER NODES` line of one entry.
pub open spec fn nodes_line(e: DbEntry, svc: Seq<u8>) -> Seq<u8> {
    e.db@ + str_bytes(" "@) + e.addr@ + (if e.addr@ == svc {
        str_bytes(" myself"@)
    } else {
        Seq::empty()
    }) + str_bytes(" "@) + tag_name(e.range.tag) + str_bytes(" "@) + dec_repr(e.range.start as nat)
        + str_bytes("-"@) + dec_repr(e.range.end as nat) + str_bytes("\n"@)
}

/// The wire name of a tag.
pub open spec fn tag_name(tag: SlotRangeTag) -> Seq<u8> {
    match tag {
        SlotRangeTag::Stable => str_bytes("STABLE"@),
        SlotRangeTag::Importing(_) => str_bytes("IMPORTING"@),
        SlotRangeTag::Migrating(_) => str_bytes("MIGRATING"@),
    }
}

/// The `CLUSTER NODES` text for the first `i` entries: the concatenated
/// lines of those belonging to `db`.
pub open spec fn nodes_text(
    entries: Seq<DbEntry>,
    db: Seq<u8>,
    svc: Seq<u8>,
    i: int,
) -> Seq<u8>
    decreases i,
{
    if i <= 0 {
        Seq::empty()
    } else {
        nodes_text(entries, db, svc, i - 1) + (if entries[i - 1].db@ == db {
            nodes_line(entries[i - 1], svc)
        } else {
            Seq::empty()
        })
    }
}

/// The indices among the first `i` entries whose entry serves database `db`
/// (stable or migrating), in order.
pub open spec fn served_idxs(entries: Seq<DbEntry>, db: Seq<u8>, i: int) -> Seq<int>
    decreases i,
{
    if i <= 0 {
        Seq::empty()
    } else {
        served_idxs(entries, db, i - 1) + (if entries[i - 1].db@ == db && (entries[i
            - 1].range.tag is Stable || entries[i - 1].range.tag is Migrating) {
            seq![i - 1]
        } else {
            Seq::empty()
        })
    }
}

/// The `CLUSTER SLOTS` element rendered for an entry: a three-element array
/// of start, end and backend address.
pub open spec fn slots_elem_matches(el: Resp, e: DbEntry) -> bool {
    el matches Resp::Arr(Array::Arr(t)) && t@.len() == 3 && (t@[0]
        matches Resp::Bulk(BulkStr::Str(v0)) && v0@ == dec_repr(e.range.start as nat)) && (t@[1]
        matches Resp::Bulk(BulkStr::Str(v1)) && v1@ == dec_repr(e.range.end as nat)) && (t@[2]
        matches Resp::Bulk(BulkStr::Str(v2)) && v2@ == e.addr@)
}

/// The routing store: the local slot map, the peer map, and their separately
/// gated epochs. Epochs survive `clear`, so an update replayed after a clear
/// is still rejected as stale.
pub struct DatabaseMap {
    pub epoch: u64,
    pub peer_epoch: u64,
    pub local: Vec<DbEntry>,
    pub peers: Vec<DbEntry>,
}

impl DatabaseMap {
    /// An empty store at epoch zero.
    pub fn new() -> (r: DatabaseMap)
        ensures
            r.epoch == 0,
            r.peer_epoch == 0,
            r.local@ =~= Seq::<DbEntry>::empty(),
            r.peers@ =~= Seq::<DbEntry>::empty(),
    {
        DatabaseMap { epoch: 0, peer_epoch: 0, local: Vec::new(), peers: Vec::new() }
    }

    /// Replace the routing table. Succeeds exactly when the update's epoch is
    /// strictly newer; a stale update changes nothing.
    pub fn set_dbs(&mut self, map: HostDBMap) -> (r: Result<(), DBError>)
        ensures
            r is Ok <==> map.epoch > old(self).epoch,
            r is Ok ==> dbs_update_ok(*old(self), map, *final(self)),
            r is Err ==> *final(self) == *old(self) && r matches Err(DBError::OldEpoch),
    {
        if map.epoch <= self.epoch {
            return Err(DBError::OldEpoch);
        }
        self.epoch = map.epoch;
        self.local = map.entries;
        Ok(())
    }

    /// Replace the peer map, gated by its own epoch.
    pub fn set_peers(&mut self, map: HostDBMap) -> (r: Result<(), DBError>)
        ensures
            r is Ok <==> map.epoch > old(self).peer_epoch,
            r is Ok ==> peers_update_ok(*old(self), map, *final(self)),
            r is Err ==> *final(self) == *old(self) && r matches Err(DBError::OldEpoch),
    {
        if map.epoch <= self.peer_epoch {
            return Err(DBError::OldEpoch);
        }
        self.peer_epoch = map.epoch;
        self.peers = map.entries;
        Ok(())
    }

    /// Drop all databases and peers. The epochs stay, keeping monotonicity
    /// over the process lifetime.
    pub fn clear(&mut self)
        ensures
            final(self).local@ =~= Seq::<DbEntry>::empty(),
            final(self).peers@ =~= Seq::<DbEntry>::empty(),
            final(self).epoch == old(self).epoch,
            final(self).peer_epoch == old(self).peer_epoch,
    {
        self.local = Vec::new();
        self.peers = Vec::new();
    }

    /// The distinct database names, each exactly once, in no promised order.
    pub fn get_dbs(&self) -> (r: Vec<Vec<u8>>)
        ensures
            forall|i: int|
                0 <= i < r@.len() ==> db_exists(self.local@, #[trigger] r@[i]@),
            forall|j: int|
                0 <= j < self.local@.len() ==> name_in(r@, (#[trigger] self.local@[j]).db@),
            forall|i: int, k: int| 0 <= i < k < r@.len() ==> r@[i]@ != r@[k]@,
    {
        let mut r: Vec<Vec<u8>> = Vec::new();
        let mut j: usize = 0;
        while j < self.local.len()
            invariant
                j <= self.local@.len(),
                forall|i: int|
                    0 <= i < r@.len() ==> db_exists(self.local@, #[trigger] r@[i]@),
                forall|h: int|
                    0 <= h < j ==> name_in(r@, (#[trigger] self.local@[h]).db@),
                forall|i: int, k: int| 0 <= i < k < r@.len() ==> r@[i]@ != r@[k]@,
            decreases self.local@.len() - j,
        {
            let name = &self.local[j].db;
            match find_bytes(&r, name.as_slice()) {
                Some(i) => {
                    proof {
                        assert(r@[i as int]@ == self.local@[j as int].db@);
                        assert(name_in(r@, self.local@[j as int].db@));
                    }
                },
                None => {
                    let ghost old_r = r@;
                    r.push(name.clone());
                    proof {
                        assert(r@[r@.len() - 1]@ == self.local@[j as int].db@);
                        assert(db_exists(self.local@, r@[r@.len() - 1]@));
                        assert forall|h: int| 0 <= h < j + 1 implies name_in(
                            r@,
                            (#[trigger] self.local@[h]).db@,
                        ) by {
                            if h < j {
                                let i0 = choose|i: int|
                                    0 <= i < old_r.len() && #[trigger] old_r[i]@
                                        == self.local@[h].db@;
                                assert(r@[i0]@ == self.local@[h].db@);
                            } else {
                                assert(r@[r@.len() - 1]@ == self.local@[h].db@);
                            }
                        }
                    }
                },
            }
            j += 1;
        }
        r
    }

    /// Route a request of the data path: compute its key's slot and hand back
    /// the first backend serving that slot in the session's database.
    pub fn send(&self, cmd_ctx: CmdCtx) -> (r: Result<RouteTarget, DBSendError>)
        ensures
            cmd_key(cmd_ctx.cmd) is None ==> (r matches Err(DBSendError::MissingKey(c)) && c
                == cmd_ctx),
            cmd_key(cmd_ctx.cmd) matches Some(k) ==> match route_from(
                self.local@,
                cmd_ctx.db_name@,
                slot_of(k),
                0,
            ) {
                Some(i) => r matches Ok(t) && t.addr@ == self.local@[i].addr@ && t.ctx == cmd_ctx,
                None => r matches Err(DBSendError::SlotNotFound(c)) && c == cmd_ctx,
            },
    {
        let slot: u16 = match cmd_ctx.get_key() {
            Some(k) => key_slot(k.as_slice()),
            None => {
                return Err(DBSendError::MissingKey(cmd_ctx));
            },
        };
        match self.route(cmd_ctx.get_db_name(), slot) {
            Some(addr) => Ok(RouteTarget { addr, ctx: cmd_ctx }),
            None => Err(DBSendError::SlotNotFound(cmd_ctx)),
        }
    }

    /// The address of the first entry serving `slot` of `db`, if any.
    pub fn route(&self, db: &Vec<u8>, slot: u16) -> (r: Option<Vec<u8>>)
        ensures
            match route_from(self.local@, db@, slot, 0) {
                Some(i) => r matches Some(a) && a@ == self.local@[i].addr@,
                None => r is None,
            },
    {
        let mut j: usize = 0;
        while j < self.local.len()
            invariant
                j <= self.local@.len(),
                route_from(self.local@, db@, slot, 0) == route_from(
                    self.local@,
                    db@,
                    slot,
                    j as int,
                ),
            decreases self.local@.len() - j,
        {
            let e = &self.local[j];
            let tag_ok = match &e.range.tag {
                SlotRangeTag::Stable => true,
                SlotRangeTag::Migrating(_) => true,
                SlotRangeTag::Importing(_) => false,
            };
            if tag_ok && bytes_eq(e.db.as_slice(), db.as_slice()) && e.range.contains(slot) {
                return Some(e.addr.clone());
            }
            j += 1;
        }
        None
    }

    /// Render the `CLUSTER NODES` view of a database: one line per entry of
    /// the local table, then one per peer entry, each naming the address,
    /// whether it is this proxy's own service address, the tag and the slot
    /// interval.
    pub fn gen_cluster_nodes(&self, db_name: &Vec<u8>, service_address: &Vec<u8>) -> (r: Vec<u8>)
        ensures
            r@ == nodes_text(self.local@, db_name@, service_address@, self.local@.len() as int)
                + nodes_text(self.peers@, db_name@, service_address@, self.peers@.len() as int),
    {
        let mut out: Vec<u8> = Vec::new();
        let mut j: usize = 0;
        while j < self.local.len()
            invariant
                j <= self.local@.len(),
                out@ == nodes_text(self.local@, db_name@, service_address@, j as int),
            decreases self.local@.len() - j,
        {
            let e = &self.local[j];
            if bytes_eq(e.db.as_slice(), db_name.as_slice()) {
                let line = render_nodes_line(e, service_address);
                push_all(&mut out, line.as_slice());
            } else {
                proof {
                    assert(out@ + Seq::<u8>::empty() =~= out@);
                }
            }
            j += 1;
        }
        let ghost local_text = out@;
        let mut p: usize = 0;
        while p < self.peers.len()
            invariant
                p <= self.peers@.len(),
                out@ == local_text + nodes_text(self.peers@, db_name@, service_address@, p as int),
            decreases self.peers@.len() - p,
        {
            let e = &self.peers[p];
            if bytes_eq(e.db.as_slice(), db_name.as_slice()) {
                let line = render_nodes_line(e, service_address);
                push_all(&mut out, line.as_slice());
                proof {
                    assert(local_text + nodes_text(
                        self.peers@,
                        db_name@,
                        service_address@,
                        p + 1,
                    ) =~= local_text + nodes_text(self.peers@, db_name@, service_address@, p as int)
                        + nodes_line(self.peers@[p as int], service_address@));
                }
            } else {
                proof {
                    assert(out@ + Seq::<u8>::empty() =~= out@);
                    assert(local_text + nodes_text(
                        self.peers@,
                        db_name@,
                        service_address@,
                        p + 1,
                    ) =~= local_text + nodes_text(self.peers@, db_name@, service_address@, p as int));
                }
            }
            p += 1;
        }
        proof {
            assert(out@ + Seq::<u8>::empty() =~= out@);
        }
        out
    }

    /// Render the `CLUSTER SLOTS` view of a database: one three-element array
    /// per served range. Fails with a readable error when the database is
    /// absent.
    pub fn gen_cluster_slots(&self, db_name: &Vec<u8>) -> (r: Result<Resp, Vec<u8>>)
        ensures
            r is Ok <==> db_exists(self.local@, db_name@),
            r matches Ok(resp) ==> {
                let idxs = served_idxs(self.local@, db_name@, self.local@.len() as int);
                resp matches Resp::Arr(Array::Arr(elems)) && elems@.len() == idxs.len() && (forall|
                    j: int,
                |
                    0 <= j < idxs.len() ==> slots_elem_matches(
                        #[trigger] elems@[j],
                        self.local@[idxs[j]],
                    ))
            },
            r matches Err(msg) ==> msg@ == str_bytes("No such database"@),
    {
        let mut exists_db = false;
        let mut elems: Vec<Resp> = Vec::new();
        let mut j: usize = 0;
        while j < self.local.len()
            invariant
                j <= self.local@.len(),
                exists_db <==> db_exists(self.local@.take(j as int), db_name@),
                elems@.len() == served_idxs(self.local@, db_name@, j as int).len(),
                forall|h: int|
                    0 <= h < elems@.len() ==> slots_elem_matches(
                        #[trigger] elems@[h],
                        self.local@[served_idxs(self.local@, db_name@, j as int)[h]],
                    ),
            decreases self.local@.len() - j,
        {
            let e = &self.local[j];
            if bytes_eq(e.db.as_slice(), db_name.as_slice()) {
                exists_db = true;
                proof {
                    assert(self.local@.take(j + 1)[j as int].db@ == db_name@);
                }
                let tag_ok = match &e.range.tag {
                    SlotRangeTag::Stable => true,
                    SlotRangeTag::Migrating(_) => true,
                    SlotRangeTag::Importing(_) => false,
                };
                if tag_ok {
                    let mut triple: Vec<Resp> = Vec::new();
                    triple.push(Resp::Bulk(BulkStr::Str(u64_to_dec(e.range.start as u64))));
                    triple.push(Resp::Bulk(BulkStr::Str(u64_to_dec(e.range.end as u64))));
                    triple.push(Resp::Bulk(BulkStr::Str(e.addr.clone())));
                    elems.push(Resp::Arr(Array::Arr(triple)));
                    proof {
                        assert(served_idxs(self.local@, db_name@, j + 1) =~= served_idxs(
                            self.local@,
                            db_name@,
                            j as int,
                        ).push(j as int));
                    }
                }
            }
            proof {
                if self.local@.take(j + 1)[j as int].db@ != db_name@ {
                    assert(forall|i: int|
                        0 <= i < j + 1 && #[trigger] self.local@.take(j + 1)[i].db@ == db_name@
                            ==> self.local@.take(j as int)[i].db@ == db_name@);
                }
            }
            j += 1;
        }
        proof {
            assert(self.local@.take(self.local@.len() as int) =~= self.local@);
        }
        if exists_db {
            Ok(Resp::Arr(Array::Arr(elems)))
        } else {
            Err(bytes_of_str("No such database"))
        }
    }
}

/// Render one `CLUSTER NODES` line.
#[verifier::rlimit(50)]
fn render_nodes_line(e: &DbEntry, service_address: &Vec<u8>) -> (r: Vec<u8>)
    ensures
        r@ == nodes_line(*e, service_address@),
{
    let mut out: Vec<u8> = Vec::new();
    push_all(&mut out, e.db.as_slice());
    push_all(&mut out, " ".as_bytes());
    push_all(&mut out, e.addr.as_slice());
    if bytes_eq(e.addr.as_slice(), service_address.as_slice()) {
        push_all(&mut out, " myself".as_bytes());
    } else {
        proof {
            assert(out@ + Seq::<u8>::empty() =~= out@);
        }
    }
    push_all(&mut out, " ".as_bytes());
    match &e.range.tag {
        SlotRangeTag::Stable => push_all(&mut out, "STABLE".as_bytes()),
        SlotRangeTag::Importing(_) => push_all(&mut out, "IMPORTING".as_bytes()),
        SlotRangeTag::Migrating(_) => push_all(&mut out, "MIGRATING".as_bytes()),
    }
    push_all(&mut out, " ".as_bytes());
    let start_dec = u64_to_dec(e.range.start as u64);
    push_all(&mut out, start_dec.as_slice());
    push_all(&mut out, "-".as_bytes());
    let end_dec = u64_to_dec(e.range.end as u64);
    push_all(&mut out, end_dec.as_slice());
    push_all(&mut out, "\n".as_bytes());
    proof {
        assert(out@ =~= nodes_line(*e, service_address@));
    }
    out
}

/// Epoch monotonicity: across any two successful routing-table updates the
/// installed epoch strictly increases; peer updates behave alike.
pub proof fn lemma_epoch_monotonic(
    s0: DatabaseMap,
    m1: HostDBMap,
    s1: DatabaseMap,
    m2: HostDBMap,
    s2: DatabaseMap,
)
    requires
        dbs_update_ok(s0, m1, s1),
        dbs_update_ok(s1, m2, s2),
    ensures
        s0.epoch < s1.epoch < s2.epoch,
{
}

/// Peer-map epoch monotonicity, and independence from the routing epoch.
pub proof fn lemma_peer_epoch_monotonic(
    s0: DatabaseMap,
    m1: HostDBMap,
    s1: DatabaseMap,
    m2: HostDBMap,
    s2: DatabaseMap,
)
    requires
        peers_update_ok(s0, m1, s1),
        peers_update_ok(s1, m2, s2),
    ensures
        s0.peer_epoch < s1.peer_epoch < s2.peer_epoch,
        s2.epoch == s0.epoch,
{
}

/// Borrow the bulk-string payload at position `i`, if it is one.
pub fn bulk_arg(items: &Vec<Resp>, i: usize) -> (r: Option<&Vec<u8>>)
    ensures
        r matches Some(v) ==> is_bulk_at(items@, i as int) && v@ == bulk_at(items@, i as int),
        r is None ==> !is_bulk_at(items@, i as int),
{
    if i >= items.len() {
        return None;
    }
    match &items[i] {
        Resp::Bulk(BulkStr::Str(v)) => Some(v),
        _ => None,
    }
}

/// Parse entry group `g`, the eight arguments at `4 + 8 g`. Succeeds exactly
/// when the group lies within the payload and is well-formed.
fn parse_group(items: &Vec<Resp>, g: usize) -> (r: Option<DbEntry>)
    requires
        4 + 8 * (g as int) + 8 <= usize::MAX,
    ensures
        r is Some <==> 4 + 8 * (g as int) + 8 <= items@.len() && group_wf(items@, g as int),
        r matches Some(e) ==> entry_matches(items@, g as int, e),
{
    let base = 4 + 8 * g;
    if base + 8 > items.len() {
        return None;
    }
    let db = match bulk_arg(items, base) {
        Some(v) => v,
        None => {
            return None;
        },
    };
    let addr = match bulk_arg(items, base + 1) {
        Some(v) => v,
        None => {
            return None;
        },
    };
    let tag_name = match bulk_arg(items, base + 2) {
        Some(v) => v,
        None => {
            return None;
        },
    };
    let peer = match bulk_arg(items, base + 3) {
        Some(v) => v,
        None => {
            return None;
        },
    };
    let task_id_b = match bulk_arg(items, base + 4) {
        Some(v) => v,
        None => {
            return None;
        },
    };
    let task_epoch_b = match bulk_arg(items, base + 5) {
        Some(v) => v,
        None => {
            return None;
        },
    };
    let start_b = match bulk_arg(items, base + 6) {
        Some(v) => v,
        None => {
            return None;
        },
    };
    let end_b = match bulk_arg(items, base + 7) {
        Some(v) => v,
        None => {
            return None;
        },
    };
    let tag: SlotRangeTag = if bytes_eq(tag_name.as_slice(), "STABLE".as_bytes()) {
        SlotRangeTag::Stable
    } else if bytes_eq(tag_name.as_slice(), "IMPORTING".as_bytes()) || bytes_eq(
        tag_name.as_slice(),
        "MIGRATING".as_bytes(),
    ) {
        let task_id = match crate::resp::parse_u64(task_id_b.as_slice()) {
            Some(v) => v,
            None => {
                return None;
            },
        };
        let task_epoch = match crate::resp::parse_u64(task_epoch_b.as_slice()) {
            Some(v) => v,
            None => {
                return None;
            },
        };
        let meta = MigrationMeta { peer: peer.clone(), task_id, epoch: task_epoch };
        if bytes_eq(tag_name.as_slice(), "IMPORTING".as_bytes()) {
            SlotRangeTag::Importing(meta)
        } else {
            SlotRangeTag::Migrating(meta)
        }
    } else {
        return None;
    };
    let start = match crate::resp::parse_u64(start_b.as_slice()) {
        Some(v) => v,
        None => {
            return None;
        },
    };
    let end = match crate::resp::parse_u64(end_b.as_slice()) {
        Some(v) => v,
        None => {
            return None;
        },
    };
    if start > end || end > SLOT_COUNT as u64 {
        return None;
    }
    Some(
        DbEntry {
            db: db.clone(),
            addr: addr.clone(),
            range: SlotRange { start: start as u16, end: end as u16, tag },
        },
    )
}

} // verus!
