//! The migration manager: the active import/export tasks, their state
//! machine, and the overlay that routes data commands whose slots are being
//! moved.
//!
//! Migration metadata derived from a routing update is installed before the
//! routing store itself is touched (see the forward handler), so a slot
//! tagged importing is recognised by this overlay before it shows up in the
//! routing table.

use vstd::prelude::*;
use crate::command::CmdCtx;
use crate::command::SessionReply;
use crate::command::cmd_key;
use crate::command::cmd_arg;
use crate::resp::Resp;
use crate::resp::bytes_eq;
use crate::resp::dec_value;
use crate::resp::is_simple;
use crate::resp::is_error;
use crate::resp::simple_reply;
use crate::resp::error_reply;
use crate::resp::u64_to_dec;
use crate::resp::dec_repr;
use crate::resp::str_bytes;
use crate::slots::SlotRangeTag;
use crate::store::DbEntry;
use crate::store::DBError;
use crate::store::DBSendError;
use crate::store::HostDBMap;
use crate::store::push_all;
use crate::slots::slot_of;
use crate::slots::key_slot;

verus! {

/// Where a migration task stands.
#[derive(PartialEq, Eq, Structural, Clone, Copy, Debug)]
pub enum MigrationState {
    PreCheck,
    Importing,
    Committing,
    Done,
    Failed,
}

/// What drives a task forward: the outcomes of the retry-driven probes,
/// the `TMPSWITCH` handover, and the broker's commit answer.
#[derive(PartialEq, Eq, Structural, Clone, Copy, Debug)]
pub enum MigrationEvent {
    PreCheckPassed,
    PreCheckTimeout,
    TmpSwitchReceived,
    FatalUpstreamError,
    CommitAccepted,
    CommitRejected,
}

/// The task state machine. `Done` and `Failed` absorb every event; an event
/// that does not apply to the current state leaves it unchanged.
pub open spec fn task_step(s: MigrationState, ev: MigrationEvent) -> MigrationState {
    match (s, ev) {
        (MigrationState::PreCheck, MigrationEvent::PreCheckPassed) => MigrationState::Importing,
        (MigrationState::PreCheck, MigrationEvent::PreCheckTimeout) => MigrationState::Failed,
        (MigrationState::Importing, MigrationEvent::TmpSwitchReceived) => MigrationState::Committing,
        (MigrationState::Importing, MigrationEvent::FatalUpstreamError) => MigrationState::Failed,
        (MigrationState::Committing, MigrationEvent::CommitAccepted) => MigrationState::Done,
        (MigrationState::Committing, MigrationEvent::CommitRejected) => MigrationState::Committing,
        _ => s,
    }
}

/// Advance a task's state by one event.
pub fn task_advance(s: MigrationState, ev: MigrationEvent) -> (r: MigrationState)
    ensures
        r == task_step(s, ev),
{
    match (s, ev) {
        (MigrationState::PreCheck, MigrationEvent::PreCheckPassed) => MigrationState::Importing,
        (MigrationState::PreCheck, MigrationEvent::PreCheckTimeout) => MigrationState::Failed,
        (MigrationState::Importing, MigrationEvent::TmpSwitchReceived) => MigrationState::Committing,
        (MigrationState::Importing, MigrationEvent::FatalUpstreamError) => MigrationState::Failed,
        (MigrationState::Committing, MigrationEvent::CommitAccepted) => MigrationState::Done,
        (MigrationState::Committing, MigrationEvent::CommitRejected) => MigrationState::Committing,
        (s0, _) => s0,
    }
}

/// Terminal states stay terminal, whatever happens.
pub proof fn lemma_terminal_states_absorb(s: MigrationState, ev: MigrationEvent)
    requires
        s is Done || s is Failed,
    ensures
        task_step(s, ev) == s,
{
}

/// One migration task: the moved slot interval of one database, the two
/// halves of the move, and the state machine's position.
pub struct MigrationTask {
    pub db: Vec<u8>,
    pub task_id: u64,
    pub epoch: u64,
    pub start: u16,
    pub end: u16,
    pub local_addr: Vec<u8>,
    pub peer_addr: Vec<u8>,
    pub importing: bool,
    pub state: MigrationState,
}

/// The entry carries a migration tag.
pub open spec fn entry_tagged(e: DbEntry) -> bool {
    e.range.tag is Importing || e.range.tag is Migrating
}

/// The task names exactly the migration that the tagged entry describes
/// (everything but the state).
pub open spec fn task_of_entry(e: DbEntry, t: MigrationTask) -> bool {
    &&& t.db@ == e.db@
    &&& t.local_addr@ == e.addr@
    &&& t.start == e.range.start
    &&& t.end == e.range.end
    &&& match e.range.tag {
        SlotRangeTag::Importing(m) => t.importing && t.peer_addr@ == m.peer@ && t.task_id
            == m.task_id && t.epoch == m.epoch,
        SlotRangeTag::Migrating(m) => !t.importing && t.peer_addr@ == m.peer@ && t.task_id
            == m.task_id && t.epoch == m.epoch,
        SlotRangeTag::Stable => false,
    }
}

/// The indices among the first `i` entries that carry a migration tag, in
/// order.
pub open spec fn tagged_idxs(entries: Seq<DbEntry>, i: int) -> Seq<int>
    decreases i,
{
    if i <= 0 {
        Seq::empty()
    } else {
        tagged_idxs(entries, i - 1) + (if entry_tagged(entries[i - 1]) {
            seq![i - 1]
        } else {
            Seq::empty()
        })
    }
}

/// Position of the first task at or after `from` that names the same
/// migration as the tagged entry, if any.
pub open spec fn find_task_from(tasks: Seq<MigrationTask>, e: DbEntry, from: int) -> Option<int>
    decreases tasks.len() - from,
{
    if from < 0 || from >= tasks.len() {
        None
    } else if task_of_entry(e, tasks[from]) {
        Some(from)
    } else {
        find_task_from(tasks, e, from + 1)
    }
}

/// The task `t` derived from tagged entry `e` under `old_tasks`: its
/// identity comes from the entry; its state is preserved from an existing
/// task of the same identity, else it starts at `PreCheck`.
pub open spec fn derived_task(old_tasks: Seq<MigrationTask>, e: DbEntry, t: MigrationTask) -> bool {
    &&& task_of_entry(e, t)
    &&& match find_task_from(old_tasks, e, 0) {
        Some(k) => t.state == old_tasks[k].state,
        None => t.state is PreCheck,
    }
}

/// Position of the first task at or after `from` that covers `slot` of `db`
/// and takes part in overlay routing, if any.
pub open spec fn overlay_from(tasks: Seq<MigrationTask>, db: Seq<u8>, slot: u16, from: int) -> Option<int>
    decreases tasks.len() - from,
{
    if from < 0 || from >= tasks.len() {
        None
    } else if tasks[from].db@ == db && tasks[from].start <= slot < tasks[from].end
        && overlay_route(tasks[from]) is Some {
        Some(from)
    } else {
        overlay_from(tasks, db, slot, from + 1)
    }
}

/// How a task routes a data command for a slot it covers: the target address
/// and whether the command travels with a redirection marker. `None` lets
/// the command fall through to the routing store.
pub open spec fn overlay_route(t: MigrationTask) -> Option<(Seq<u8>, bool)> {
    if t.importing {
        match t.state {
            MigrationState::PreCheck => Some((t.peer_addr@, true)),
            MigrationState::Importing => Some((t.peer_addr@, true)),
            MigrationState::Committing => Some((t.local_addr@, false)),
            MigrationState::Done => Some((t.local_addr@, false)),
            MigrationState::Failed => None,
        }
    } else {
        match t.state {
            MigrationState::Importing => Some((t.peer_addr@, false)),
            _ => None,
        }
    }
}

/// The overlay's routing decision: a target backend, whether the command
/// carries a redirection marker, and the command handed on.
pub struct MigrationRoute {
    pub target: Vec<u8>,
    pub redirection: bool,
    pub ctx: CmdCtx,
}

/// Position of the first task at or after `from` that `TMPSWITCH <id>` may
/// commit: an importing task with that id in state `Importing`.
pub open spec fn tmp_switch_from(tasks: Seq<MigrationTask>, id: u64, from: int) -> Option<int>
    decreases tasks.len() - from,
{
    if from < 0 || from >= tasks.len() {
        None
    } else if tasks[from].task_id == id && tasks[from].importing
        && tasks[from].state is Importing {
        Some(from)
    } else {
        tmp_switch_from(tasks, id, from + 1)
    }
}

/// Position of the first task at or after `from` with the given id and
/// side, if any.
pub open spec fn task_pos_from(tasks: Seq<MigrationTask>, id: u64, importing: bool, from: int) -> Option<int>
    decreases tasks.len() - from,
{
    if from < 0 || from >= tasks.len() {
        None
    } else if tasks[from].task_id == id && tasks[from].importing == importing {
        Some(from)
    } else {
        task_pos_from(tasks, id, importing, from + 1)
    }
}

/// The indices among the first `i` tasks that are `Done`, in order.
pub open spec fn done_idxs(tasks: Seq<MigrationTask>, i: int) -> Seq<int>
    decreases i,
{
    if i <= 0 {
        Seq::empty()
    } else {
        done_idxs(tasks, i - 1) + (if tasks[i - 1].state is Done {
            seq![i - 1]
        } else {
            Seq::empty()
        })
    }
}

/// A successful replacement of the migration metadata: the new epoch is
/// installed and the tasks are exactly those derived from the map's tagged
/// entries, states preserved where the identity survives.
pub open spec fn migration_update_ok(
    before: MigrationManager,
    map: HostDBMap,
    after: MigrationManager,
) -> bool {
    let idxs = tagged_idxs(map.entries@, map.entries@.len() as int);
    &&& map.epoch > before.epoch
    &&& after.epoch == map.epoch
    &&& after.tasks@.len() == idxs.len()
    &&& forall|j: int|
        0 <= j < idxs.len() ==> derived_task(
            before.tasks@,
            map.entries@[idxs[j]],
            #[trigger] after.tasks@[j],
        )
}

/// The migration manager: the installed epoch and the active tasks.
pub struct MigrationManager {
    pub epoch: u64,
    pub tasks: Vec<MigrationTask>,
}

impl MigrationManager {
    /// A manager with no tasks at epoch zero.
    pub fn new() -> (r: MigrationManager)
        ensures
            r.epoch == 0,
            r.tasks@ =~= Seq::<MigrationTask>::empty(),
    {
        MigrationManager { epoch: 0, tasks: Vec::new() }
    }

    /// Drop all tasks. The epoch stays, keeping monotonicity over the
    /// process lifetime.
    pub fn clear(&mut self)
        ensures
            final(self).tasks@ =~= Seq::<MigrationTask>::empty(),
            final(self).epoch == old(self).epoch,
    {
        self.tasks = Vec::new();
    }

    /// Install the migration metadata of a routing update. Succeeds exactly
    /// when the update's epoch is strictly newer; a stale update changes
    /// nothing.
    pub fn update(&mut self, map: &HostDBMap) -> (r: Result<(), DBError>)
        ensures
            r is Ok <==> map.epoch > old(self).epoch,
            r is Ok ==> migration_update_ok(*old(self), *map, *final(self)),
            r is Err ==> *final(self) == *old(self) && r matches Err(DBError::OldEpoch),
    {
        if map.epoch <= self.epoch {
            return Err(DBError::OldEpoch);
        }
        let mut tasks: Vec<MigrationTask> = Vec::new();
        let mut j: usize = 0;
        while j < map.entries.len()
            invariant
                j <= map.entries@.len(),
                tasks@.len() == tagged_idxs(map.entries@, j as int).len(),
                forall|h: int|
                    0 <= h < tasks@.len() ==> derived_task(
                        self.tasks@,
                        map.entries@[tagged_idxs(map.entries@, j as int)[h]],
                        #[trigger] tasks@[h],
                    ),
            decreases map.entries@.len() - j,
        {
            let e = &map.entries[j];
            let tagged = match &e.range.tag {
                SlotRangeTag::Stable => false,
                _ => true,
            };
            if tagged {
                let t = self.derive_task(e);
                tasks.push(t);
                proof {
                    assert(tagged_idxs(map.entries@, j + 1) =~= tagged_idxs(
                        map.entries@,
                        j as int,
                    ).push(j as int));
                }
            }
            j += 1;
        }
        self.epoch = map.epoch;
        self.tasks = tasks;
        Ok(())
    }

    /// Build the task for one tagged entry, keeping the state of an existing
    /// task of the same identity.
    fn derive_task(&self, e: &DbEntry) -> (t: MigrationTask)
        requires
            entry_tagged(*e),
        ensures
            derived_task(self.tasks@, *e, t),
    {
        let (peer, task_id, task_epoch, importing): (&Vec<u8>, u64, u64, bool) = match &e.range.tag {
            SlotRangeTag::Importing(m) => (&m.peer, m.task_id, m.epoch, true),
            SlotRangeTag::Migrating(m) => (&m.peer, m.task_id, m.epoch, false),
            SlotRangeTag::Stable => {
                return MigrationTask {
                    db: Vec::new(),
                    task_id: 0,
                    epoch: 0,
                    start: 0,
                    end: 0,
                    local_addr: Vec::new(),
                    peer_addr: Vec::new(),
                    importing: false,
                    state: MigrationState::PreCheck,
                };
            },
        };
        let state = match self.find_task(e, 0) {
            Some(k) => self.tasks[k].state,
            None => MigrationState::PreCheck,
        };
        MigrationTask {
            db: e.db.clone(),
            task_id,
            epoch: task_epoch,
            start: e.range.start,
            end: e.range.end,
            local_addr: e.addr.clone(),
            peer_addr: peer.clone(),
            importing,
            state,
        }
    }

    /// Find the first existing task naming the same migration as `e`.
    fn find_task(&self, e: &DbEntry, from: usize) -> (r: Option<usize>)
        ensures
            match r {
                Some(k) => find_task_from(self.tasks@, *e, from as int) == Some(k as int) && k
                    < self.tasks@.len(),
                None => find_task_from(self.tasks@, *e, from as int) is None,
            },
        decreases self.tasks@.len() - from,
    {
        if from >= self.tasks.len() {
            return None;
        }
        let t = &self.tasks[from];
        let id_match = match &e.range.tag {
            SlotRangeTag::Importing(m) => t.importing && bytes_eq(
                t.peer_addr.as_slice(),
                m.peer.as_slice(),
            ) && t.task_id == m.task_id && t.epoch == m.epoch,
            SlotRangeTag::Migrating(m) => !t.importing && bytes_eq(
                t.peer_addr.as_slice(),
                m.peer.as_slice(),
            ) && t.task_id == m.task_id && t.epoch == m.epoch,
            SlotRangeTag::Stable => false,
        };
        if id_match && bytes_eq(t.db.as_slice(), e.db.as_slice()) && bytes_eq(
            t.local_addr.as_slice(),
            e.addr.as_slice(),
        ) && t.start == e.range.start && t.end == e.range.end {
            Some(from)
        } else {
            self.find_task(e, from + 1)
        }
    }

    /// The migration overlay of the data path: route a command whose key's
    /// slot is covered by an active task; hand the command back untouched
    /// when no task covers it.
    pub fn send(&self, cmd_ctx: CmdCtx) -> (r: Result<MigrationRoute, DBSendError>)
        ensures
            cmd_key(cmd_ctx.cmd) is None ==> (r matches Err(DBSendError::MissingKey(c)) && c
                == cmd_ctx),
            cmd_key(cmd_ctx.cmd) matches Some(k) ==> match overlay_from(
                self.tasks@,
                cmd_ctx.db_name@,
                slot_of(k),
                0,
            ) {
                Some(i) => r matches Ok(m) && overlay_route(self.tasks@[i]) == Some(
                    (m.target@, m.redirection),
                ) && m.ctx == cmd_ctx,
                None => r matches Err(DBSendError::SlotNotFound(c)) && c == cmd_ctx,
            },
    {
        let slot: u16 = match cmd_ctx.get_key() {
            Some(k) => key_slot(k.as_slice()),
            None => {
                return Err(DBSendError::MissingKey(cmd_ctx));
            },
        };
        match self.overlay(cmd_ctx.get_db_name(), slot, 0) {
            Some((target, redirection)) => Ok(MigrationRoute { target, redirection, ctx: cmd_ctx }),
            None => Err(DBSendError::SlotNotFound(cmd_ctx)),
        }
    }

    /// The overlay decision for `slot` of `db`, searching tasks from `from`.
    fn overlay(&self, db: &Vec<u8>, slot: u16, from: usize) -> (r: Option<(Vec<u8>, bool)>)
        ensures
            match overlay_from(self.tasks@, db@, slot, from as int) {
                Some(i) => r matches Some((a, red)) && overlay_route(self.tasks@[i]) == Some(
                    (a@, red),
                ),
                None => r is None,
            },
        decreases self.tasks@.len() - from,
    {
        if from >= self.tasks.len() {
            return None;
        }
        let t = &self.tasks[from];
        if bytes_eq(t.db.as_slice(), db.as_slice()) && t.start <= slot && slot < t.end {
            if t.importing {
                match t.state {
                    MigrationState::PreCheck => {
                        return Some((t.peer_addr.clone(), true));
                    },
                    MigrationState::Importing => {
                        return Some((t.peer_addr.clone(), true));
                    },
                    MigrationState::Committing => {
                        return Some((t.local_addr.clone(), false));
                    },
                    MigrationState::Done => {
                        return Some((t.local_addr.clone(), false));
                    },
                    MigrationState::Failed => {},
                }
            } else {
                match t.state {
                    MigrationState::Importing => {
                        return Some((t.peer_addr.clone(), false));
                    },
                    _ => {},
                }
            }
        }
        self.overlay(db, slot, from + 1)
    }

    /// Feed one state-machine event to the first task with the given id and
    /// side: the driver of a task's probes and commits reports their
    /// outcomes here. Returns whether such a task exists.
    pub fn advance_task(&mut self, task_id: u64, importing: bool, ev: MigrationEvent) -> (r: bool)
        ensures
            match task_pos_from(old(self).tasks@, task_id, importing, 0) {
                Some(i) => r && final(self).epoch == old(self).epoch && final(self).tasks@
                    =~= old(self).tasks@.update(
                    i,
                    MigrationTask {
                        state: task_step(old(self).tasks@[i].state, ev),
                        ..old(self).tasks@[i]
                    },
                ),
                None => !r && *final(self) == *old(self),
            },
    {
        let mut i: usize = 0;
        while i < self.tasks.len()
            invariant
                i <= self.tasks@.len(),
                *self == *old(self),
                task_pos_from(self.tasks@, task_id, importing, 0) == task_pos_from(
                    self.tasks@,
                    task_id,
                    importing,
                    i as int,
                ),
            decreases self.tasks@.len() - i,
        {
            let t = &self.tasks[i];
            if t.task_id == task_id && t.importing == importing {
                let next = task_advance(t.state, ev);
                let mut taken = MigrationTask {
                    db: Vec::new(),
                    task_id: 0,
                    epoch: 0,
                    start: 0,
                    end: 0,
                    local_addr: Vec::new(),
                    peer_addr: Vec::new(),
                    importing: false,
                    state: MigrationState::PreCheck,
                };
                self.tasks.set_and_swap(i, &mut taken);
                taken.state = next;
                self.tasks.set_and_swap(i, &mut taken);
                proof {
                    assert(task_pos_from(old(self).tasks@, task_id, importing, i as int) == Some(
                        i as int,
                    ));
                    assert(self.tasks@ =~= old(self).tasks@.update(
                        i as int,
                        MigrationTask {
                            state: task_step(old(self).tasks@[i as int].state, ev),
                            ..old(self).tasks@[i as int]
                        },
                    ));
                }
                return true;
            }
            i += 1;
        }
        false
    }

    /// Handle `UMCTL TMPSWITCH <task_id>`: the source proxy hands authority
    /// over; the first matching importing task in state `Importing` moves to
    /// `Committing` and the command is answered `OK`. Anything else answers
    /// an error and changes nothing.
    pub fn commit_importing(&mut self, cmd_ctx: CmdCtx) -> (r: SessionReply)
        ensures
            commit_importing_effect(*old(self), cmd_ctx.cmd, *final(self), r.resp),
            r.db_name == cmd_ctx.db_name,
    {
        let id: u64 = match cmd_ctx.get_arg(2) {
            Some(b) => match crate::resp::parse_u64(b.as_slice()) {
                Some(v) => v,
                None => {
                    return cmd_ctx.set_resp_result(error_reply("Invalid arguments"));
                },
            },
            None => {
                return cmd_ctx.set_resp_result(error_reply("Invalid arguments"));
            },
        };
        let mut i: usize = 0;
        while i < self.tasks.len()
            invariant
                i <= self.tasks@.len(),
                *self == *old(self),
                cmd_arg(cmd_ctx.cmd, 2) matches Some(idb) && crate::store::valid_u64(idb) && id
                    == dec_value(idb),
                tmp_switch_from(self.tasks@, id, 0) == tmp_switch_from(self.tasks@, id, i as int),
            decreases self.tasks@.len() - i,
        {
            let t = &self.tasks[i];
            if t.task_id == id && t.importing {
                let hit = match t.state {
                    MigrationState::Importing => true,
                    _ => false,
                };
                if hit {
                    proof {
                        assert(tmp_switch_from(self.tasks@, id, i as int) == Some(i as int));
                    }
                    let mut taken = MigrationTask {
                        db: Vec::new(),
                        task_id: 0,
                        epoch: 0,
                        start: 0,
                        end: 0,
                        local_addr: Vec::new(),
                        peer_addr: Vec::new(),
                        importing: false,
                        state: MigrationState::PreCheck,
                    };
                    self.tasks.set_and_swap(i, &mut taken);
                    taken.state = MigrationState::Committing;
                    self.tasks.set_and_swap(i, &mut taken);
                    proof {
                        assert(tmp_switch_from(old(self).tasks@, id, 0) == Some(i as int));
                        assert(self.tasks@ =~= old(self).tasks@.update(
                            i as int,
                            MigrationTask {
                                state: MigrationState::Committing,
                                ..old(self).tasks@[i as int]
                            },
                        ));
                        assert(self.epoch == old(self).epoch);
                    }
                    return cmd_ctx.set_resp_result(simple_reply("OK"));
                }
            }
            i += 1;
        }
        cmd_ctx.set_resp_result(error_reply("No matching task"))
    }

    /// The line `INFOMGR` reports for one task: its fields joined by single
    /// spaces.
    pub fn get_finished_tasks(&self) -> (r: Vec<Vec<u8>>)
        ensures
            ({
                let idxs = done_idxs(self.tasks@, self.tasks@.len() as int);
                r@.len() == idxs.len() && forall|j: int|
                    0 <= j < idxs.len() ==> #[trigger] r@[j]@ == task_line(
                        self.tasks@[idxs[j]],
                    )
            }),
    {
        let mut r: Vec<Vec<u8>> = Vec::new();
        let mut j: usize = 0;
        while j < self.tasks.len()
            invariant
                j <= self.tasks@.len(),
                r@.len() == done_idxs(self.tasks@, j as int).len(),
                forall|h: int|
                    0 <= h < r@.len() ==> #[trigger] r@[h]@ == task_line(
                        self.tasks@[done_idxs(self.tasks@, j as int)[h]],
                    ),
            decreases self.tasks@.len() - j,
        {
            let t = &self.tasks[j];
            let is_done = match t.state {
                MigrationState::Done => true,
                _ => false,
            };
            if is_done {
                let line = render_task_line(t);
                r.push(line);
                proof {
                    assert(done_idxs(self.tasks@, j + 1) =~= done_idxs(self.tasks@, j as int).push(
                        j as int,
                    ));
                }
            }
            j += 1;
        }
        proof {
            assert(done_idxs(self.tasks@, self.tasks@.len() as int) =~= done_idxs(
                self.tasks@,
                self.tasks.len() as int,
            ));
        }
        r
    }
}

/// What `TMPSWITCH` does: with a well-formed task id naming an importing
/// task in state `Importing`, that task (the first such) moves to
/// `Committing` and the reply is `OK`; otherwise nothing changes and the
/// reply is an error.
pub open spec fn commit_importing_effect(
    pre: MigrationManager,
    cmd: Resp,
    post: MigrationManager,
    rep: Resp,
) -> bool {
    match cmd_arg(cmd, 2) {
        Some(idb) => {
            if crate::store::valid_u64(idb) {
                match tmp_switch_from(pre.tasks@, dec_value(idb) as u64, 0) {
                    Some(i) => post.epoch == pre.epoch && post.tasks@ =~= pre.tasks@.update(
                        i,
                        MigrationTask { state: MigrationState::Committing, ..pre.tasks@[i] },
                    ) && is_simple(rep, "OK"@),
                    None => post == pre && is_error(rep, "No matching task"@),
                }
            } else {
                post == pre && is_error(rep, "Invalid arguments"@)
            }
        },
        None => post == pre && is_error(rep, "Invalid arguments"@),
    }
}

/// Migration epoch monotonicity: across any two successful metadata
/// installs the installed epoch strictly increases.
pub proof fn lemma_migration_epoch_monotonic(
    s0: MigrationManager,
    m1: HostDBMap,
    s1: MigrationManager,
    m2: HostDBMap,
    s2: MigrationManager,
)
    requires
        migration_update_ok(s0, m1, s1),
        migration_update_ok(s1, m2, s2),
    ensures
        s0.epoch < s1.epoch < s2.epoch,
{
}

/// The rendered report line of one task.
pub open spec fn task_line(t: MigrationTask) -> Seq<u8> {
    t.db@ + str_bytes(" "@) + dec_repr(t.task_id as nat) + str_bytes(" "@) + dec_repr(
        t.epoch as nat,
    ) + str_bytes(" "@) + (if t.importing {
        str_bytes("IMPORTING"@)
    } else {
        str_bytes("MIGRATING"@)
    }) + str_bytes(" "@) + t.local_addr@ + str_bytes(" "@) + t.peer_addr@ + str_bytes(" "@)
        + dec_repr(t.start as nat) + str_bytes("-"@) + dec_repr(t.end as nat)
}

/// Render one task's report line.
#[verifier::rlimit(50)]
fn render_task_line(t: &MigrationTask) -> (r: Vec<u8>)
    ensures
        r@ == task_line(*t),
{
    let mut out: Vec<u8> = Vec::new();
    push_all(&mut out, t.db.as_slice());
    push_all(&mut out, " ".as_bytes());
    let id_dec = u64_to_dec(t.task_id);
    push_all(&mut out, id_dec.as_slice());
    push_all(&mut out, " ".as_bytes());
    let ep_dec = u64_to_dec(t.epoch);
    push_all(&mut out, ep_dec.as_slice());
    push_all(&mut out, " ".as_bytes());
    if t.importing {
        push_all(&mut out, "IMPORTING".as_bytes());
    } else {
        push_all(&mut out, "MIGRATING".as_bytes());
    }
    push_all(&mut out, " ".as_bytes());
    push_all(&mut out, t.local_addr.as_slice());
    push_all(&mut out, " ".as_bytes());
    push_all(&mut out, t.peer_addr.as_slice());
    push_all(&mut out, " ".as_bytes());
    let s_dec = u64_to_dec(t.start as u64);
    push_all(&mut out, s_dec.as_slice());
    push_all(&mut out, "-".as_bytes());
    let e_dec = u64_to_dec(t.end as u64);
    push_all(&mut out, e_dec.as_slice());
    proof {
        assert(out@ =~= task_line(*t));
    }
    out
}

} // verus!
