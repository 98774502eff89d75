use vstd::prelude::*;
use crate::arena::{
    arena_get, arena_get_mut, arena_insert, arena_new, slot_count_of, slots_of, MachineArena,
    MachineKey,
};
use crate::error::{fatal, nondeterminism, ErrorKind, WFMachinesError};
use crate::event::{
    spec_initial_command_event_id, spec_is_command_event, spec_is_final_wf_execution_event,
    spec_marker_details, EventAttributes, EventType, HistoryEvent,
};
use crate::history::{after_next_wft_sequence, next_wft_sequence, wft_end, HistoryUpdate};
use crate::machine::{
    cancel_step, carries_effect, command_step, event_step, spec_cancelled_before_sent,
    spec_is_final, spec_matches_event, CancelEffect, Machine, MachineKind, MachineResponse,
    MachineState,
};
use crate::protocol::{
    same_command, CommandType, ExternalTarget, Job, NamespacedWorkflowExecution, ProtoCommand,
    WFCommand, WfActivation,
};
use std::collections::HashMap;
use std::collections::VecDeque;

verus! {

broadcast use vstd::std_specs::hash::group_hash_axioms;

/// The most machines one run may create.
pub const MAX_MACHINES: u64 = 0xffff_fff0;

/// A name for the 64-bit seed that the standard library's default hasher gives a string.
pub uninterp spec fn randomness_seed_of(s: Seq<char>) -> u64;

/// Relies on `BuildHasher::hash_one` with std's `DefaultHasher` (made by `DefaultHasher::new`,
/// which always starts from the same keys): the hash is a function of the string alone.
#[verifier::external_body]
fn default_hash_of_str(s: &str) -> (r: u64)
    ensures
        r == randomness_seed_of(s@),
{
    std::hash::BuildHasher::hash_one(
        &std::hash::BuildHasherDefault::<std::collections::hash_map::DefaultHasher>::default(),
        s,
    )
}

/// Derives the randomness seed of a run from its run id: the same run id gives the same
/// seed on every worker.
pub fn str_to_randomness_seed(run_id: &str) -> (r: u64)
    ensures
        r == randomness_seed_of(run_id@),
{
    default_hash_of_str(run_id)
}

/// A copy of a payload, byte for byte.
fn copy_payload(v: &Vec<u8>) -> (r: Vec<u8>)
    ensures
        r@ == v@,
{
    let mut out: Vec<u8> = Vec::new();
    let mut i: usize = 0;
    while i < v.len()
        invariant
            0 <= i <= v@.len(),
            out@ == v@.subrange(0, i as int),
        decreases v@.len() - i,
    {
        out.push(v[i]);
        i = i + 1;
        assert(out@ =~= v@.subrange(0, i as int));
    }
    assert(v@.subrange(0, v@.len() as int) =~= v@);
    out
}

/// A copy of a list of payloads.
fn copy_payloads(v: &Vec<Vec<u8>>) -> (r: Vec<Vec<u8>>)
    ensures
        r.deep_view() == v.deep_view(),
{
    let mut out: Vec<Vec<u8>> = Vec::new();
    let mut i: usize = 0;
    while i < v.len()
        invariant
            0 <= i <= v@.len(),
            out@.len() == i,
            forall|j: int| 0 <= j < i ==> (#[trigger] out@[j])@ == v@[j]@,
        decreases v@.len() - i,
    {
        out.push(copy_payload(&v[i]));
        i = i + 1;
    }
    assert(out.deep_view() =~= v.deep_view());
    out
}

/// A copy of a list of named payloads.
fn copy_headers(v: &Vec<(String, Vec<u8>)>) -> (r: Vec<(String, Vec<u8>)>)
    ensures
        r.deep_view() == v.deep_view(),
{
    let mut out: Vec<(String, Vec<u8>)> = Vec::new();
    let mut i: usize = 0;
    while i < v.len()
        invariant
            0 <= i <= v@.len(),
            out@.len() == i,
            forall|j: int|
                0 <= j < i ==> (#[trigger] out@[j]).0@ == v@[j].0@ && out@[j].1@ == v@[j].1@,
        decreases v@.len() - i,
    {
        let entry = (v[i].0.clone(), copy_payload(&v[i].1));
        out.push(entry);
        i = i + 1;
    }
    assert(out.deep_view() =~= v.deep_view());
    out
}

/// A command bound to the machine that owns it.
#[derive(Debug)]
pub struct CommandAndMachine {
    pub command: ProtoCommand,
    pub machine: MachineKey,
}

#[derive(Debug, Clone, Copy, PartialEq, Eq, Structural)]
pub struct ChangeInfo {
    pub deprecated: bool,
    pub created_command: bool,
}

/// What is known of one patch id.
#[derive(Debug)]
pub struct ChangeMarker {
    pub patch_id: String,
    pub info: ChangeInfo,
}

/// Identifies an operation by the workflow's own sequence numbers.
#[derive(Debug, Clone, Copy, PartialEq, Eq, Structural)]
pub enum CommandID {
    Timer(u32),
    Activity(u32),
    ChildWorkflowStart(u32),
    SignalExternal(u32),
    CancelExternal(u32),
}

/// The integer under which a command id is indexed: a kind tag above the sequence number.
pub open spec fn command_id_code(id: CommandID) -> u64 {
    match id {
        CommandID::Timer(s) => s as u64,
        CommandID::Activity(s) => (0x1_0000_0000u64 + s as u64) as u64,
        CommandID::ChildWorkflowStart(s) => (0x2_0000_0000u64 + s as u64) as u64,
        CommandID::SignalExternal(s) => (0x3_0000_0000u64 + s as u64) as u64,
        CommandID::CancelExternal(s) => (0x4_0000_0000u64 + s as u64) as u64,
    }
}

impl CommandID {
    pub fn code(&self) -> (r: u64)
        ensures
            r == command_id_code(*self),
    {
        match *self {
            CommandID::Timer(s) => s as u64,
            CommandID::Activity(s) => 0x1_0000_0000u64 + s as u64,
            CommandID::ChildWorkflowStart(s) => 0x2_0000_0000u64 + s as u64,
            CommandID::SignalExternal(s) => 0x3_0000_0000u64 + s as u64,
            CommandID::CancelExternal(s) => 0x4_0000_0000u64 + s as u64,
        }
    }
}

/// The workflow code's side: jobs wait here until the next activation drains them.
pub struct DrivenWorkflow {
    pub outgoing_jobs: Vec<Job>,
    /// Whether the start of the workflow was seen.
    pub started: bool,
}

impl DrivenWorkflow {
    pub fn new() -> (r: DrivenWorkflow)
        ensures
            r.outgoing_jobs@ == Seq::<Job>::empty(),
            !r.started,
    {
        DrivenWorkflow { outgoing_jobs: Vec::new(), started: false }
    }

    pub fn send_job(&mut self, j: Job)
        ensures
            final(self).outgoing_jobs@ == old(self).outgoing_jobs@.push(j),
            final(self).started == old(self).started,
    {
        self.outgoing_jobs.push(j);
    }

    /// Queues `jobs` in order after those already waiting.
    pub fn send_jobs(&mut self, jobs: Vec<Job>)
        ensures
            final(self).outgoing_jobs@ == old(self).outgoing_jobs@ + jobs@,
            final(self).started == old(self).started,
    {
        let ghost base = self.outgoing_jobs@;
        let ghost all = jobs@;
        let mut rest = jobs;
        while rest.len() > 0
            invariant
                self.outgoing_jobs@ + rest@ == base + all,
                self.started == old(self).started,
            decreases rest.len(),
        {
            let ghost before = self.outgoing_jobs@;
            let ghost r0 = rest@;
            let j = rest.remove(0);
            self.outgoing_jobs.push(j);
            assert(self.outgoing_jobs@ + rest@ =~= before + r0);
        }
        assert(self.outgoing_jobs@ =~= base + all);
    }

    pub fn drain_jobs(&mut self) -> (r: Vec<Job>)
        ensures
            r@ == old(self).outgoing_jobs@,
            final(self).outgoing_jobs@ == Seq::<Job>::empty(),
            final(self).started == old(self).started,
    {
        let mut out: Vec<Job> = Vec::new();
        std::mem::swap(&mut out, &mut self.outgoing_jobs);
        out
    }
}

/// The part of the coordinator that machine responses change.
pub struct Progress {
    pub jobs: Seq<Job>,
    pub started_event_id: i64,
    pub time: Option<u64>,
}

/// The workflow time after observing `t`: it never goes back.
pub open spec fn advance_time(cur: Option<u64>, t: u64) -> u64 {
    match cur {
        Some(c) => if c < t {
            t
        } else {
            c
        },
        None => t,
    }
}

pub open spec fn time_le(a: Option<u64>, b: Option<u64>) -> bool {
    match (a, b) {
        (None, _) => true,
        (Some(x), Some(y)) => x <= y,
        (Some(_), None) => false,
    }
}

pub open spec fn apply_response(p: Progress, r: MachineResponse) -> Result<Progress, ErrorKind> {
    match r {
        MachineResponse::PushWFJob(j) => Ok(Progress { jobs: p.jobs.push(j), ..p }),
        MachineResponse::TriggerWFTaskStarted { task_started_event_id, time } => Ok(
            Progress {
                started_event_id: task_started_event_id,
                time: Some(advance_time(p.time, time)),
                ..p
            },
        ),
        MachineResponse::UpdateRunIdOnWorkflowReset { run_id } => Ok(
            Progress {
                jobs: p.jobs.push(
                    Job::UpdateRandomSeed { randomness_seed: randomness_seed_of(run_id@) },
                ),
                ..p
            },
        ),
        MachineResponse::IssueNewCommand(_) => Err(ErrorKind::Fatal),
    }
}

/// Applying a machine's responses in order; the first that is out of place fails.
pub open spec fn apply_responses(p: Progress, rs: Seq<MachineResponse>) -> Result<
    Progress,
    ErrorKind,
>
    decreases rs.len(),
{
    if rs.len() == 0 {
        Ok(p)
    } else {
        match apply_response(p, rs[0]) {
            Ok(p2) => apply_responses(p2, rs.drop_first()),
            Err(k) => Err(k),
        }
    }
}

/// Handing event `e` to the machine under `key`: the registry and progress afterwards.
pub open spec fn dispatch_outcome(
    arena: Map<u64, Machine>,
    p: Progress,
    key: u64,
    e: HistoryEvent,
    has_next: bool,
) -> Result<(Map<u64, Machine>, Progress), ErrorKind> {
    let m = arena[key];
    match event_step(m, e, has_next) {
        Err(k) => Err(k),
        Ok((st, rs)) => match apply_responses(p, rs) {
            Err(k) => Err(k),
            Ok(p2) => Ok((arena.insert(key, (Machine { state: st, ..m })), p2)),
        },
    }
}

#[derive(Debug, Clone, Copy, PartialEq, Eq, Structural)]
pub enum ChangeMarkerOutcome {
    SkipEvent,
    SkipCommand,
    Normal,
}

/// How a command event is weighed against the machine at the head of the queue.
pub open spec fn marker_outcome(e: HistoryEvent, m: Machine) -> Result<
    ChangeMarkerOutcome,
    ErrorKind,
> {
    if !spec_matches_event(m, e) {
        match spec_marker_details(e) {
            Some((_, deprecated)) => if deprecated {
                Ok(ChangeMarkerOutcome::SkipEvent)
            } else {
                Err(ErrorKind::Nondeterminism)
            },
            None => if m.kind == MachineKind::Version {
                Ok(ChangeMarkerOutcome::SkipCommand)
            } else {
                Ok(ChangeMarkerOutcome::Normal)
            },
        }
    } else {
        Ok(ChangeMarkerOutcome::Normal)
    }
}

/// Special handling of patch markers while command events are matched to commands.
pub fn change_marker_handling(event: &HistoryEvent, mach: &Machine) -> (r: Result<
    ChangeMarkerOutcome,
    WFMachinesError,
>)
    ensures
        match r {
            Ok(o) => marker_outcome(*event, *mach) == Ok::<_, ErrorKind>(o),
            Err(e) => marker_outcome(*event, *mach) == Err::<ChangeMarkerOutcome, _>(
                e.spec_kind(),
            ),
        },
{
    if !mach.matches_event(event) {
        if let Some((_, deprecated)) = event.get_changed_marker_details() {
            // Deprecated markers may stand in history without a matching call.
            if deprecated {
                return Ok(ChangeMarkerOutcome::SkipEvent);
            }
            return Err(
                nondeterminism(
                    "Non-deprecated patch marker encountered, but there is no corresponding change command",
                ),
            );
        }
        // A version machine may have no marker of its own in history.
        if mach.kind() == MachineKind::Version {
            return Ok(ChangeMarkerOutcome::SkipCommand);
        }
    }
    Ok(ChangeMarkerOutcome::Normal)
}

/// Where a command event lands in the queue of commands.
pub enum Correlation {
    /// A deprecated marker with no command of its own: the commands before index `n` are
    /// dropped and the event is ignored.
    SkipEvent(int),
    /// The command at index `n` is consumed by the event; those before it are dropped.
    Consume(int),
    /// No command is left for the event.
    Missing,
    /// A non-deprecated patch marker meets the machine at index `n`; the commands before it
    /// are dropped.
    Mismatch(int),
}

/// The correlation of command event `e` with queue `q`, looking from index `i` on. Version
/// commands without a marker and commands cancelled before they were sent are passed over.
pub open spec fn correlate(
    q: Seq<CommandAndMachine>,
    arena: Map<u64, Machine>,
    e: HistoryEvent,
    i: int,
) -> Correlation
    decreases q.len() - i,
{
    if i < 0 || i >= q.len() {
        Correlation::Missing
    } else {
        let m = arena[q[i].machine.bits];
        match marker_outcome(e, m) {
            Err(_) => Correlation::Mismatch(i),
            Ok(ChangeMarkerOutcome::SkipEvent) => Correlation::SkipEvent(i),
            Ok(ChangeMarkerOutcome::SkipCommand) => correlate(q, arena, e, i + 1),
            Ok(ChangeMarkerOutcome::Normal) => if spec_cancelled_before_sent(m) {
                correlate(q, arena, e, i + 1)
            } else {
                Correlation::Consume(i)
            },
        }
    }
}

/// The index of machines by event id after `key` handled event `id`: kept while the machine
/// is live.
pub open spec fn reindexed(
    idx: Map<i64, MachineKey>,
    arena: Map<u64, Machine>,
    id: i64,
    key: MachineKey,
) -> Map<i64, MachineKey> {
    if spec_is_final(arena[key.bits]) {
        idx
    } else {
        idx.insert(id, key)
    }
}

pub open spec fn is_start_job(
    j: Job,
    workflow_type: Seq<char>,
    workflow_id: Seq<char>,
    seed: u64,
    input: Seq<Seq<u8>>,
    header: Seq<(Seq<char>, Seq<u8>)>,
) -> bool {
    match j {
        Job::StartWorkflow { workflow_type: t, workflow_id: w, arguments, randomness_seed, headers } => {
            &&& t@ == workflow_type
            &&& w@ == workflow_id
            &&& randomness_seed == seed
            &&& arguments.deep_view() == input
            &&& headers.deep_view() == header
        },
        _ => false,
    }
}

pub open spec fn is_signal_job(j: Job, name: Seq<char>) -> bool {
    match j {
        Job::SignalWorkflow { signal_name } => signal_name@ == name,
        _ => false,
    }
}

pub open spec fn is_cancel_job(j: Job, cause: Seq<char>) -> bool {
    match j {
        Job::CancelWorkflow { cause: c } => c@ == cause,
        _ => false,
    }
}

/// Replay ends at the first event past the previously handled task, other than the
/// completion of that task.
pub open spec fn replaying_after(s: WorkflowMachines, e: HistoryEvent) -> bool {
    s.replaying && !(s.current_started_event_id >= s.last_history_from_server.previous_started_event_id
        && e.event_type != EventType::WorkflowTaskCompleted)
}

/// The patch markers of a run of events, in order: patch id and deprecation.
pub open spec fn patch_markers(s: Seq<HistoryEvent>) -> Seq<(Seq<char>, bool)>
    decreases s.len(),
{
    if s.len() == 0 {
        seq![]
    } else {
        let rest = patch_markers(s.drop_last());
        match spec_marker_details(s.last()) {
            Some(d) => rest.push(d),
            None => rest,
        }
    }
}

pub open spec fn is_notify_job(j: Job, patch_id: Seq<char>) -> bool {
    match j {
        Job::NotifyHasPatch { patch_id: p } => p@ == patch_id,
        _ => false,
    }
}

/// `jobs` holds, from index `base` on, one `NotifyHasPatch` for each marker of `ms`.
pub open spec fn notifies(jobs: Seq<Job>, base: int, ms: Seq<(Seq<char>, bool)>) -> bool {
    &&& jobs.len() == base + ms.len()
    &&& forall|k: int| 0 <= k < ms.len() ==> is_notify_job(#[trigger] jobs[base + k], ms[k].0)
}

/// The patch knowledge a log of change markers holds; a later entry overrides an earlier.
pub open spec fn markers_view(v: Seq<ChangeMarker>) -> Map<Seq<char>, ChangeInfo>
    decreases v.len(),
{
    if v.len() == 0 {
        Map::empty()
    } else {
        markers_view(v.drop_last()).insert(v.last().patch_id@, v.last().info)
    }
}

/// The patch knowledge after pre-resolving markers `ms`: none has a command yet.
pub open spec fn with_pre_resolved(
    m: Map<Seq<char>, ChangeInfo>,
    ms: Seq<(Seq<char>, bool)>,
) -> Map<Seq<char>, ChangeInfo>
    decreases ms.len(),
{
    if ms.len() == 0 {
        m
    } else {
        with_pre_resolved(m, ms.drop_last()).insert(
            ms.last().0,
            ChangeInfo { deprecated: ms.last().1, created_command: false },
        )
    }
}

/// The events of the task after the cursor of `h`, which a pre-scan reads without taking.
pub open spec fn peeked_sequence(h: HistoryUpdate) -> Seq<HistoryEvent> {
    h.events@.subrange(0, wft_end(h.events@, 0))
}

/// `s0` is `pre` once the next task sequence is taken from the cursor: the started id it
/// ends on is the next one to reach, and an empty sequence ends replay.
pub open spec fn sequence_taken(pre: WorkflowMachines, s0: WorkflowMachines) -> bool {
    let evs = pre.last_history_from_server.events@;
    let seq = next_wft_sequence(evs, pre.current_started_event_id);
    &&& s0 == (WorkflowMachines {
        last_history_from_server: s0.last_history_from_server,
        next_started_event_id: if seq.len() > 0 && seq.last().event_type
            == EventType::WorkflowTaskStarted {
            seq.last().event_id
        } else {
            pre.next_started_event_id
        },
        replaying: if seq.len() == 0 {
            false
        } else {
            pre.replaying
        },
        ..pre
    })
    &&& s0.last_history_from_server.events@ == after_next_wft_sequence(
        evs,
        pre.current_started_event_id,
    )
    &&& s0.last_history_from_server.previous_started_event_id
        == pre.last_history_from_server.previous_started_event_id
}

/// The events of `seq` were handled in order through `states`, from the state in which the
/// sequence was taken; `k` events succeeded. Either the event after them failed and the run
/// stopped there with its error, or all succeeded and only the patch pre-scan followed.
pub open spec fn events_applied(
    pre: WorkflowMachines,
    post: WorkflowMachines,
    r: Result<(), WFMachinesError>,
    seq: Seq<HistoryEvent>,
    states: Seq<WorkflowMachines>,
    k: int,
) -> bool {
    &&& 0 <= k <= seq.len()
    &&& states.len() == k + 1
    &&& sequence_taken(pre, states[0])
    &&& forall|i: int|
        0 <= i < k ==> event_handled(
            #[trigger] states[i],
            states[i + 1],
            seq[i],
            i + 1 < seq.len(),
            Ok(()),
        )
    &&& k < seq.len() ==> r is Err && event_handled(states[k], post, seq[k], k + 1 < seq.len(), r)
    &&& k == seq.len() ==> r is Ok && post == (WorkflowMachines {
        drive_me: post.drive_me,
        encountered_change_markers: post.encountered_change_markers,
        ..states[k]
    }) && post.drive_me.started == states[k].drive_me.started
}

/// What applying the next task sequence does to a coordinator in state `pre`.
pub open spec fn applied_next_wft(
    pre: WorkflowMachines,
    post: WorkflowMachines,
    r: Result<(), WFMachinesError>,
) -> bool {
    let evs = pre.last_history_from_server.events@;
    let seq = next_wft_sequence(evs, pre.current_started_event_id);
    &&& post.wf()
    &&& time_le(pre.current_wf_time, post.current_wf_time)
    &&& !pre.replaying ==> !post.replaying
    &&& pre.have_seen_terminal_event ==> r is Ok && post == pre
    &&& !pre.have_seen_terminal_event ==> {
        &&& post.last_history_from_server.events@ == after_next_wft_sequence(
            evs,
            pre.current_started_event_id,
        )
        &&& seq.len() == 0 ==> r is Ok && !post.replaying
        &&& (pre.current_started_event_id == 0 && seq.len() > 0 && seq[0].event_id != 1) ==> (r
            matches Err(e) && e.spec_kind() == ErrorKind::CacheMiss && sequence_taken(pre, post))
        &&& (r matches Err(e) && e.spec_kind() == ErrorKind::CacheMiss) ==> (
        pre.current_started_event_id == 0 && seq.len() > 0 && seq[0].event_id != 1)
        &&& !(pre.current_started_event_id == 0 && seq.len() > 0 && seq[0].event_id != 1) ==> exists|
            states: Seq<WorkflowMachines>,
            k: int,
        | events_applied(pre, post, r, seq, states, k)
        &&& (r is Ok && seq.len() > 0 && seq.last().event_type == EventType::WorkflowTaskStarted)
            ==> post.current_started_event_id == seq.last().event_id
            && post.next_started_event_id == seq.last().event_id
        &&& r is Ok ==> {
            let ms = patch_markers(peeked_sequence(post.last_history_from_server));
            &&& markers_view(post.encountered_change_markers@) == with_pre_resolved(
                markers_view(pre.encountered_change_markers@),
                ms,
            )
            &&& exists|base: int| notifies(post.drive_me.outgoing_jobs@, base, ms)
        }
    }
}

/// The queued commands whose machines are still live, in queue order.
pub open spec fn live_commands(q: Seq<CommandAndMachine>, arena: Map<u64, Machine>) -> Seq<
    CommandAndMachine,
>
    decreases q.len(),
{
    if q.len() == 0 {
        seq![]
    } else {
        let rest = live_commands(q.drop_last(), arena);
        if spec_is_final(arena[q.last().machine.bits]) {
            rest
        } else {
            rest.push(q.last())
        }
    }
}

/// Preparing queue `q` for the service: each command whose machine was not cancelled before
/// it was sent is handed to its machine and kept, in order.
pub open spec fn prepare_from(arena: Map<u64, Machine>, q: Seq<CommandAndMachine>) -> Result<
    (Map<u64, Machine>, Seq<CommandAndMachine>),
    ErrorKind,
>
    decreases q.len(),
{
    if q.len() == 0 {
        Ok((arena, seq![]))
    } else {
        let c = q[0];
        let m = arena[c.machine.bits];
        if spec_cancelled_before_sent(m) {
            prepare_from(arena, q.drop_first())
        } else {
            match command_step(m, c.command.command_type) {
                Err(k) => Err(k),
                Ok(st) => match prepare_from(
                    arena.insert(c.machine.bits, (Machine { state: st, ..m })),
                    q.drop_first(),
                ) {
                    Ok((a, out)) => Ok((a, seq![c] + out)),
                    Err(k) => Err(k),
                },
            }
        }
    }
}

pub open spec fn after_prefix(
    done: Seq<CommandAndMachine>,
    r: Result<(Map<u64, Machine>, Seq<CommandAndMachine>), ErrorKind>,
) -> Result<(Map<u64, Machine>, Seq<CommandAndMachine>), ErrorKind> {
    match r {
        Ok((a, out)) => Ok((a, done + out)),
        Err(k) => Err(k),
    }
}

/// The patch knowledge after lang's `patched` call for `id` made its command.
pub open spec fn after_patch_command(
    m: Map<Seq<char>, ChangeInfo>,
    id: Seq<char>,
    deprecated: bool,
) -> Map<Seq<char>, ChangeInfo> {
    if m.contains_key(id) {
        m.insert(id, ChangeInfo { deprecated: m[id].deprecated, created_command: true })
    } else {
        m.insert(id, ChangeInfo { deprecated, created_command: true })
    }
}

/// Whether a command was already made for patch `id`.
pub open spec fn patch_command_made(m: Map<Seq<char>, ChangeInfo>, id: Seq<char>) -> bool {
    m.contains_key(id) && m[id].created_command
}

/// `post` is `pre` with one more command queued for the current task: a new machine of
/// `kind` for operation `seq`, indexed under command id `id`, with a command of type `ct`.
/// It succeeds exactly while the registry has room, and yields no job.
pub open spec fn creates_operation(
    pre: WorkflowMachines,
    post: WorkflowMachines,
    r: Result<Vec<Job>, WFMachinesError>,
    id: CommandID,
    kind: MachineKind,
    seq: u32,
    ct: CommandType,
) -> bool {
    &&& (pre.machine_count < MAX_MACHINES <==> r is Ok)
    &&& r is Err ==> post == pre
    &&& post == (WorkflowMachines {
        all_machines: post.all_machines,
        machine_count: post.machine_count,
        id_to_machine: post.id_to_machine,
        current_wf_task_commands: post.current_wf_task_commands,
        ..pre
    })
    &&& r matches Ok(jobs) ==> {
        let c = post.current_wf_task_commands@.last();
        let m = post.arena()[c.machine.bits];
        &&& jobs@.len() == 0
        &&& post.current_wf_task_commands@.drop_last() == pre.current_wf_task_commands@
        &&& post.current_wf_task_commands@.len() == pre.current_wf_task_commands@.len() + 1
        &&& c.command.command_type == ct
        &&& c.command.seq == seq
        &&& !pre.arena().contains_key(c.machine.bits)
        &&& post.arena() == pre.arena().insert(c.machine.bits, m)
        &&& m.kind == kind && m.seq == seq && m.state == MachineState::Created
        &&& post.id_to_machine@ == pre.id_to_machine@.insert(command_id_code(id), c.machine)
    }
}

/// The command aims at `t`: a child by workflow id within namespace `ns`, or the given
/// execution.
pub open spec fn aims_at(cmd: ProtoCommand, ns: Seq<char>, t: ExternalTarget) -> bool {
    match t {
        ExternalTarget::ChildWorkflowId(w) => cmd.only_child && match cmd.target {
            Some(we) => we.namespace@ == ns && we.workflow_id@ == w@ && we.run_id@.len() == 0,
            None => false,
        },
        ExternalTarget::WorkflowExecution(ex) => !cmd.only_child && cmd.target == Some(ex),
    }
}

/// Cancelling the operation with command id `id` took `pre` to `post` with result `r`.
pub open spec fn cancellation_applied(
    pre: WorkflowMachines,
    post: WorkflowMachines,
    id: CommandID,
    r: Result<Vec<Job>, WFMachinesError>,
) -> bool {
    &&& r is Err ==> post == pre
    &&& post == (WorkflowMachines {
        all_machines: post.all_machines,
        current_wf_task_commands: post.current_wf_task_commands,
        ..pre
    })
    &&& !pre.id_to_machine@.contains_key(command_id_code(id)) ==> (r matches Err(e)
        && e.spec_kind() == ErrorKind::Fatal)
    &&& pre.id_to_machine@.contains_key(command_id_code(id)) ==> {
        let key = pre.id_to_machine@[command_id_code(id)];
        let m = pre.arena()[key.bits];
        match cancel_step(m) {
            Err(k) => r matches Err(e) && e.spec_kind() == k,
            Ok((st, effects)) => match r {
                Ok(jobs) => {
                    &&& post.arena() == pre.arena().insert(key.bits, (Machine { state: st, ..m }))
                    &&& effects.len() == 0 ==> jobs@.len() == 0
                        && post.current_wf_task_commands@ == pre.current_wf_task_commands@
                    &&& effects.len() == 1 ==> match effects[0] {
                        CancelEffect::Job(j) => jobs@ == seq![j] && post.current_wf_task_commands@
                            == pre.current_wf_task_commands@,
                        CancelEffect::Command(ct) => {
                            let c = post.current_wf_task_commands@.last();
                            &&& jobs@.len() == 0
                            &&& post.current_wf_task_commands@.drop_last()
                                == pre.current_wf_task_commands@
                            &&& post.current_wf_task_commands@.len()
                                == pre.current_wf_task_commands@.len() + 1
                            &&& c.machine == key
                            &&& c.command.command_type == ct
                            &&& c.command.seq == m.seq
                        },
                    }
                },
                Err(_) => false,
            },
        }
    }
}

/// Lang's `patched(id)` call took `pre` to `post`; `ok` tells whether it succeeded.
pub open spec fn patch_marker_applied(
    pre: WorkflowMachines,
    post: WorkflowMachines,
    id: Seq<char>,
    deprecated: bool,
    ok: bool,
) -> bool {
    let known = markers_view(pre.encountered_change_markers@);
    &&& !ok ==> post == pre
    &&& post == (WorkflowMachines {
        all_machines: post.all_machines,
        machine_count: post.machine_count,
        current_wf_task_commands: post.current_wf_task_commands,
        encountered_change_markers: post.encountered_change_markers,
        ..pre
    })
    &&& patch_command_made(known, id) ==> ok && post == pre
    &&& !patch_command_made(known, id) ==> (pre.machine_count < MAX_MACHINES <==> ok)
    &&& (!patch_command_made(known, id) && ok) ==> {
        let c = post.current_wf_task_commands@.last();
        let m = post.arena()[c.machine.bits];
        &&& post.current_wf_task_commands@.drop_last() == pre.current_wf_task_commands@
        &&& post.current_wf_task_commands@.len() == pre.current_wf_task_commands@.len() + 1
        &&& m.kind == MachineKind::Version && m.patch_id@ == id
        &&& m.deprecated == deprecated && m.replaying == pre.replaying
        &&& c.command.command_type == CommandType::RecordMarker
        &&& c.command.name@ == id
        &&& markers_view(post.encountered_change_markers@) == after_patch_command(
            known,
            id,
            deprecated,
        )
    }
}

/// A command that ends the workflow took `pre` to `post`: its machine of `kind` is queued
/// and the run's end time is `now`.
pub open spec fn terminal_applied(
    pre: WorkflowMachines,
    post: WorkflowMachines,
    r: Result<Vec<Job>, WFMachinesError>,
    kind: MachineKind,
    ct: CommandType,
    now: u64,
) -> bool {
    &&& (pre.machine_count < MAX_MACHINES <==> r is Ok)
    &&& r is Err ==> post == pre
    &&& post == (WorkflowMachines {
        all_machines: post.all_machines,
        machine_count: post.machine_count,
        workflow_end_time: post.workflow_end_time,
        current_wf_task_commands: post.current_wf_task_commands,
        ..pre
    })
    &&& r matches Ok(jobs) ==> {
        let c = post.current_wf_task_commands@.last();
        &&& jobs@.len() == 0
        &&& !pre.arena().contains_key(c.machine.bits)
        &&& post.arena() == pre.arena().insert(c.machine.bits, post.arena()[c.machine.bits])
        &&& post.workflow_end_time == Some(now)
        &&& post.current_wf_task_commands@.drop_last() == pre.current_wf_task_commands@
        &&& post.current_wf_task_commands@.len() == pre.current_wf_task_commands@.len() + 1
        &&& c.command.command_type == ct
        &&& post.arena()[c.machine.bits].kind == kind
    }
}

/// What one command of the workflow code did: `pre` became `post` with result `r`; `now`
/// is the time a command that ends the workflow records.
pub open spec fn command_applied(
    pre: WorkflowMachines,
    post: WorkflowMachines,
    cmd: WFCommand,
    now: u64,
    r: Result<Vec<Job>, WFMachinesError>,
) -> bool {
    match cmd {
        WFCommand::NoCommandsFromLang => r matches Ok(jobs) && jobs@.len() == 0
            && post == pre,
        WFCommand::AddTimer { seq } => creates_operation(
            pre,
            post,
            r,
            CommandID::Timer(seq),
            MachineKind::Timer,
            seq,
            CommandType::StartTimer,
        ),
        WFCommand::CancelTimer { seq } => cancellation_applied(
            pre,
            post,
            CommandID::Timer(seq),
            r,
        ),
        WFCommand::AddActivity { seq, activity_id } => creates_operation(
            pre,
            post,
            r,
            CommandID::Activity(seq),
            MachineKind::Activity,
            seq,
            CommandType::ScheduleActivityTask,
        ) && (r is Ok ==> post.current_wf_task_commands@.last().command.name@
            == activity_id@),
        WFCommand::RequestCancelActivity { seq } => cancellation_applied(
            pre,
            post,
            CommandID::Activity(seq),
            r,
        ),
        WFCommand::CompleteWorkflow => terminal_applied(
            pre,
            post,
            r,
            MachineKind::CompleteWorkflow,
            CommandType::CompleteWorkflowExecution,
            now,
        ),
        WFCommand::FailWorkflow => terminal_applied(
            pre,
            post,
            r,
            MachineKind::FailWorkflow,
            CommandType::FailWorkflowExecution,
            now,
        ),
        WFCommand::ContinueAsNew => terminal_applied(
            pre,
            post,
            r,
            MachineKind::ContinueAsNew,
            CommandType::ContinueAsNewWorkflowExecution,
            now,
        ),
        WFCommand::CancelWorkflow => terminal_applied(
            pre,
            post,
            r,
            MachineKind::CancelWorkflow,
            CommandType::CancelWorkflowExecution,
            now,
        ),
        WFCommand::SetPatchMarker { patch_id, deprecated } => patch_marker_applied(
            pre,
            post,
            patch_id@,
            deprecated,
            r is Ok,
        ) && (r matches Ok(jobs) ==> jobs@.len() == 0),
        WFCommand::AddChildWorkflow { seq, workflow_id } => creates_operation(
            pre,
            post,
            r,
            CommandID::ChildWorkflowStart(seq),
            MachineKind::ChildWorkflow,
            seq,
            CommandType::StartChildWorkflowExecution,
        ) && (r is Ok ==> post.current_wf_task_commands@.last().command.name@
            == workflow_id@),
        WFCommand::CancelUnstartedChild { seq } => cancellation_applied(
            pre,
            post,
            CommandID::ChildWorkflowStart(seq),
            r,
        ),
        WFCommand::RequestCancelExternalWorkflow { seq, target } => match target {
            None => r matches Err(e) && e.spec_kind() == ErrorKind::Fatal,
            Some(t) => creates_operation(
                pre,
                post,
                r,
                CommandID::CancelExternal(seq),
                MachineKind::CancelExternal,
                seq,
                CommandType::RequestCancelExternalWorkflowExecution,
            ) && (r is Ok ==> aims_at(
                post.current_wf_task_commands@.last().command,
                pre.namespace@,
                t,
            )),
        },
        WFCommand::SignalExternalWorkflow { seq, signal_name, target } => match target {
            None => r matches Err(e) && e.spec_kind() == ErrorKind::Fatal,
            Some(t) => creates_operation(
                pre,
                post,
                r,
                CommandID::SignalExternal(seq),
                MachineKind::SignalExternal,
                seq,
                CommandType::SignalExternalWorkflowExecution,
            ) && (r is Ok ==> aims_at(
                post.current_wf_task_commands@.last().command,
                pre.namespace@,
                t,
            ) && post.current_wf_task_commands@.last().command.name@
                == signal_name@),
        },
        WFCommand::CancelSignalWorkflow { seq } => cancellation_applied(
            pre,
            post,
            CommandID::SignalExternal(seq),
            r,
        ),
        WFCommand::QueryResponse => r matches Err(e) && e.spec_kind() == ErrorKind::Fatal && post
            == pre,
    }
}

/// The commands `cmds` were carried out in order through the states `states`, command `i`
/// taking `states[i]` to `states[i + 1]` and yielding the jobs `outs[i]`.
pub open spec fn commands_applied(
    states: Seq<WorkflowMachines>,
    outs: Seq<Vec<Job>>,
    cmds: Seq<WFCommand>,
    now: u64,
) -> bool {
    &&& states.len() == cmds.len() + 1
    &&& outs.len() == cmds.len()
    &&& forall|i: int|
        0 <= i < cmds.len() ==> command_applied(
            #[trigger] states[i],
            states[i + 1],
            cmds[i],
            now,
            Ok(outs[i]),
        )
}

/// The jobs of `outs`, one list after another.
pub open spec fn all_jobs(outs: Seq<Vec<Job>>) -> Seq<Job>
    decreases outs.len(),
{
    if outs.len() == 0 {
        seq![]
    } else {
        all_jobs(outs.drop_last()) + outs.last()@
    }
}

/// What handling command event `e` did: it is matched against the queue of commands as
/// `correlate` says.
pub open spec fn command_event_handled(
    pre: WorkflowMachines,
    post: WorkflowMachines,
    e: HistoryEvent,
    r: Result<(), WFMachinesError>,
) -> bool {
    match correlate(pre.commands@, pre.arena(), e, 0) {
        Correlation::Missing => r matches Err(err) && err.spec_kind()
            == ErrorKind::Nondeterminism && post.commands@.len() == 0 && post == (
        WorkflowMachines { commands: post.commands, ..pre }),
        Correlation::Mismatch(n) => r matches Err(err) && err.spec_kind()
            == ErrorKind::Nondeterminism && post.commands@ == pre.commands@.subrange(
            n,
            pre.commands@.len() as int,
        ) && post == (WorkflowMachines { commands: post.commands, ..pre }),
        Correlation::SkipEvent(n) => r is Ok && post == (WorkflowMachines {
            commands: post.commands,
            ..pre
        }) && post.commands@ == pre.commands@.subrange(
            n,
            pre.commands@.len() as int,
        ),
        Correlation::Consume(n) => {
            let key = pre.commands@[n].machine;
            match dispatch_outcome(pre.arena(), pre.progress(), key.bits, e, true) {
                Err(k) => r matches Err(err) && err.spec_kind() == k,
                Ok((a, p)) => r is Ok && post.arena() == a && post.progress() == p
                    && post.commands@ == pre.commands@.subrange(
                    n + 1,
                    pre.commands@.len() as int,
                ) && post.machines_by_event_id@ == reindexed(
                    pre.machines_by_event_id@,
                    a,
                    e.event_id,
                    key,
                ) && post == (WorkflowMachines {
                    commands: post.commands,
                    all_machines: post.all_machines,
                    drive_me: post.drive_me,
                    current_started_event_id: post.current_started_event_id,
                    current_wf_time: post.current_wf_time,
                    machines_by_event_id: post.machines_by_event_id,
                    ..pre
                }),
            }
        },
    }
}

/// What handling an event that belongs to no machine of a command did.
pub open spec fn non_stateful_handled(
    pre: WorkflowMachines,
    post: WorkflowMachines,
    e: HistoryEvent,
    r: Result<(), WFMachinesError>,
) -> bool {
    &&& r is Err ==> post == pre
    &&& e.event_type != EventType::WorkflowTaskScheduled ==> post == (WorkflowMachines {
        run_id: post.run_id,
        workflow_start_time: post.workflow_start_time,
        drive_me: post.drive_me,
        ..pre
    })
    &&& e.event_type == EventType::WorkflowTaskScheduled ==> post == (WorkflowMachines {
        all_machines: post.all_machines,
        machine_count: post.machine_count,
        machines_by_event_id: post.machines_by_event_id,
        drive_me: post.drive_me,
        current_started_event_id: post.current_started_event_id,
        current_wf_time: post.current_wf_time,
        ..pre
    })
    &&& match e.event_type {
        EventType::WorkflowExecutionStarted => match e.attributes {
            EventAttributes::WorkflowExecutionStarted {
                workflow_type,
                original_execution_run_id,
                input,
                header,
            } => {
                &&& r is Ok
                &&& post.run_id@ == original_execution_run_id@
                &&& post.workflow_start_time == (if e.event_time is Some {
                    e.event_time
                } else {
                    pre.workflow_start_time
                })
                &&& post.drive_me.outgoing_jobs@.len()
                    == pre.drive_me.outgoing_jobs@.len() + 1
                &&& post.drive_me.outgoing_jobs@.drop_last()
                    == pre.drive_me.outgoing_jobs@
                &&& is_start_job(
                    post.drive_me.outgoing_jobs@.last(),
                    workflow_type@,
                    pre.workflow_id@,
                    randomness_seed_of(original_execution_run_id@),
                    input.deep_view(),
                    header.deep_view(),
                )
                &&& post.drive_me.started
                &&& post.arena() == pre.arena()
            },
            _ => r matches Err(err) && err.spec_kind() == ErrorKind::Fatal,
        },
        EventType::WorkflowTaskScheduled => if pre.machine_count < MAX_MACHINES {
            &&& r is Ok
            &&& exists|k: u64|
                {
                    &&& !pre.arena().contains_key(k)
                    &&& post.arena() == pre.arena().insert(
                        k,
                        post.arena()[k],
                    )
                    &&& post.arena()[k].kind == MachineKind::WorkflowTask
                    &&& post.arena()[k].state == MachineState::Scheduled
                    &&& post.arena()[k].expected_started_event_id
                        == pre.next_started_event_id
                    &&& post.machines_by_event_id@
                        == pre.machines_by_event_id@.insert(
                        e.event_id,
                        MachineKey { bits: k },
                    )
                }
            &&& post.progress() == pre.progress()
        } else {
            r matches Err(err) && err.spec_kind() == ErrorKind::Fatal
        },
        EventType::WorkflowExecutionSignaled => {
            &&& r is Ok
            &&& post.arena() == pre.arena()
            &&& match e.attributes {
                EventAttributes::WorkflowExecutionSignaled { signal_name } => {
                    &&& post.drive_me.outgoing_jobs@.drop_last()
                        == pre.drive_me.outgoing_jobs@
                    &&& post.drive_me.outgoing_jobs@.len()
                        == pre.drive_me.outgoing_jobs@.len() + 1
                    &&& is_signal_job(
                        post.drive_me.outgoing_jobs@.last(),
                        signal_name@,
                    )
                },
                _ => post.drive_me.outgoing_jobs@
                    == pre.drive_me.outgoing_jobs@,
            }
        },
        EventType::WorkflowExecutionCancelRequested => {
            &&& r is Ok
            &&& post.arena() == pre.arena()
            &&& match e.attributes {
                EventAttributes::WorkflowExecutionCancelRequested { cause } => {
                    &&& post.drive_me.outgoing_jobs@.drop_last()
                        == pre.drive_me.outgoing_jobs@
                    &&& post.drive_me.outgoing_jobs@.len()
                        == pre.drive_me.outgoing_jobs@.len() + 1
                    &&& is_cancel_job(post.drive_me.outgoing_jobs@.last(), cause@)
                },
                _ => post.drive_me.outgoing_jobs@
                    == pre.drive_me.outgoing_jobs@,
            }
        },
        _ => r matches Err(err) && err.spec_kind() == ErrorKind::Fatal,
    }
}

/// What handling event `e`, which continues the operation begun by event `id`, did.
pub open spec fn stateful_handled(
    pre: WorkflowMachines,
    post: WorkflowMachines,
    e: HistoryEvent,
    id: i64,
    has_next: bool,
    r: Result<(), WFMachinesError>,
) -> bool {
    if pre.machines_by_event_id@.contains_key(id) {
        let key = pre.machines_by_event_id@[id];
        match dispatch_outcome(pre.arena(), pre.progress(), key.bits, e, has_next) {
            Err(k) => r matches Err(err) && err.spec_kind() == k,
            Ok((a, p)) => {
                &&& r is Ok
                &&& post.arena() == a
                &&& post.progress() == p
                &&& post.machines_by_event_id@ == reindexed(
                    pre.machines_by_event_id@.remove(id),
                    a,
                    id,
                    key,
                )
                &&& post == (WorkflowMachines {
                    all_machines: post.all_machines,
                    drive_me: post.drive_me,
                    current_started_event_id: post.current_started_event_id,
                    current_wf_time: post.current_wf_time,
                    machines_by_event_id: post.machines_by_event_id,
                    ..pre
                })
            },
        }
    } else {
        &&& r matches Err(err) && err.spec_kind() == ErrorKind::Nondeterminism
        &&& post == (WorkflowMachines { machines_by_event_id: post.machines_by_event_id, ..pre })
        &&& post.machines_by_event_id@ == pre.machines_by_event_id@
    }
}

/// The coordinator as event `e` finds it once the terminal latch and the replay flag are
/// updated, before the event goes anywhere.
pub open spec fn event_seen(pre: WorkflowMachines, e: HistoryEvent) -> WorkflowMachines {
    WorkflowMachines {
        have_seen_terminal_event: pre.have_seen_terminal_event || spec_is_final_wf_execution_event(
            e.event_type,
        ),
        replaying: if spec_is_command_event(e.event_type) {
            pre.replaying
        } else {
            replaying_after(pre, e)
        },
        ..pre
    }
}

/// What handling event `e` of history did: a command event is matched against the queue,
/// an event that continues an operation goes to that operation's machine, and any other is
/// handled by the coordinator itself.
pub open spec fn event_handled(
    pre: WorkflowMachines,
    post: WorkflowMachines,
    e: HistoryEvent,
    has_next: bool,
    r: Result<(), WFMachinesError>,
) -> bool {
    let mid = event_seen(pre, e);
    if spec_is_command_event(e.event_type) {
        command_event_handled(mid, post, e, r)
    } else {
        match spec_initial_command_event_id(e) {
            Some(id) => stateful_handled(mid, post, e, id, has_next, r),
            None => non_stateful_handled(mid, post, e, r),
        }
    }
}

/// Drives one workflow run: replays history through per-operation machines, turns the
/// workflow's commands into machines, and matches commands against the events that record
/// them.
pub struct WorkflowMachines {
    pub last_history_from_server: HistoryUpdate,
    /// Event id of the last handled `WorkflowTaskStarted` event.
    pub current_started_event_id: i64,
    /// Event id of the next `WorkflowTaskStarted` event to process.
    pub next_started_event_id: i64,
    pub replaying: bool,
    pub namespace: String,
    pub workflow_id: String,
    pub run_id: String,
    /// Nanoseconds since the Unix epoch, from the started event.
    pub workflow_start_time: Option<u64>,
    /// Set when a terminal workflow command is accepted.
    pub workflow_end_time: Option<u64>,
    pub current_wf_time: Option<u64>,
    pub all_machines: MachineArena,
    /// How many machines were created; bounds the registry's slots.
    pub machine_count: u64,
    /// Machines by the id of the event that started them.
    pub machines_by_event_id: HashMap<i64, MachineKey>,
    /// Machines by `command_id_code` of the workflow's command id.
    pub id_to_machine: HashMap<u64, MachineKey>,
    /// Commands awaiting the events that record them.
    pub commands: VecDeque<CommandAndMachine>,
    /// Commands created while the current workflow task is handled.
    pub current_wf_task_commands: VecDeque<CommandAndMachine>,
    pub encountered_change_markers: Vec<ChangeMarker>,
    pub drive_me: DrivenWorkflow,
    /// Set once the event that ends the run was seen.
    pub have_seen_terminal_event: bool,
}

pub open spec fn queue_in_registry(q: Seq<CommandAndMachine>, arena: Map<u64, Machine>) -> bool {
    forall|i: int| 0 <= i < q.len() ==> arena.contains_key(#[trigger] q[i].machine.bits)
}

pub open spec fn index_in_registry<K>(m: Map<K, MachineKey>, arena: Map<u64, Machine>) -> bool {
    forall|k: K| m.contains_key(k) ==> arena.contains_key(#[trigger] m[k].bits)
}

pub proof fn lemma_queue_suffix(q: Seq<CommandAndMachine>, arena: Map<u64, Machine>, n: int)
    requires
        queue_in_registry(q, arena),
        0 <= n <= q.len(),
    ensures
        queue_in_registry(q.subrange(n, q.len() as int), arena),
{
    assert forall|j: int| 0 <= j < q.len() - n implies arena.contains_key(
        #[trigger] q.subrange(n, q.len() as int)[j].machine.bits,
    ) by {
        assert(q.subrange(n, q.len() as int)[j] == q[n + j]);
    }
}

/// A workflow task started event handled as the last of its sequence sets the current
/// started event id to its own.
pub proof fn lemma_last_started_event_sets_current(
    arena: Map<u64, Machine>,
    p: Progress,
    key: u64,
    e: HistoryEvent,
)
    requires
        e.event_type == EventType::WorkflowTaskStarted,
        dispatch_outcome(arena, p, key, e, false) is Ok,
    ensures
        dispatch_outcome(arena, p, key, e, false)->Ok_0.1.started_event_id == e.event_id,
{
    let m = arena[key];
    if m.kind == MachineKind::WorkflowTask {
        let (st, rs) = event_step(m, e, false)->Ok_0;
        let t = e.event_time->Some_0;
        let trig = MachineResponse::TriggerWFTaskStarted { task_started_event_id: e.event_id, time: t };
        assert(rs == seq![trig]);
        let p1 = apply_response(p, trig)->Ok_0;
        assert(rs.drop_first() =~= Seq::<MachineResponse>::empty());
        assert(apply_responses(p1, rs.drop_first()) == Ok::<Progress, ErrorKind>(p1));
        assert(apply_responses(p, rs) == Ok::<Progress, ErrorKind>(p1));
    }
}

/// Every command that `get_commands` hands out belongs to a machine that is not in a final
/// state, whatever state the run is in, finished or not.
pub proof fn lemma_live_commands_are_live(q: Seq<CommandAndMachine>, arena: Map<u64, Machine>)
    ensures
        forall|i: int|
            0 <= i < live_commands(q, arena).len() ==> !spec_is_final(
                #[trigger] arena[live_commands(q, arena)[i].machine.bits],
            ),
    decreases q.len(),
{
    if q.len() > 0 {
        lemma_live_commands_are_live(q.drop_last(), arena);
    }
}

/// A command event consumes exactly one queued command: the first, in the order the
/// workflow issued them, whose machine was not cancelled before it was sent and that is not
/// a version command passed over for want of its marker. Everything before it is dropped.
pub proof fn lemma_correlation_consumes_first_eligible(
    q: Seq<CommandAndMachine>,
    arena: Map<u64, Machine>,
    e: HistoryEvent,
    i: int,
)
    requires
        0 <= i,
    ensures
        correlate(q, arena, e, i) matches Correlation::Consume(n) ==> {
            &&& i <= n < q.len()
            &&& !spec_cancelled_before_sent(arena[q[n].machine.bits])
            &&& marker_outcome(e, arena[q[n].machine.bits]) == Ok::<_, ErrorKind>(
                ChangeMarkerOutcome::Normal,
            )
            &&& forall|j: int|
                i <= j < n ==> {
                    let m = #[trigger] arena[q[j].machine.bits];
                    spec_cancelled_before_sent(m) || marker_outcome(e, m) == Ok::<_, ErrorKind>(
                        ChangeMarkerOutcome::SkipCommand,
                    )
                }
        },
    decreases q.len() - i,
{
    if i < q.len() {
        lemma_correlation_consumes_first_eligible(q, arena, e, i + 1);
    }
}

/// A deprecated patch marker never contradicts the queue of commands: where no command
/// matches it, it is passed over, and it never raises the marker mismatch.
pub proof fn lemma_deprecated_marker_never_mismatches(
    q: Seq<CommandAndMachine>,
    arena: Map<u64, Machine>,
    e: HistoryEvent,
    i: int,
)
    requires
        0 <= i,
        spec_marker_details(e) matches Some((_, deprecated)) && deprecated,
    ensures
        !(correlate(q, arena, e, i) is Mismatch),
    decreases q.len() - i,
{
    if i < q.len() {
        lemma_deprecated_marker_never_mismatches(q, arena, e, i + 1);
    }
}

/// Workflow time never goes back across a run of calls: each mutating call keeps
/// `time_le` from its start to its end, and `time_le` chains.
pub proof fn lemma_time_never_goes_back(a: Option<u64>, b: Option<u64>, c: Option<u64>)
    requires
        time_le(a, b),
        time_le(b, c),
    ensures
        time_le(a, c),
{
}

impl WorkflowMachines {
    pub open spec fn arena(&self) -> Map<u64, Machine> {
        slots_of(self.all_machines)
    }

    pub open spec fn progress(&self) -> Progress {
        Progress {
            jobs: self.drive_me.outgoing_jobs@,
            started_event_id: self.current_started_event_id,
            time: self.current_wf_time,
        }
    }

    /// Every queued command and every index entry names a machine of the registry, and the
    /// registry has room accounted for.
    pub open spec fn wf(&self) -> bool {
        &&& queue_in_registry(self.commands@, self.arena())
        &&& queue_in_registry(self.current_wf_task_commands@, self.arena())
        &&& index_in_registry(self.machines_by_event_id@, self.arena())
        &&& index_in_registry(self.id_to_machine@, self.arena())
        &&& slot_count_of(self.all_machines) <= self.machine_count <= MAX_MACHINES
    }

    pub fn new(namespace: String, workflow_id: String, run_id: String, history: HistoryUpdate) -> (r:
        Self)
        ensures
            r.wf(),
            r.replaying == (history.previous_started_event_id > 0),
            r.last_history_from_server == history,
            r.namespace == namespace,
            r.workflow_id == workflow_id,
            r.run_id == run_id,
            r.current_started_event_id == 0,
            r.next_started_event_id == 0,
            r.workflow_start_time is None,
            r.workflow_end_time is None,
            r.current_wf_time is None,
            r.arena().dom() == Set::<u64>::empty(),
            r.commands@.len() == 0,
            r.current_wf_task_commands@.len() == 0,
            r.machines_by_event_id@.dom() == Set::<i64>::empty(),
            r.id_to_machine@.dom() == Set::<u64>::empty(),
            r.encountered_change_markers@.len() == 0,
            r.drive_me.outgoing_jobs@.len() == 0,
            !r.have_seen_terminal_event,
    {
        let replaying = history.previous_started_event_id > 0;
        let r = WorkflowMachines {
            last_history_from_server: history,
            current_started_event_id: 0,
            next_started_event_id: 0,
            replaying,
            namespace,
            workflow_id,
            run_id,
            workflow_start_time: None,
            workflow_end_time: None,
            current_wf_time: None,
            all_machines: arena_new(),
            machine_count: 0,
            machines_by_event_id: HashMap::new(),
            id_to_machine: HashMap::new(),
            commands: VecDeque::new(),
            current_wf_task_commands: VecDeque::new(),
            encountered_change_markers: Vec::new(),
            drive_me: DrivenWorkflow::new(),
            have_seen_terminal_event: false,
        };
        assert(r.machines_by_event_id@.dom() =~= Set::<i64>::empty());
        assert(r.id_to_machine@.dom() =~= Set::<u64>::empty());
        r
    }

    /// Whether a terminal workflow command was accepted.
    pub fn workflow_is_finished(&self) -> (r: bool)
        ensures
            r == self.workflow_end_time is Some,
    {
        self.workflow_end_time.is_some()
    }

    /// How long the run took, in nanoseconds; `None` while it runs, or if time went back.
    pub fn total_runtime(&self) -> (r: Option<u64>)
        ensures
            r == match (self.workflow_start_time, self.workflow_end_time) {
                (Some(st), Some(et)) => if et >= st {
                    Some((et - st) as u64)
                } else {
                    None
                },
                _ => None,
            },
    {
        match (self.workflow_start_time, self.workflow_end_time) {
            (Some(st), Some(et)) => if et >= st {
                Some(et - st)
            } else {
                None
            },
            _ => None,
        }
    }

    /// Moves workflow time to `time` unless it is already later; returns the new time.
    pub fn set_current_time(&mut self, time: u64) -> (r: u64)
        ensures
            r == advance_time(old(self).current_wf_time, time),
            final(self).current_wf_time == Some(r),
            *final(self) == (WorkflowMachines { current_wf_time: Some(r), ..*old(self) }),
    {
        let t = match self.current_wf_time {
            Some(c) => if c < time {
                time
            } else {
                c
            },
            None => time,
        };
        self.current_wf_time = Some(t);
        t
    }

    /// A workflow task started: track its event id and the time it carries.
    fn task_started(&mut self, task_started_event_id: i64, time: u64)
        ensures
            *final(self) == (WorkflowMachines {
                current_started_event_id: task_started_event_id,
                current_wf_time: Some(advance_time(old(self).current_wf_time, time)),
                ..*old(self)
            }),
    {
        self.current_started_event_id = task_started_event_id;
        self.set_current_time(time);
    }

    /// Acts on the responses of a machine: jobs go to lang, task starts move the clock.
    fn process_machine_responses(&mut self, responses: Vec<MachineResponse>) -> (r: Result<
        (),
        WFMachinesError,
    >)
        ensures
            r matches Err(e2) ==> e2.spec_kind() != ErrorKind::CacheMiss,
            match r {
                Ok(_) => apply_responses(old(self).progress(), responses@) == Ok::<_, ErrorKind>(
                    final(self).progress(),
                ),
                Err(e) => apply_responses(old(self).progress(), responses@) == Err::<Progress, _>(
                    e.spec_kind(),
                ),
            },
            *final(self) == (WorkflowMachines {
                drive_me: final(self).drive_me,
                current_started_event_id: final(self).current_started_event_id,
                current_wf_time: final(self).current_wf_time,
                ..*old(self)
            }),
            final(self).drive_me.started == old(self).drive_me.started,
            time_le(old(self).current_wf_time, final(self).current_wf_time),
    {
        let mut rs = responses;
        let ghost all = responses@;
        while rs.len() > 0
            invariant
                all == responses@,
                apply_responses(old(self).progress(), all) == apply_responses(self.progress(), rs@),
                *self == (WorkflowMachines {
                    drive_me: self.drive_me,
                    current_started_event_id: self.current_started_event_id,
                    current_wf_time: self.current_wf_time,
                    ..*old(self)
                }),
                self.drive_me.started == old(self).drive_me.started,
                time_le(old(self).current_wf_time, self.current_wf_time),
            decreases rs.len(),
        {
            let ghost before = rs@;
            let resp = rs.remove(0);
            assert(before.drop_first() =~= rs@);
            match resp {
                MachineResponse::PushWFJob(j) => {
                    self.drive_me.send_job(j);
                },
                MachineResponse::TriggerWFTaskStarted { task_started_event_id, time } => {
                    self.task_started(task_started_event_id, time);
                },
                MachineResponse::UpdateRunIdOnWorkflowReset { run_id } => {
                    // The run id itself stays as it is; only the seed follows the reset.
                    let seed = str_to_randomness_seed(run_id.as_str());
                    self.drive_me.send_job(Job::UpdateRandomSeed { randomness_seed: seed });
                },
                MachineResponse::IssueNewCommand(_) => {
                    return Err(fatal("Issue new command machine response not expected here"));
                },
            }
        }
        Ok(())
    }

    /// Hands event `e` to the machine under `key` and acts on its responses.
    fn submachine_handle_event(&mut self, key: MachineKey, e: &HistoryEvent, has_next_event: bool) -> (r:
        Result<(), WFMachinesError>)
        requires
            old(self).wf(),
            old(self).arena().contains_key(key.bits),
        ensures
            r matches Err(e2) ==> e2.spec_kind() != ErrorKind::CacheMiss,
            final(self).wf(),
            final(self).arena().dom() == old(self).arena().dom(),
            time_le(old(self).current_wf_time, final(self).current_wf_time),
            match r {
                Ok(_) => dispatch_outcome(
                    old(self).arena(),
                    old(self).progress(),
                    key.bits,
                    *e,
                    has_next_event,
                ) == Ok::<_, ErrorKind>((final(self).arena(), final(self).progress())),
                Err(err) => dispatch_outcome(
                    old(self).arena(),
                    old(self).progress(),
                    key.bits,
                    *e,
                    has_next_event,
                ) == Err::<(Map<u64, Machine>, Progress), _>(err.spec_kind()),
            },
            *final(self) == (WorkflowMachines {
                all_machines: final(self).all_machines,
                drive_me: final(self).drive_me,
                current_started_event_id: final(self).current_started_event_id,
                current_wf_time: final(self).current_wf_time,
                ..*old(self)
            }),
            final(self).drive_me.started == old(self).drive_me.started,
    {
        let (st, responses) = arena_get(&self.all_machines, key).handle_event(e, has_next_event)?;
        arena_get_mut(&mut self.all_machines, key).state = st;
        assert(self.arena().dom() =~= old(self).arena().dom());
        self.process_machine_responses(responses)
    }

    /// A command event: the event that records a command of the workflow. It consumes the
    /// command at the head of the queue, which must be the one it records.
    fn handle_command_event(&mut self, e: &HistoryEvent) -> (r: Result<(), WFMachinesError>)
        requires
            old(self).wf(),
        ensures
            r matches Err(e2) ==> e2.spec_kind() != ErrorKind::CacheMiss,
            final(self).wf(),
            final(self).arena().dom() == old(self).arena().dom(),
            time_le(old(self).current_wf_time, final(self).current_wf_time),
            final(self).drive_me.started == old(self).drive_me.started,
            final(self).have_seen_terminal_event == old(self).have_seen_terminal_event,
            final(self).last_history_from_server == old(self).last_history_from_server,
            final(self).next_started_event_id == old(self).next_started_event_id,
            final(self).workflow_end_time == old(self).workflow_end_time,
            final(self).replaying == old(self).replaying,
            final(self).encountered_change_markers == old(self).encountered_change_markers,
            command_event_handled(*old(self), *final(self), *e, r),
    {
        let ghost q0 = self.commands@;
        let ghost a0 = self.arena();
        let ghost p0 = self.progress();
        let ghost mut i: int = 0;
        let mut consumed: Option<MachineKey> = None;
        while consumed.is_none()
            invariant
                0 <= i <= q0.len(),
                self.wf(),
                self.arena().dom() == a0.dom(),
                a0 == old(self).arena(),
                p0 == old(self).progress(),
                q0 == old(self).commands@,
                queue_in_registry(q0, a0),
                self.commands@ == q0.subrange(i, q0.len() as int),
                consumed is None ==> correlate(q0, a0, *e, 0) == correlate(q0, a0, *e, i),
                consumed is None ==> *self == (WorkflowMachines {
                    commands: self.commands,
                    ..*old(self)
                }),
                consumed matches Some(k) ==> {
                    &&& i >= 1
                    &&& correlate(q0, a0, *e, 0) == Correlation::Consume(i - 1)
                    &&& k == q0[i - 1].machine
                    &&& dispatch_outcome(a0, p0, k.bits, *e, true) == Ok::<_, ErrorKind>(
                        (self.arena(), self.progress()),
                    )
                    &&& *self == (WorkflowMachines {
                        commands: self.commands,
                        all_machines: self.all_machines,
                        drive_me: self.drive_me,
                        current_started_event_id: self.current_started_event_id,
                        current_wf_time: self.current_wf_time,
                        ..*old(self)
                    })
                },
                time_le(old(self).current_wf_time, self.current_wf_time),
                self.drive_me.started == old(self).drive_me.started,
            decreases self.commands@.len(),
        {
            if self.commands.len() > 0 {
                let head = self.commands[0].machine;
                assert(self.commands@[0] == q0[i]);
                let outcome = change_marker_handling(e, arena_get(&self.all_machines, head))?;
                match outcome {
                    ChangeMarkerOutcome::SkipEvent => {
                        return Ok(());
                    },
                    ChangeMarkerOutcome::SkipCommand => {
                        let _ = self.commands.pop_front();
                        proof {
                            lemma_queue_suffix(q0, a0, i + 1);
                            i = i + 1;
                            assert(self.commands@ =~= q0.subrange(i, q0.len() as int));
                        }
                        continue ;
                    },
                    ChangeMarkerOutcome::Normal => {},
                }
            }
            let c = match self.commands.pop_front() {
                Some(c) => c,
                None => {
                    return Err(nondeterminism("No command scheduled for event"));
                },
            };
            proof {
                assert(c == q0[i]);
                lemma_queue_suffix(q0, a0, i + 1);
                i = i + 1;
                assert(self.commands@ =~= q0.subrange(i, q0.len() as int));
            }
            if !arena_get(&self.all_machines, c.machine).was_cancelled_before_sent_to_server() {
                self.submachine_handle_event(c.machine, e, true)?;
                consumed = Some(c.machine);
            }
        }
        let key = consumed.unwrap();
        if !arena_get(&self.all_machines, key).is_final_state() {
            self.machines_by_event_id.insert(e.event_id, key);
        }
        Ok(())
    }

    /// Events that belong to no machine of a command: the start of the run, a scheduled
    /// workflow task, and signals and cancel requests from outside.
    fn handle_non_stateful_event(&mut self, e: &HistoryEvent, has_next_event: bool) -> (r: Result<
        (),
        WFMachinesError,
    >)
        requires
            old(self).wf(),
        ensures
            r matches Err(e2) ==> e2.spec_kind() != ErrorKind::CacheMiss,
            final(self).wf(),
            old(self).arena().dom().subset_of(final(self).arena().dom()),
            time_le(old(self).current_wf_time, final(self).current_wf_time),
            final(self).replaying == old(self).replaying,
            final(self).commands == old(self).commands,
            final(self).current_wf_task_commands == old(self).current_wf_task_commands,
            final(self).have_seen_terminal_event == old(self).have_seen_terminal_event,
            final(self).last_history_from_server == old(self).last_history_from_server,
            final(self).next_started_event_id == old(self).next_started_event_id,
            final(self).workflow_end_time == old(self).workflow_end_time,
            final(self).encountered_change_markers == old(self).encountered_change_markers,
            e.event_type != EventType::WorkflowTaskScheduled ==> final(self).arena() == old(
                self,
            ).arena(),
            non_stateful_handled(*old(self), *final(self), *e, r),
    {
        match e.event_type {
            EventType::WorkflowExecutionStarted => {
                match &e.attributes {
                    EventAttributes::WorkflowExecutionStarted {
                        workflow_type,
                        original_execution_run_id,
                        input,
                        header,
                    } => {
                        self.run_id = original_execution_run_id.clone();
                        if let Some(t) = e.event_time {
                            self.workflow_start_time = Some(t);
                        }
                        let seed = str_to_randomness_seed(original_execution_run_id.as_str());
                        let job = Job::StartWorkflow {
                            workflow_type: workflow_type.clone(),
                            workflow_id: self.workflow_id.clone(),
                            arguments: copy_payloads(input),
                            randomness_seed: seed,
                            headers: copy_headers(header),
                        };
                        self.drive_me.send_job(job);
                        self.drive_me.started = true;
                        assert(self.drive_me.outgoing_jobs@.drop_last()
                            =~= old(self).drive_me.outgoing_jobs@);
                        Ok(())
                    },
                    _ => Err(
                        fatal("WorkflowExecutionStarted event did not have appropriate attributes"),
                    ),
                }
            },
            EventType::WorkflowTaskScheduled => {
                if self.machine_count >= MAX_MACHINES {
                    return Err(fatal("Too many machines for one workflow run"));
                }
                let key = arena_insert(
                    &mut self.all_machines,
                    Machine::workflow_task(self.next_started_event_id),
                );
                self.machine_count = self.machine_count + 1;
                let ghost mid = self.arena();
                assert(old(self).arena().dom().subset_of(mid.dom()));
                assert(self.wf());
                self.submachine_handle_event(key, e, has_next_event)?;
                self.machines_by_event_id.insert(e.event_id, key);
                assert(self.arena() == old(self).arena().insert(key.bits, self.arena()[key.bits]));
                Ok(())
            },
            EventType::WorkflowExecutionSignaled => {
                if let EventAttributes::WorkflowExecutionSignaled { signal_name } = &e.attributes {
                    self.drive_me.send_job(Job::SignalWorkflow { signal_name: signal_name.clone() });
                    assert(self.drive_me.outgoing_jobs@.drop_last()
                        =~= old(self).drive_me.outgoing_jobs@);
                }
                Ok(())
            },
            EventType::WorkflowExecutionCancelRequested => {
                if let EventAttributes::WorkflowExecutionCancelRequested { cause } = &e.attributes {
                    self.drive_me.send_job(Job::CancelWorkflow { cause: cause.clone() });
                    assert(self.drive_me.outgoing_jobs@.drop_last()
                        =~= old(self).drive_me.outgoing_jobs@);
                }
                Ok(())
            },
            _ => Err(
                fatal("The event is not a non-stateful event, but we tried to handle it as one"),
            ),
        }
    }

    /// Handles one event of history; `has_next_event` is false for the last event of the
    /// task sequence.
    pub fn handle_event(&mut self, e: &HistoryEvent, has_next_event: bool) -> (r: Result<
        (),
        WFMachinesError,
    >)
        requires
            old(self).wf(),
        ensures
            r matches Err(e2) ==> e2.spec_kind() != ErrorKind::CacheMiss,
            final(self).wf(),
            old(self).arena().dom().subset_of(final(self).arena().dom()),
            time_le(old(self).current_wf_time, final(self).current_wf_time),
            final(self).have_seen_terminal_event == (old(self).have_seen_terminal_event
                || spec_is_final_wf_execution_event(e.event_type)),
            final(self).last_history_from_server == old(self).last_history_from_server,
            final(self).next_started_event_id == old(self).next_started_event_id,
            final(self).workflow_end_time == old(self).workflow_end_time,
            final(self).encountered_change_markers == old(self).encountered_change_markers,
            final(self).replaying == event_seen(*old(self), *e).replaying,
            event_handled(*old(self), *final(self), *e, has_next_event, r),
    {
        if e.is_final_wf_execution_event() {
            self.have_seen_terminal_event = true;
        }
        if e.is_command_event() {
            assert(*self == event_seen(*old(self), *e));
            return self.handle_command_event(e);
        }
        if self.replaying && self.current_started_event_id
            >= self.last_history_from_server.previous_started_event_id && e.event_type
            != EventType::WorkflowTaskCompleted {
            // Replay is finished.
            self.replaying = false;
        }
        let ghost mid = *self;
        assert(mid == event_seen(*old(self), *e));
        match e.get_initial_command_event_id() {
            Some(initial_cmd_id) => {
                // The machine leaves the index while it handles the event, and comes back
                // only if it is still live.
                let maybe_machine = self.machines_by_event_id.remove(&initial_cmd_id);
                match maybe_machine {
                    Some(key) => {
                        assert(self.wf());
                        self.submachine_handle_event(key, e, has_next_event)?;
                        if !arena_get(&self.all_machines, key).is_final_state() {
                            self.machines_by_event_id.insert(initial_cmd_id, key);
                        }
                        Ok(())
                    },
                    None => {
                        let err = nondeterminism(
                            "During event handling, this event had an initial command ID but we could not find a matching command for it",
                        );
                        assert(self.machines_by_event_id@ =~= mid.machines_by_event_id@);
                        Err(err)
                    },
                }
            },
            None => self.handle_non_stateful_event(e, has_next_event),
        }
    }

    /// Applies the next task sequence of history: the events up to and including the next
    /// `WorkflowTaskStarted`. Then reads ahead into the following sequence for patch markers,
    /// so that lang learns of them before it asks.
    pub fn apply_next_wft_from_history(&mut self) -> (r: Result<(), WFMachinesError>)
        requires
            old(self).wf(),
        ensures
            applied_next_wft(*old(self), *final(self), r),
    {
        // Once the run's final event was seen, its last task must not be applied again.
        if self.have_seen_terminal_event {
            return Ok(());
        }
        let last_handled_wft_started_id = self.current_started_event_id;
        let events = self.last_history_from_server.take_next_wft_sequence(
            last_handled_wft_started_id,
        );
        // Caught up when there is nothing new.
        if events.len() == 0 {
            self.replaying = false;
        }
        if events.len() > 0 && events[events.len() - 1].event_type
            == EventType::WorkflowTaskStarted {
            self.next_started_event_id = events[events.len() - 1].event_id;
        }
        let first_event_id: i64 = if events.len() > 0 {
            events[0].event_id
        } else {
            0
        };
        // No state here, yet history does not begin at the start of the run.
        if self.current_started_event_id == 0 && first_event_id != 1 && events.len() > 0 {
            return Err(WFMachinesError::CacheMiss);
        }
        let ghost evs = events@;
        let ghost mut states: Seq<WorkflowMachines> = seq![*self];
        assert(sequence_taken(*old(self), *self));
        let n = events.len();
        let mut i: usize = 0;
        while i < n
            invariant
                states.len() == i + 1,
                sequence_taken(*old(self), states[0]),
                states.last() == *self,
                forall|j: int|
                    0 <= j < i ==> event_handled(
                        #[trigger] states[j],
                        states[j + 1],
                        evs[j],
                        j + 1 < evs.len(),
                        Ok(()),
                    ),
                n == evs.len(),
                events@ == evs,
                evs == next_wft_sequence(
                    old(self).last_history_from_server.events@,
                    old(self).current_started_event_id,
                ),
                !old(self).have_seen_terminal_event,
                !(old(self).current_started_event_id == 0 && n > 0 && evs[0].event_id != 1),
                0 <= i <= n,
                self.wf(),
                time_le(old(self).current_wf_time, self.current_wf_time),
                !old(self).replaying ==> !self.replaying,
                n == 0 ==> !self.replaying,
                self.last_history_from_server.events@ == after_next_wft_sequence(
                    old(self).last_history_from_server.events@,
                    old(self).current_started_event_id,
                ),
                n > 0 && evs.last().event_type == EventType::WorkflowTaskStarted
                    ==> self.next_started_event_id == evs.last().event_id,
                (i == n && n > 0 && evs.last().event_type == EventType::WorkflowTaskStarted)
                    ==> self.current_started_event_id == evs.last().event_id,
                self.encountered_change_markers == old(self).encountered_change_markers,
            decreases n - i,
        {
            let has_next = i + 1 < n;
            let ghost pre = *self;
            let res = self.handle_event(&events[i], has_next);
            if res.is_err() {
                proof {
                    assert(events_applied(*old(self), *self, res, evs, states, i as int));
                }
                return res;
            }
            proof {
                let states2 = states.push(*self);
                assert forall|j: int| 0 <= j < i + 1 implies event_handled(
                    #[trigger] states2[j],
                    states2[j + 1],
                    evs[j],
                    j + 1 < evs.len(),
                    Ok(()),
                ) by {
                    if j < i {
                        assert(states2[j] == states[j] && states2[j + 1] == states[j + 1]);
                    }
                }
                states = states2;
                let e = evs[i as int];
                if i + 1 == n && e.event_type == EventType::WorkflowTaskStarted {
                    assert(!spec_is_command_event(e.event_type));
                    let id = e.related_event_id;
                    assert(spec_initial_command_event_id(e) == Some(id));
                    let key = pre.machines_by_event_id@[id];
                    lemma_last_started_event_sets_current(pre.arena(), pre.progress(), key.bits, e);
                }
            }
            i = i + 1;
        }
        let ghost base = self.drive_me.outgoing_jobs@.len() as int;
        self.pre_resolve_patch_markers();
        assert(events_applied(*old(self), *self, Ok(()), evs, states, n as int));
        assert(notifies(
            self.drive_me.outgoing_jobs@,
            base,
            patch_markers(peeked_sequence(self.last_history_from_server)),
        ));
        Ok(())
    }

    /// Reads the next task sequence without taking it; each patch marker in it is recorded
    /// as known, without a command yet, and announced to lang.
    fn pre_resolve_patch_markers(&mut self)
        requires
            old(self).wf(),
        ensures
            final(self).wf(),
            *final(self) == (WorkflowMachines {
                drive_me: final(self).drive_me,
                encountered_change_markers: final(self).encountered_change_markers,
                ..*old(self)
            }),
            final(self).drive_me.started == old(self).drive_me.started,
            markers_view(final(self).encountered_change_markers@) == with_pre_resolved(
                markers_view(old(self).encountered_change_markers@),
                patch_markers(peeked_sequence(old(self).last_history_from_server)),
            ),
            notifies(
                final(self).drive_me.outgoing_jobs@,
                old(self).drive_me.outgoing_jobs@.len() as int,
                patch_markers(peeked_sequence(old(self).last_history_from_server)),
            ),
    {
        let ghost ev = self.last_history_from_server.events@;
        let ghost base = self.drive_me.outgoing_jobs@.len() as int;
        let ghost end = wft_end(ev, 0);
        proof {
            crate::history::lemma_wft_end_bounds(ev, 0);
        }
        let n = self.last_history_from_server.events.len();
        let mut j: usize = 0;
        let mut stop = false;
        while j < n && !stop
            invariant
                n == ev.len(),
                ev == self.last_history_from_server.events@,
                0 <= j <= end <= n,
                stop ==> j == end,
                !stop ==> wft_end(ev, j as int) == end,
                self.wf(),
                *self == (WorkflowMachines {
                    drive_me: self.drive_me,
                    encountered_change_markers: self.encountered_change_markers,
                    ..*old(self)
                }),
                self.drive_me.started == old(self).drive_me.started,
                base == old(self).drive_me.outgoing_jobs@.len(),
                markers_view(self.encountered_change_markers@) == with_pre_resolved(
                    markers_view(old(self).encountered_change_markers@),
                    patch_markers(ev.subrange(0, j as int)),
                ),
                notifies(self.drive_me.outgoing_jobs@, base, patch_markers(ev.subrange(0, j as int))),
                self.drive_me.outgoing_jobs@.subrange(0, base) == old(self).drive_me.outgoing_jobs@,
            decreases n - j,
        {
            let ghost ms0 = patch_markers(ev.subrange(0, j as int));
            let ghost jobs0 = self.drive_me.outgoing_jobs@;
            let ghost log0 = self.encountered_change_markers@;
            let details = self.last_history_from_server.events[j].get_changed_marker_details();
            stop = self.last_history_from_server.events[j].event_type
                == EventType::WorkflowTaskStarted;
            proof {
                crate::history::lemma_wft_end_bounds(ev, j as int);
                assert(ev.subrange(0, j + 1).drop_last() =~= ev.subrange(0, j as int));
                assert(ev.subrange(0, j + 1).last() == ev[j as int]);
            }
            if let Some((patch_id, deprecated)) = details {
                let info = ChangeInfo { deprecated, created_command: false };
                self.encountered_change_markers.push(
                    ChangeMarker { patch_id: patch_id.clone(), info },
                );
                self.drive_me.send_job(Job::NotifyHasPatch { patch_id });
                proof {
                    let ms1 = patch_markers(ev.subrange(0, j + 1));
                    assert(ms1 == ms0.push((patch_id@, deprecated)));
                    assert(ms1.drop_last() =~= ms0);
                    assert(self.encountered_change_markers@.drop_last() =~= log0);
                    assert forall|k: int| 0 <= k < ms1.len() implies is_notify_job(
                        #[trigger] self.drive_me.outgoing_jobs@[base + k],
                        ms1[k].0,
                    ) by {
                        if k < ms0.len() {
                            assert(self.drive_me.outgoing_jobs@[base + k] == jobs0[base + k]);
                        }
                    }
                    assert(self.drive_me.outgoing_jobs@.subrange(0, base) =~= jobs0.subrange(0, base));
                }
            }
            j = j + 1;
        }
        proof {
            assert(ev.subrange(0, j as int) == peeked_sequence(old(self).last_history_from_server));
        }
    }

    /// Takes a new page of history from the service and applies its next task sequence.
    pub fn new_history_from_server(&mut self, update: HistoryUpdate) -> (r: Result<
        (),
        WFMachinesError,
    >)
        requires
            old(self).wf(),
        ensures
            applied_next_wft(
                (WorkflowMachines {
                    last_history_from_server: update,
                    replaying: update.previous_started_event_id > 0,
                    ..*old(self)
                }),
                *final(self),
                r,
            ),
    {
        self.replaying = update.previous_started_event_id > 0;
        self.last_history_from_server = update;
        self.apply_next_wft_from_history()
    }

    /// The commands to send to the service: the queued ones whose machines are still live.
    /// They stay queued until the events that record them arrive.
    pub fn get_commands(&self) -> (r: Vec<ProtoCommand>)
        requires
            self.wf(),
        ensures
            r@.len() == live_commands(self.commands@, self.arena()).len(),
            forall|i: int|
                0 <= i < r@.len() ==> same_command(
                    #[trigger] r@[i],
                    live_commands(self.commands@, self.arena())[i].command,
                ),
    {
        let ghost q = self.commands@;
        let ghost a = self.arena();
        let mut out: Vec<ProtoCommand> = Vec::new();
        let mut i: usize = 0;
        while i < self.commands.len()
            invariant
                q == self.commands@,
                a == self.arena(),
                queue_in_registry(q, a),
                0 <= i <= q.len(),
                out@.len() == live_commands(q.subrange(0, i as int), a).len(),
                forall|k: int|
                    0 <= k < out@.len() ==> same_command(
                        #[trigger] out@[k],
                        live_commands(q.subrange(0, i as int), a)[k].command,
                    ),
            decreases q.len() - i,
        {
            let c = &self.commands[i];
            let ghost before = out@;
            proof {
                assert(q.subrange(0, i + 1).drop_last() =~= q.subrange(0, i as int));
                assert(q.subrange(0, i + 1).last() == q[i as int]);
                assert(a.contains_key(q[i as int].machine.bits));
            }
            if !arena_get(&self.all_machines, c.machine).is_final_state() {
                out.push(c.command.duplicate());
                proof {
                    assert forall|k: int| 0 <= k < out@.len() implies same_command(
                        #[trigger] out@[k],
                        live_commands(q.subrange(0, i + 1), a)[k].command,
                    ) by {
                        if k < before.len() {
                            assert(out@[k] == before[k]);
                        }
                    }
                }
            }
            i = i + 1;
        }
        assert(q.subrange(0, q.len() as int) =~= q);
        out
    }

    /// The next activation for lang: the jobs waiting so far, with the workflow time, the
    /// replay flag and the run id. Nothing else moves.
    pub fn get_wf_activation(&mut self) -> (r: WfActivation)
        ensures
            r.jobs@ == old(self).drive_me.outgoing_jobs@,
            r.timestamp == old(self).current_wf_time,
            r.is_replaying == old(self).replaying,
            r.run_id@ == old(self).run_id@,
            final(self).drive_me.outgoing_jobs@.len() == 0,
            *final(self) == (WorkflowMachines { drive_me: final(self).drive_me, ..*old(self) }),
            final(self).drive_me.started == old(self).drive_me.started,
    {
        let jobs = self.drive_me.drain_jobs();
        WfActivation {
            timestamp: self.current_wf_time,
            is_replaying: self.replaying,
            run_id: self.run_id.clone(),
            jobs,
        }
    }

    /// Moves the commands of the current task to the queue that awaits their events. Each
    /// machine that was not cancelled before its command was sent takes its command.
    fn prepare_commands(&mut self) -> (r: Result<(), WFMachinesError>)
        requires
            old(self).wf(),
        ensures
            final(self).wf(),
            final(self).arena().dom() == old(self).arena().dom(),
            match prepare_from(old(self).arena(), old(self).current_wf_task_commands@) {
                Ok((a, out)) => r is Ok && final(self).arena() == a
                    && final(self).commands@ == old(self).commands@ + out
                    && final(self).current_wf_task_commands@.len() == 0,
                Err(k) => r matches Err(e) && e.spec_kind() == k,
            },
            *final(self) == (WorkflowMachines {
                all_machines: final(self).all_machines,
                commands: final(self).commands,
                current_wf_task_commands: final(self).current_wf_task_commands,
                ..*old(self)
            }),
    {
        let ghost q0 = self.current_wf_task_commands@;
        let ghost a0 = self.arena();
        let ghost mut done: Seq<CommandAndMachine> = seq![];
        while self.current_wf_task_commands.len() > 0
            invariant
                self.wf(),
                self.arena().dom() == a0.dom(),
                a0 == old(self).arena(),
                q0 == old(self).current_wf_task_commands@,
                prepare_from(a0, q0) == after_prefix(
                    done,
                    prepare_from(self.arena(), self.current_wf_task_commands@),
                ),
                self.commands@ == old(self).commands@ + done,
                *self == (WorkflowMachines {
                    all_machines: self.all_machines,
                    commands: self.commands,
                    current_wf_task_commands: self.current_wf_task_commands,
                    ..*old(self)
                }),
            decreases self.current_wf_task_commands@.len(),
        {
            let ghost q = self.current_wf_task_commands@;
            let ghost a = self.arena();
            let c = self.current_wf_task_commands.pop_front().unwrap();
            proof {
                assert(q.drop_first() =~= self.current_wf_task_commands@);
                lemma_queue_suffix(q, a, 1);
                assert(self.current_wf_task_commands@ =~= q.subrange(1, q.len() as int));
            }
            if !arena_get(&self.all_machines, c.machine).was_cancelled_before_sent_to_server() {
                let st = arena_get(&self.all_machines, c.machine).handle_command(
                    c.command.command_type(),
                )?;
                arena_get_mut(&mut self.all_machines, c.machine).state = st;
                proof {
                    assert(self.arena().dom() =~= a.dom());
                    assert(seq![c] + prepare_from(self.arena(), q.drop_first())->Ok_0.1 =~= seq![c]
                        + prepare_from(self.arena(), q.drop_first())->Ok_0.1);
                }
                self.commands.push_back(c);
                proof {
                    assert(done + seq![c] == done.push(c));
                    match prepare_from(self.arena(), self.current_wf_task_commands@) {
                        Ok((a2, out)) => {
                            assert(done + (seq![c] + out) =~= done.push(c) + out);
                        },
                        Err(_) => {},
                    }
                    done = done.push(c);
                    assert(self.commands@ =~= old(self).commands@ + done);
                }
            }
        }
        proof {
            assert(done + Seq::<CommandAndMachine>::empty() =~= done);
        }
        Ok(())
    }

    /// The machine that the workflow's command id names.
    fn get_machine_key(&self, id: CommandID) -> (r: Result<MachineKey, WFMachinesError>)
        ensures
            match r {
                Ok(k) => self.id_to_machine@.contains_key(command_id_code(id))
                    && k == self.id_to_machine@[command_id_code(id)],
                Err(e) => !self.id_to_machine@.contains_key(command_id_code(id))
                    && e.spec_kind() == ErrorKind::Fatal,
            },
    {
        match self.id_to_machine.get(&id.code()) {
            Some(k) => Ok(*k),
            None => Err(fatal("Missing associated machine for command id")),
        }
    }

    /// Registers a new machine together with its command.
    fn add_new_command_machine(&mut self, machine: Machine, command: ProtoCommand) -> (r: Result<
        CommandAndMachine,
        WFMachinesError,
    >)
        requires
            old(self).wf(),
        ensures
            final(self).wf(),
            old(self).machine_count < MAX_MACHINES <==> r is Ok,
            match r {
                Ok(c) => {
                    &&& !old(self).arena().contains_key(c.machine.bits)
                    &&& final(self).arena() == old(self).arena().insert(c.machine.bits, machine)
                    &&& c.command == command
                    &&& *final(self) == (WorkflowMachines {
                        all_machines: final(self).all_machines,
                        machine_count: final(self).machine_count,
                        ..*old(self)
                    })
                },
                Err(e) => e.spec_kind() == ErrorKind::Fatal && *final(self) == *old(self),
            },
    {
        if self.machine_count >= MAX_MACHINES {
            return Err(fatal("Too many machines for one workflow run"));
        }
        let k = arena_insert(&mut self.all_machines, machine);
        self.machine_count = self.machine_count + 1;
        Ok(CommandAndMachine { command, machine: k })
    }

    /// Queues a new operation of the workflow and indexes it by its command id.
    fn add_indexed_command(&mut self, id: CommandID, machine: Machine, command: ProtoCommand) -> (r:
        Result<(), WFMachinesError>)
        requires
            old(self).wf(),
        ensures
            final(self).wf(),
            old(self).machine_count < MAX_MACHINES <==> r is Ok,
            old(self).arena().dom().subset_of(final(self).arena().dom()),
            r is Err ==> *final(self) == *old(self),
            r is Ok ==> {
                let c = final(self).current_wf_task_commands@.last();
                &&& final(self).current_wf_task_commands@.drop_last()
                    == old(self).current_wf_task_commands@
                &&& final(self).current_wf_task_commands@.len()
                    == old(self).current_wf_task_commands@.len() + 1
                &&& c.command == command
                &&& !old(self).arena().contains_key(c.machine.bits)
                &&& final(self).arena() == old(self).arena().insert(c.machine.bits, machine)
                &&& final(self).id_to_machine@ == old(self).id_to_machine@.insert(
                    command_id_code(id),
                    c.machine,
                )
            },
            *final(self) == (WorkflowMachines {
                all_machines: final(self).all_machines,
                machine_count: final(self).machine_count,
                id_to_machine: final(self).id_to_machine,
                current_wf_task_commands: final(self).current_wf_task_commands,
                ..*old(self)
            }),
    {
        let c = self.add_new_command_machine(machine, command)?;
        self.id_to_machine.insert(id.code(), c.machine);
        self.current_wf_task_commands.push_back(c);
        assert(self.current_wf_task_commands@.drop_last() =~= old(self).current_wf_task_commands@);
        Ok(())
    }

    /// Queues the command that ends the workflow; the run's end time is `now`.
    fn add_terminal_command(&mut self, kind: MachineKind, command_type: CommandType, now: u64) -> (r:
        Result<(), WFMachinesError>)
        requires
            old(self).wf(),
        ensures
            final(self).wf(),
            old(self).machine_count < MAX_MACHINES <==> r is Ok,
            old(self).arena().dom().subset_of(final(self).arena().dom()),
            r is Err ==> *final(self) == *old(self),
            r is Ok ==> !old(self).arena().contains_key(
                final(self).current_wf_task_commands@.last().machine.bits,
            ) && final(self).arena() == old(self).arena().insert(
                final(self).current_wf_task_commands@.last().machine.bits,
                final(self).arena()[final(self).current_wf_task_commands@.last().machine.bits],
            ),
            r is Ok ==> final(self).workflow_end_time == Some(now)
                && final(self).current_wf_task_commands@.len()
                == old(self).current_wf_task_commands@.len() + 1
                && final(self).arena()[final(self).current_wf_task_commands@.last().machine.bits].kind
                == kind && final(self).current_wf_task_commands@.drop_last()
                == old(self).current_wf_task_commands@
                && final(self).current_wf_task_commands@.last().command.command_type == command_type,
            *final(self) == (WorkflowMachines {
                all_machines: final(self).all_machines,
                machine_count: final(self).machine_count,
                workflow_end_time: final(self).workflow_end_time,
                current_wf_task_commands: final(self).current_wf_task_commands,
                ..*old(self)
            }),
    {
        let command = ProtoCommand {
            command_type,
            seq: 0,
            name: String::new(),
            target: None,
            only_child: false,
        };
        let c = self.add_new_command_machine(Machine::for_command(kind, 0), command)?;
        self.workflow_end_time = Some(now);
        self.current_wf_task_commands.push_back(c);
        assert(self.current_wf_task_commands@.drop_last() =~= old(self).current_wf_task_commands@);
        Ok(())
    }

    /// What is known of patch `patch_id`.
    pub fn find_change_info(&self, patch_id: &String) -> (r: Option<ChangeInfo>)
        ensures
            match r {
                Some(ci) => markers_view(self.encountered_change_markers@).contains_key(patch_id@)
                    && markers_view(self.encountered_change_markers@)[patch_id@] == ci,
                None => !markers_view(self.encountered_change_markers@).contains_key(patch_id@),
            },
    {
        let ghost v = self.encountered_change_markers@;
        let mut found: Option<ChangeInfo> = None;
        let mut i: usize = 0;
        while i < self.encountered_change_markers.len()
            invariant
                v == self.encountered_change_markers@,
                0 <= i <= v.len(),
                match found {
                    Some(ci) => markers_view(v.subrange(0, i as int)).contains_key(patch_id@)
                        && markers_view(v.subrange(0, i as int))[patch_id@] == ci,
                    None => !markers_view(v.subrange(0, i as int)).contains_key(patch_id@),
                },
            decreases v.len() - i,
        {
            proof {
                assert(v.subrange(0, i + 1).drop_last() =~= v.subrange(0, i as int));
                assert(v.subrange(0, i + 1).last() == v[i as int]);
            }
            if self.encountered_change_markers[i].patch_id == *patch_id {
                found = Some(self.encountered_change_markers[i].info);
            }
            i = i + 1;
        }
        assert(v.subrange(0, v.len() as int) =~= v);
        found
    }

    /// Lang's `patched` call: a version machine and its marker command are made, unless one
    /// was already made for this patch id.
    fn set_patch_marker(&mut self, patch_id: String, deprecated: bool) -> (r: Result<
        (),
        WFMachinesError,
    >)
        requires
            old(self).wf(),
        ensures
            final(self).wf(),
            old(self).arena().dom().subset_of(final(self).arena().dom()),
            patch_marker_applied(*old(self), *final(self), patch_id@, deprecated, r is Ok),
            *final(self) == (WorkflowMachines {
                all_machines: final(self).all_machines,
                machine_count: final(self).machine_count,
                current_wf_task_commands: final(self).current_wf_task_commands,
                encountered_change_markers: final(self).encountered_change_markers,
                ..*old(self)
            }),
    {
        let known = self.find_change_info(&patch_id);
        let made = match known {
            Some(ci) => ci.created_command,
            None => false,
        };
        if made {
            return Ok(());
        }
        let machine = Machine::version(patch_id.clone(), self.replaying, deprecated);
        let command = ProtoCommand {
            command_type: CommandType::RecordMarker,
            seq: 0,
            name: patch_id.clone(),
            target: None,
            only_child: false,
        };
        let c = self.add_new_command_machine(machine, command)?;
        self.current_wf_task_commands.push_back(c);
        let info = match known {
            Some(ci) => ChangeInfo { deprecated: ci.deprecated, created_command: true },
            None => ChangeInfo { deprecated, created_command: true },
        };
        let ghost log0 = self.encountered_change_markers@;
        self.encountered_change_markers.push(ChangeMarker { patch_id, info });
        assert(self.encountered_change_markers@.drop_last() =~= log0);
        assert(self.current_wf_task_commands@.drop_last() =~= old(self).current_wf_task_commands@);
        Ok(())
    }

    /// Cancels the operation with command id `id`. A cancel command it asks for joins the
    /// current task's commands; a job it yields is returned for the next activation.
    fn process_cancellation(&mut self, id: CommandID) -> (r: Result<Vec<Job>, WFMachinesError>)
        requires
            old(self).wf(),
        ensures
            final(self).wf(),
            final(self).arena().dom() == old(self).arena().dom(),
            cancellation_applied(*old(self), *final(self), id, r),
            *final(self) == (WorkflowMachines {
                all_machines: final(self).all_machines,
                current_wf_task_commands: final(self).current_wf_task_commands,
                ..*old(self)
            }),
    {
        let key = self.get_machine_key(id)?;
        let ghost m = self.arena()[key.bits];
        let (st, responses) = arena_get(&self.all_machines, key).cancel()?;
        arena_get_mut(&mut self.all_machines, key).state = st;
        assert(self.arena().dom() =~= old(self).arena().dom());
        let ghost effects = cancel_step(m)->Ok_0.1;
        let mut jobs: Vec<Job> = Vec::new();
        let mut rs = responses;
        let ghost all = rs@;
        let ghost q0 = self.current_wf_task_commands@;
        let ghost a1 = self.arena();
        let ghost mid = *self;
        while rs.len() > 0
            invariant
                self.wf(),
                self.arena() == a1,
                a1.contains_key(key.bits),
                all.len() == effects.len(),
                effects.len() <= 1,
                forall|i: int| 0 <= i < all.len() ==> carries_effect(m, #[trigger] all[i], effects[i]),
                rs@.len() <= all.len(),
                rs@.len() == 1 ==> rs@[0] == all[0],
                rs@.len() == all.len() ==> jobs@.len() == 0 && self.current_wf_task_commands@ == q0,
                (rs@.len() == 0 && all.len() == 1) ==> match effects[0] {
                    CancelEffect::Job(j) => jobs@ == seq![j] && self.current_wf_task_commands@
                        == q0,
                    CancelEffect::Command(ct) => {
                        let c = self.current_wf_task_commands@.last();
                        &&& jobs@.len() == 0
                        &&& self.current_wf_task_commands@.drop_last() == q0
                        &&& self.current_wf_task_commands@.len() == q0.len() + 1
                        &&& c.machine == key
                        &&& c.command.command_type == ct
                        &&& c.command.seq == m.seq
                    },
                },
                *self == (WorkflowMachines {
                    current_wf_task_commands: self.current_wf_task_commands,
                    ..mid
                }),
            decreases rs.len(),
        {
            let resp = rs.remove(0);
            match resp {
                MachineResponse::IssueNewCommand(c) => {
                    self.current_wf_task_commands.push_back(
                        CommandAndMachine { command: c, machine: key },
                    );
                    assert(self.current_wf_task_commands@.drop_last() =~= q0);
                },
                MachineResponse::PushWFJob(j) => {
                    jobs.push(j);
                    assert(jobs@ =~= seq![j]);
                },
                _ => {
                    return Err(fatal("Unexpected machine response when cancelling"));
                },
            }
        }
        Ok(jobs)
    }

    /// The workflow an external signal or cancel request is aimed at, and whether it must
    /// be a child of this one. A child is named by its workflow id within this namespace.
    fn resolve_target(&self, target: Option<ExternalTarget>) -> (r: Result<
        (NamespacedWorkflowExecution, bool),
        WFMachinesError,
    >)
        ensures
            match target {
                None => r matches Err(e) && e.spec_kind() == ErrorKind::Fatal,
                Some(ExternalTarget::ChildWorkflowId(wfid)) => r matches Ok((we, only_child))
                    && only_child && we.namespace@ == self.namespace@ && we.workflow_id@
                    == wfid@ && we.run_id@.len() == 0,
                Some(ExternalTarget::WorkflowExecution(ex)) => r matches Ok((we, only_child))
                    && !only_child && we == ex,
            },
    {
        match target {
            None => Err(fatal("External workflow command had empty target field")),
            Some(ExternalTarget::ChildWorkflowId(wfid)) => Ok(
                (
                    NamespacedWorkflowExecution {
                        namespace: self.namespace.clone(),
                        workflow_id: wfid,
                        run_id: String::new(),
                    },
                    true,
                ),
            ),
            Some(ExternalTarget::WorkflowExecution(we)) => Ok((we, false)),
        }
    }

    /// Turns the commands of the workflow into machines and queued commands, in order.
    /// Returns the jobs that cancellations yield for lang at once.
    fn handle_driven_results(&mut self, results: Vec<WFCommand>, now: u64) -> (r: Result<
        Vec<Job>,
        WFMachinesError,
    >)
        requires
            old(self).wf(),
        ensures
            final(self).wf(),
            old(self).arena().dom().subset_of(final(self).arena().dom()),
            *final(self) == (WorkflowMachines {
                all_machines: final(self).all_machines,
                machine_count: final(self).machine_count,
                id_to_machine: final(self).id_to_machine,
                current_wf_task_commands: final(self).current_wf_task_commands,
                workflow_end_time: final(self).workflow_end_time,
                encountered_change_markers: final(self).encountered_change_markers,
                ..*old(self)
            }),
            old(self).workflow_end_time is Some ==> final(self).workflow_end_time is Some,
            (exists|i: int|
                0 <= i < results@.len() && #[trigger] results@[i] == WFCommand::QueryResponse)
                ==> r is Err,
            r is Err ==> exists|states: Seq<WorkflowMachines>, outs: Seq<Vec<Job>>, k: int|
                {
                    &&& 0 <= k < results@.len()
                    &&& commands_applied(states, outs, results@.subrange(0, k), now)
                    &&& states[0] == *old(self)
                    &&& command_applied(states.last(), *final(self), results@[k], now, r)
                },
            r matches Ok(jobs) ==> exists|states: Seq<WorkflowMachines>, outs: Seq<Vec<Job>>|
                {
                    &&& commands_applied(states, outs, results@, now)
                    &&& states[0] == *old(self)
                    &&& states.last() == *final(self)
                    &&& jobs@ == all_jobs(outs)
                },
    {
        let mut jobs: Vec<Job> = Vec::new();
        let ghost mut states: Seq<WorkflowMachines> = seq![*self];
        let ghost mut outs: Seq<Vec<Job>> = seq![];
        let mut rest = results;
        let ghost all = results@;
        let ghost mut done: int = 0;
        while rest.len() > 0
            invariant
                self.wf(),
                0 <= done <= all.len(),
                rest@ == all.subrange(done, all.len() as int),
                forall|i: int| 0 <= i < done ==> all[i] != WFCommand::QueryResponse,
                old(self).arena().dom().subset_of(self.arena().dom()),
                *self == (WorkflowMachines {
                    all_machines: self.all_machines,
                    machine_count: self.machine_count,
                    id_to_machine: self.id_to_machine,
                    current_wf_task_commands: self.current_wf_task_commands,
                    workflow_end_time: self.workflow_end_time,
                    encountered_change_markers: self.encountered_change_markers,
                    ..*old(self)
                }),
                old(self).workflow_end_time is Some ==> self.workflow_end_time is Some,
                commands_applied(states, outs, all.subrange(0, done), now),
                states[0] == *old(self),
                states.last() == *self,
                jobs@ == all_jobs(outs),
                all == results@,
            decreases rest.len(),
        {
            let cmd = rest.remove(0);
            proof {
                assert(cmd == all[done]);
                done = done + 1;
                assert(rest@ =~= all.subrange(done, all.len() as int));
            }
            let ghost pre = *self;
            let res = self.apply_command(cmd, now);
            if res.is_err() {
                proof {
                    assert(all.subrange(0, done - 1) == all.subrange(0, done - 1));
                    assert(commands_applied(states, outs, results@.subrange(0, done - 1), now)) by {
                        assert(all.subrange(0, done - 1) =~= results@.subrange(0, done - 1));
                    }
                }
                return Err(res.unwrap_err());
            }
            let mut more = res.unwrap();
            proof {
                let prefix = all.subrange(0, done - 1);
                assert(all.subrange(0, done) =~= prefix.push(all[done - 1]));
                let states2 = states.push(*self);
                let outs2 = outs.push(more);
                assert(outs2.drop_last() =~= outs);
                assert forall|i: int| 0 <= i < done implies command_applied(
                    #[trigger] states2[i],
                    states2[i + 1],
                    all.subrange(0, done)[i],
                    now,
                    Ok(outs2[i]),
                ) by {
                    if i < done - 1 {
                        assert(states2[i] == states[i]);
                        assert(states2[i + 1] == states[i + 1]);
                        assert(all.subrange(0, done)[i] == all.subrange(0, done - 1)[i]);
                    } else {
                        assert(states2[i] == pre);
                    }
                }
                states = states2;
                outs = outs2;
            }
            jobs.append(&mut more);
        }
        assert(all.subrange(0, all.len() as int) =~= all);
        Ok(jobs)
    }

    /// Takes the commands that the workflow code issued in its last turn (`results`) and
    /// turns them into machines and commands for the service; `now` is the time, used as
    /// the end time of the run when a command ends it. Returns whether jobs for lang came of
    /// it at once.
    #[verifier::rlimit(40)]
    pub fn iterate_machines(&mut self, results: Vec<WFCommand>, now: u64) -> (r: Result<
        bool,
        WFMachinesError,
    >)
        requires
            old(self).wf(),
        ensures
            final(self).wf(),
            old(self).arena().dom().subset_of(final(self).arena().dom()),
            final(self).current_wf_time == old(self).current_wf_time,
            final(self).current_started_event_id == old(self).current_started_event_id,
            final(self).replaying == old(self).replaying,
            final(self).have_seen_terminal_event == old(self).have_seen_terminal_event,
            old(self).workflow_end_time is Some ==> final(self).workflow_end_time is Some,
            (exists|i: int|
                0 <= i < results@.len() && #[trigger] results@[i] == WFCommand::QueryResponse)
                ==> r is Err,
            r matches Err(e) ==> {
                ||| exists|states: Seq<WorkflowMachines>, outs: Seq<Vec<Job>>, k: int|
                    {
                        &&& 0 <= k < results@.len()
                        &&& commands_applied(states, outs, results@.subrange(0, k), now)
                        &&& states[0] == *old(self)
                        &&& command_applied(
                            states.last(),
                            *final(self),
                            results@[k],
                            now,
                            Err::<Vec<Job>, WFMachinesError>(e),
                        )
                    }
                ||| exists|states: Seq<WorkflowMachines>, outs: Seq<Vec<Job>>|
                    {
                        &&& commands_applied(states, outs, results@, now)
                        &&& states[0] == *old(self)
                        &&& prepare_from(states.last().arena(), states.last().current_wf_task_commands@)
                            == Err::<(Map<u64, Machine>, Seq<CommandAndMachine>), _>(e.spec_kind())
                    }
            },
            r matches Ok(has_new) ==> {
                &&& final(self).current_wf_task_commands@.len() == 0
                &&& old(self).drive_me.outgoing_jobs@.is_prefix_of(final(self).drive_me.outgoing_jobs@)
                &&& has_new == (final(self).drive_me.outgoing_jobs@.len()
                    > old(self).drive_me.outgoing_jobs@.len())
                &&& exists|states: Seq<WorkflowMachines>, outs: Seq<Vec<Job>>|
                    {
                        &&& commands_applied(states, outs, results@, now)
                        &&& states[0] == *old(self)
                        &&& final(self).drive_me.outgoing_jobs@ == old(self).drive_me.outgoing_jobs@
                            + all_jobs(outs)
                        &&& (prepare_from(states.last().arena(), states.last().current_wf_task_commands@) matches Ok(
                            (a, out),
                        ) && a == final(self).arena() && final(self).commands@ == states.last().commands@
                            + out)
                        &&& final(self).workflow_end_time == states.last().workflow_end_time
                        &&& final(self).encountered_change_markers == states.last().encountered_change_markers
                        &&& final(self).id_to_machine == states.last().id_to_machine
                    }
            },
    {
        let handled = self.handle_driven_results(results, now);
        let jobs = match handled {
            Ok(jobs) => jobs,
            Err(e) => {
                return Err(e);
            },
        };
        let ghost mid = *self;
        let ghost w = choose|states: Seq<WorkflowMachines>, outs: Seq<Vec<Job>>|
            {
                &&& commands_applied(states, outs, results@, now)
                &&& states[0] == *old(self)
                &&& states.last() == mid
                &&& jobs@ == all_jobs(outs)
            };
        let has_new_lang_jobs = jobs.len() > 0;
        let ghost base = self.drive_me.outgoing_jobs@;
        self.drive_me.send_jobs(jobs);
        proof {
            assert(base.is_prefix_of(self.drive_me.outgoing_jobs@)) by {
                assert(base =~= self.drive_me.outgoing_jobs@.subrange(0, base.len() as int));
            }
        }
        let prepared = self.prepare_commands();
        if prepared.is_err() {
            proof {
                let (states, outs) = w;
                assert(states.last().arena() == mid.arena());
            }
            return Err(prepared.unwrap_err());
        }
        proof {
            let (states, outs) = w;
            let out = prepare_from(mid.arena(), mid.current_wf_task_commands@)->Ok_0.1;
            assert(self.commands@ == mid.commands@ + out);
            assert(self.drive_me.outgoing_jobs@ == old(self).drive_me.outgoing_jobs@ + all_jobs(outs));
        }
        Ok(has_new_lang_jobs)
    }

    /// Carries out one command of the workflow code; returns the jobs a cancellation yields
    /// for lang at once.
    fn apply_command(&mut self, cmd: WFCommand, now: u64) -> (r: Result<Vec<Job>, WFMachinesError>)
        requires
            old(self).wf(),
        ensures
            final(self).wf(),
            old(self).arena().dom().subset_of(final(self).arena().dom()),
            *final(self) == (WorkflowMachines {
                all_machines: final(self).all_machines,
                machine_count: final(self).machine_count,
                id_to_machine: final(self).id_to_machine,
                current_wf_task_commands: final(self).current_wf_task_commands,
                workflow_end_time: final(self).workflow_end_time,
                encountered_change_markers: final(self).encountered_change_markers,
                ..*old(self)
            }),
            old(self).workflow_end_time is Some ==> final(self).workflow_end_time is Some,
            command_applied(*old(self), *final(self), cmd, now, r),
    {
        match cmd {
            WFCommand::AddTimer { seq } => {
                let command = ProtoCommand {
                    command_type: CommandType::StartTimer,
                    seq,
                    name: String::new(),
                    target: None,
                    only_child: false,
                };
                self.add_indexed_command(
                    CommandID::Timer(seq),
                    Machine::for_command(MachineKind::Timer, seq),
                    command,
                )?;
                Ok(Vec::new())
            },
            WFCommand::CancelTimer { seq } => {
                self.process_cancellation(CommandID::Timer(seq))
            },
            WFCommand::AddActivity { seq, activity_id } => {
                let command = ProtoCommand {
                    command_type: CommandType::ScheduleActivityTask,
                    seq,
                    name: activity_id,
                    target: None,
                    only_child: false,
                };
                self.add_indexed_command(
                    CommandID::Activity(seq),
                    Machine::for_command(MachineKind::Activity, seq),
                    command,
                )?;
                Ok(Vec::new())
            },
            WFCommand::RequestCancelActivity { seq } => {
                self.process_cancellation(CommandID::Activity(seq))
            },
            WFCommand::CompleteWorkflow => {
                self.add_terminal_command(
                    MachineKind::CompleteWorkflow,
                    CommandType::CompleteWorkflowExecution,
                    now,
                )?;
                Ok(Vec::new())
            },
            WFCommand::FailWorkflow => {
                self.add_terminal_command(
                    MachineKind::FailWorkflow,
                    CommandType::FailWorkflowExecution,
                    now,
                )?;
                Ok(Vec::new())
            },
            WFCommand::ContinueAsNew => {
                self.add_terminal_command(
                    MachineKind::ContinueAsNew,
                    CommandType::ContinueAsNewWorkflowExecution,
                    now,
                )?;
                Ok(Vec::new())
            },
            WFCommand::CancelWorkflow => {
                self.add_terminal_command(
                    MachineKind::CancelWorkflow,
                    CommandType::CancelWorkflowExecution,
                    now,
                )?;
                Ok(Vec::new())
            },
            WFCommand::SetPatchMarker { patch_id, deprecated } => {
                self.set_patch_marker(patch_id, deprecated)?;
                Ok(Vec::new())
            },
            WFCommand::AddChildWorkflow { seq, workflow_id } => {
                let command = ProtoCommand {
                    command_type: CommandType::StartChildWorkflowExecution,
                    seq,
                    name: workflow_id,
                    target: None,
                    only_child: false,
                };
                self.add_indexed_command(
                    CommandID::ChildWorkflowStart(seq),
                    Machine::for_command(MachineKind::ChildWorkflow, seq),
                    command,
                )?;
                Ok(Vec::new())
            },
            WFCommand::CancelUnstartedChild { seq } => {
                self.process_cancellation(CommandID::ChildWorkflowStart(seq))
            },
            WFCommand::RequestCancelExternalWorkflow { seq, target } => {
                let (we, only_child) = self.resolve_target(target)?;
                let command = ProtoCommand {
                    command_type: CommandType::RequestCancelExternalWorkflowExecution,
                    seq,
                    name: String::new(),
                    target: Some(we),
                    only_child,
                };
                self.add_indexed_command(
                    CommandID::CancelExternal(seq),
                    Machine::for_command(MachineKind::CancelExternal, seq),
                    command,
                )?;
                Ok(Vec::new())
            },
            WFCommand::SignalExternalWorkflow { seq, signal_name, target } => {
                let (we, only_child) = self.resolve_target(target)?;
                let command = ProtoCommand {
                    command_type: CommandType::SignalExternalWorkflowExecution,
                    seq,
                    name: signal_name,
                    target: Some(we),
                    only_child,
                };
                self.add_indexed_command(
                    CommandID::SignalExternal(seq),
                    Machine::for_command(MachineKind::SignalExternal, seq),
                    command,
                )?;
                Ok(Vec::new())
            },
            WFCommand::CancelSignalWorkflow { seq } => {
                self.process_cancellation(CommandID::SignalExternal(seq))
            },
            WFCommand::QueryResponse => {
                // Queries are answered above this layer.
                Err(fatal("Query responses should not make it down into the machines"))
            },
            WFCommand::NoCommandsFromLang => Ok(Vec::new()),
        }
    }
}

} // verus!
