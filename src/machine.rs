use vstd::prelude::*;
use crate::error::{fatal, nondeterminism, ErrorKind, WFMachinesError};
use crate::event::{spec_marker_details, EventType, HistoryEvent};
use crate::protocol::{CommandType, Job, Outcome, ProtoCommand};

verus! {

#[derive(Debug, Clone, Copy, PartialEq, Eq, Structural)]
pub enum MachineKind {
    WorkflowTask,
    Timer,
    Activity,
    ChildWorkflow,
    SignalExternal,
    CancelExternal,
    Version,
    CompleteWorkflow,
    FailWorkflow,
    ContinueAsNew,
    CancelWorkflow,
}

#[derive(Debug, Clone, Copy, PartialEq, Eq, Structural)]
pub enum MachineState {
    /// Made, its command not yet handed to the service.
    Created,
    /// Workflow task: scheduled event seen.
    Scheduled,
    /// Workflow task: started event seen.
    TaskStarted { started_event_id: i64, time: Option<u64> },
    /// Its command is queued for the service.
    CommandIssued,
    /// The service recorded its command.
    Initiated,
    /// The operation began running.
    Started,
    /// A cancel command was issued for it.
    CancelRequested,
    /// Resolved; accepts nothing more.
    Done,
    /// Cancelled before its command ever reached the service.
    CancelledBeforeSent,
}

/// One per-operation state machine. Machines are pure: each step yields the next state and
/// the responses, which the coordinator applies.
#[derive(Debug, Clone)]
pub struct Machine {
    pub kind: MachineKind,
    /// The workflow's sequence number of the operation.
    pub seq: u32,
    /// Version machines: the patch id.
    pub patch_id: String,
    /// Version machines: whether the patch is deprecated.
    pub deprecated: bool,
    /// Version machines: whether the run was replaying when the machine was made.
    pub replaying: bool,
    /// Workflow task machines: the started event id known when the machine was made.
    pub expected_started_event_id: i64,
    pub state: MachineState,
}

/// Returned by machines when they handle events or commands.
#[derive(Debug, Clone, PartialEq)]
pub enum MachineResponse {
    PushWFJob(Job),
    IssueNewCommand(ProtoCommand),
    TriggerWFTaskStarted { task_started_event_id: i64, time: u64 },
    UpdateRunIdOnWorkflowReset { run_id: String },
}

/// What a cancellation asks for: a job for lang, or a command of the given type.
pub enum CancelEffect {
    Job(Job),
    Command(CommandType),
}

pub open spec fn command_type_of(k: MachineKind) -> Option<CommandType> {
    match k {
        MachineKind::WorkflowTask => None,
        MachineKind::Timer => Some(CommandType::StartTimer),
        MachineKind::Activity => Some(CommandType::ScheduleActivityTask),
        MachineKind::ChildWorkflow => Some(CommandType::StartChildWorkflowExecution),
        MachineKind::SignalExternal => Some(CommandType::SignalExternalWorkflowExecution),
        MachineKind::CancelExternal => Some(CommandType::RequestCancelExternalWorkflowExecution),
        MachineKind::Version => Some(CommandType::RecordMarker),
        MachineKind::CompleteWorkflow => Some(CommandType::CompleteWorkflowExecution),
        MachineKind::FailWorkflow => Some(CommandType::FailWorkflowExecution),
        MachineKind::ContinueAsNew => Some(CommandType::ContinueAsNewWorkflowExecution),
        MachineKind::CancelWorkflow => Some(CommandType::CancelWorkflowExecution),
    }
}

pub open spec fn cancel_command_type_of(k: MachineKind) -> Option<CommandType> {
    match k {
        MachineKind::Timer => Some(CommandType::CancelTimer),
        MachineKind::Activity => Some(CommandType::RequestCancelActivityTask),
        _ => None,
    }
}

/// The event that records a machine's command.
pub open spec fn command_event_of(k: MachineKind) -> Option<EventType> {
    match k {
        MachineKind::WorkflowTask => None,
        MachineKind::Timer => Some(EventType::TimerStarted),
        MachineKind::Activity => Some(EventType::ActivityTaskScheduled),
        MachineKind::ChildWorkflow => Some(EventType::StartChildWorkflowExecutionInitiated),
        MachineKind::SignalExternal => Some(EventType::SignalExternalWorkflowExecutionInitiated),
        MachineKind::CancelExternal => Some(
            EventType::RequestCancelExternalWorkflowExecutionInitiated,
        ),
        MachineKind::Version => Some(EventType::MarkerRecorded),
        MachineKind::CompleteWorkflow => Some(EventType::WorkflowExecutionCompleted),
        MachineKind::FailWorkflow => Some(EventType::WorkflowExecutionFailed),
        MachineKind::ContinueAsNew => Some(EventType::WorkflowExecutionContinuedAsNew),
        MachineKind::CancelWorkflow => Some(EventType::WorkflowExecutionCanceled),
    }
}

/// The event that records a machine's cancel command.
pub open spec fn cancel_event_of(k: MachineKind) -> Option<EventType> {
    match k {
        MachineKind::Timer => Some(EventType::TimerCanceled),
        MachineKind::Activity => Some(EventType::ActivityTaskCancelRequested),
        _ => None,
    }
}

/// Kinds whose work is done once the service records their command.
pub open spec fn done_on_record(k: MachineKind) -> bool {
    match k {
        MachineKind::Version | MachineKind::CompleteWorkflow | MachineKind::FailWorkflow
        | MachineKind::ContinueAsNew | MachineKind::CancelWorkflow => true,
        _ => false,
    }
}

pub open spec fn spec_is_final(m: Machine) -> bool {
    m.state == MachineState::Done || m.state == MachineState::CancelledBeforeSent
}

pub open spec fn spec_cancelled_before_sent(m: Machine) -> bool {
    m.state == MachineState::CancelledBeforeSent
}

pub open spec fn spec_matches_event(m: Machine, e: HistoryEvent) -> bool {
    if m.state == MachineState::CancelRequested {
        cancel_event_of(m.kind) == Some(e.event_type)
    } else if m.kind == MachineKind::Version {
        match spec_marker_details(e) {
            Some((id, _)) => id == m.patch_id@,
            None => false,
        }
    } else {
        command_event_of(m.kind) == Some(e.event_type)
    }
}

pub open spec fn job_step(st: MachineState, j: Job) -> Result<
    (MachineState, Seq<MachineResponse>),
    ErrorKind,
> {
    Ok((st, seq![MachineResponse::PushWFJob(j)]))
}

/// Events that carry an operation on after its command was recorded.
pub open spec fn resolution_step(m: Machine, t: EventType) -> Result<
    (MachineState, Seq<MachineResponse>),
    ErrorKind,
> {
    let s = m.seq;
    let waiting = m.state == MachineState::Initiated || m.state == MachineState::Started
        || m.state == MachineState::CancelRequested;
    match (m.kind, t) {
        (MachineKind::Timer, EventType::TimerFired) if m.state == MachineState::Initiated => {
            job_step(MachineState::Done, Job::FireTimer { seq: s })
        },
        (MachineKind::Activity, EventType::ActivityTaskStarted) if m.state
            == MachineState::Initiated => Ok((MachineState::Started, seq![])),
        (MachineKind::Activity, EventType::ActivityTaskCompleted) if waiting => job_step(
            MachineState::Done,
            Job::ResolveActivity { seq: s, outcome: Outcome::Completed },
        ),
        (MachineKind::Activity, EventType::ActivityTaskFailed) if waiting => job_step(
            MachineState::Done,
            Job::ResolveActivity { seq: s, outcome: Outcome::Failed },
        ),
        (MachineKind::Activity, EventType::ActivityTaskTimedOut) if waiting => job_step(
            MachineState::Done,
            Job::ResolveActivity { seq: s, outcome: Outcome::Failed },
        ),
        (MachineKind::Activity, EventType::ActivityTaskCanceled) if waiting => job_step(
            MachineState::Done,
            Job::ResolveActivity { seq: s, outcome: Outcome::Cancelled },
        ),
        (MachineKind::ChildWorkflow, EventType::ChildWorkflowExecutionStarted) if m.state
            == MachineState::Initiated => job_step(
            MachineState::Started,
            Job::ResolveChildWorkflowStart { seq: s, outcome: Outcome::Completed },
        ),
        (MachineKind::ChildWorkflow, EventType::ChildWorkflowExecutionCompleted) if m.state
            == MachineState::Started => job_step(
            MachineState::Done,
            Job::ResolveChildWorkflow { seq: s, outcome: Outcome::Completed },
        ),
        (MachineKind::ChildWorkflow, EventType::ChildWorkflowExecutionFailed) if m.state
            == MachineState::Started => job_step(
            MachineState::Done,
            Job::ResolveChildWorkflow { seq: s, outcome: Outcome::Failed },
        ),
        (MachineKind::SignalExternal, EventType::ExternalWorkflowExecutionSignaled) if m.state
            == MachineState::Initiated => job_step(
            MachineState::Done,
            Job::ResolveSignalExternal { seq: s, outcome: Outcome::Completed },
        ),
        (
            MachineKind::CancelExternal,
            EventType::ExternalWorkflowExecutionCancelRequested,
        ) if m.state == MachineState::Initiated => job_step(
            MachineState::Done,
            Job::ResolveRequestCancelExternal { seq: s, outcome: Outcome::Completed },
        ),
        _ => Err(ErrorKind::Nondeterminism),
    }
}

/// The workflow task machine's steps.
pub open spec fn task_step(m: Machine, e: HistoryEvent, has_next: bool) -> Result<
    (MachineState, Seq<MachineResponse>),
    ErrorKind,
> {
    match (m.state, e.event_type) {
        (MachineState::Created, EventType::WorkflowTaskScheduled) => Ok(
            (MachineState::Scheduled, seq![]),
        ),
        (MachineState::Scheduled, EventType::WorkflowTaskStarted) => {
            let st = MachineState::TaskStarted {
                started_event_id: e.event_id,
                time: e.event_time,
            };
            if has_next {
                Ok((st, seq![]))
            } else {
                match e.event_time {
                    Some(t) => Ok(
                        (
                            st,
                            seq![
                                MachineResponse::TriggerWFTaskStarted {
                                    task_started_event_id: e.event_id,
                                    time: t,
                                },
                            ],
                        ),
                    ),
                    None => Err(ErrorKind::Fatal),
                }
            }
        },
        (
            MachineState::TaskStarted { started_event_id, time },
            EventType::WorkflowTaskCompleted,
        ) => match time {
            Some(t) => Ok(
                (
                    MachineState::Done,
                    seq![
                        MachineResponse::TriggerWFTaskStarted {
                            task_started_event_id: started_event_id,
                            time: t,
                        },
                    ],
                ),
            ),
            None => Err(ErrorKind::Fatal),
        },
        (MachineState::Scheduled, EventType::WorkflowTaskFailed)
        | (MachineState::Scheduled, EventType::WorkflowTaskTimedOut)
        | (MachineState::TaskStarted { .. }, EventType::WorkflowTaskFailed)
        | (MachineState::TaskStarted { .. }, EventType::WorkflowTaskTimedOut) => Ok(
            (MachineState::Done, seq![]),
        ),
        _ => Err(ErrorKind::Nondeterminism),
    }
}

/// What handling event `e` does to machine `m`.
pub open spec fn event_step(m: Machine, e: HistoryEvent, has_next: bool) -> Result<
    (MachineState, Seq<MachineResponse>),
    ErrorKind,
> {
    if m.kind == MachineKind::WorkflowTask {
        task_step(m, e, has_next)
    } else if m.state == MachineState::CommandIssued && command_event_of(m.kind) == Some(
        e.event_type,
    ) {
        if done_on_record(m.kind) {
            Ok((MachineState::Done, seq![]))
        } else {
            Ok((MachineState::Initiated, seq![]))
        }
    } else if m.state == MachineState::CancelRequested && cancel_event_of(m.kind) == Some(
        e.event_type,
    ) {
        if m.kind == MachineKind::Timer {
            Ok((MachineState::Done, seq![]))
        } else {
            Ok((MachineState::CancelRequested, seq![]))
        }
    } else {
        resolution_step(m, e.event_type)
    }
}

/// What handing the command of type `ct` to the service does to machine `m`.
pub open spec fn command_step(m: Machine, ct: CommandType) -> Result<MachineState, ErrorKind> {
    if m.state == MachineState::Created && command_type_of(m.kind) == Some(ct) {
        Ok(MachineState::CommandIssued)
    } else if m.state == MachineState::CancelRequested && cancel_command_type_of(m.kind) == Some(
        ct,
    ) {
        Ok(MachineState::CancelRequested)
    } else {
        Err(ErrorKind::Fatal)
    }
}

/// The job that tells lang an operation was cancelled before it was sent.
pub open spec fn cancelled_job(m: Machine) -> Option<Job> {
    let s = m.seq;
    match m.kind {
        MachineKind::Timer => Some(Job::TimerCancelled { seq: s }),
        MachineKind::Activity => Some(Job::ResolveActivity { seq: s, outcome: Outcome::Cancelled }),
        MachineKind::ChildWorkflow => Some(
            Job::ResolveChildWorkflowStart { seq: s, outcome: Outcome::Cancelled },
        ),
        MachineKind::SignalExternal => Some(
            Job::ResolveSignalExternal { seq: s, outcome: Outcome::Cancelled },
        ),
        _ => None,
    }
}

/// What cancelling machine `m` does.
pub open spec fn cancel_step(m: Machine) -> Result<(MachineState, Seq<CancelEffect>), ErrorKind> {
    match cancelled_job(m) {
        None => Err(ErrorKind::Fatal),
        Some(j) => {
            if m.state == MachineState::Created {
                Ok((MachineState::CancelledBeforeSent, seq![CancelEffect::Job(j)]))
            } else if spec_is_final(m) || m.state == MachineState::CancelRequested {
                Ok((m.state, seq![]))
            } else {
                match cancel_command_type_of(m.kind) {
                    Some(ct) => Ok((MachineState::CancelRequested, seq![CancelEffect::Command(ct)])),
                    None => Err(ErrorKind::Fatal),
                }
            }
        },
    }
}

/// A response carries out a cancel effect of machine `m`.
pub open spec fn carries_effect(m: Machine, r: MachineResponse, c: CancelEffect) -> bool {
    match c {
        CancelEffect::Job(j) => r == MachineResponse::PushWFJob(j),
        CancelEffect::Command(ct) => match r {
            MachineResponse::IssueNewCommand(cmd) => cmd.command_type == ct && cmd.seq == m.seq,
            _ => false,
        },
    }
}


fn command_event_of_exec(k: MachineKind) -> (r: Option<EventType>)
    ensures
        r == command_event_of(k),
{
    match k {
        MachineKind::WorkflowTask => None,
        MachineKind::Timer => Some(EventType::TimerStarted),
        MachineKind::Activity => Some(EventType::ActivityTaskScheduled),
        MachineKind::ChildWorkflow => Some(EventType::StartChildWorkflowExecutionInitiated),
        MachineKind::SignalExternal => Some(EventType::SignalExternalWorkflowExecutionInitiated),
        MachineKind::CancelExternal => Some(
            EventType::RequestCancelExternalWorkflowExecutionInitiated,
        ),
        MachineKind::Version => Some(EventType::MarkerRecorded),
        MachineKind::CompleteWorkflow => Some(EventType::WorkflowExecutionCompleted),
        MachineKind::FailWorkflow => Some(EventType::WorkflowExecutionFailed),
        MachineKind::ContinueAsNew => Some(EventType::WorkflowExecutionContinuedAsNew),
        MachineKind::CancelWorkflow => Some(EventType::WorkflowExecutionCanceled),
    }
}

fn cancel_event_of_exec(k: MachineKind) -> (r: Option<EventType>)
    ensures
        r == cancel_event_of(k),
{
    match k {
        MachineKind::Timer => Some(EventType::TimerCanceled),
        MachineKind::Activity => Some(EventType::ActivityTaskCancelRequested),
        _ => None,
    }
}

fn command_type_of_exec(k: MachineKind) -> (r: Option<CommandType>)
    ensures
        r == command_type_of(k),
{
    match k {
        MachineKind::WorkflowTask => None,
        MachineKind::Timer => Some(CommandType::StartTimer),
        MachineKind::Activity => Some(CommandType::ScheduleActivityTask),
        MachineKind::ChildWorkflow => Some(CommandType::StartChildWorkflowExecution),
        MachineKind::SignalExternal => Some(CommandType::SignalExternalWorkflowExecution),
        MachineKind::CancelExternal => Some(CommandType::RequestCancelExternalWorkflowExecution),
        MachineKind::Version => Some(CommandType::RecordMarker),
        MachineKind::CompleteWorkflow => Some(CommandType::CompleteWorkflowExecution),
        MachineKind::FailWorkflow => Some(CommandType::FailWorkflowExecution),
        MachineKind::ContinueAsNew => Some(CommandType::ContinueAsNewWorkflowExecution),
        MachineKind::CancelWorkflow => Some(CommandType::CancelWorkflowExecution),
    }
}

fn cancel_command_type_of_exec(k: MachineKind) -> (r: Option<CommandType>)
    ensures
        r == cancel_command_type_of(k),
{
    match k {
        MachineKind::Timer => Some(CommandType::CancelTimer),
        MachineKind::Activity => Some(CommandType::RequestCancelActivityTask),
        _ => None,
    }
}

fn push_job(st: MachineState, j: Job) -> (r: (MachineState, Vec<MachineResponse>))
    ensures
        job_step(st, j) == Ok::<_, ErrorKind>((r.0, r.1@)),
{
    let v = vec![MachineResponse::PushWFJob(j)];
    assert(v@ =~= seq![MachineResponse::PushWFJob(j)]);
    (st, v)
}

/// The (kind-specific) result of the events after the recording of a command.
fn resolution_step_exec(m: &Machine, t: EventType) -> (r: Result<
    (MachineState, Vec<MachineResponse>),
    WFMachinesError,
>)
    ensures
        r matches Err(e2) ==> e2.spec_kind() != ErrorKind::CacheMiss,
        match r {
            Ok((st, rs)) => resolution_step(*m, t) == Ok::<_, ErrorKind>((st, rs@)),
            Err(e) => resolution_step(*m, t) == Err::<(MachineState, Seq<MachineResponse>), _>(
                e.spec_kind(),
            ),
        },
{
    let s = m.seq;
    let waiting = m.state == MachineState::Initiated || m.state == MachineState::Started
        || m.state == MachineState::CancelRequested;
    let initiated = m.state == MachineState::Initiated;
    let started = m.state == MachineState::Started;
    match (m.kind, t) {
        (MachineKind::Timer, EventType::TimerFired) if initiated => {
            Ok(push_job(MachineState::Done, Job::FireTimer { seq: s }))
        },
        (MachineKind::Activity, EventType::ActivityTaskStarted) if initiated => {
            Ok((MachineState::Started, Vec::new()))
        },
        (MachineKind::Activity, EventType::ActivityTaskCompleted) if waiting => Ok(
            push_job(MachineState::Done, Job::ResolveActivity { seq: s, outcome: Outcome::Completed }),
        ),
        (MachineKind::Activity, EventType::ActivityTaskFailed) if waiting => Ok(
            push_job(MachineState::Done, Job::ResolveActivity { seq: s, outcome: Outcome::Failed }),
        ),
        (MachineKind::Activity, EventType::ActivityTaskTimedOut) if waiting => Ok(
            push_job(MachineState::Done, Job::ResolveActivity { seq: s, outcome: Outcome::Failed }),
        ),
        (MachineKind::Activity, EventType::ActivityTaskCanceled) if waiting => Ok(
            push_job(MachineState::Done, Job::ResolveActivity { seq: s, outcome: Outcome::Cancelled }),
        ),
        (MachineKind::ChildWorkflow, EventType::ChildWorkflowExecutionStarted) if initiated => Ok(
            push_job(
                MachineState::Started,
                Job::ResolveChildWorkflowStart { seq: s, outcome: Outcome::Completed },
            ),
        ),
        (MachineKind::ChildWorkflow, EventType::ChildWorkflowExecutionCompleted) if started => Ok(
            push_job(
                MachineState::Done,
                Job::ResolveChildWorkflow { seq: s, outcome: Outcome::Completed },
            ),
        ),
        (MachineKind::ChildWorkflow, EventType::ChildWorkflowExecutionFailed) if started => Ok(
            push_job(MachineState::Done, Job::ResolveChildWorkflow { seq: s, outcome: Outcome::Failed }),
        ),
        (MachineKind::SignalExternal, EventType::ExternalWorkflowExecutionSignaled) if initiated => Ok(
            push_job(
                MachineState::Done,
                Job::ResolveSignalExternal { seq: s, outcome: Outcome::Completed },
            ),
        ),
        (
            MachineKind::CancelExternal,
            EventType::ExternalWorkflowExecutionCancelRequested,
        ) if initiated => Ok(
            push_job(
                MachineState::Done,
                Job::ResolveRequestCancelExternal { seq: s, outcome: Outcome::Completed },
            ),
        ),
        _ => Err(nondeterminism("Machine received an event it cannot handle in its state")),
    }
}

impl Machine {
    pub fn kind(&self) -> (r: MachineKind)
        ensures
            r == self.kind,
    {
        self.kind
    }

    /// A machine for an operation that the workflow code asked for.
    pub fn for_command(kind: MachineKind, seq: u32) -> (r: Machine)
        ensures
            r.kind == kind,
            r.seq == seq,
            r.state == MachineState::Created,
    {
        Machine {
            kind,
            seq,
            patch_id: String::new(),
            deprecated: false,
            replaying: false,
            expected_started_event_id: 0,
            state: MachineState::Created,
        }
    }

    /// A version machine for a `patched` call.
    pub fn version(patch_id: String, replaying: bool, deprecated: bool) -> (r: Machine)
        ensures
            r.kind == MachineKind::Version,
            r.seq == 0,
            r.patch_id@ == patch_id@,
            r.deprecated == deprecated,
            r.replaying == replaying,
            r.state == MachineState::Created,
    {
        Machine {
            kind: MachineKind::Version,
            seq: 0,
            patch_id,
            deprecated,
            replaying,
            expected_started_event_id: 0,
            state: MachineState::Created,
        }
    }

    /// A workflow task machine, made when a task is scheduled.
    pub fn workflow_task(expected_started_event_id: i64) -> (r: Machine)
        ensures
            r.kind == MachineKind::WorkflowTask,
            r.expected_started_event_id == expected_started_event_id,
            r.state == MachineState::Created,
    {
        Machine {
            kind: MachineKind::WorkflowTask,
            seq: 0,
            patch_id: String::new(),
            deprecated: false,
            replaying: false,
            expected_started_event_id,
            state: MachineState::Created,
        }
    }

    pub fn is_final_state(&self) -> (r: bool)
        ensures
            r == spec_is_final(*self),
    {
        self.state == MachineState::Done || self.state == MachineState::CancelledBeforeSent
    }

    pub fn was_cancelled_before_sent_to_server(&self) -> (r: bool)
        ensures
            r == spec_cancelled_before_sent(*self),
    {
        self.state == MachineState::CancelledBeforeSent
    }

    pub fn matches_event(&self, e: &HistoryEvent) -> (r: bool)
        ensures
            r == spec_matches_event(*self, *e),
    {
        if self.state == MachineState::CancelRequested {
            cancel_event_of_exec(self.kind) == Some(e.event_type)
        } else if self.kind == MachineKind::Version {
            match e.get_changed_marker_details() {
                Some((id, _)) => id == self.patch_id,
                None => false,
            }
        } else {
            command_event_of_exec(self.kind) == Some(e.event_type)
        }
    }

    /// The next state and the responses for event `e`.
    pub fn handle_event(&self, e: &HistoryEvent, has_next_event: bool) -> (r: Result<
        (MachineState, Vec<MachineResponse>),
        WFMachinesError,
    >)
        ensures
            r matches Err(e2) ==> e2.spec_kind() != ErrorKind::CacheMiss,
            match r {
                Ok((st, rs)) => event_step(*self, *e, has_next_event) == Ok::<_, ErrorKind>(
                    (st, rs@),
                ),
                Err(err) => event_step(*self, *e, has_next_event) == Err::<
                    (MachineState, Seq<MachineResponse>),
                    _,
                >(err.spec_kind()),
            },
    {
        if self.kind == MachineKind::WorkflowTask {
            self.task_event(e, has_next_event)
        } else if self.state == MachineState::CommandIssued && command_event_of_exec(self.kind)
            == Some(e.event_type) {
            let done = matches!(
                self.kind,
                MachineKind::Version | MachineKind::CompleteWorkflow | MachineKind::FailWorkflow
                    | MachineKind::ContinueAsNew | MachineKind::CancelWorkflow
            );
            if done {
                Ok((MachineState::Done, Vec::new()))
            } else {
                Ok((MachineState::Initiated, Vec::new()))
            }
        } else if self.state == MachineState::CancelRequested && cancel_event_of_exec(self.kind)
            == Some(e.event_type) {
            if self.kind == MachineKind::Timer {
                Ok((MachineState::Done, Vec::new()))
            } else {
                Ok((MachineState::CancelRequested, Vec::new()))
            }
        } else {
            resolution_step_exec(self, e.event_type)
        }
    }

    fn task_event(&self, e: &HistoryEvent, has_next_event: bool) -> (r: Result<
        (MachineState, Vec<MachineResponse>),
        WFMachinesError,
    >)
        ensures
            r matches Err(e2) ==> e2.spec_kind() != ErrorKind::CacheMiss,
            match r {
                Ok((st, rs)) => task_step(*self, *e, has_next_event) == Ok::<_, ErrorKind>(
                    (st, rs@),
                ),
                Err(err) => task_step(*self, *e, has_next_event) == Err::<
                    (MachineState, Seq<MachineResponse>),
                    _,
                >(err.spec_kind()),
            },
    {
        match (self.state, e.event_type) {
            (MachineState::Created, EventType::WorkflowTaskScheduled) => {
                Ok((MachineState::Scheduled, Vec::new()))
            },
            (MachineState::Scheduled, EventType::WorkflowTaskStarted) => {
                let st = MachineState::TaskStarted {
                    started_event_id: e.event_id,
                    time: e.event_time,
                };
                if has_next_event {
                    Ok((st, Vec::new()))
                } else {
                    match e.event_time {
                        Some(t) => {
                            let trig = MachineResponse::TriggerWFTaskStarted {
                                task_started_event_id: e.event_id,
                                time: t,
                            };
                            let v = vec![trig];
                            assert(v@ =~= seq![trig]);
                            Ok((st, v))
                        },
                        None => Err(fatal("Workflow task started event has no time")),
                    }
                }
            },
            (
                MachineState::TaskStarted { started_event_id, time },
                EventType::WorkflowTaskCompleted,
            ) => match time {
                Some(t) => {
                    let trig = MachineResponse::TriggerWFTaskStarted {
                        task_started_event_id: started_event_id,
                        time: t,
                    };
                    let v = vec![trig];
                    assert(v@ =~= seq![trig]);
                    Ok((MachineState::Done, v))
                },
                None => Err(fatal("Workflow task started event has no time")),
            },
            (MachineState::Scheduled, EventType::WorkflowTaskFailed)
            | (MachineState::Scheduled, EventType::WorkflowTaskTimedOut)
            | (MachineState::TaskStarted { .. }, EventType::WorkflowTaskFailed)
            | (MachineState::TaskStarted { .. }, EventType::WorkflowTaskTimedOut) => {
                Ok((MachineState::Done, Vec::new()))
            },
            _ => Err(nondeterminism("Workflow task machine received an unexpected event")),
        }
    }

    /// The next state when the command of type `ct` is handed on to the service.
    pub fn handle_command(&self, ct: CommandType) -> (r: Result<MachineState, WFMachinesError>)
        ensures
            match r {
                Ok(st) => command_step(*self, ct) == Ok::<_, ErrorKind>(st),
                Err(err) => command_step(*self, ct) == Err::<MachineState, _>(err.spec_kind()),
            },
    {
        if self.state == MachineState::Created && command_type_of_exec(self.kind) == Some(ct) {
            Ok(MachineState::CommandIssued)
        } else if self.state == MachineState::CancelRequested && cancel_command_type_of_exec(
            self.kind,
        ) == Some(ct) {
            Ok(MachineState::CancelRequested)
        } else {
            Err(fatal("Machine cannot take this command in its state"))
        }
    }

    /// The next state and the responses when the workflow code cancels the operation.
    pub fn cancel(&self) -> (r: Result<(MachineState, Vec<MachineResponse>), WFMachinesError>)
        ensures
            match r {
                Ok((st, rs)) => match cancel_step(*self) {
                    Ok((st2, effects)) => st == st2 && rs@.len() == effects.len() && forall|i: int|
                        0 <= i < rs@.len() ==> carries_effect(*self, #[trigger] rs@[i], effects[i]),
                    Err(_) => false,
                },
                Err(err) => cancel_step(*self) == Err::<(MachineState, Seq<CancelEffect>), _>(
                    err.spec_kind(),
                ),
            },
    {
        let s = self.seq;
        let job = match self.kind {
            MachineKind::Timer => Job::TimerCancelled { seq: s },
            MachineKind::Activity => Job::ResolveActivity { seq: s, outcome: Outcome::Cancelled },
            MachineKind::ChildWorkflow => Job::ResolveChildWorkflowStart {
                seq: s,
                outcome: Outcome::Cancelled,
            },
            MachineKind::SignalExternal => Job::ResolveSignalExternal {
                seq: s,
                outcome: Outcome::Cancelled,
            },
            _ => {
                return Err(fatal("Operation of this kind cannot be cancelled"));
            },
        };
        if self.state == MachineState::Created {
            Ok((MachineState::CancelledBeforeSent, vec![MachineResponse::PushWFJob(job)]))
        } else if self.is_final_state() || self.state == MachineState::CancelRequested {
            Ok((self.state, Vec::new()))
        } else {
            match cancel_command_type_of_exec(self.kind) {
                Some(ct) => {
                    let cmd = ProtoCommand {
                        command_type: ct,
                        seq: s,
                        name: String::new(),
                        target: None,
                        only_child: false,
                    };
                    Ok((MachineState::CancelRequested, vec![MachineResponse::IssueNewCommand(cmd)]))
                },
                None => Err(fatal("Operation cannot be cancelled once sent")),
            }
        }
    }
}

} // verus!
