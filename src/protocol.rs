use vstd::prelude::*;

verus! {

/// The kinds of commands the engine sends to the service.
#[derive(Debug, Clone, Copy, PartialEq, Eq, Structural)]
pub enum CommandType {
    StartTimer,
    CancelTimer,
    ScheduleActivityTask,
    RequestCancelActivityTask,
    CompleteWorkflowExecution,
    FailWorkflowExecution,
    ContinueAsNewWorkflowExecution,
    CancelWorkflowExecution,
    RecordMarker,
    StartChildWorkflowExecution,
    SignalExternalWorkflowExecution,
    RequestCancelExternalWorkflowExecution,
}

/// A command bound for the service. `name` carries the command's identifying text where it
/// has one (patch id, activity id, signal name, child workflow id); `target` the workflow
/// that an external signal or cancel request is aimed at, and `only_child` whether that
/// workflow must be a child of this one.
#[derive(Debug, Clone, PartialEq)]
pub struct ProtoCommand {
    pub command_type: CommandType,
    pub seq: u32,
    pub name: String,
    pub target: Option<NamespacedWorkflowExecution>,
    pub only_child: bool,
}

pub open spec fn same_execution(a: NamespacedWorkflowExecution, b: NamespacedWorkflowExecution) -> bool {
    a.namespace@ == b.namespace@ && a.workflow_id@ == b.workflow_id@ && a.run_id@ == b.run_id@
}

pub open spec fn same_command(a: ProtoCommand, b: ProtoCommand) -> bool {
    &&& a.command_type == b.command_type
    &&& a.seq == b.seq
    &&& a.name@ == b.name@
    &&& a.only_child == b.only_child
    &&& match (a.target, b.target) {
        (Some(x), Some(y)) => same_execution(x, y),
        (None, None) => true,
        _ => false,
    }
}

impl NamespacedWorkflowExecution {
    pub fn duplicate(&self) -> (r: NamespacedWorkflowExecution)
        ensures
            same_execution(r, *self),
    {
        NamespacedWorkflowExecution {
            namespace: self.namespace.clone(),
            workflow_id: self.workflow_id.clone(),
            run_id: self.run_id.clone(),
        }
    }
}

impl ProtoCommand {
    pub fn command_type(&self) -> (r: CommandType)
        ensures
            r == self.command_type,
    {
        self.command_type
    }

    pub fn duplicate(&self) -> (r: ProtoCommand)
        ensures
            same_command(r, *self),
    {
        let target = match &self.target {
            Some(t) => Some(t.duplicate()),
            None => None,
        };
        ProtoCommand {
            command_type: self.command_type,
            seq: self.seq,
            name: self.name.clone(),
            target,
            only_child: self.only_child,
        }
    }
}

/// How an operation that lang waits on came out.
#[derive(Debug, Clone, Copy, PartialEq, Eq, Structural)]
pub enum Outcome {
    Completed,
    Failed,
    Cancelled,
}

/// A job for the workflow code: one entry of an activation.
#[derive(Debug, Clone, PartialEq)]
pub enum Job {
    StartWorkflow {
        workflow_type: String,
        workflow_id: String,
        arguments: Vec<Vec<u8>>,
        randomness_seed: u64,
        headers: Vec<(String, Vec<u8>)>,
    },
    FireTimer { seq: u32 },
    TimerCancelled { seq: u32 },
    ResolveActivity { seq: u32, outcome: Outcome },
    ResolveChildWorkflowStart { seq: u32, outcome: Outcome },
    ResolveChildWorkflow { seq: u32, outcome: Outcome },
    ResolveSignalExternal { seq: u32, outcome: Outcome },
    ResolveRequestCancelExternal { seq: u32, outcome: Outcome },
    SignalWorkflow { signal_name: String },
    CancelWorkflow { cause: String },
    NotifyHasPatch { patch_id: String },
    UpdateRandomSeed { randomness_seed: u64 },
}

/// A workflow execution in some namespace.
#[derive(Debug, Clone, PartialEq)]
pub struct NamespacedWorkflowExecution {
    pub namespace: String,
    pub workflow_id: String,
    pub run_id: String,
}

/// Which workflow an external signal or cancel request is aimed at.
#[derive(Debug, Clone, PartialEq)]
pub enum ExternalTarget {
    ChildWorkflowId(String),
    WorkflowExecution(NamespacedWorkflowExecution),
}

/// A command issued by the workflow code.
#[derive(Debug, Clone, PartialEq)]
pub enum WFCommand {
    NoCommandsFromLang,
    AddTimer { seq: u32 },
    CancelTimer { seq: u32 },
    AddActivity { seq: u32, activity_id: String },
    RequestCancelActivity { seq: u32 },
    CompleteWorkflow,
    FailWorkflow,
    ContinueAsNew,
    CancelWorkflow,
    SetPatchMarker { patch_id: String, deprecated: bool },
    AddChildWorkflow { seq: u32, workflow_id: String },
    CancelUnstartedChild { seq: u32 },
    RequestCancelExternalWorkflow { seq: u32, target: Option<ExternalTarget> },
    SignalExternalWorkflow { seq: u32, signal_name: String, target: Option<ExternalTarget> },
    CancelSignalWorkflow { seq: u32 },
    QueryResponse,
}

/// What the workflow code is handed on its next turn.
#[derive(Debug, Clone, PartialEq)]
pub struct WfActivation {
    /// Nanoseconds since the Unix epoch.
    pub timestamp: Option<u64>,
    pub is_replaying: bool,
    pub run_id: String,
    pub jobs: Vec<Job>,
}

} // verus!
