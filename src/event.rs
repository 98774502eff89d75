use vstd::prelude::*;

verus! {

/// The kinds of history events that the engine distinguishes.
#[derive(Debug, Clone, Copy, PartialEq, Eq, Structural)]
pub enum EventType {
    Unspecified,
    WorkflowExecutionStarted,
    WorkflowExecutionCompleted,
    WorkflowExecutionFailed,
    WorkflowExecutionTimedOut,
    WorkflowExecutionCanceled,
    WorkflowExecutionTerminated,
    WorkflowExecutionContinuedAsNew,
    WorkflowExecutionSignaled,
    WorkflowExecutionCancelRequested,
    WorkflowTaskScheduled,
    WorkflowTaskStarted,
    WorkflowTaskCompleted,
    WorkflowTaskTimedOut,
    WorkflowTaskFailed,
    ActivityTaskScheduled,
    ActivityTaskStarted,
    ActivityTaskCompleted,
    ActivityTaskFailed,
    ActivityTaskTimedOut,
    ActivityTaskCancelRequested,
    ActivityTaskCanceled,
    TimerStarted,
    TimerFired,
    TimerCanceled,
    MarkerRecorded,
    StartChildWorkflowExecutionInitiated,
    ChildWorkflowExecutionStarted,
    ChildWorkflowExecutionCompleted,
    ChildWorkflowExecutionFailed,
    SignalExternalWorkflowExecutionInitiated,
    ExternalWorkflowExecutionSignaled,
    RequestCancelExternalWorkflowExecutionInitiated,
    ExternalWorkflowExecutionCancelRequested,
}

/// Type-specific payload of an event, as far as the engine reads it.
#[derive(Debug, Clone, PartialEq)]
pub enum EventAttributes {
    NoAttributes,
    WorkflowExecutionStarted {
        workflow_type: String,
        original_execution_run_id: String,
        /// The workflow's input, one encoded payload each.
        input: Vec<Vec<u8>>,
        /// Header fields, by name.
        header: Vec<(String, Vec<u8>)>,
    },
    WorkflowExecutionSignaled { signal_name: String },
    WorkflowExecutionCancelRequested { cause: String },
    /// A marker written by a `patched` call.
    PatchMarker { patch_id: String, deprecated: bool },
}

/// One service-authored history record. `related_event_id` is the id of the event that
/// started the operation this event continues (scheduled, started or initiated event id);
/// it is read only for the event types that carry such a reference.
#[derive(Debug, Clone, PartialEq)]
pub struct HistoryEvent {
    pub event_id: i64,
    pub event_type: EventType,
    /// Nanoseconds since the Unix epoch.
    pub event_time: Option<u64>,
    pub related_event_id: i64,
    pub attributes: EventAttributes,
}

pub open spec fn spec_is_final_wf_execution_event(t: EventType) -> bool {
    match t {
        EventType::WorkflowExecutionCompleted | EventType::WorkflowExecutionFailed
        | EventType::WorkflowExecutionTimedOut | EventType::WorkflowExecutionCanceled
        | EventType::WorkflowExecutionTerminated
        | EventType::WorkflowExecutionContinuedAsNew => true,
        _ => false,
    }
}

/// Events that the service records as the result of a workflow command.
pub open spec fn spec_is_command_event(t: EventType) -> bool {
    match t {
        EventType::ActivityTaskScheduled | EventType::ActivityTaskCancelRequested
        | EventType::TimerStarted | EventType::TimerCanceled | EventType::MarkerRecorded
        | EventType::WorkflowExecutionCompleted | EventType::WorkflowExecutionFailed
        | EventType::WorkflowExecutionCanceled | EventType::WorkflowExecutionContinuedAsNew
        | EventType::StartChildWorkflowExecutionInitiated
        | EventType::SignalExternalWorkflowExecutionInitiated
        | EventType::RequestCancelExternalWorkflowExecutionInitiated => true,
        _ => false,
    }
}

/// Event types that continue an operation begun by an earlier event.
pub open spec fn spec_has_initial_event(t: EventType) -> bool {
    match t {
        EventType::WorkflowTaskStarted | EventType::WorkflowTaskCompleted
        | EventType::WorkflowTaskTimedOut | EventType::WorkflowTaskFailed
        | EventType::ActivityTaskStarted | EventType::ActivityTaskCompleted
        | EventType::ActivityTaskFailed | EventType::ActivityTaskTimedOut
        | EventType::ActivityTaskCanceled | EventType::TimerFired
        | EventType::ChildWorkflowExecutionStarted | EventType::ChildWorkflowExecutionCompleted
        | EventType::ChildWorkflowExecutionFailed | EventType::ExternalWorkflowExecutionSignaled
        | EventType::ExternalWorkflowExecutionCancelRequested => true,
        _ => false,
    }
}

pub open spec fn spec_initial_command_event_id(e: HistoryEvent) -> Option<i64> {
    if spec_has_initial_event(e.event_type) {
        Some(e.related_event_id)
    } else {
        None
    }
}

/// The patch id and deprecation flag of a patch marker event.
pub open spec fn spec_marker_details(e: HistoryEvent) -> Option<(Seq<char>, bool)> {
    if e.event_type == EventType::MarkerRecorded {
        match e.attributes {
            EventAttributes::PatchMarker { patch_id, deprecated } => Some((patch_id@, deprecated)),
            _ => None,
        }
    } else {
        None
    }
}

impl HistoryEvent {
    pub fn is_final_wf_execution_event(&self) -> (r: bool)
        ensures
            r == spec_is_final_wf_execution_event(self.event_type),
    {
        matches!(
            self.event_type,
            EventType::WorkflowExecutionCompleted | EventType::WorkflowExecutionFailed
                | EventType::WorkflowExecutionTimedOut | EventType::WorkflowExecutionCanceled
                | EventType::WorkflowExecutionTerminated
                | EventType::WorkflowExecutionContinuedAsNew
        )
    }

    pub fn is_command_event(&self) -> (r: bool)
        ensures
            r == spec_is_command_event(self.event_type),
    {
        matches!(
            self.event_type,
            EventType::ActivityTaskScheduled | EventType::ActivityTaskCancelRequested
                | EventType::TimerStarted | EventType::TimerCanceled | EventType::MarkerRecorded
                | EventType::WorkflowExecutionCompleted | EventType::WorkflowExecutionFailed
                | EventType::WorkflowExecutionCanceled
                | EventType::WorkflowExecutionContinuedAsNew
                | EventType::StartChildWorkflowExecutionInitiated
                | EventType::SignalExternalWorkflowExecutionInitiated
                | EventType::RequestCancelExternalWorkflowExecutionInitiated
        )
    }

    pub fn get_initial_command_event_id(&self) -> (r: Option<i64>)
        ensures
            r == spec_initial_command_event_id(*self),
    {
        let continues = matches!(
            self.event_type,
            EventType::WorkflowTaskStarted | EventType::WorkflowTaskCompleted
                | EventType::WorkflowTaskTimedOut | EventType::WorkflowTaskFailed
                | EventType::ActivityTaskStarted | EventType::ActivityTaskCompleted
                | EventType::ActivityTaskFailed | EventType::ActivityTaskTimedOut
                | EventType::ActivityTaskCanceled | EventType::TimerFired
                | EventType::ChildWorkflowExecutionStarted
                | EventType::ChildWorkflowExecutionCompleted
                | EventType::ChildWorkflowExecutionFailed
                | EventType::ExternalWorkflowExecutionSignaled
                | EventType::ExternalWorkflowExecutionCancelRequested
        );
        if continues {
            Some(self.related_event_id)
        } else {
            None
        }
    }

    pub fn get_changed_marker_details(&self) -> (r: Option<(String, bool)>)
        ensures
            match spec_marker_details(*self) {
                Some((id, dep)) => match r {
                    Some(p) => p.0@ == id && p.1 == dep,
                    None => false,
                },
                None => r is None,
            },
    {
        if self.event_type == EventType::MarkerRecorded {
            match &self.attributes {
                EventAttributes::PatchMarker { patch_id, deprecated } => {
                    Some((patch_id.clone(), *deprecated))
                },
                _ => None,
            }
        } else {
            None
        }
    }
}

} // verus!
