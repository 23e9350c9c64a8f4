//! The task lifecycle engine: a registry of task contexts, each a
//! finite-state machine.
//!
//! Every operation changes the registry in memory only. Whoever holds the
//! engine guards it with a lock and, after a change of state, writes the new
//! state to the store.

use vstd::prelude::*;
use std::collections::HashMap;
use vstd::std_specs::iter::IteratorSpec;
use crate::entities::{job, task, tool_log, workflow};
use crate::text::{debug_option_text, decimal, i32_to_string, quoted_option};
use crate::views::group_views;

verus! {

broadcast use {group_views, vstd::std_specs::hash::group_hash_axioms};

/// The state of one task.
#[derive(Debug, Clone, Copy, PartialEq, Eq, Structural)]
pub enum TaskState {
    Running,
    Stopped,
    Cancelled,
    Finished,
    Pending,
    Waiting,
}

impl TaskState {
    /// The lower-case name under which the state is persisted.
    pub open spec fn name(self) -> Seq<char> {
        match self {
            TaskState::Running => "running"@,
            TaskState::Stopped => "stopped"@,
            TaskState::Cancelled => "cancelled"@,
            TaskState::Finished => "finished"@,
            TaskState::Pending => "pending"@,
            TaskState::Waiting => "waiting"@,
        }
    }

    /// The name of the state as it is written in messages.
    pub open spec fn label(self) -> Seq<char> {
        match self {
            TaskState::Running => "Running"@,
            TaskState::Stopped => "Stopped"@,
            TaskState::Cancelled => "Cancelled"@,
            TaskState::Finished => "Finished"@,
            TaskState::Pending => "Pending"@,
            TaskState::Waiting => "Waiting"@,
        }
    }

    /// Whether a task may go from this state to `target`: always, but that a
    /// stopped task can be neither finished nor cancelled.
    pub open spec fn allows(self, target: TaskState) -> bool {
        !(self == TaskState::Stopped && (target == TaskState::Finished || target
            == TaskState::Cancelled))
    }

    /// The lower-case name under which the state is persisted.
    pub fn as_str(&self) -> (r: &'static str)
        ensures
            r@ == self.name(),
    {
        match self {
            TaskState::Running => "running",
            TaskState::Stopped => "stopped",
            TaskState::Cancelled => "cancelled",
            TaskState::Finished => "finished",
            TaskState::Pending => "pending",
            TaskState::Waiting => "waiting",
        }
    }

    /// The name of the state as it is written in messages.
    pub fn label_str(&self) -> (r: &'static str)
        ensures
            r@ == self.label(),
    {
        match self {
            TaskState::Running => "Running",
            TaskState::Stopped => "Stopped",
            TaskState::Cancelled => "Cancelled",
            TaskState::Finished => "Finished",
            TaskState::Pending => "Pending",
            TaskState::Waiting => "Waiting",
        }
    }
}

/// What an operation of the engine can fail with.
#[derive(Debug, Clone, Copy, PartialEq, Eq, Structural)]
pub enum TaskError {
    /// The engine holds no task of the given id.
    TaskNotFound,
    /// The task may not go from its state to the state asked for.
    IllegalTransition { from: TaskState, to: TaskState },
}

impl TaskError {
    /// The error in words.
    pub open spec fn text(self) -> Seq<char> {
        match self {
            TaskError::TaskNotFound => "Task not found"@,
            TaskError::IllegalTransition { from, to } => "Cannot transition from "@ + from.label()
                + " to "@ + to.label() + " state"@,
        }
    }

    /// The error in words.
    pub fn message(&self) -> (r: String)
        ensures
            r@ == self.text(),
    {
        match self {
            TaskError::TaskNotFound => "Task not found".to_owned(),
            TaskError::IllegalTransition { from, to } => {
                let mut out = "Cannot transition from ".to_owned();
                out.append(from.label_str());
                out.append(" to ");
                out.append(to.label_str());
                out.append(" state");
                out
            },
        }
    }
}

/// What the engine knows of one task.
#[derive(Debug, Clone, PartialEq)]
pub struct TaskContext {
    pub state: TaskState,
    /// A snapshot of the task's record.
    pub task: Option<task::Model>,
    /// A snapshot of the record of the task's workflow.
    pub workflow: Option<workflow::Model>,
    /// What happened to the task, oldest first.
    pub execution_history: Vec<String>,
}

/// The model of `TaskContext`: its mathematical view.
pub struct TaskContextView {
    pub state: TaskState,
    pub task: Option<task::ModelView>,
    pub workflow: Option<workflow::ModelView>,
    pub execution_history: Seq<Seq<char>>,
}

impl View for TaskContext {
    type V = TaskContextView;

    open spec fn view(&self) -> TaskContextView {
        TaskContextView {
            state: self.state,
            task: self.task.deep_view(),
            workflow: self.workflow.deep_view(),
            execution_history: self.execution_history.deep_view(),
        }
    }
}

impl TaskContextView {
    /// The context of a task that was just taken up: it waits, and nothing
    /// has happened to it.
    pub open spec fn initial(task_id: i32, input: Seq<char>) -> TaskContextView {
        TaskContextView {
            state: TaskState::Waiting,
            task: Some(
                task::ModelView {
                    id: task_id,
                    input: Some(input),
                    output: None,
                    state: Some("waiting"@),
                    wid: None,
                    planid: None,
                },
            ),
            workflow: None,
            execution_history: Seq::empty(),
        }
    }

    /// The context after the task went to `target`, which `entry` records.
    pub open spec fn moved(self, target: TaskState, entry: Seq<char>) -> TaskContextView {
        TaskContextView {
            state: target,
            execution_history: self.execution_history.push(entry),
            ..self
        }
    }

    /// The context after `entry` was recorded.
    pub open spec fn noted(self, entry: Seq<char>) -> TaskContextView {
        TaskContextView { execution_history: self.execution_history.push(entry), ..self }
    }
}

/// The tasks of an engine, by id.
pub type Tasks = Map<i32, TaskContextView>;

/// What an attempt to move a task to another state gives: the error, if
/// there is one, and the tasks afterwards.
///
/// The attempt fails where the engine holds no such task and where the
/// task's state does not allow the move; the tasks are then as before. Else
/// the task has the new state and one more entry in its history.
pub open spec fn transition(tasks: Tasks, task_id: i32, target: TaskState, entry: Seq<char>) -> (
    Result<(), TaskError>,
    Tasks,
) {
    if !tasks.contains_key(task_id) {
        (Err(TaskError::TaskNotFound), tasks)
    } else if !tasks[task_id].state.allows(target) {
        (Err(TaskError::IllegalTransition { from: tasks[task_id].state, to: target }), tasks)
    } else {
        (Ok(()), tasks.insert(task_id, tasks[task_id].moved(target, entry)))
    }
}

/// The entry that records that a job is being executed.
pub open spec fn job_record(job: job::ModelView) -> Seq<char> {
    "Executing job: "@ + job.debug_text()
}

/// What the execution of a job gives.
pub open spec fn job_result(job: job::ModelView) -> Seq<char> {
    "Job "@ + decimal(job.id as int) + " executed with action "@ + quoted_option(job.action)
}

/// The entry that records that the tool log of a job was written.
pub open spec fn tool_log_record(job_id: i32) -> Seq<char> {
    "Tool log recorded for job "@ + decimal(job_id as int)
}

/// The tool log of a job that was executed for the task of `context`.
pub open spec fn tool_log_of(context: TaskContextView, output: Seq<char>) -> tool_log::ModelView {
    tool_log::ModelView {
        id: 0,
        taskid: match context.task {
            Some(task) => Some(task.id),
            None => None,
        },
        planid: None,
        args: None,
        output: Some(output),
    }
}

/// The task lifecycle engine.
pub struct TaskEngine {
    tasks: HashMap<i32, TaskContext>,
}

impl View for TaskEngine {
    type V = Tasks;

    closed spec fn view(&self) -> Tasks {
        self.tasks@.map_values(|context: TaskContext| context@)
    }
}

impl TaskEngine {
    /// An engine without tasks.
    pub fn new() -> (r: TaskEngine)
        ensures
            r@ == Map::<i32, TaskContextView>::empty(),
    {
        let r = TaskEngine { tasks: HashMap::new() };
        assert(r@ =~= Map::<i32, TaskContextView>::empty());
        r
    }

    /// Takes up the task `task_id` with its input: it waits. A task that the
    /// engine held under that id is replaced.
    pub fn init(&mut self, task_id: i32, input: String) -> (r: Result<(), TaskError>)
        ensures
            r is Ok,
            final(self)@ == old(self)@.insert(task_id, TaskContextView::initial(task_id, input@)),
    {
        let context = TaskContext {
            state: TaskState::Waiting,
            task: Some(
                task::Model {
                    id: task_id,
                    input: Some(input),
                    output: None,
                    state: Some("waiting".to_owned()),
                    wid: None,
                    planid: None,
                },
            ),
            workflow: None,
            execution_history: Vec::new(),
        };
        self.tasks.insert(task_id, context);
        assert(self@ =~= old(self)@.insert(task_id, TaskContextView::initial(task_id, input@)));
        Ok(())
    }

    /// Whether a task in `current_state` may go to `new_state`.
    pub fn is_valid_state_transition(current_state: &TaskState, new_state: &TaskState) -> (r: bool)
        ensures
            r == current_state.allows(*new_state),
    {
        match current_state {
            TaskState::Stopped => match new_state {
                TaskState::Finished | TaskState::Cancelled => false,
                _ => true,
            },
            _ => true,
        }
    }

    /// Moves the task to `target` and records `entry`, where that is allowed.
    fn move_to(&mut self, task_id: i32, target: TaskState, entry: &str) -> (r: Result<
        (),
        TaskError,
    >)
        ensures
            (r, final(self)@) == transition(old(self)@, task_id, target, entry@),
    {
        match self.tasks.remove(&task_id) {
            Some(context) => {
                let mut context = context;
                let ghost before = context@;
                if !Self::is_valid_state_transition(&context.state, &target) {
                    let from = context.state;
                    self.tasks.insert(task_id, context);
                    assert(self@ =~= old(self)@);
                    return Err(TaskError::IllegalTransition { from, to: target });
                }
                context.state = target;
                context.execution_history.push(entry.to_owned());
                assert(context@ == before.moved(target, entry@));
                self.tasks.insert(task_id, context);
                assert(self@ =~= old(self)@.insert(task_id, before.moved(target, entry@)));
                Ok(())
            },
            None => {
                assert(self@ =~= old(self)@);
                Err(TaskError::TaskNotFound)
            },
        }
    }

    /// Starts the task: it runs.
    pub fn start(&mut self, task_id: i32) -> (r: Result<(), TaskError>)
        ensures
            (r, final(self)@) == transition(
                old(self)@,
                task_id,
                TaskState::Running,
                "Task started"@,
            ),
    {
        self.move_to(task_id, TaskState::Running, "Task started")
    }

    /// Pauses the task: it is pending.
    pub fn pause(&mut self, task_id: i32) -> (r: Result<(), TaskError>)
        ensures
            (r, final(self)@) == transition(
                old(self)@,
                task_id,
                TaskState::Pending,
                "Task paused"@,
            ),
    {
        self.move_to(task_id, TaskState::Pending, "Task paused")
    }

    /// Resumes the task: it runs.
    pub fn resume(&mut self, task_id: i32) -> (r: Result<(), TaskError>)
        ensures
            (r, final(self)@) == transition(
                old(self)@,
                task_id,
                TaskState::Running,
                "Task resumed"@,
            ),
    {
        self.move_to(task_id, TaskState::Running, "Task resumed")
    }

    /// Cancels the task.
    pub fn cancel(&mut self, task_id: i32) -> (r: Result<(), TaskError>)
        ensures
            (r, final(self)@) == transition(
                old(self)@,
                task_id,
                TaskState::Cancelled,
                "Task cancelled"@,
            ),
    {
        self.move_to(task_id, TaskState::Cancelled, "Task cancelled")
    }

    /// Finishes the task.
    pub fn finish(&mut self, task_id: i32) -> (r: Result<(), TaskError>)
        ensures
            (r, final(self)@) == transition(
                old(self)@,
                task_id,
                TaskState::Finished,
                "Task finished"@,
            ),
    {
        self.move_to(task_id, TaskState::Finished, "Task finished")
    }

    /// Stops the task.
    pub fn stop(&mut self, task_id: i32) -> (r: Result<(), TaskError>)
        ensures
            (r, final(self)@) == transition(
                old(self)@,
                task_id,
                TaskState::Stopped,
                "Task stopped"@,
            ),
    {
        self.move_to(task_id, TaskState::Stopped, "Task stopped")
    }

    /// The ids of all tasks, in no particular order.
    pub fn list_tasks(&self) -> (r: Vec<i32>)
        ensures
            r@.to_set() == self@.dom(),
            r@.no_duplicates(),
    {
        let mut ids: Vec<i32> = Vec::new();
        let keys = self.tasks.keys();
        let ghost all = keys.remaining().unref();
        assert(all.to_set() == self.tasks@.dom());
        assert(keys.remaining().no_duplicates());
        assert(all.no_duplicates()) by {
            assert forall|i: int, j: int| 0 <= i < all.len() && 0 <= j < all.len() && i != j
                implies all[i] != all[j] by {
                assert(keys.remaining()[i] != keys.remaining()[j]);
            }
        }
        for key in it: keys
            invariant
                it.seq().unref() == all,
                ids@ == all.take(it.index() as int),
        {
            proof {
                let i = it.index() as int;
                assert(all.take(i + 1) =~= all.take(i).push(*key));
            }
            ids.push(*key);
        }
        proof {
            assert(all.take(all.len() as int) =~= all);
            assert(self@.dom() =~= self.tasks@.dom());
        }
        ids
    }

    /// Records the tool log of a job that was executed for the task of
    /// `context`: gives the log and notes in the task's history that it was
    /// recorded.
    pub fn log_tool_call(context: &mut TaskContext, job_id: i32, output: String) -> (r:
        tool_log::Model)
        ensures
            r@ == tool_log_of(old(context)@, output@),
            final(context)@ == old(context)@.noted(tool_log_record(job_id)),
    {
        let taskid = match &context.task {
            Some(task) => Some(task.id),
            None => None,
        };
        let log = tool_log::Model { id: 0, taskid, planid: None, args: None, output: Some(output) };
        let mut entry = "Tool log recorded for job ".to_owned();
        entry.append(i32_to_string(job_id).as_str());
        context.execution_history.push(entry);
        log
    }

    /// Executes a job for the task: notes the job in the task's history,
    /// gives the result, and notes that the tool log was recorded. The job is
    /// not handed to any agent.
    pub fn execute_job(&mut self, task_id: i32, job: job::Model) -> (r: Result<String, TaskError>)
        ensures
            match r {
                Ok(result) => {
                    &&& old(self)@.contains_key(task_id)
                    &&& result@ == job_result(job@)
                    &&& final(self)@ == old(self)@.insert(
                        task_id,
                        old(self)@[task_id].noted(job_record(job@)).noted(tool_log_record(job.id)),
                    )
                },
                Err(error) => {
                    &&& !old(self)@.contains_key(task_id)
                    &&& error == TaskError::TaskNotFound
                    &&& final(self)@ == old(self)@
                },
            },
    {
        match self.tasks.remove(&task_id) {
            Some(context) => {
                let mut context = context;
                let mut record = "Executing job: ".to_owned();
                record.append(job.debug_string().as_str());
                context.execution_history.push(record);
                let mut result = "Job ".to_owned();
                result.append(i32_to_string(job.id).as_str());
                result.append(" executed with action ");
                result.append(debug_option_text(&job.action).as_str());
                let _log = Self::log_tool_call(&mut context, job.id, result.clone());
                self.tasks.insert(task_id, context);
                assert(self@ =~= old(self)@.insert(
                    task_id,
                    old(self)@[task_id].noted(job_record(job@)).noted(tool_log_record(job.id)),
                ));
                Ok(result)
            },
            None => {
                assert(self@ =~= old(self)@);
                Err(TaskError::TaskNotFound)
            },
        }
    }

    /// The state of the task.
    pub fn get_state(&self, task_id: i32) -> (r: Result<TaskState, TaskError>)
        ensures
            r == if self@.contains_key(task_id) {
                Ok::<TaskState, TaskError>(self@[task_id].state)
            } else {
                Err::<TaskState, TaskError>(TaskError::TaskNotFound)
            },
    {
        match self.tasks.get(&task_id) {
            Some(context) => Ok(context.state),
            None => Err(TaskError::TaskNotFound),
        }
    }

    /// The history of the task, oldest entry first.
    pub fn get_execution_history(&self, task_id: i32) -> (r: Result<Vec<String>, TaskError>)
        ensures
            match r {
                Ok(history) => self@.contains_key(task_id) && history.deep_view()
                    == self@[task_id].execution_history,
                Err(error) => !self@.contains_key(task_id) && error == TaskError::TaskNotFound,
            },
    {
        match self.tasks.get(&task_id) {
            Some(context) => {
                let history = context.execution_history.clone();
                proof {
                    assert(history.deep_view() =~= context.execution_history.deep_view());
                }
                Ok(history)
            },
            None => Err(TaskError::TaskNotFound),
        }
    }

    /// Drops the task from the engine.
    pub fn remove_task(&mut self, task_id: i32) -> (r: Result<(), TaskError>)
        ensures
            match r {
                Ok(_) => old(self)@.contains_key(task_id) && final(self)@ == old(self)@.remove(
                    task_id,
                ),
                Err(error) => !old(self)@.contains_key(task_id) && error
                    == TaskError::TaskNotFound && final(self)@ == old(self)@,
            },
    {
        match self.tasks.remove(&task_id) {
            Some(_) => {
                assert(self@ =~= old(self)@.remove(task_id));
                Ok(())
            },
            None => {
                assert(self@ =~= old(self)@);
                Err(TaskError::TaskNotFound)
            },
        }
    }
}

/// The transition table: a stopped task can be neither finished nor
/// cancelled, the attempt fails with the states it was made between and
/// changes nothing; every other move of a task that the engine holds
/// succeeds and gives the task the new state.
pub proof fn law_transition_table(tasks: Tasks, task_id: i32, target: TaskState, entry: Seq<char>)
    requires
        tasks.contains_key(task_id),
    ensures
        ({
            let from = tasks[task_id].state;
            let (result, after) = transition(tasks, task_id, target, entry);
            if from == TaskState::Stopped && (target == TaskState::Finished || target
                == TaskState::Cancelled) {
                &&& result == Err::<(), TaskError>(TaskError::IllegalTransition { from, to: target })
                &&& after == tasks
            } else {
                &&& result == Ok::<(), TaskError>(())
                &&& after.contains_key(task_id)
                &&& after[task_id].state == target
                &&& after.remove(task_id) == tasks.remove(task_id)
            }
        }),
{
    let (result, after) = transition(tasks, task_id, target, entry);
    assert(after.remove(task_id) =~= tasks.remove(task_id));
}

/// The tasks after a list of moves of one task, each a target state with
/// the entry that records it, and whether every move succeeded.
pub open spec fn transitions(tasks: Tasks, task_id: i32, moves: Seq<(TaskState, Seq<char>)>) -> (
    bool,
    Tasks,
)
    decreases moves.len(),
{
    if moves.len() == 0 {
        (true, tasks)
    } else {
        let (all, before) = transitions(tasks, task_id, moves.drop_last());
        let (result, after) = transition(before, task_id, moves.last().0, moves.last().1);
        (all && result is Ok, after)
    }
}

/// The audit trail: every successful move adds exactly one entry to the
/// task's history, so after a list of successful moves the history is the
/// one before followed by the moves' entries, in the order of the moves.
pub proof fn law_audit_trail(tasks: Tasks, task_id: i32, moves: Seq<(TaskState, Seq<char>)>)
    requires
        tasks.contains_key(task_id),
        transitions(tasks, task_id, moves).0,
    ensures
        ({
            let after = transitions(tasks, task_id, moves).1;
            let entries = moves.map_values(|m: (TaskState, Seq<char>)| m.1);
            &&& after.contains_key(task_id)
            &&& after[task_id].execution_history == tasks[task_id].execution_history + entries
            &&& after[task_id].execution_history.len() == tasks[task_id].execution_history.len()
                + moves.len()
        }),
    decreases moves.len(),
{
    let entries = moves.map_values(|m: (TaskState, Seq<char>)| m.1);
    if moves.len() == 0 {
        assert(tasks[task_id].execution_history + entries =~= tasks[task_id].execution_history);
    } else {
        law_audit_trail(tasks, task_id, moves.drop_last());
        let earlier = moves.drop_last().map_values(|m: (TaskState, Seq<char>)| m.1);
        assert(entries =~= earlier.push(moves.last().1));
        let before = transitions(tasks, task_id, moves.drop_last()).1;
        let after = transitions(tasks, task_id, moves).1;
        assert(after[task_id].execution_history =~= tasks[task_id].execution_history + entries);
    }
}

} // verus!
