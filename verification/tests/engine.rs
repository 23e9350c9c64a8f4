use benben::engine::{TaskEngine, TaskError, TaskState};
use benben::entities::job;

fn job_model(id: i32, action: Option<&str>) -> job::Model {
    job::Model {
        id,
        workid: "w-1".to_string(),
        workflow_id: 7,
        pid: None,
        code: Some("c".to_string()),
        action: action.map(|a| a.to_string()),
        description: None,
        check: None,
        kind: None,
    }
}

#[test]
fn state_names_are_lower_case() {
    assert_eq!(TaskState::Running.as_str(), "running");
    assert_eq!(TaskState::Stopped.as_str(), "stopped");
    assert_eq!(TaskState::Cancelled.as_str(), "cancelled");
    assert_eq!(TaskState::Finished.as_str(), "finished");
    assert_eq!(TaskState::Pending.as_str(), "pending");
    assert_eq!(TaskState::Waiting.as_str(), "waiting");
}

#[test]
fn lifecycle_scenario() {
    let mut engine = TaskEngine::new();
    engine.init(1, "hello".to_string()).unwrap();
    assert_eq!(engine.get_state(1), Ok(TaskState::Waiting));
    assert_eq!(engine.get_execution_history(1).unwrap(), Vec::<String>::new());

    engine.start(1).unwrap();
    assert_eq!(engine.get_state(1), Ok(TaskState::Running));
    assert_eq!(engine.get_execution_history(1).unwrap(), vec!["Task started".to_string()]);

    engine.pause(1).unwrap();
    assert_eq!(engine.get_state(1), Ok(TaskState::Pending));
    assert_eq!(engine.get_execution_history(1).unwrap().len(), 2);

    engine.resume(1).unwrap();
    assert_eq!(engine.get_state(1), Ok(TaskState::Running));
    assert_eq!(engine.get_execution_history(1).unwrap().len(), 3);

    engine.finish(1).unwrap();
    assert_eq!(engine.get_state(1), Ok(TaskState::Finished));
    assert_eq!(engine.get_execution_history(1).unwrap().len(), 4);

    assert_eq!(engine.stop(1), Ok(()));
    assert_eq!(engine.get_state(1), Ok(TaskState::Stopped));
    assert_eq!(
        engine.get_execution_history(1).unwrap(),
        vec![
            "Task started".to_string(),
            "Task paused".to_string(),
            "Task resumed".to_string(),
            "Task finished".to_string(),
            "Task stopped".to_string(),
        ]
    );
}

#[test]
fn stopped_task_cannot_finish_or_cancel() {
    let mut engine = TaskEngine::new();
    engine.init(3, "x".to_string()).unwrap();
    engine.stop(3).unwrap();
    let before = engine.get_execution_history(3).unwrap();

    assert_eq!(
        engine.finish(3),
        Err(TaskError::IllegalTransition { from: TaskState::Stopped, to: TaskState::Finished })
    );
    assert_eq!(
        engine.cancel(3),
        Err(TaskError::IllegalTransition { from: TaskState::Stopped, to: TaskState::Cancelled })
    );
    assert_eq!(engine.get_state(3), Ok(TaskState::Stopped));
    assert_eq!(engine.get_execution_history(3).unwrap(), before);

    engine.resume(3).unwrap();
    assert_eq!(engine.get_state(3), Ok(TaskState::Running));
    engine.finish(3).unwrap();
    assert_eq!(engine.get_state(3), Ok(TaskState::Finished));
}

#[test]
fn every_other_pair_of_states_is_allowed() {
    let states = [
        TaskState::Running,
        TaskState::Stopped,
        TaskState::Cancelled,
        TaskState::Finished,
        TaskState::Pending,
        TaskState::Waiting,
    ];
    for from in states.iter() {
        for to in states.iter() {
            let forbidden = *from == TaskState::Stopped
                && (*to == TaskState::Finished || *to == TaskState::Cancelled);
            assert_eq!(TaskEngine::is_valid_state_transition(from, to), !forbidden);
        }
    }
}

#[test]
fn each_transition_adds_one_entry() {
    let mut engine = TaskEngine::new();
    engine.init(9, "in".to_string()).unwrap();
    let mut expected = 0;
    for round in 0..5 {
        engine.start(9).unwrap();
        expected += 1;
        assert_eq!(engine.get_execution_history(9).unwrap().len(), expected);
        engine.pause(9).unwrap();
        expected += 1;
        assert_eq!(engine.get_execution_history(9).unwrap().len(), expected);
        assert_eq!(
            engine.get_execution_history(9).unwrap()[2 * round],
            "Task started".to_string()
        );
    }
    engine.cancel(9).unwrap();
    assert_eq!(engine.get_execution_history(9).unwrap().last().unwrap(), "Task cancelled");
}

#[test]
fn unknown_task_is_not_found() {
    let mut engine = TaskEngine::new();
    assert_eq!(engine.start(5), Err(TaskError::TaskNotFound));
    assert_eq!(engine.pause(5), Err(TaskError::TaskNotFound));
    assert_eq!(engine.resume(5), Err(TaskError::TaskNotFound));
    assert_eq!(engine.cancel(5), Err(TaskError::TaskNotFound));
    assert_eq!(engine.finish(5), Err(TaskError::TaskNotFound));
    assert_eq!(engine.stop(5), Err(TaskError::TaskNotFound));
    assert_eq!(engine.get_state(5), Err(TaskError::TaskNotFound));
    assert_eq!(engine.get_execution_history(5), Err(TaskError::TaskNotFound));
    assert_eq!(engine.remove_task(5), Err(TaskError::TaskNotFound));
    assert_eq!(engine.execute_job(5, job_model(1, None)), Err(TaskError::TaskNotFound));
    assert!(engine.list_tasks().is_empty());
}

#[test]
fn errors_in_words() {
    assert_eq!(TaskError::TaskNotFound.message(), "Task not found");
    assert_eq!(
        TaskError::IllegalTransition { from: TaskState::Stopped, to: TaskState::Finished }
            .message(),
        "Cannot transition from Stopped to Finished state"
    );
    assert_eq!(
        TaskError::IllegalTransition { from: TaskState::Stopped, to: TaskState::Cancelled }
            .message(),
        "Cannot transition from Stopped to Cancelled state"
    );
}

#[test]
fn init_replaces_and_remove_evicts() {
    let mut engine = TaskEngine::new();
    engine.init(1, "a".to_string()).unwrap();
    engine.init(2, "b".to_string()).unwrap();
    engine.start(1).unwrap();
    engine.init(1, "again".to_string()).unwrap();
    assert_eq!(engine.get_state(1), Ok(TaskState::Waiting));
    assert!(engine.get_execution_history(1).unwrap().is_empty());

    let mut ids = engine.list_tasks();
    ids.sort();
    assert_eq!(ids, vec![1, 2]);

    assert_eq!(engine.remove_task(1), Ok(()));
    assert_eq!(engine.list_tasks(), vec![2]);
    assert_eq!(engine.get_state(1), Err(TaskError::TaskNotFound));
}

#[test]
fn execute_job_records_twice_and_gives_the_result() {
    let mut engine = TaskEngine::new();
    engine.init(4, "in".to_string()).unwrap();
    let job = job_model(12, Some("run \"it\""));
    let result = engine.execute_job(4, job.clone()).unwrap();
    assert_eq!(result, format!("Job {} executed with action {:?}", job.id, job.action));
    assert_eq!(result, "Job 12 executed with action Some(\"run \\\"it\\\"\")");
    let history = engine.get_execution_history(4).unwrap();
    assert_eq!(history.len(), 2);
    assert_eq!(
        history[0],
        "Executing job: Model { id: 12, workid: \"w-1\", workflow_id: 7, pid: None, code: Some(\"c\"), action: Some(\"run \\\"it\\\"\"), description: None, check: None, type: None }"
    );
    assert_eq!(history[1], "Tool log recorded for job 12");
    assert_eq!(engine.get_state(4), Ok(TaskState::Waiting));

    let none = engine.execute_job(4, job_model(-3, None)).unwrap();
    assert_eq!(none, "Job -3 executed with action None");
}
