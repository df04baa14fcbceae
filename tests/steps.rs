use archiver::{ArchiveError, Args, Event, Job, Operation, Step, ToolFailure};

fn job(op: Operation, make_dir: Option<&str>) -> Job {
    Job {
        operation: op,
        make_dir: make_dir.map(|s| s.to_string()),
        program: "tar".to_string(),
        args: vec!["-tvf".to_string(), "a.tar".to_string()],
    }
}

#[test]
fn directory_comes_before_tool() {
    let j = job(Operation::Extract, Some("a.extracted"));
    assert_eq!(j.first_step(), Step::CreateDir("a.extracted".to_string()));
    assert_eq!(j.next(Event::DirCreated), Step::Run);
}

#[test]
fn no_directory_runs_at_once() {
    assert_eq!(job(Operation::List, None).first_step(), Step::Run);
}

#[test]
fn failed_directory_aborts() {
    let j = job(Operation::Extract, Some("a.extracted"));
    let step = j.next(Event::DirFailed {
        path: "a.extracted".to_string(),
        cause: "File exists".to_string(),
    });
    assert_eq!(
        step,
        Step::Fail(ArchiveError::DestinationCreateFailed {
            path: "a.extracted".to_string(),
            cause: "File exists".to_string(),
        })
    );
}

#[test]
fn zero_exit_succeeds() {
    assert_eq!(job(Operation::List, None).next(Event::Exited(Some(0))), Step::Done);
}

#[test]
fn nonzero_exit_names_the_operation() {
    for op in [Operation::Extract, Operation::Compress, Operation::List] {
        let step = job(op, None).next(Event::Exited(Some(2)));
        assert_eq!(
            step,
            Step::Fail(ArchiveError::ExternalToolFailed {
                operation: op,
                tool: "tar".to_string(),
                failure: ToolFailure::Exited(Some(2)),
            })
        );
        assert!(!matches!(step, Step::Fail(ArchiveError::UnsupportedFormat { .. })));
    }
}

#[test]
fn signal_exit_fails() {
    let step = job(Operation::Compress, None).next(Event::Exited(None));
    assert_eq!(
        step,
        Step::Fail(ArchiveError::ExternalToolFailed {
            operation: Operation::Compress,
            tool: "tar".to_string(),
            failure: ToolFailure::Exited(None),
        })
    );
}

#[test]
fn spawn_failure_fails() {
    let step = job(Operation::List, None).next(Event::SpawnFailed("not found".to_string()));
    assert_eq!(
        step,
        Step::Fail(ArchiveError::ExternalToolFailed {
            operation: Operation::List,
            tool: "tar".to_string(),
            failure: ToolFailure::NotStarted("not found".to_string()),
        })
    );
}

#[test]
fn planned_extract_runs_through_steps() {
    let mut a = Args {
        extract: Some("b.zip".to_string()),
        compress: None,
        list: None,
        files: Vec::new(),
        tar: None,
        unzip: Some("fake-unzip".to_string()),
        zip: None,
    };
    let j = a.plan().unwrap();
    assert_eq!(j.first_step(), Step::CreateDir("b.extracted".to_string()));
    assert_eq!(j.next(Event::DirCreated), Step::Run);
    assert_eq!(
        j.next(Event::Exited(Some(1))),
        Step::Fail(ArchiveError::ExternalToolFailed {
            operation: Operation::Extract,
            tool: "fake-unzip".to_string(),
            failure: ToolFailure::Exited(Some(1)),
        })
    );
    a.files.push("dest".to_string());
    assert_eq!(a.plan().unwrap().first_step(), Step::Run);
}
