use cpp_scaffold::config::ProjectConfig;
use cpp_scaffold::materialize::Step;
use cpp_scaffold::project::create_new_project;
use cpp_scaffold::run::{Run, Status};

fn steps(count: usize) -> Vec<Step> {
    (0..count).map(|i| Step::CreateDir { path: format!("d{}", i) }).collect()
}

fn path_of(step: Option<&Step>) -> Option<&str> {
    match step {
        Some(Step::CreateDir { path }) => Some(path.as_str()),
        Some(Step::WriteFile { path, .. }) => Some(path.as_str()),
        Some(Step::InitRepository { path }) => Some(path.as_str()),
        None => None,
    }
}

#[test]
fn fresh_run_hands_out_the_first_step() {
    let run = Run::new(steps(3));
    assert_eq!(run.status(), Status::Pending);
    assert_eq!(run.completed(), 0);
    assert_eq!(run.total(), 3);
    assert_eq!(path_of(run.next_step()), Some("d0"));
    assert!(run.failed_step().is_none());
}

#[test]
fn run_without_steps_is_complete() {
    let mut run = Run::new(Vec::new());
    assert_eq!(run.status(), Status::Complete);
    assert!(run.next_step().is_none());
    run.record(false);
    assert_eq!(run.status(), Status::Complete);
    run.record(true);
    assert_eq!(run.status(), Status::Complete);
    assert_eq!(run.completed(), 0);
}

#[test]
fn successes_take_the_steps_in_order() {
    let mut run = Run::new(steps(3));
    for i in 0..3 {
        assert_eq!(run.status(), Status::Pending);
        assert_eq!(run.completed(), i);
        assert_eq!(path_of(run.next_step()), Some(format!("d{}", i).as_str()));
        run.record(true);
    }
    assert_eq!(run.status(), Status::Complete);
    assert_eq!(run.completed(), 3);
    assert!(run.next_step().is_none());
    assert!(run.failed_step().is_none());
}

#[test]
fn reports_after_the_end_change_nothing() {
    let mut run = Run::new(steps(1));
    run.record(true);
    run.record(true);
    run.record(false);
    assert_eq!(run.status(), Status::Complete);
    assert_eq!(run.completed(), 1);
    assert!(run.failed_step().is_none());
}

#[test]
fn first_failure_aborts_the_rest() {
    let mut run = Run::new(steps(4));
    run.record(true);
    run.record(false);
    assert_eq!(run.status(), Status::Aborted);
    assert_eq!(run.completed(), 1);
    assert!(run.next_step().is_none());
    assert_eq!(path_of(run.failed_step()), Some("d1"));
    run.record(true);
    run.record(true);
    assert_eq!(run.status(), Status::Aborted);
    assert_eq!(run.completed(), 1);
    assert!(run.next_step().is_none());
    assert_eq!(path_of(run.failed_step()), Some("d1"));
}

#[test]
fn failure_of_the_first_step() {
    let mut run = Run::new(steps(2));
    run.record(false);
    assert_eq!(run.status(), Status::Aborted);
    assert_eq!(run.completed(), 0);
    assert_eq!(path_of(run.failed_step()), Some("d0"));
}

#[test]
fn failure_of_the_last_step() {
    let mut run = Run::new(steps(2));
    run.record(true);
    run.record(false);
    assert_eq!(run.status(), Status::Aborted);
    assert_eq!(run.completed(), 1);
    assert_eq!(path_of(run.failed_step()), Some("d1"));
}

#[test]
fn ignore_file_is_not_written_when_the_repository_fails() {
    let config = ProjectConfig::from_tokens(&["new".to_string()]);
    let plan = create_new_project(&config, true).expect("steps");
    let mut run = Run::new(plan);
    let mut taken: Vec<String> = Vec::new();
    loop {
        let ok = match run.next_step() {
            Some(step) => {
                taken.push(format!("{:?}", step));
                !matches!(step, Step::InitRepository { .. })
            }
            None => break,
        };
        run.record(ok);
    }
    assert_eq!(run.status(), Status::Aborted);
    assert_eq!(taken.len(), 8);
    assert_eq!(run.completed(), 7);
    assert!(taken.iter().all(|step| !step.contains(".gitignore")));
    assert_eq!(
        run.failed_step().map(|step| step.failure_message()),
        Some("Failed to create git repository in './MyProject'.".to_string())
    );
}
