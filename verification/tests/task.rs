use avr_async::task::{
    current, is_context_acquired, is_in_runtime, Task, TaskContext, TaskScope,
};

#[test]
fn task_is_polled_until_it_has_finished() {
    let mut scope = TaskScope::new();
    let mut context = TaskContext::acquire(&mut scope, Task::new(3, 2u8));
    assert!(!is_in_runtime(&scope));
    let mut polls = 0;
    loop {
        let finished = context.poll(&mut scope, |task: &mut Task<u8>, scope: &mut TaskScope| {
            assert!(is_in_runtime(scope));
            task.poll(scope, |left: &mut u8, scope: &TaskScope| {
                assert_eq!(current(scope), 3);
                if *left == 0 {
                    true
                } else {
                    *left -= 1;
                    false
                }
            })
        });
        polls += 1;
        assert!(!is_in_runtime(&scope));
        if finished {
            break;
        }
    }
    assert_eq!(polls, 3);
}

#[test]
fn finished_task_is_not_polled_again() {
    let mut scope = TaskScope::new();
    let mut context = TaskContext::acquire(&mut scope, Task::new(1, ()));
    let mut calls = 0;
    for _ in 0..3 {
        let finished = context.poll(&mut scope, |task: &mut Task<()>, scope: &mut TaskScope| {
            task.poll(scope, |_f: &mut (), _s: &TaskScope| {
                calls += 1;
                true
            })
        });
        assert!(finished);
    }
    assert_eq!(calls, 1);
}

#[test]
fn no_task_is_current_between_polls() {
    let mut scope = TaskScope::new();
    let mut context = TaskContext::acquire(&mut scope, Task::new(5, ()));
    context.poll(&mut scope, |task: &mut Task<()>, scope: &mut TaskScope| {
        assert_eq!(current(scope), 0);
        let finished = task.poll(scope, |_f: &mut (), scope: &TaskScope| {
            assert_eq!(current(scope), 5);
            false
        });
        assert_eq!(current(scope), 0);
        finished
    });
}

#[test]
fn scope_tells_whether_the_context_is_acquired() {
    let mut scope = TaskScope::new();
    assert!(!is_context_acquired(&scope));
    let _context = TaskContext::acquire(&mut scope, ());
    assert!(is_context_acquired(&scope));
}
