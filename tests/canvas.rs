use std::cell::Cell;
use std::rc::Rc;

use webgl_canvas::canvas::{AcquireError, Acquired, RafTime, Surface, WebGlCanvas};
use webgl_canvas::errors::ErrorStr;
use webgl_canvas::task::{InitTask, Task};

#[derive(Debug, Clone, PartialEq)]
struct Context(u32);

type Surf = Surface<u32, Context>;
type InitFn = Box<dyn FnMut(&Surf) -> bool>;
type ResizeFn = Box<dyn FnMut(&Surf, &(u32, u32)) -> Result<(), ErrorStr>>;
type RafFn = Box<dyn FnMut(&Surf, RafTime) -> Result<(), ErrorStr>>;
type Canvas = WebGlCanvas<u32, Context, InitFn, ResizeFn, RafFn>;

fn sized(width: u32, height: u32) -> impl FnOnce(&u32) -> Result<Acquired<Context>, AcquireError> {
    move |handle: &u32| {
        Ok(Acquired {
            width,
            height,
            context: Context(*handle),
        })
    }
}

fn counting_init(result: bool, runs: &Rc<Cell<u32>>) -> InitFn {
    let runs = runs.clone();
    Box::new(move |_s: &Surf| {
        runs.set(runs.get() + 1);
        result
    })
}

fn ready_canvas() -> Canvas {
    let mut canvas: Canvas = WebGlCanvas::new("test".to_string());
    canvas.setup(7);
    assert_eq!(canvas.init(sized(10, 20)), Ok(()));
    canvas
}

#[test]
fn new_canvas_is_empty_and_not_ready() {
    let canvas: Canvas = WebGlCanvas::new("fresh".to_string());
    let s = canvas.surface();
    assert_eq!(s.name(), "fresh");
    assert!(!s.is_initialised());
    assert_eq!(s.width(), 0);
    assert_eq!(s.height(), 0);
    assert!(canvas.get_context().is_none());
    assert!(canvas.get_canvas().is_none());
    assert!(canvas.init_tasks().is_empty());
    assert!(canvas.resize_tasks().is_empty());
    assert!(canvas.raf_tasks().is_empty());
}

#[test]
fn setup_stores_the_handle() {
    let mut canvas: Canvas = WebGlCanvas::new("c".to_string());
    canvas.setup(42);
    assert_eq!(canvas.get_canvas(), &Some(42));
    assert!(!canvas.surface().is_initialised());
}

#[test]
fn end_to_end_single_init_task() {
    let mut canvas: Canvas = WebGlCanvas::new("Triangle".to_string());
    canvas.setup(1);
    let runs = Rc::new(Cell::new(0));
    canvas.add_init_task(InitTask::new(counting_init(true, &runs), "always".to_string()));
    assert_eq!(canvas.init(sized(800, 600)), Ok(()));
    let s = canvas.surface();
    assert!(s.is_initialised());
    assert_eq!(s.width(), 800);
    assert_eq!(s.height(), 600);
    assert_eq!(canvas.get_context(), &Some(Context(1)));
    let task = &canvas.init_tasks()[0];
    assert!(task.is_done());
    assert_eq!(task.attempts(), 1);
    assert_eq!(runs.get(), 1);
}

#[test]
fn end_to_end_failing_and_succeeding_tasks() {
    let mut canvas: Canvas = WebGlCanvas::new("two".to_string());
    canvas.setup(1);
    let fail_runs = Rc::new(Cell::new(0));
    let ok_runs = Rc::new(Cell::new(0));
    canvas.add_init_task(InitTask::new(counting_init(false, &fail_runs), "fails".to_string()));
    canvas.add_init_task(InitTask::new(counting_init(true, &ok_runs), "succeeds".to_string()));
    for _ in 0..3 {
        assert_eq!(canvas.init(sized(800, 600)), Ok(()));
    }
    assert_eq!(canvas.init_tasks()[0].attempts(), 3);
    assert_eq!(canvas.init_tasks()[1].attempts(), 1);
    assert!(!canvas.init_tasks()[0].is_done());
    assert!(canvas.init_tasks()[1].is_done());
    assert!(!canvas.surface().is_initialised());
    assert_eq!(fail_runs.get(), 3);
    assert_eq!(ok_runs.get(), 1);
}

#[test]
fn completed_init_is_not_repeated() {
    let mut canvas: Canvas = WebGlCanvas::new("done".to_string());
    canvas.setup(3);
    let runs = Rc::new(Cell::new(0));
    let acquisitions = Rc::new(Cell::new(0));
    canvas.add_init_task(InitTask::new(counting_init(true, &runs), "once".to_string()));
    for _ in 0..4 {
        let acquisitions = acquisitions.clone();
        let r = canvas.init(move |h: &u32| {
            acquisitions.set(acquisitions.get() + 1);
            Ok(Acquired { width: 5, height: 6, context: Context(*h) })
        });
        assert_eq!(r, Ok(()));
        assert!(canvas.surface().is_initialised());
    }
    assert_eq!(runs.get(), 1);
    assert_eq!(acquisitions.get(), 1);
    assert_eq!(canvas.init_tasks()[0].attempts(), 1);
}

#[test]
fn failed_task_is_retried_and_done_tasks_skipped() {
    let mut canvas: Canvas = WebGlCanvas::new("retry".to_string());
    canvas.setup(1);
    let ok_runs = Rc::new(Cell::new(0));
    canvas.add_init_task(InitTask::new(counting_init(true, &ok_runs), "first".to_string()));
    let flaky_runs = Rc::new(Cell::new(0));
    let flaky = flaky_runs.clone();
    canvas.add_init_task(InitTask::new(
        Box::new(move |_s: &Surf| {
            flaky.set(flaky.get() + 1);
            flaky.get() >= 2
        }),
        "second".to_string(),
    ));
    assert_eq!(canvas.init(sized(1, 1)), Ok(()));
    assert!(!canvas.surface().is_initialised());
    assert!(!canvas.init_tasks()[1].is_done());
    assert_eq!(canvas.init(sized(1, 1)), Ok(()));
    assert!(canvas.surface().is_initialised());
    assert_eq!(ok_runs.get(), 1);
    assert_eq!(flaky_runs.get(), 2);
    assert_eq!(canvas.init_tasks()[1].attempts(), 2);
}

#[test]
fn init_without_handle_fails_and_runs_nothing() {
    let mut canvas: Canvas = WebGlCanvas::new("nohandle".to_string());
    let runs = Rc::new(Cell::new(0));
    canvas.add_init_task(InitTask::new(counting_init(true, &runs), "t".to_string()));
    assert_eq!(canvas.init(sized(800, 600)), Err(AcquireError::HandleMissing));
    assert!(!canvas.surface().is_initialised());
    assert!(canvas.get_context().is_none());
    assert_eq!(runs.get(), 0);
    assert_eq!(canvas.init_tasks()[0].attempts(), 0);
}

#[test]
fn acquisition_error_is_returned_and_context_cleared() {
    let mut canvas: Canvas = WebGlCanvas::new("err".to_string());
    canvas.setup(9);
    let runs = Rc::new(Cell::new(0));
    canvas.add_init_task(InitTask::new(counting_init(true, &runs), "t".to_string()));
    let errors = [
        AcquireError::ElementMissing,
        AcquireError::RequestFailed,
        AcquireError::ContextAbsent,
        AcquireError::WrongContextType,
    ];
    for e in errors {
        let r = canvas.init(move |_h: &u32| Err(e));
        assert_eq!(r, Err(e));
        assert!(!canvas.surface().is_initialised());
        assert!(canvas.get_context().is_none());
    }
    assert_eq!(runs.get(), 0);
    assert_eq!(canvas.init(sized(2, 3)), Ok(()));
    assert!(canvas.surface().is_initialised());
    assert_eq!(runs.get(), 1);
}

#[test]
fn init_with_no_tasks_makes_surface_ready() {
    let canvas = ready_canvas();
    assert!(canvas.surface().is_initialised());
    assert_eq!(canvas.get_context(), &Some(Context(7)));
    assert_eq!(canvas.surface().width(), 10);
    assert_eq!(canvas.surface().height(), 20);
}

#[test]
fn init_tasks_see_a_ready_surface_with_context() {
    let mut canvas: Canvas = WebGlCanvas::new("see".to_string());
    canvas.setup(4);
    let seen = Rc::new(Cell::new(false));
    let seen2 = seen.clone();
    canvas.add_init_task(InitTask::new(
        Box::new(move |s: &Surf| {
            seen2.set(s.is_initialised() && s.context() == &Some(Context(4)) && s.width() == 640);
            true
        }),
        "look".to_string(),
    ));
    assert_eq!(canvas.init(sized(640, 480)), Ok(()));
    assert!(seen.get());
}

fn counting_resize(result: Result<(), &'static str>, runs: &Rc<Cell<u32>>) -> ResizeFn {
    let runs = runs.clone();
    Box::new(move |_s: &Surf, _e: &(u32, u32)| {
        runs.set(runs.get() + 1);
        result.map_err(ErrorStr::new)
    })
}

fn counting_raf(runs: &Rc<Cell<u32>>) -> RafFn {
    let runs = runs.clone();
    Box::new(move |_s: &Surf, _t: RafTime| {
        runs.set(runs.get() + 1);
        Ok(())
    })
}

#[test]
fn tasks_do_not_run_before_initialisation() {
    let mut canvas: Canvas = WebGlCanvas::new("early".to_string());
    let resize_runs = Rc::new(Cell::new(0));
    let raf_runs = Rc::new(Cell::new(0));
    canvas.add_resize_task(Task::new(counting_resize(Ok(()), &resize_runs), "r".to_string()));
    canvas.add_raf_task(Task::new(counting_raf(&raf_runs), "f".to_string()));
    assert!(canvas.run_resize_tasks(&vec![(1, 1)]).is_empty());
    assert!(canvas.run_raf_tasks(RafTime::new(16, 1000)).is_empty());
    assert_eq!(resize_runs.get(), 0);
    assert_eq!(raf_runs.get(), 0);
}

#[test]
fn resize_failure_does_not_stop_other_tasks() {
    let mut canvas = ready_canvas();
    let runs: Vec<Rc<Cell<u32>>> = (0..4).map(|_| Rc::new(Cell::new(0))).collect();
    for (k, r) in runs.iter().enumerate() {
        let result = if k == 2 { Err("boom") } else { Ok(()) };
        canvas.add_resize_task(Task::new(counting_resize(result, r), format!("task{}", k)));
    }
    let results = canvas.run_resize_tasks(&vec![(100, 50), (1, 1)]);
    assert_eq!(results.len(), 4);
    for (k, r) in results.iter().enumerate() {
        if k == 2 {
            assert_eq!(r.as_ref().unwrap_err().message(), "boom");
        } else {
            assert!(r.is_ok());
        }
    }
    for r in &runs {
        assert_eq!(r.get(), 1);
    }
    assert_eq!(canvas.resize_tasks()[2].name(), "task2");
}

#[test]
fn resize_tasks_get_first_entry_in_order() {
    let mut canvas = ready_canvas();
    let order = Rc::new(Cell::new(0u32));
    for k in 0..3u32 {
        let order = order.clone();
        canvas.add_resize_task(Task::new(
            Box::new(move |_s: &Surf, e: &(u32, u32)| {
                assert_eq!(*e, (30, 40));
                order.set(order.get() * 10 + k + 1);
                Ok(())
            }),
            format!("r{}", k),
        ));
    }
    let results = canvas.run_resize_tasks(&vec![(30, 40), (9, 9)]);
    assert_eq!(results.len(), 3);
    assert_eq!(order.get(), 123);
}

#[test]
fn frame_tasks_get_timing_and_failures_are_isolated() {
    let mut canvas = ready_canvas();
    let seen = Rc::new(Cell::new((0u64, 0u64)));
    let seen2 = seen.clone();
    canvas.add_raf_task(Task::new(
        Box::new(|_s: &Surf, _t: RafTime| Err(ErrorStr::new("frame failed"))),
        "bad".to_string(),
    ));
    canvas.add_raf_task(Task::new(
        Box::new(move |_s: &Surf, t: RafTime| {
            seen2.set((t.delta(), t.timestamp()));
            Ok(())
        }),
        "good".to_string(),
    ));
    let results = canvas.run_raf_tasks(RafTime::new(16_667, 2_000_000));
    assert_eq!(results.len(), 2);
    assert_eq!(results[0].as_ref().unwrap_err().message(), "frame failed");
    assert!(results[1].is_ok());
    assert_eq!(seen.get(), (16_667, 2_000_000));
}

#[test]
fn task_failure_resets_readiness_for_frame_tasks() {
    let mut canvas: Canvas = WebGlCanvas::new("late".to_string());
    canvas.setup(2);
    assert_eq!(canvas.init(sized(1, 1)), Ok(()));
    let runs = Rc::new(Cell::new(0));
    canvas.add_init_task(InitTask::new(counting_init(false, &runs), "late".to_string()));
    assert_eq!(canvas.init(sized(1, 1)), Ok(()));
    assert!(!canvas.surface().is_initialised());
    let raf_runs = Rc::new(Cell::new(0));
    canvas.add_raf_task(Task::new(counting_raf(&raf_runs), "f".to_string()));
    assert!(canvas.run_raf_tasks(RafTime::new(1, 1)).is_empty());
    assert_eq!(raf_runs.get(), 0);
}

#[test]
fn retry_after_task_failure_acquires_a_fresh_context() {
    let mut canvas: Canvas = WebGlCanvas::new("fresh-context".to_string());
    canvas.setup(1);
    let flaky = Rc::new(Cell::new(0));
    let flaky2 = flaky.clone();
    canvas.add_init_task(InitTask::new(
        Box::new(move |_s: &Surf| {
            flaky2.set(flaky2.get() + 1);
            flaky2.get() > 1
        }),
        "second try".to_string(),
    ));
    let r = canvas.init(|_h: &u32| Ok(Acquired { width: 1, height: 2, context: Context(100) }));
    assert_eq!(r, Ok(()));
    assert!(!canvas.surface().is_initialised());
    assert_eq!(canvas.get_context(), &Some(Context(100)));
    let r = canvas.init(|_h: &u32| Ok(Acquired { width: 3, height: 4, context: Context(200) }));
    assert_eq!(r, Ok(()));
    assert!(canvas.surface().is_initialised());
    assert_eq!(canvas.get_context(), &Some(Context(200)));
    assert_eq!(canvas.surface().width(), 3);
    assert_eq!(canvas.surface().height(), 4);
}
