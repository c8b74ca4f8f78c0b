use crate::errors::ErrorStr;
use crate::task::{InitTask, InitTaskView, Task, TaskView};
use vstd::prelude::*;

verus! {

/// The step of context acquisition at which `init` gave up.
#[derive(Debug, Clone, Copy, PartialEq, Eq)]
pub enum AcquireError {
    /// `setup` has not provided a surface handle yet.
    HandleMissing,
    /// The handle is not bound to a real element yet.
    ElementMissing,
    /// The element refused the request for a graphics context.
    RequestFailed,
    /// The element granted no graphics context.
    ContextAbsent,
    /// The element granted a context of another kind.
    WrongContextType,
}

/// What a successful acquisition read from the element.
pub struct Acquired<C> {
    pub width: u32,
    pub height: u32,
    pub context: C,
}

/// Timing of one frame tick, in microseconds.
#[derive(Debug, Clone, Copy, PartialEq, Eq)]
pub struct RafTime {
    delta: u64,
    timestamp: u64,
}

impl RafTime {
    /// A tick `delta` after the previous one, at absolute time `timestamp`.
    pub fn new(delta: u64, timestamp: u64) -> (r: Self)
        ensures
            r.spec_delta() == delta,
            r.spec_timestamp() == timestamp,
    {
        Self { delta, timestamp }
    }

    pub closed spec fn spec_delta(self) -> u64 {
        self.delta
    }

    pub closed spec fn spec_timestamp(self) -> u64 {
        self.timestamp
    }

    /// Time since the previous tick.
    pub fn delta(&self) -> (r: u64)
        ensures
            r == self.spec_delta(),
    {
        self.delta
    }

    /// Absolute time of this tick.
    pub fn timestamp(&self) -> (r: u64)
        ensures
            r == self.spec_timestamp(),
    {
        self.timestamp
    }
}

/// The state of a drawing surface that task callbacks may read.
pub ghost struct SurfaceView<S, C> {
    pub name: Seq<char>,
    pub handle: Option<S>,
    pub context: Option<C>,
    pub width: u32,
    pub height: u32,
    pub initialised: bool,
}

/// A drawing surface: its handle, its graphics context, its size and whether
/// it is ready for drawing.
pub struct Surface<S, C> {
    name: String,
    handle: Option<S>,
    context: Option<C>,
    width: u32,
    height: u32,
    initialised: bool,
}

impl<S, C> View for Surface<S, C> {
    type V = SurfaceView<S, C>;

    closed spec fn view(&self) -> SurfaceView<S, C> {
        SurfaceView {
            name: self.name@,
            handle: self.handle,
            context: self.context,
            width: self.width,
            height: self.height,
            initialised: self.initialised,
        }
    }
}

impl<S, C> Surface<S, C> {
    /// This surface as task callbacks see it while `init` runs them: marked ready.
    pub closed spec fn while_initialising(self) -> Surface<S, C> {
        Surface { initialised: true, ..self }
    }

    /// The surface's diagnostic name.
    pub fn name(&self) -> (r: &str)
        ensures
            r@ == self@.name,
    {
        self.name.as_str()
    }

    /// The surface handle, once `setup` has provided it.
    pub fn canvas(&self) -> (r: &Option<S>)
        ensures
            *r == self@.handle,
    {
        &self.handle
    }

    /// The graphics context, once acquired.
    pub fn context(&self) -> (r: &Option<C>)
        ensures
            *r == self@.context,
    {
        &self.context
    }

    /// Pixel width read at the last acquisition.
    pub fn width(&self) -> (r: u32)
        ensures
            r == self@.width,
    {
        self.width
    }

    /// Pixel height read at the last acquisition.
    pub fn height(&self) -> (r: u32)
        ensures
            r == self@.height,
    {
        self.height
    }

    /// Whether the surface is ready for drawing.
    pub fn is_initialised(&self) -> (r: bool)
        ensures
            r == self@.initialised,
    {
        self.initialised
    }
}

/// The views of a queue of initialization tasks.
pub open spec fn init_views<I>(ts: Seq<InitTask<I>>) -> Seq<InitTaskView<I>> {
    ts.map_values(|t: InitTask<I>| t@)
}

/// The views of a queue of recurring tasks.
pub open spec fn task_views<F>(ts: Seq<Task<F>>) -> Seq<TaskView<F>> {
    ts.map_values(|t: Task<F>| t@)
}

/// Every initialization task has reported success.
pub open spec fn all_done<I>(ts: Seq<InitTaskView<I>>) -> bool {
    forall|k: int| 0 <= k < ts.len() ==> #[trigger] ts[k].done
}

/// One pass over the initialization queue, from `o` to `n`: every task that
/// was not done ran once more, and every task that was done was left alone.
pub open spec fn init_pass<I>(o: Seq<InitTaskView<I>>, n: Seq<InitTaskView<I>>) -> bool {
    &&& n.len() == o.len()
    &&& forall|k: int|
        #![trigger n[k]]
        0 <= k < o.len() ==> {
            &&& n[k].callback == o[k].callback
            &&& n[k].name == o[k].name
            &&& o[k].done ==> n[k] == o[k]
            &&& !o[k].done ==> n[k].attempts == o[k].attempts + 1
        }
}

/// The whole state of a surface manager.
pub ghost struct CanvasView<S, C, I, R, F> {
    pub surface: SurfaceView<S, C>,
    pub init_tasks: Seq<InitTaskView<I>>,
    pub resize_tasks: Seq<TaskView<R>>,
    pub raf_tasks: Seq<TaskView<F>>,
}

/// What one call of `init` does to the manager's state, leaving aside what
/// the acquisition and the task callbacks returned.
pub open spec fn init_post<S, C, I, R, F>(
    o: CanvasView<S, C, I, R, F>,
    n: CanvasView<S, C, I, R, F>,
    r: Result<(), AcquireError>,
) -> bool {
    &&& n.resize_tasks == o.resize_tasks
    &&& n.raf_tasks == o.raf_tasks
    &&& n.surface.name == o.surface.name
    &&& n.surface.handle == o.surface.handle
    &&& o.surface.initialised ==> r is Ok
    &&& o.surface.initialised ==> n.surface.context == o.surface.context
        && n.surface.width == o.surface.width && n.surface.height == o.surface.height
    &&& (!o.surface.initialised && o.surface.handle is None) ==> r == Err::<(), AcquireError>(
        AcquireError::HandleMissing,
    )
    &&& r is Err ==> {
        &&& !n.surface.initialised
        &&& n.surface.context is None
        &&& n.surface.width == o.surface.width
        &&& n.surface.height == o.surface.height
        &&& n.init_tasks == o.init_tasks
    }
    &&& r is Ok ==> {
        &&& n.surface.context is Some
        &&& init_pass(o.init_tasks, n.init_tasks)
        &&& n.surface.initialised == all_done(n.init_tasks)
    }
}

/// Manages one drawing surface: its handle (`S`), its graphics context (`C`)
/// and three queues of callbacks, run once until success (`I`), on every
/// resize (`R`) and on every frame (`F`).
pub struct WebGlCanvas<S, C, I, R, F> {
    surface: Surface<S, C>,
    init_tasks: Vec<InitTask<I>>,
    resize_tasks: Vec<Task<R>>,
    raf_tasks: Vec<Task<F>>,
}

impl<S, C, I, R, F> View for WebGlCanvas<S, C, I, R, F> {
    type V = CanvasView<S, C, I, R, F>;

    closed spec fn view(&self) -> CanvasView<S, C, I, R, F> {
        CanvasView {
            surface: self.surface@,
            init_tasks: init_views(self.init_tasks@),
            resize_tasks: task_views(self.resize_tasks@),
            raf_tasks: task_views(self.raf_tasks@),
        }
    }
}

impl<S, C, I, R, F> WebGlCanvas<S, C, I, R, F> {
    /// A surface that is ready for drawing has a graphics context.
    pub open spec fn wf(&self) -> bool {
        self@.surface.initialised ==> self@.surface.context is Some
    }

    /// The surface as the task callbacks receive it.
    pub closed spec fn spec_surface(&self) -> Surface<S, C> {
        self.surface
    }

    /// A manager with no handle, no context, a zero size and empty queues.
    pub fn new(name: String) -> (r: Self)
        ensures
            r.wf(),
            r@.surface == (SurfaceView::<S, C> {
                name: name@,
                handle: None,
                context: None,
                width: 0,
                height: 0,
                initialised: false,
            }),
            r@.init_tasks.len() == 0,
            r@.resize_tasks.len() == 0,
            r@.raf_tasks.len() == 0,
    {
        let r = Self {
            surface: Surface {
                name,
                handle: None,
                context: None,
                width: 0,
                height: 0,
                initialised: false,
            },
            init_tasks: Vec::new(),
            resize_tasks: Vec::new(),
            raf_tasks: Vec::new(),
        };
        proof {
            assert(init_views(r.init_tasks@) =~= Seq::empty());
        }
        r
    }
}


impl<S, C, I, R, F> WebGlCanvas<S, C, I, R, F> {
    /// Acquires the graphics context unless the surface is already ready, then
    /// runs every initialization task that has not succeeded yet, in
    /// registration order. `acquire` reads the size and the context from the
    /// element behind the handle; it is called only when the surface is not
    /// ready and a handle exists. When acquisition fails the surface is left
    /// not ready, without a context, no task runs and the failing step is
    /// returned. Otherwise the surface is ready afterwards exactly when every
    /// task is done.
    pub fn init<A>(&mut self, acquire: A) -> (r: Result<(), AcquireError>)
        where
            A: FnOnce(&S) -> Result<Acquired<C>, AcquireError>,
            I: FnMut(&Surface<S, C>) -> bool,
        requires
            old(self).wf(),
            forall|h: S| call_requires(acquire, (&h,)),
            forall|k: int, s: Surface<S, C>|
                0 <= k < old(self)@.init_tasks.len() ==> #[trigger] call_requires(
                    old(self)@.init_tasks[k].callback,
                    (&s,),
                ),
            forall|k: int|
                0 <= k < old(self)@.init_tasks.len() ==> #[trigger] old(
                    self,
                )@.init_tasks[k].attempts < u64::MAX,
        ensures
            final(self).wf(),
            init_post(old(self)@, final(self)@, r),
            (!old(self)@.surface.initialised && old(self)@.surface.handle is Some && r is Err)
                ==> call_ensures(acquire, (&old(self)@.surface.handle->Some_0,), Err::<Acquired<C>, AcquireError>(r->Err_0)),
            (!old(self)@.surface.initialised && r is Ok) ==> exists|a: Acquired<C>|
                {
                    &&& #[trigger] call_ensures(acquire, (&old(self)@.surface.handle->Some_0,), Ok::<Acquired<C>, AcquireError>(a))
                    &&& final(self)@.surface.context == Some(a.context)
                    &&& final(self)@.surface.width == a.width
                    &&& final(self)@.surface.height == a.height
                },
            r is Ok ==> forall|k: int|
                0 <= k < old(self)@.init_tasks.len() && !old(self)@.init_tasks[k].done
                    ==> #[trigger] call_ensures(
                    old(self)@.init_tasks[k].callback,
                    (&final(self).spec_surface().while_initialising(),),
                    final(self)@.init_tasks[k].done,
                ),
    {
        if !self.surface.initialised {
            self.surface.initialised = true;
            let acquired = match &self.surface.handle {
                None => {
                    self.surface.initialised = false;
                    self.surface.context = None;
                    return Err(AcquireError::HandleMissing);
                },
                Some(h) => acquire(h),
            };
            match acquired {
                Err(e) => {
                    self.surface.initialised = false;
                    self.surface.context = None;
                    return Err(e);
                },
                Ok(a) => {
                    let ghost ga = a;
                    self.surface.width = a.width;
                    self.surface.height = a.height;
                    self.surface.context = Some(a.context);
                    proof {
                        assert(self.surface.context == Some(ga.context));
                    }
                },
            }
        }
        let ghost before = init_views(self.init_tasks@);
        let ghost surface = self.surface;
        proof {
            assert(before == old(self)@.init_tasks);
        }
        let n = self.init_tasks.len();
        let mut all_ok = true;
        let mut i: usize = 0;
        while i < n
            invariant
                0 <= i <= n,
                n == self.init_tasks.len(),
                n == before.len(),
                self.surface == surface,
                self.resize_tasks@ == old(self).resize_tasks@,
                self.raf_tasks@ == old(self).raf_tasks@,
                surface.initialised,
                surface.context is Some,
                forall|k: int, s: Surface<S, C>|
                    0 <= k < n ==> #[trigger] call_requires(before[k].callback, (&s,)),
                forall|k: int| 0 <= k < n ==> #[trigger] before[k].attempts < u64::MAX,
                forall|k: int|
                    i <= k < n ==> #[trigger] init_views(self.init_tasks@)[k] == before[k],
                forall|k: int|
                    0 <= k < i ==> {
                        let t = #[trigger] init_views(self.init_tasks@)[k];
                        &&& t.callback == before[k].callback
                        &&& t.name == before[k].name
                        &&& before[k].done ==> t == before[k]
                        &&& !before[k].done ==> t.attempts == before[k].attempts + 1
                        &&& !before[k].done ==> call_ensures(before[k].callback, (&surface,), t.done)
                    },
                all_ok == (forall|k: int| 0 <= k < i ==> #[trigger] init_views(self.init_tasks@)[k].done),
            decreases n - i,
        {
            let ghost prev = self.init_tasks@;
            proof {
                assert(prev[i as int]@ == init_views(prev)[i as int]);
            }
            let done = self.init_tasks[i].execute_if_uninitialised(&self.surface);
            proof {
                assert forall|k: int| 0 <= k < n && k != i implies #[trigger] init_views(self.init_tasks@)[k] == init_views(prev)[k] by {
                    assert(self.init_tasks@[k] == prev[k]);
                }
                assert(init_views(self.init_tasks@)[i as int] == self.init_tasks@[i as int]@);
            }
            let ghost was_ok = all_ok;
            if !done {
                all_ok = false;
            }
            proof {
                let cur = init_views(self.init_tasks@);
                assert(cur[i as int].done == done);
                if all_ok {
                    assert forall|k: int| 0 <= k < i + 1 implies #[trigger] cur[k].done by {
                        if k < i {
                            assert(init_views(prev)[k].done);
                        }
                    }
                } else if done {
                    let k = choose|k: int| 0 <= k < i && !#[trigger] init_views(prev)[k].done;
                    assert(!cur[k].done);
                }
            }
            i = i + 1;
        }
        self.surface.initialised = all_ok;
        proof {
            assert(self.surface.while_initialising() == surface);
            assert(init_pass(before, init_views(self.init_tasks@)));
            assert(all_ok == all_done(init_views(self.init_tasks@)));
        }
        Ok(())
    }
}

/// Runs every task of the queue once, in order, with the same arguments, and
/// collects what each returned; a failing task does not stop the others.
fn run_tasks<T, A: Copy, B: Copy>(tasks: &mut Vec<Task<T>>, a: A, b: B) -> (r: Vec<Result<(), ErrorStr>>)
    where
        T: FnMut(A, B) -> Result<(), ErrorStr>,
    requires
        forall|k: int|
            0 <= k < old(tasks)@.len() ==> call_requires(#[trigger] old(tasks)@[k]@.callback, (a, b)),
    ensures
        task_views(final(tasks)@) == task_views(old(tasks)@),
        r@.len() == old(tasks)@.len(),
        forall|k: int|
            0 <= k < r@.len() ==> call_ensures(old(tasks)@[k]@.callback, (a, b), #[trigger] r@[k]),
{
    let ghost before = tasks@;
    let n = tasks.len();
    let mut results: Vec<Result<(), ErrorStr>> = Vec::new();
    let mut i: usize = 0;
    while i < n
        invariant
            0 <= i <= n,
            n == tasks@.len(),
            n == before.len(),
            results@.len() == i,
            forall|k: int| 0 <= k < n ==> call_requires(#[trigger] before[k]@.callback, (a, b)),
            forall|k: int| 0 <= k < n ==> (#[trigger] tasks@[k])@ == before[k]@,
            forall|k: int|
                0 <= k < i ==> call_ensures(before[k]@.callback, (a, b), #[trigger] results@[k]),
        decreases n - i,
    {
        let res = tasks[i].execute(a, b);
        results.push(res);
        i = i + 1;
    }
    proof {
        assert(task_views(tasks@) =~= task_views(before));
    }
    results
}

impl<S, C, I, R, F> WebGlCanvas<S, C, I, R, F> {
    /// Runs every resize task once, in registration order, with the surface
    /// and the first entry, and returns what each task returned. A surface
    /// that is not ready runs nothing and returns no result.
    pub fn run_resize_tasks<E>(&mut self, entries: &Vec<E>) -> (r: Vec<Result<(), ErrorStr>>)
        where
            R: FnMut(&Surface<S, C>, &E) -> Result<(), ErrorStr>,
        requires
            entries@.len() > 0,
            forall|k: int, s: Surface<S, C>, e: E|
                0 <= k < old(self)@.resize_tasks.len() ==> #[trigger] call_requires(
                    old(self)@.resize_tasks[k].callback,
                    (&s, &e),
                ),
        ensures
            final(self)@ == old(self)@,
            final(self).spec_surface() == old(self).spec_surface(),
            !old(self)@.surface.initialised ==> r@.len() == 0,
            old(self)@.surface.initialised ==> r@.len() == old(self)@.resize_tasks.len(),
            forall|k: int|
                0 <= k < r@.len() ==> call_ensures(
                    old(self)@.resize_tasks[k].callback,
                    (&old(self).spec_surface(), &entries@[0]),
                    #[trigger] r@[k],
                ),
    {
        if !self.surface.initialised {
            return Vec::new();
        }
        proof {
            assert forall|k: int| 0 <= k < self.resize_tasks@.len() implies call_requires(
                #[trigger] self.resize_tasks@[k]@.callback,
                (&self.surface, &entries@[0]),
            ) by {
                assert(self@.resize_tasks[k] == self.resize_tasks@[k]@);
            }
        }
        let r = run_tasks(&mut self.resize_tasks, &self.surface, &entries[0]);
        proof {
            assert forall|k: int| 0 <= k < r@.len() implies call_ensures(
                old(self)@.resize_tasks[k].callback,
                (&old(self).spec_surface(), &entries@[0]),
                #[trigger] r@[k],
            ) by {
                assert(old(self)@.resize_tasks[k] == old(self).resize_tasks@[k]@);
            }
        }
        r
    }

    /// Runs every frame task once, in registration order, with the surface
    /// and the tick's timing, and returns what each task returned. A surface
    /// that is not ready runs nothing and returns no result.
    pub fn run_raf_tasks(&mut self, timestamp: RafTime) -> (r: Vec<Result<(), ErrorStr>>)
        where
            F: FnMut(&Surface<S, C>, RafTime) -> Result<(), ErrorStr>,
        requires
            forall|k: int, s: Surface<S, C>, t: RafTime|
                0 <= k < old(self)@.raf_tasks.len() ==> #[trigger] call_requires(
                    old(self)@.raf_tasks[k].callback,
                    (&s, t),
                ),
        ensures
            final(self)@ == old(self)@,
            final(self).spec_surface() == old(self).spec_surface(),
            !old(self)@.surface.initialised ==> r@.len() == 0,
            old(self)@.surface.initialised ==> r@.len() == old(self)@.raf_tasks.len(),
            forall|k: int|
                0 <= k < r@.len() ==> call_ensures(
                    old(self)@.raf_tasks[k].callback,
                    (&old(self).spec_surface(), timestamp),
                    #[trigger] r@[k],
                ),
    {
        if !self.surface.initialised {
            return Vec::new();
        }
        proof {
            assert forall|k: int| 0 <= k < self.raf_tasks@.len() implies call_requires(
                #[trigger] self.raf_tasks@[k]@.callback,
                (&self.surface, timestamp),
            ) by {
                assert(self@.raf_tasks[k] == self.raf_tasks@[k]@);
            }
        }
        let r = run_tasks(&mut self.raf_tasks, &self.surface, timestamp);
        proof {
            assert forall|k: int| 0 <= k < r@.len() implies call_ensures(
                old(self)@.raf_tasks[k].callback,
                (&old(self).spec_surface(), timestamp),
                #[trigger] r@[k],
            ) by {
                assert(old(self)@.raf_tasks[k] == old(self).raf_tasks@[k]@);
            }
        }
        r
    }
}

impl<S, C, I, R, F> WebGlCanvas<S, C, I, R, F> {
    /// Stores the handle that the host will bind to the real drawing element.
    pub fn setup(&mut self, canvas_ref: S)
        ensures
            final(self)@ == (CanvasView {
                surface: SurfaceView { handle: Some(canvas_ref), ..old(self)@.surface },
                ..old(self)@
            }),
            old(self).wf() ==> final(self).wf(),
    {
        self.surface.handle = Some(canvas_ref);
    }

    /// Appends an initialization task; it runs after those registered before it.
    pub fn add_init_task(&mut self, task: InitTask<I>)
        ensures
            final(self)@ == (CanvasView { init_tasks: old(self)@.init_tasks.push(task@), ..old(self)@ }),
            old(self).wf() ==> final(self).wf(),
    {
        self.init_tasks.push(task);
        proof {
            assert(init_views(self.init_tasks@) =~= init_views(old(self).init_tasks@).push(task@));
        }
    }

    /// Appends a resize task; it runs after those registered before it.
    pub fn add_resize_task(&mut self, task: Task<R>)
        ensures
            final(self)@ == (CanvasView { resize_tasks: old(self)@.resize_tasks.push(task@), ..old(self)@ }),
            old(self).wf() ==> final(self).wf(),
    {
        self.resize_tasks.push(task);
        proof {
            assert(task_views(self.resize_tasks@) =~= task_views(old(self).resize_tasks@).push(task@));
        }
    }

    /// Appends a frame task; it runs after those registered before it.
    pub fn add_raf_task(&mut self, task: Task<F>)
        ensures
            final(self)@ == (CanvasView { raf_tasks: old(self)@.raf_tasks.push(task@), ..old(self)@ }),
            old(self).wf() ==> final(self).wf(),
    {
        self.raf_tasks.push(task);
        proof {
            assert(task_views(self.raf_tasks@) =~= task_views(old(self).raf_tasks@).push(task@));
        }
    }

    /// The surface, as task callbacks receive it.
    pub fn surface(&self) -> (r: &Surface<S, C>)
        ensures
            *r == self.spec_surface(),
            r@ == self@.surface,
    {
        &self.surface
    }

    /// The graphics context, once acquired.
    pub fn get_context(&self) -> (r: &Option<C>)
        ensures
            *r == self@.surface.context,
    {
        &self.surface.context
    }

    /// The surface handle, once `setup` has provided it.
    pub fn get_canvas(&self) -> (r: &Option<S>)
        ensures
            *r == self@.surface.handle,
    {
        &self.surface.handle
    }

    /// The initialization queue, in registration order.
    pub fn init_tasks(&self) -> (r: &Vec<InitTask<I>>)
        ensures
            init_views(r@) == self@.init_tasks,
    {
        &self.init_tasks
    }

    /// The resize queue, in registration order.
    pub fn resize_tasks(&self) -> (r: &Vec<Task<R>>)
        ensures
            task_views(r@) == self@.resize_tasks,
    {
        &self.resize_tasks
    }

    /// The frame queue, in registration order.
    pub fn raf_tasks(&self) -> (r: &Vec<Task<F>>)
        ensures
            task_views(r@) == self@.raf_tasks,
    {
        &self.raf_tasks
    }
}

/// A call of `init` that runs the tasks and sees every one of them done
/// leaves the surface ready; and a call on a ready surface whose tasks are all
/// done changes nothing at all.
pub proof fn lemma_init_step_when_complete<S, C, I, R, F>(
    o: CanvasView<S, C, I, R, F>,
    n: CanvasView<S, C, I, R, F>,
    r: Result<(), AcquireError>,
)
    requires
        init_post(o, n, r),
    ensures
        (r is Ok && all_done(n.init_tasks)) ==> n.surface.initialised,
        (o.surface.initialised && all_done(o.init_tasks)) ==> n == o,
{
    if o.surface.initialised && all_done(o.init_tasks) {
        assert forall|k: int| 0 <= k < o.init_tasks.len() implies n.init_tasks[k] == o.init_tasks[k] by {
            assert(o.init_tasks[k].done);
        }
        assert(n.init_tasks =~= o.init_tasks);
        assert(all_done(n.init_tasks)) by {
            assert forall|k: int| 0 <= k < n.init_tasks.len() implies #[trigger] n.init_tasks[k].done by {
                assert(o.init_tasks[k].done);
            }
        }
    }
}

/// In any run of `init` calls, once the surface is ready with every
/// initialization task done, it stays ready, and no task runs again: the
/// state never changes after that point.
pub proof fn lemma_completed_init_is_stable<S, C, I, R, F>(
    states: Seq<CanvasView<S, C, I, R, F>>,
    results: Seq<Result<(), AcquireError>>,
    j: int,
)
    requires
        states.len() == results.len() + 1,
        forall|i: int| 0 <= i < results.len() ==> init_post(states[i], #[trigger] states[i + 1], results[i]),
        0 <= j < states.len(),
        states[j].surface.initialised,
        all_done(states[j].init_tasks),
    ensures
        forall|i: int| j <= i < states.len() ==> #[trigger] states[i] == states[j],
    decreases states.len() - j,
{
    if j + 1 < states.len() {
        lemma_init_step_when_complete(states[j], states[j + 1], results[j]);
        lemma_completed_init_is_stable(states, results, j + 1);
    }
}

/// A task that reports failure leaves the surface not ready, and the next
/// call of `init` that gets past acquisition runs that task again while
/// leaving every task that is already done untouched.
pub proof fn lemma_failed_task_is_retried<S, C, I, R, F>(
    o: CanvasView<S, C, I, R, F>,
    n: CanvasView<S, C, I, R, F>,
    n2: CanvasView<S, C, I, R, F>,
    r: Result<(), AcquireError>,
    r2: Result<(), AcquireError>,
    k: int,
)
    requires
        init_post(o, n, r),
        init_post(n, n2, r2),
        r is Ok,
        r2 is Ok,
        0 <= k < o.init_tasks.len(),
        !n.init_tasks[k].done,
    ensures
        !n.surface.initialised,
        n2.init_tasks[k].attempts == n.init_tasks[k].attempts + 1,
        forall|j: int|
            0 <= j < n.init_tasks.len() && #[trigger] n.init_tasks[j].done ==> n2.init_tasks[j]
                == n.init_tasks[j],
{
    assert(!n.init_tasks[k].done);
}
} // verus!
