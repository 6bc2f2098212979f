use vstd::prelude::*;

verus! {

/// Configuration of the chunked runner: how many tasks run concurrently in
/// one chunk, how many additional attempts a failing task gets, and whether
/// processing continues past a chunk that contains a final failure.
#[derive(Clone, Copy, Debug)]
pub struct RunnerConfig {
    pub chunk_size: usize,
    pub retries: usize,
    pub allow_partial: bool,
}

/// What the runner asks the driver to do next: run one attempt of one item,
/// or nothing because the run is complete.
#[derive(Clone, Copy, Debug, PartialEq, Eq, Structural)]
pub enum RunnerStep {
    Run { item: usize, attempt: usize },
    Finished,
}

/// The mathematical state of a runner.
pub ghost struct RunnerModel<R, E> {
    pub chunk_size: int,
    pub retries: int,
    pub allow_partial: bool,
    pub n_items: int,
    /// The index of the item currently being attempted; equals the number of
    /// settled items.
    pub item: int,
    /// The 1-based number of the current attempt of the current item.
    pub attempt: int,
    /// Whether an item of the current chunk has finally failed.
    pub chunk_had_error: bool,
    /// Whether a failed chunk stopped the run before all items were settled.
    pub halted: bool,
    pub results: Seq<R>,
    pub errors: Seq<E>,
}

pub open spec fn model_wf<R, E>(m: RunnerModel<R, E>) -> bool {
    &&& m.chunk_size >= 1
    &&& m.retries + 1 <= usize::MAX
    &&& 0 <= m.item <= m.n_items
    &&& 1 <= m.attempt <= m.retries + 1
}

/// The run is over: every item is settled, or a failed chunk halted it.
pub open spec fn runner_finished<R, E>(m: RunnerModel<R, E>) -> bool {
    m.halted || m.item == m.n_items
}

/// Settling the current item: advance to the next item, and at a chunk
/// boundary decide whether a failure in the finished chunk halts the run.
pub open spec fn model_settle<R, E>(
    m: RunnerModel<R, E>,
    had_err_now: bool,
    results: Seq<R>,
    errors: Seq<E>,
) -> RunnerModel<R, E> {
    let item = m.item + 1;
    let chunk_err = m.chunk_had_error || had_err_now;
    let boundary = item % m.chunk_size == 0 || item == m.n_items;
    RunnerModel {
        item,
        attempt: 1,
        chunk_had_error: if boundary {
            false
        } else {
            chunk_err
        },
        halted: boundary && chunk_err && !m.allow_partial,
        results,
        errors,
        ..m
    }
}

/// A successful attempt settles the current item with its result.
pub open spec fn model_on_success<R, E>(m: RunnerModel<R, E>, r: R) -> RunnerModel<R, E> {
    model_settle(m, false, m.results.push(r), m.errors)
}

/// A failed attempt is retried while attempts remain; the last allowed
/// attempt settles the item with its error.
pub open spec fn model_on_failure<R, E>(m: RunnerModel<R, E>, e: E) -> RunnerModel<R, E> {
    if m.attempt <= m.retries {
        RunnerModel { attempt: m.attempt + 1, ..m }
    } else {
        model_settle(m, true, m.results, m.errors.push(e))
    }
}

/// The decision core of the chunked concurrent runner: it walks the items in
/// order, grants each failing item up to `retries` additional attempts, and
/// at each chunk boundary either halts (a failure with `allow_partial`
/// false) or goes on. The driver runs the attempts and reports each result.
pub struct Runner<R, E> {
    chunk_size: usize,
    retries: usize,
    allow_partial: bool,
    n_items: usize,
    item: usize,
    attempt: usize,
    chunk_had_error: bool,
    halted: bool,
    results: Vec<R>,
    errors: Vec<E>,
}

impl<R, E> View for Runner<R, E> {
    type V = RunnerModel<R, E>;

    closed spec fn view(&self) -> RunnerModel<R, E> {
        RunnerModel {
            chunk_size: self.chunk_size as int,
            retries: self.retries as int,
            allow_partial: self.allow_partial,
            n_items: self.n_items as int,
            item: self.item as int,
            attempt: self.attempt as int,
            chunk_had_error: self.chunk_had_error,
            halted: self.halted,
            results: self.results@,
            errors: self.errors@,
        }
    }
}

impl<R, E> Runner<R, E> {
    /// A fresh runner over `n_items` items.
    pub fn new(config: RunnerConfig, n_items: usize) -> (r: Self)
        requires
            config.chunk_size >= 1,
            config.retries < usize::MAX,
        ensures
            r@ == (RunnerModel::<R, E> {
                chunk_size: config.chunk_size as int,
                retries: config.retries as int,
                allow_partial: config.allow_partial,
                n_items: n_items as int,
                item: 0,
                attempt: 1,
                chunk_had_error: false,
                halted: false,
                results: Seq::empty(),
                errors: Seq::empty(),
            }),
            model_wf(r@),
    {
        Runner {
            chunk_size: config.chunk_size,
            retries: config.retries,
            allow_partial: config.allow_partial,
            n_items,
            item: 0,
            attempt: 1,
            chunk_had_error: false,
            halted: false,
            results: Vec::new(),
            errors: Vec::new(),
        }
    }

    /// The next attempt to run, or `Finished` when the run is over.
    pub fn next_action(&self) -> (r: RunnerStep)
        ensures
            runner_finished(self@) ==> r is Finished,
            !runner_finished(self@) ==> (r matches RunnerStep::Run { item, attempt } && item
                == self@.item && attempt == self@.attempt),
    {
        if self.halted || self.item == self.n_items {
            RunnerStep::Finished
        } else {
            RunnerStep::Run { item: self.item, attempt: self.attempt }
        }
    }

    /// Feed a successful attempt's result.
    pub fn on_success(&mut self, r: R)
        requires
            model_wf(old(self)@),
            !runner_finished(old(self)@),
        ensures
            final(self)@ == model_on_success(old(self)@, r),
            model_wf(final(self)@),
    {
        self.results.push(r);
        self.item = self.item + 1;
        self.attempt = 1;
        let boundary = self.item % self.chunk_size == 0 || self.item == self.n_items;
        if boundary {
            if self.chunk_had_error && !self.allow_partial {
                self.halted = true;
            }
            self.chunk_had_error = false;
        }
    }

    /// Feed a failed attempt's error.
    pub fn on_failure(&mut self, e: E)
        requires
            model_wf(old(self)@),
            !runner_finished(old(self)@),
        ensures
            final(self)@ == model_on_failure(old(self)@, e),
            model_wf(final(self)@),
    {
        if self.attempt <= self.retries {
            self.attempt = self.attempt + 1;
        } else {
            self.errors.push(e);
            self.item = self.item + 1;
            self.attempt = 1;
            let boundary = self.item % self.chunk_size == 0 || self.item == self.n_items;
            if boundary {
                if !self.allow_partial {
                    self.halted = true;
                }
                self.chunk_had_error = false;
            } else {
                self.chunk_had_error = true;
            }
        }
    }

    /// The aggregate outcome: the full ordered results when no item finally
    /// failed, and otherwise the partial results beside every error.
    pub fn into_outcome(self) -> (r: Result<Vec<R>, (Vec<R>, Vec<E>)>)
        requires
            runner_finished(self@),
        ensures
            self@.errors.len() == 0 ==> (r matches Ok(v) && v@ == self@.results),
            self@.errors.len() > 0 ==> (r matches Err((v, es)) && v@ == self@.results && es@
                == self@.errors),
    {
        if self.errors.len() == 0 {
            Ok(self.results)
        } else {
            Err((self.results, self.errors))
        }
    }
}

/// One task of a scripted run: its attempts fail `fails_before_success`
/// times and then succeed with `value`; a task whose failure count exceeds
/// the allowed attempts fails every attempt with `error`.
#[derive(Clone, Copy, Debug)]
pub struct ScriptTask {
    pub fails_before_success: usize,
    pub value: u64,
    pub error: u64,
}

/// Whether a task settles successfully within 1 + `retries` attempts.
pub open spec fn task_succeeds(t: ScriptTask, retries: int) -> bool {
    t.fails_before_success <= retries
}

/// How many attempts the runner makes for a task before it settles.
pub open spec fn task_attempts(t: ScriptTask, retries: int) -> int {
    if task_succeeds(t, retries) {
        t.fails_before_success + 1
    } else {
        retries + 1
    }
}

/// The values of the succeeding tasks among the first `n`, in input order.
pub open spec fn script_results(tasks: Seq<ScriptTask>, retries: int, n: int) -> Seq<u64>
    decreases n,
{
    if n <= 0 {
        Seq::empty()
    } else if task_succeeds(tasks[n - 1], retries) {
        script_results(tasks, retries, n - 1).push(tasks[n - 1].value)
    } else {
        script_results(tasks, retries, n - 1)
    }
}

/// The errors of the finally failing tasks among the first `n`, in input
/// order.
pub open spec fn script_errors(tasks: Seq<ScriptTask>, retries: int, n: int) -> Seq<u64>
    decreases n,
{
    if n <= 0 {
        Seq::empty()
    } else if task_succeeds(tasks[n - 1], retries) {
        script_errors(tasks, retries, n - 1)
    } else {
        script_errors(tasks, retries, n - 1).push(tasks[n - 1].error)
    }
}

/// Whether some task with index in `[start, end)` finally fails.
pub open spec fn chunk_has_failure(
    tasks: Seq<ScriptTask>,
    retries: int,
    start: int,
    end: int,
) -> bool {
    exists|i: int| start <= i < end && !(#[trigger] task_succeeds(tasks[i], retries))
}

/// The end of the chunk that starts at `start`.
pub open spec fn chunk_end(tasks: Seq<ScriptTask>, chunk_size: int, start: int) -> int {
    if start + chunk_size <= tasks.len() {
        start + chunk_size
    } else {
        tasks.len() as int
    }
}

/// How many items are settled when processing starts at the chunk boundary
/// `start`: chunks run in order, and a chunk with a final failure is the
/// last one to run unless partial failure is allowed.
pub open spec fn processed_from(
    tasks: Seq<ScriptTask>,
    retries: int,
    chunk_size: int,
    allow_partial: bool,
    start: int,
) -> int
    decreases tasks.len() - start when 0 <= start && 1 <= chunk_size
{
    if start >= tasks.len() {
        start
    } else {
        let end = chunk_end(tasks, chunk_size, start);
        if !allow_partial && chunk_has_failure(tasks, retries, start, end) {
            end
        } else {
            processed_from(tasks, retries, chunk_size, allow_partial, end)
        }
    }
}

/// How many items a whole run settles.
pub open spec fn script_processed(
    tasks: Seq<ScriptTask>,
    retries: int,
    chunk_size: int,
    allow_partial: bool,
) -> int {
    processed_from(tasks, retries, chunk_size, allow_partial, 0)
}

proof fn lemma_chunk_failure_extend(tasks: Seq<ScriptTask>, retries: int, s: int, i: int)
    requires
        s <= i,
    ensures
        chunk_has_failure(tasks, retries, s, i + 1) == (chunk_has_failure(tasks, retries, s, i)
            || !task_succeeds(tasks[i], retries)),
{
    if chunk_has_failure(tasks, retries, s, i) {
        let w = choose|j: int| s <= j < i && !task_succeeds(tasks[j], retries);
        assert(s <= w < i + 1 && !task_succeeds(tasks[w], retries));
    }
    if !task_succeeds(tasks[i], retries) {
        assert(s <= i < i + 1);
    }
    if chunk_has_failure(tasks, retries, s, i + 1) {
        let w = choose|j: int| s <= j < i + 1 && !task_succeeds(tasks[j], retries);
        if w < i {
            assert(s <= w < i && !task_succeeds(tasks[w], retries));
        }
    }
}

proof fn lemma_mod_bounds(i: int, c: int)
    requires
        0 <= i,
        1 <= c,
    ensures
        0 <= i % c < c,
        i % c <= i,
{
    assert(0 <= i % c < c && i % c <= i) by (nonlinear_arith)
        requires
            0 <= i,
            1 <= c,
    ;
}

proof fn lemma_mod_succ(i: int, c: int)
    requires
        0 <= i,
        1 <= c,
    ensures
        0 <= i % c < c,
        i % c <= i,
        i % c == c - 1 ==> (i + 1) % c == 0 && (i - i % c) + c == i + 1,
        i % c != c - 1 ==> (i + 1) % c == i % c + 1 && i + 1 - (i + 1) % c == i - i % c,
{
    lemma_mod_bounds(i, c);
    assert((i % c == c - 1 && (i + 1) % c == 0) || (i % c != c - 1 && (i + 1) % c == i % c + 1))
        by (nonlinear_arith)
        requires
            0 <= i,
            1 <= c,
    ;
}

/// A scripted run of the chunked runner: each task's attempt outcomes are
/// given as data, and the runner's decisions are driven to completion. The
/// outcome is exactly what the chunked, retrying, failure-tolerant schedule
/// prescribes: the values of the succeeding settled tasks in input order,
/// beside the errors of the finally failing settled ones.
pub fn chunked_spawn_runner_with_retries(config: RunnerConfig, tasks: &Vec<ScriptTask>) -> (r:
    Result<Vec<u64>, (Vec<u64>, Vec<u64>)>)
    requires
        config.chunk_size >= 1,
        config.retries < usize::MAX,
    ensures
        ({
            let p = script_processed(
                tasks@,
                config.retries as int,
                config.chunk_size as int,
                config.allow_partial,
            );
            let res = script_results(tasks@, config.retries as int, p);
            let errs = script_errors(tasks@, config.retries as int, p);
            &&& errs.len() == 0 ==> (r matches Ok(v) && v@ == res)
            &&& errs.len() > 0 ==> (r matches Err((v, es)) && v@ == res && es@ == errs)
        }),
{
    let ghost rr = config.retries as int;
    let ghost cc = config.chunk_size as int;
    let ghost aa = config.allow_partial;
    let ghost goal = script_processed(tasks@, rr, cc, aa);
    let mut runner = Runner::<u64, u64>::new(config, tasks.len());
    loop
        invariant
            runner@.chunk_size == cc,
            runner@.retries == rr,
            runner@.allow_partial == aa,
            runner@.n_items == tasks@.len(),
            model_wf(runner@),
            runner@.results == script_results(tasks@, rr, runner@.item),
            runner@.errors == script_errors(tasks@, rr, runner@.item),
            !runner_finished(runner@) ==> runner@.chunk_had_error == chunk_has_failure(
                tasks@,
                rr,
                runner@.item - runner@.item % cc,
                runner@.item,
            ),
            !runner@.halted ==> goal == processed_from(
                tasks@,
                rr,
                cc,
                aa,
                runner@.item - runner@.item % cc,
            ),
            runner@.halted ==> runner@.item == goal,
            !runner_finished(runner@) ==> runner@.attempt <= tasks@[runner@.item].fails_before_success
                + 1,
        ensures
            runner_finished(runner@),
        decreases tasks@.len() - runner@.item, runner@.retries + 2 - runner@.attempt,
    {
        match runner.next_action() {
            RunnerStep::Run { item, attempt } => {
                let ghost m0 = runner@;
                let ghost i = m0.item;
                let ghost cs = i - i % cc;
                let t = tasks[item];
                if attempt <= t.fails_before_success {
                    runner.on_failure(t.error);
                } else {
                    runner.on_success(t.value);
                }
                proof {
                    lemma_mod_succ(i, cc);
                    let m1 = runner@;
                    let n = m0.n_items;
                    if m1.item == i + 1 {
                        // the item settled: a success exactly when the task
                        // succeeds within the allowed attempts
                        lemma_chunk_failure_extend(tasks@, rr, cs, i);
                        let chunk_err = m0.chunk_had_error || !task_succeeds(tasks@[i], rr);
                        assert(chunk_err == chunk_has_failure(tasks@, rr, cs, i + 1));
                        let boundary = (i + 1) % cc == 0 || i + 1 == n;
                        if boundary {
                            assert(chunk_end(tasks@, cc, cs) == i + 1);
                            assert(cs < tasks@.len());
                            assert(processed_from(tasks@, rr, cc, aa, cs) == (if !aa && chunk_err {
                                i + 1
                            } else {
                                processed_from(tasks@, rr, cc, aa, i + 1)
                            }));
                        }
                        if (i + 1) % cc == 0 {
                            assert(i + 1 - (i + 1) % cc == i + 1);
                            assert(!chunk_has_failure(tasks@, rr, i + 1, i + 1));
                        } else {
                            assert(i + 1 - (i + 1) % cc == cs);
                        }
                    }
                }
            },
            RunnerStep::Finished => {
                break ;
            },
        }
    }
    proof {
        let m = runner@;
        if !m.halted {
            let n = tasks@.len() as int;
            lemma_mod_bounds(n, cc);
            let cs = n - n % cc;
            assert(processed_from(tasks@, rr, cc, aa, n) == n);
            if cs != n {
                assert(chunk_end(tasks@, cc, cs) == n);
                assert(processed_from(tasks@, rr, cc, aa, cs) == n);
            }
        }
    }
    runner.into_outcome()
}

/// The scripted runner without retries: every task gets exactly one attempt.
pub fn chunked_spawn_runner(
    chunk_size: usize,
    allow_partial: bool,
    tasks: &Vec<ScriptTask>,
) -> (r: Result<Vec<u64>, (Vec<u64>, Vec<u64>)>)
    requires
        chunk_size >= 1,
    ensures
        ({
            let p = script_processed(tasks@, 0, chunk_size as int, allow_partial);
            let res = script_results(tasks@, 0, p);
            let errs = script_errors(tasks@, 0, p);
            &&& errs.len() == 0 ==> (r matches Ok(v) && v@ == res)
            &&& errs.len() > 0 ==> (r matches Err((v, es)) && v@ == res && es@ == errs)
        }),
{
    chunked_spawn_runner_with_retries(
        RunnerConfig { chunk_size, retries: 0, allow_partial },
        tasks,
    )
}

proof fn lemma_results_all_success(tasks: Seq<ScriptTask>, retries: int, n: int)
    requires
        0 <= n <= tasks.len(),
        forall|i: int| 0 <= i < n ==> #[trigger] task_succeeds(tasks[i], retries),
    ensures
        script_results(tasks, retries, n).len() == n,
        forall|k: int| 0 <= k < n ==> script_results(tasks, retries, n)[k] == tasks[k].value,
        script_errors(tasks, retries, n) == Seq::<u64>::empty(),
    decreases n,
{
    if n > 0 {
        lemma_results_all_success(tasks, retries, n - 1);
    }
}

proof fn lemma_processed_from_runs_all(
    tasks: Seq<ScriptTask>,
    retries: int,
    chunk_size: int,
    allow_partial: bool,
    start: int,
)
    requires
        1 <= chunk_size,
        0 <= start <= tasks.len(),
        allow_partial || forall|i: int|
            start <= i < tasks.len() ==> #[trigger] task_succeeds(tasks[i], retries),
    ensures
        processed_from(tasks, retries, chunk_size, allow_partial, start) == tasks.len(),
    decreases tasks.len() - start,
{
    if start < tasks.len() {
        let end = chunk_end(tasks, chunk_size, start);
        if !allow_partial && chunk_has_failure(tasks, retries, start, end) {
            let w = choose|j: int| start <= j < end && !task_succeeds(tasks[j], retries);
            assert(task_succeeds(tasks[w], retries));
        }
        lemma_processed_from_runs_all(tasks, retries, chunk_size, allow_partial, end);
    }
}

/// Ordering law: when every task succeeds within the allowed attempts, the
/// run settles every item, reports no error, and returns each task's value
/// at the task's own input position — input order is preserved within and
/// across chunks.
pub proof fn lemma_all_success_in_order(
    tasks: Seq<ScriptTask>,
    retries: int,
    chunk_size: int,
    allow_partial: bool,
)
    requires
        chunk_size >= 1,
        forall|i: int| 0 <= i < tasks.len() ==> #[trigger] task_succeeds(tasks[i], retries),
    ensures
        script_processed(tasks, retries, chunk_size, allow_partial) == tasks.len(),
        script_errors(tasks, retries, tasks.len() as int) == Seq::<u64>::empty(),
        script_results(tasks, retries, tasks.len() as int) == tasks.map_values(
            |t: ScriptTask| t.value,
        ),
{
    lemma_results_all_success(tasks, retries, tasks.len() as int);
    lemma_processed_from_runs_all(tasks, retries, chunk_size, allow_partial, 0);
    assert(script_results(tasks, retries, tasks.len() as int) =~= tasks.map_values(
        |t: ScriptTask| t.value,
    ));
}

/// Failure-tolerance law: with partial failure allowed, every chunk runs and
/// every item is settled, failures notwithstanding.
pub proof fn lemma_allow_partial_runs_all(tasks: Seq<ScriptTask>, retries: int, chunk_size: int)
    requires
        chunk_size >= 1,
    ensures
        script_processed(tasks, retries, chunk_size, true) == tasks.len(),
{
    lemma_processed_from_runs_all(tasks, retries, chunk_size, true, 0);
}

proof fn lemma_multiple_of_chunk_step(a: int, c: int)
    requires
        1 <= c,
        a % c == 0,
        a > 0,
    ensures
        a >= c,
        (a - c) % c == 0,
{
    assert(a >= c && (a - c) % c == 0) by (nonlinear_arith)
        requires
            1 <= c,
            a % c == 0,
            a > 0,
    ;
}

proof fn lemma_fail_fast_from(
    tasks: Seq<ScriptTask>,
    retries: int,
    chunk_size: int,
    s: int,
    start: int,
)
    requires
        chunk_size >= 1,
        0 <= s <= start < tasks.len(),
        (start - s) % chunk_size == 0,
        forall|i: int| s <= i < start ==> #[trigger] task_succeeds(tasks[i], retries),
        chunk_has_failure(tasks, retries, start, chunk_end(tasks, chunk_size, start)),
    ensures
        processed_from(tasks, retries, chunk_size, false, s) == chunk_end(
            tasks,
            chunk_size,
            start,
        ),
    decreases start - s,
{
    if s == start {
        assert(processed_from(tasks, retries, chunk_size, false, s) == chunk_end(
            tasks,
            chunk_size,
            start,
        ));
    } else {
        lemma_multiple_of_chunk_step(start - s, chunk_size);
        let end = chunk_end(tasks, chunk_size, s);
        assert(end == s + chunk_size);
        if chunk_has_failure(tasks, retries, s, end) {
            let w = choose|j: int| s <= j < end && !task_succeeds(tasks[j], retries);
            assert(task_succeeds(tasks[w], retries));
        }
        lemma_fail_fast_from(tasks, retries, chunk_size, end, start);
    }
}

/// Fail-fast law: without partial-failure tolerance, when every task before
/// the chunk starting at `start` succeeds and that chunk contains a finally
/// failing task, the run settles exactly the items up to that chunk's end —
/// the later chunks never run.
pub proof fn lemma_fail_fast_stops_after_chunk(
    tasks: Seq<ScriptTask>,
    retries: int,
    chunk_size: int,
    start: int,
)
    requires
        chunk_size >= 1,
        0 <= start < tasks.len(),
        start % chunk_size == 0,
        forall|i: int| 0 <= i < start ==> #[trigger] task_succeeds(tasks[i], retries),
        chunk_has_failure(tasks, retries, start, chunk_end(tasks, chunk_size, start)),
    ensures
        script_processed(tasks, retries, chunk_size, false) == chunk_end(
            tasks,
            chunk_size,
            start,
        ),
{
    lemma_fail_fast_from(tasks, retries, chunk_size, 0, start);
}

/// The runner state after feeding `times` consecutive failed attempts.
pub open spec fn model_fail_times<R, E>(m: RunnerModel<R, E>, e: E, times: int) -> RunnerModel<
    R,
    E,
>
    decreases times,
{
    if times <= 0 {
        m
    } else {
        model_on_failure(model_fail_times(m, e, times - 1), e)
    }
}

proof fn lemma_fail_times_keeps_trying<R, E>(m: RunnerModel<R, E>, e: E, k: int)
    requires
        model_wf(m),
        m.attempt == 1,
        0 <= k <= m.retries,
    ensures
        model_fail_times(m, e, k) == (RunnerModel { attempt: k + 1, ..m }),
    decreases k,
{
    if k > 0 {
        lemma_fail_times_keeps_trying(m, e, k - 1);
    }
}

/// Retry-exhaustion law: a task that fails on every attempt is attempted
/// exactly 1 + retries times. After each of the first `retries` failures the
/// runner asks for the same item again, with the next attempt number; the
/// failure on attempt 1 + retries settles the item, recording its error
/// exactly once, and moves on.
pub proof fn lemma_retry_exhaustion<R, E>(m: RunnerModel<R, E>, e: E)
    requires
        model_wf(m),
        !runner_finished(m),
        m.attempt == 1,
    ensures
        forall|k: int|
            0 <= k <= m.retries ==> !runner_finished(#[trigger] model_fail_times(m, e, k))
                && model_fail_times(m, e, k).item == m.item && model_fail_times(m, e, k).attempt
                == k + 1,
        model_fail_times(m, e, m.retries + 1).item == m.item + 1,
        model_fail_times(m, e, m.retries + 1).errors == m.errors.push(e),
        model_fail_times(m, e, m.retries + 1).results == m.results,
{
    assert forall|k: int| 0 <= k <= m.retries implies !runner_finished(
        #[trigger] model_fail_times(m, e, k),
    ) && model_fail_times(m, e, k).item == m.item && model_fail_times(m, e, k).attempt == k
        + 1 by {
        lemma_fail_times_keeps_trying(m, e, k);
    }
    lemma_fail_times_keeps_trying(m, e, m.retries);
}

} // verus!
