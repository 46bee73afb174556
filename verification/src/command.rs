//! Composable robot actions: the `Command` trait, its combinators, and the polling logic that
//! runs a command as a future.
use vstd::prelude::*;

verus! {

#[verifier::external_type_specification]
#[verifier::external_body]
pub struct ExAnyhowError(anyhow::Error);

/// Creates an error carrying `message`, through `anyhow::Error::msg`. Nothing is stated of the
/// error value: it is opaque here and only handed back to callers.
#[verifier::external_body]
fn command_error(message: &'static str) -> anyhow::Error {
    anyhow::Error::msg(message)
}

/// A composable action. Implementations decide what each phase does; the combinators below
/// only decide which phases of their parts run and what they report. Each phase is described by
/// a relation between the command before the call, the command after it and the result; a
/// command that does not describe a phase allows every outcome of it.
pub trait Command: Sized {
    /// Whether `start` may take the command from `before` to `after` and return `r`.
    open spec fn start_spec(before: Self, after: Self, r: Result<(), anyhow::Error>) -> bool {
        true
    }

    /// Whether `execute` may take the command from `before` to `after` and return `r`.
    open spec fn execute_spec(before: Self, after: Self, r: Result<(), anyhow::Error>) -> bool {
        true
    }

    /// Whether `end` may take the command from `before` to `after` and return `r`.
    open spec fn end_spec(before: Self, after: Self, r: Result<(), anyhow::Error>) -> bool {
        true
    }

    /// Whether `is_finished` may take the command from `before` to `after` and return `r`.
    open spec fn is_finished_spec(before: Self, after: Self, r: Result<bool, anyhow::Error>) -> bool {
        true
    }

    /// Runs once at the beginning.
    fn start(&mut self) -> (r: Result<(), anyhow::Error>)
        ensures
            Self::start_spec(*old(self), *final(self), r),
    ;

    /// Runs on every tick of the scheduler.
    fn execute(&mut self) -> (r: Result<(), anyhow::Error>)
        ensures
            Self::execute_spec(*old(self), *final(self), r),
    ;

    /// Runs when the command ends.
    fn end(&mut self) -> (r: Result<(), anyhow::Error>)
        ensures
            Self::end_spec(*old(self), *final(self), r),
    ;

    /// Runs on every tick and reports whether the command is complete.
    fn is_finished(&mut self) -> (r: Result<bool, anyhow::Error>)
        ensures
            Self::is_finished_spec(*old(self), *final(self), r),
    ;
}

/// The relation of phase `which` of `C`: 0 is `start`, 1 is `execute`, anything else `end`.
pub open spec fn phase_spec<C: Command>(which: u8, before: C, after: C, r: Result<(), anyhow::Error>) -> bool {
    if which == 0 {
        C::start_spec(before, after, r)
    } else if which == 1 {
        C::execute_spec(before, after, r)
    } else {
        C::end_spec(before, after, r)
    }
}

/// Phase `which` run on a first part and then, only if that succeeded, on a second part: the
/// second part's result is the result, and a failure of the first is the result and leaves the
/// second part untouched.
pub open spec fn in_turn<C1: Command, C2: Command>(
    which: u8,
    a0: C1,
    a1: C1,
    b0: C2,
    b1: C2,
    r: Result<(), anyhow::Error>,
) -> bool {
    exists|r1: Result<(), anyhow::Error>|
        #[trigger] phase_spec::<C1>(which, a0, a1, r1) && match r1 {
            Ok(_) => phase_spec::<C2>(which, b0, b1, r),
            Err(e) => r == Err::<(), anyhow::Error>(e) && b1 == b0,
        }
}

// ---------------------------------------------------------------------------------------------
// Decisions of the parallel combinator
// ---------------------------------------------------------------------------------------------

/// What running a phase on both parts of a parallel command yields while neither is done:
/// which parts become done, and the result. A part that fails while the other succeeds is
/// dropped; when both fail the second error is reported.
pub fn parallel_combine<E>(r1: Result<(), E>, r2: Result<(), E>) -> (r: (bool, bool, Result<(), E>))
    ensures
        r.0 == (r1 is Err && r2 is Ok),
        r.1 == (r1 is Ok && r2 is Err),
        (r1 is Err && r2 is Err) ==> r.2 == r2,
        !(r1 is Err && r2 is Err) ==> r.2 is Ok,
{
    match (r1, r2) {
        (Ok(_), Ok(_)) => (false, false, Ok(())),
        (Ok(_), Err(_)) => (false, true, Ok(())),
        (Err(_), Ok(_)) => (true, false, Ok(())),
        (Err(_), Err(err)) => (false, false, Err(err)),
    }
}

/// Whether a part counts as finished: it says so, or it failed to answer.
pub open spec fn finished_spec<E>(r: Result<bool, E>) -> bool {
    match r {
        Ok(v) => v,
        Err(_) => true,
    }
}

/// Whether a part counts as finished: it says so, or it failed to answer.
pub fn finished_or_failed<E>(r: Result<bool, E>) -> (b: bool)
    ensures
        b == finished_spec(r),
{
    match r {
        Ok(v) => v,
        Err(_) => true,
    }
}

/// What `is_finished` reports after ending a part that just finished: if ending it failed, the
/// error when the other part is done too, otherwise "not finished"; if ending succeeded,
/// whether the other part is done.
pub open spec fn end_outcome_spec<E>(other_done: bool, end_result: Result<(), E>) -> Result<bool, E> {
    match end_result {
        Err(e) => if other_done {
            Err(e)
        } else {
            Ok(false)
        },
        Ok(_) => Ok(other_done),
    }
}

/// What `is_finished` reports after ending a part that just finished; see `end_outcome_spec`.
pub fn end_outcome<E>(other_done: bool, end_result: Result<(), E>) -> (r: Result<bool, E>)
    ensures
        r == end_outcome_spec(other_done, end_result),
        end_result is Ok ==> r == Ok::<bool, E>(other_done),
        end_result matches Err(e) ==> (other_done ==> r == Err::<bool, E>(e)),
        (end_result is Err && !other_done) ==> r == Ok::<bool, E>(false),
{
    match end_result {
        Err(err) => {
            if other_done {
                Err(err)
            } else {
                Ok(false)
            }
        },
        Ok(()) => Ok(other_done),
    }
}

// ---------------------------------------------------------------------------------------------
// Combinators
// ---------------------------------------------------------------------------------------------

/// Runs two commands together until either finishes.
pub struct RaceCommand<C1: Command, C2: Command> {
    command1: C1,
    command2: C2,
}

impl<C1: Command, C2: Command> RaceCommand<C1, C2> {
    /// The first command.
    pub closed spec fn first(&self) -> C1 {
        self.command1
    }

    /// The second command.
    pub closed spec fn second(&self) -> C2 {
        self.command2
    }

    /// Runs phase `which` on the first command and then, if that succeeded, on the second.
    fn both(&mut self, which: u8) -> (r: Result<(), anyhow::Error>)
        ensures
            in_turn::<C1, C2>(
                which,
                old(self).command1,
                final(self).command1,
                old(self).command2,
                final(self).command2,
                r,
            ),
    {
        let r1 = if which == 0 {
            self.command1.start()
        } else if which == 1 {
            self.command1.execute()
        } else {
            self.command1.end()
        };
        let ghost m1 = self.command1;
        assert(phase_spec::<C1>(which, old(self).command1, m1, r1));
        if r1.is_err() {
            return r1;
        }
        let r2 = if which == 0 {
            self.command2.start()
        } else if which == 1 {
            self.command2.execute()
        } else {
            self.command2.end()
        };
        r2
    }
}

/// What a race reports: finished as soon as the first part says so; otherwise the second part
/// is asked, and its answer is the answer. An error of the first part is the result and leaves
/// the second untouched.
pub open spec fn race_finished<C1: Command, C2: Command>(
    a0: C1,
    a1: C1,
    b0: C2,
    b1: C2,
    r: Result<bool, anyhow::Error>,
) -> bool {
    exists|q: Result<bool, anyhow::Error>|
        #[trigger] C1::is_finished_spec(a0, a1, q) && match q {
            Err(e) => r == Err::<bool, anyhow::Error>(e) && b1 == b0,
            Ok(true) => r == Ok::<bool, anyhow::Error>(true) && b1 == b0,
            Ok(false) => C2::is_finished_spec(b0, b1, r),
        }
}

/// A race is finished as soon as either part is: when the first part answers `q1` and the
/// second `q2` (whatever states they end in), the race answers `true` if the first does,
/// otherwise the second part's answer; an error of the first part is the race's answer.
pub proof fn lemma_race_finished_either<C1: Command, C2: Command>(
    before: RaceCommand<C1, C2>,
    after: RaceCommand<C1, C2>,
    r: Result<bool, anyhow::Error>,
    q1: Result<bool, anyhow::Error>,
    q2: Result<bool, anyhow::Error>,
)
    requires
        RaceCommand::<C1, C2>::is_finished_spec(before, after, r),
        forall|m: C1, q: Result<bool, anyhow::Error>|
            #[trigger] C1::is_finished_spec(before.first(), m, q) ==> q == q1,
        forall|m: C2, q: Result<bool, anyhow::Error>|
            #[trigger] C2::is_finished_spec(before.second(), m, q) ==> q == q2,
    ensures
        q1 == Ok::<bool, anyhow::Error>(true) ==> r == Ok::<bool, anyhow::Error>(true),
        q1 == Ok::<bool, anyhow::Error>(false) ==> r == q2,
        q1 is Err ==> r == q1,
        (q1 == Ok::<bool, anyhow::Error>(false) && q2 == Ok::<bool, anyhow::Error>(true)) ==> r
            == Ok::<bool, anyhow::Error>(true),
{
}

/// A race runs each phase on its first part and then, only if that succeeded, on its second:
/// when the first part's phase answers `r1`, an error is the race's answer and the second part
/// is left as it was; a success hands the phase to the second part, whose answer is the race's.
pub proof fn lemma_race_phase_in_turn<C1: Command, C2: Command>(
    before: RaceCommand<C1, C2>,
    after: RaceCommand<C1, C2>,
    r: Result<(), anyhow::Error>,
    r1: Result<(), anyhow::Error>,
)
    requires
        RaceCommand::<C1, C2>::start_spec(before, after, r),
        forall|m: C1, x: Result<(), anyhow::Error>|
            #[trigger] C1::start_spec(before.first(), m, x) ==> x == r1,
    ensures
        r1 is Err ==> r == r1 && after.second() == before.second(),
        r1 is Ok ==> C2::start_spec(before.second(), after.second(), r),
{
}

impl<C1: Command, C2: Command> Command for RaceCommand<C1, C2> {
    open spec fn start_spec(before: Self, after: Self, r: Result<(), anyhow::Error>) -> bool {
        in_turn::<C1, C2>(0, before.first(), after.first(), before.second(), after.second(), r)
    }

    open spec fn execute_spec(before: Self, after: Self, r: Result<(), anyhow::Error>) -> bool {
        in_turn::<C1, C2>(1, before.first(), after.first(), before.second(), after.second(), r)
    }

    open spec fn end_spec(before: Self, after: Self, r: Result<(), anyhow::Error>) -> bool {
        in_turn::<C1, C2>(2, before.first(), after.first(), before.second(), after.second(), r)
    }

    open spec fn is_finished_spec(before: Self, after: Self, r: Result<bool, anyhow::Error>) -> bool {
        race_finished::<C1, C2>(before.first(), after.first(), before.second(), after.second(), r)
    }

    fn start(&mut self) -> Result<(), anyhow::Error> {
        self.both(0)
    }

    fn execute(&mut self) -> Result<(), anyhow::Error> {
        self.both(1)
    }

    fn end(&mut self) -> Result<(), anyhow::Error> {
        self.both(2)
    }

    fn is_finished(&mut self) -> Result<bool, anyhow::Error> {
        let first = self.command1.is_finished();
        let ghost m1 = self.command1;
        match first {
            Err(e) => Err(e),
            Ok(true) => Ok(true),
            Ok(false) => self.command2.is_finished(),
        }
    }
}

/// Runs two commands together until both finish. A part that fails is dropped while the other
/// keeps running.
pub struct ParallelCommand<C1: Command, C2: Command> {
    command1: C1,
    command1_done: bool,
    command2: C2,
    command2_done: bool,
}

impl<C1: Command, C2: Command> ParallelCommand<C1, C2> {
    /// Whether the first part is done.
    pub closed spec fn first_done(&self) -> bool {
        self.command1_done
    }

    /// Whether the second part is done.
    pub closed spec fn second_done(&self) -> bool {
        self.command2_done
    }

    /// The first command.
    pub closed spec fn first(&self) -> C1 {
        self.command1
    }

    /// The second command.
    pub closed spec fn second(&self) -> C2 {
        self.command2
    }
}

/// What phase `which` of a parallel command does to its parts: when both are done it fails and
/// touches neither; when one is done the phase runs on the other, whose result is the result;
/// otherwise it runs on both, and `parallel_combine` decides the flags and the result.
pub open spec fn parallel_step<C1: Command, C2: Command>(
    which: u8,
    a0: C1,
    d1: bool,
    b0: C2,
    d2: bool,
    a1: C1,
    n1: bool,
    b1: C2,
    n2: bool,
    r: Result<(), anyhow::Error>,
) -> bool {
    if d1 && d2 {
        r is Err && a1 == a0 && b1 == b0 && n1 && n2
    } else if d1 {
        phase_spec::<C2>(which, b0, b1, r) && a1 == a0 && n1 == d1 && n2 == d2
    } else if d2 {
        phase_spec::<C1>(which, a0, a1, r) && b1 == b0 && n1 == d1 && n2 == d2
    } else {
        exists|r1: Result<(), anyhow::Error>, r2: Result<(), anyhow::Error>|
            #[trigger] phase_spec::<C1>(which, a0, a1, r1) && #[trigger] phase_spec::<C2>(which, b0, b1, r2)
                && n1 == (r1 is Err && r2 is Ok) && n2 == (r1 is Ok && r2 is Err) && ((r1 is Err
                && r2 is Err) ==> r == r2) && (!(r1 is Err && r2 is Err) ==> r is Ok)
    }
}

/// How a phase of a parallel command may change its done flags: when both parts are done it
/// fails and changes nothing; when one is done nothing changes; otherwise at most one part
/// becomes done, and only when the phase succeeds.
pub open spec fn parallel_phase(d1: bool, d2: bool, n1: bool, n2: bool, ok: bool) -> bool {
    if d1 && d2 {
        !ok && n1 && n2
    } else if d1 || d2 {
        n1 == d1 && n2 == d2
    } else {
        &&& !(n1 && n2)
        &&& (n1 || n2) ==> ok
    }
}

/// The second half of a parallel completion check, once the first part is `c1` (and done as
/// `d1`): a second part not yet done is asked, and if it finished (or failed to answer) it is
/// marked done and ended, and `end_outcome_spec` gives the answer; otherwise the answer is
/// "not finished".
pub open spec fn parallel_check_second<C1: Command, C2: Command>(
    c1: C1,
    d1: bool,
    b0: C2,
    d2: bool,
    a1: C1,
    n1: bool,
    b1: C2,
    n2: bool,
    r: Result<bool, anyhow::Error>,
) -> bool {
    &&& a1 == c1
    &&& n1 == d1
    &&& if !d2 {
        exists|m: C2, q: Result<bool, anyhow::Error>|
            #[trigger] C2::is_finished_spec(b0, m, q) && if finished_spec(q) {
                exists|e: Result<(), anyhow::Error>|
                    #[trigger] C2::end_spec(m, b1, e) && n2 && r == end_outcome_spec(d1, e)
            } else {
                b1 == m && n2 == d2 && r == Ok::<bool, anyhow::Error>(false)
            }
    } else {
        b1 == b0 && n2 == d2 && r == Ok::<bool, anyhow::Error>(false)
    }
}

/// A parallel completion check: finished when both parts are done; otherwise the first part,
/// if not done, is asked, and if it finished (or failed to answer) it is marked done and ended,
/// and `end_outcome_spec` gives the answer; otherwise the second part is checked.
pub open spec fn parallel_check<C1: Command, C2: Command>(
    a0: C1,
    d1: bool,
    b0: C2,
    d2: bool,
    a1: C1,
    n1: bool,
    b1: C2,
    n2: bool,
    r: Result<bool, anyhow::Error>,
) -> bool {
    if d1 && d2 {
        r == Ok::<bool, anyhow::Error>(true) && a1 == a0 && b1 == b0 && n1 && n2
    } else if !d1 {
        exists|m: C1, q: Result<bool, anyhow::Error>|
            #[trigger] C1::is_finished_spec(a0, m, q) && if finished_spec(q) {
                exists|e: Result<(), anyhow::Error>|
                    #[trigger] C1::end_spec(m, a1, e) && n1 && b1 == b0 && n2 == d2 && r
                        == end_outcome_spec(d2, e)
            } else {
                parallel_check_second::<C1, C2>(m, d1, b0, d2, a1, n1, b1, n2, r)
            }
    } else {
        parallel_check_second::<C1, C2>(a0, d1, b0, d2, a1, n1, b1, n2, r)
    }
}

impl<C1: Command, C2: Command> ParallelCommand<C1, C2> {
    fn phase(&mut self, which: u8) -> (r: Result<(), anyhow::Error>)
        ensures
            parallel_step::<C1, C2>(
                which,
                old(self).command1,
                old(self).command1_done,
                old(self).command2,
                old(self).command2_done,
                final(self).command1,
                final(self).command1_done,
                final(self).command2,
                final(self).command2_done,
                r,
            ),
            parallel_phase(
                old(self).first_done(),
                old(self).second_done(),
                final(self).first_done(),
                final(self).second_done(),
                r is Ok,
            ),
    {
        if self.command1_done && self.command2_done {
            Err(command_error("Command already ended"))
        } else if self.command1_done {
            self.run_second(which)
        } else if self.command2_done {
            self.run_first(which)
        } else {
            let r1 = self.run_first(which);
            let r2 = self.run_second(which);
            let ghost g1 = r1;
            let ghost g2 = r2;
            let (d1, d2, r) = parallel_combine(r1, r2);
            if d1 {
                self.command1_done = true;
            }
            if d2 {
                self.command2_done = true;
            }
            r
        }
    }

    fn run_first(&mut self, which: u8) -> (r: Result<(), anyhow::Error>)
        ensures
            final(self).first_done() == old(self).first_done(),
            final(self).second_done() == old(self).second_done(),
            phase_spec::<C1>(which, old(self).command1, final(self).command1, r),
            final(self).command2 == old(self).command2,
    {
        if which == 0 {
            self.command1.start()
        } else if which == 1 {
            self.command1.execute()
        } else {
            self.command1.end()
        }
    }

    fn run_second(&mut self, which: u8) -> (r: Result<(), anyhow::Error>)
        ensures
            final(self).first_done() == old(self).first_done(),
            final(self).second_done() == old(self).second_done(),
            phase_spec::<C2>(which, old(self).command2, final(self).command2, r),
            final(self).command1 == old(self).command1,
    {
        if which == 0 {
            self.command2.start()
        } else if which == 1 {
            self.command2.execute()
        } else {
            self.command2.end()
        }
    }

    /// Starts the parts that are not done; see `parallel_phase` for the flags.
    pub fn start_parts(&mut self) -> (r: Result<(), anyhow::Error>)
        ensures
            parallel_step::<C1, C2>(
                0,
                old(self).first(),
                old(self).first_done(),
                old(self).second(),
                old(self).second_done(),
                final(self).first(),
                final(self).first_done(),
                final(self).second(),
                final(self).second_done(),
                r,
            ),
            parallel_phase(
                old(self).first_done(),
                old(self).second_done(),
                final(self).first_done(),
                final(self).second_done(),
                r is Ok,
            ),
    {
        self.phase(0)
    }

    /// Executes the parts that are not done; see `parallel_phase` for the flags.
    pub fn execute_parts(&mut self) -> (r: Result<(), anyhow::Error>)
        ensures
            parallel_step::<C1, C2>(
                1,
                old(self).first(),
                old(self).first_done(),
                old(self).second(),
                old(self).second_done(),
                final(self).first(),
                final(self).first_done(),
                final(self).second(),
                final(self).second_done(),
                r,
            ),
            parallel_phase(
                old(self).first_done(),
                old(self).second_done(),
                final(self).first_done(),
                final(self).second_done(),
                r is Ok,
            ),
    {
        self.phase(1)
    }

    /// Ends the parts that are not done; see `parallel_phase` for the flags.
    pub fn end_parts(&mut self) -> (r: Result<(), anyhow::Error>)
        ensures
            parallel_step::<C1, C2>(
                2,
                old(self).first(),
                old(self).first_done(),
                old(self).second(),
                old(self).second_done(),
                final(self).first(),
                final(self).first_done(),
                final(self).second(),
                final(self).second_done(),
                r,
            ),
            parallel_phase(
                old(self).first_done(),
                old(self).second_done(),
                final(self).first_done(),
                final(self).second_done(),
                r is Ok,
            ),
    {
        self.phase(2)
    }

    /// Checks the parts for completion. A part that finishes (or fails to answer) is marked done
    /// and ended; the whole is finished once both are done.
    pub fn check_finished(&mut self) -> (r: Result<bool, anyhow::Error>)
        ensures
            parallel_check::<C1, C2>(
                old(self).first(),
                old(self).first_done(),
                old(self).second(),
                old(self).second_done(),
                final(self).first(),
                final(self).first_done(),
                final(self).second(),
                final(self).second_done(),
                r,
            ),
            old(self).first_done() ==> final(self).first_done(),
            old(self).second_done() ==> final(self).second_done(),
            (old(self).first_done() && old(self).second_done()) ==> r matches Ok(true),
            !(final(self).first_done() && !old(self).first_done() && final(self).second_done()
                && !old(self).second_done()),
            (final(self).first_done() == old(self).first_done() && final(self).second_done()
                == old(self).second_done() && !(old(self).first_done() && old(self).second_done()))
                ==> r matches Ok(false),
            r matches Ok(true) ==> final(self).first_done() && final(self).second_done(),
            r is Err ==> final(self).first_done() && final(self).second_done(),
    {
        if self.command1_done && self.command2_done {
            return Ok(true);
        }
        if !self.command1_done {
            let q1 = self.command1.is_finished();
            let ghost g1 = q1;
            let ghost m1 = self.command1;
            if finished_or_failed(q1) {
                self.command1_done = true;
                let ended = self.command1.end();
                let ghost e1 = ended;
                assert(C1::end_spec(m1, self.command1, e1));
                return end_outcome(self.command2_done, ended);
            }
            assert(C1::is_finished_spec(old(self).command1, m1, g1));
        }
        if !self.command2_done {
            let q2 = self.command2.is_finished();
            let ghost g2 = q2;
            let ghost m2 = self.command2;
            if finished_or_failed(q2) {
                self.command2_done = true;
                let ended = self.command2.end();
                let ghost e2 = ended;
                assert(C2::end_spec(m2, self.command2, e2));
                return end_outcome(self.command1_done, ended);
            }
            assert(C2::is_finished_spec(old(self).command2, m2, g2));
        }
        Ok(false)
    }
}

impl<C1: Command, C2: Command> Command for ParallelCommand<C1, C2> {
    open spec fn start_spec(before: Self, after: Self, r: Result<(), anyhow::Error>) -> bool {
        parallel_step::<C1, C2>(0, before.first(), before.first_done(), before.second(),
            before.second_done(), after.first(), after.first_done(), after.second(),
            after.second_done(), r)
    }

    open spec fn execute_spec(before: Self, after: Self, r: Result<(), anyhow::Error>) -> bool {
        parallel_step::<C1, C2>(1, before.first(), before.first_done(), before.second(),
            before.second_done(), after.first(), after.first_done(), after.second(),
            after.second_done(), r)
    }

    open spec fn end_spec(before: Self, after: Self, r: Result<(), anyhow::Error>) -> bool {
        parallel_step::<C1, C2>(2, before.first(), before.first_done(), before.second(),
            before.second_done(), after.first(), after.first_done(), after.second(),
            after.second_done(), r)
    }

    open spec fn is_finished_spec(before: Self, after: Self, r: Result<bool, anyhow::Error>) -> bool {
        parallel_check::<C1, C2>(before.first(), before.first_done(), before.second(),
            before.second_done(), after.first(), after.first_done(), after.second(),
            after.second_done(), r)
    }

    fn start(&mut self) -> Result<(), anyhow::Error> {
        self.start_parts()
    }

    fn execute(&mut self) -> Result<(), anyhow::Error> {
        self.execute_parts()
    }

    fn end(&mut self) -> Result<(), anyhow::Error> {
        self.end_parts()
    }

    fn is_finished(&mut self) -> Result<bool, anyhow::Error> {
        self.check_finished()
    }
}

/// Runs one command, then another.
pub struct ChainCommand<C1: Command, C2: Command> {
    command1: C1,
    command2: C2,
    command1_done: bool,
}

impl<C1: Command, C2: Command> ChainCommand<C1, C2> {
    /// Whether the first command has been ended and the second started.
    pub closed spec fn first_done(&self) -> bool {
        self.command1_done
    }

    /// The first command.
    pub closed spec fn first(&self) -> C1 {
        self.command1
    }

    /// The second command.
    pub closed spec fn second(&self) -> C2 {
        self.command2
    }

    /// One tick: executes the second command once the first is done; otherwise, if the first
    /// reports being finished, ends it, marks it done and starts the second; otherwise
    /// executes the first.
    pub fn execute_step(&mut self) -> (r: Result<(), anyhow::Error>)
        ensures
            old(self).first_done() ==> final(self).first_done(),
            chain_step::<C1, C2>(
                old(self).first(),
                old(self).second(),
                old(self).first_done(),
                final(self).first(),
                final(self).second(),
                final(self).first_done(),
                r,
            ),
    {
        if self.command1_done {
            return self.command2.execute();
        }
        let q = self.command1.is_finished();
        let ghost gq = q;
        let ghost m = self.command1;
        assert(C1::is_finished_spec(old(self).command1, m, gq));
        match q {
            Err(e) => Err(e),
            Ok(true) => {
                let ended = self.command1.end();
                let ghost ge = ended;
                assert(C1::end_spec(m, self.command1, ge));
                if ended.is_err() {
                    return ended;
                }
                self.command1_done = true;
                self.command2.start()
            },
            Ok(false) => self.command1.execute(),
        }
    }
}

/// One tick of a chain: the second command executes once the first is done. Otherwise the first
/// is asked whether it is finished: an error is the result; if finished it is ended, and if
/// that succeeds it is marked done and the second is started, whose result is the result; if
/// not finished it executes.
pub open spec fn chain_step<C1: Command, C2: Command>(
    a0: C1,
    b0: C2,
    d: bool,
    a1: C1,
    b1: C2,
    n: bool,
    r: Result<(), anyhow::Error>,
) -> bool {
    if d {
        C2::execute_spec(b0, b1, r) && a1 == a0 && n
    } else {
        exists|m: C1, q: Result<bool, anyhow::Error>|
            #[trigger] C1::is_finished_spec(a0, m, q) && match q {
                Err(e) => r == Err::<(), anyhow::Error>(e) && a1 == m && b1 == b0 && !n,
                Ok(true) => exists|e1: Result<(), anyhow::Error>|
                    #[trigger] C1::end_spec(m, a1, e1) && match e1 {
                        Err(e) => r == Err::<(), anyhow::Error>(e) && b1 == b0 && !n,
                        Ok(_) => n && C2::start_spec(b0, b1, r),
                    },
                Ok(false) => C1::execute_spec(m, a1, r) && b1 == b0 && !n,
            }
    }
}

/// A chain's completion check: while the first command is not done the chain is not finished
/// and nothing is asked; once it is done, the second command's answer is the answer.
pub open spec fn chain_finished<C1: Command, C2: Command>(
    a0: C1,
    b0: C2,
    d: bool,
    a1: C1,
    b1: C2,
    r: Result<bool, anyhow::Error>,
) -> bool {
    if d {
        C2::is_finished_spec(b0, b1, r) && a1 == a0
    } else {
        r == Ok::<bool, anyhow::Error>(false) && a1 == a0 && b1 == b0
    }
}

/// A chain is finished exactly when its second command is: before the first command is done
/// the chain answers "not finished" and asks no one; after it, the second command's answer
/// (`q2`) is the chain's.
pub proof fn lemma_chain_finished_with_second<C1: Command, C2: Command>(
    before: ChainCommand<C1, C2>,
    after: ChainCommand<C1, C2>,
    r: Result<bool, anyhow::Error>,
    q2: Result<bool, anyhow::Error>,
)
    requires
        ChainCommand::<C1, C2>::is_finished_spec(before, after, r),
        forall|m: C2, q: Result<bool, anyhow::Error>|
            #[trigger] C2::is_finished_spec(before.second(), m, q) ==> q == q2,
    ensures
        !before.first_done() ==> r == Ok::<bool, anyhow::Error>(false) && after.first() == before.first()
            && after.second() == before.second(),
        before.first_done() ==> r == q2 && after.first() == before.first(),
        after.first_done() == before.first_done(),
{
}

impl<C1: Command, C2: Command> Command for ChainCommand<C1, C2> {
    open spec fn start_spec(before: Self, after: Self, r: Result<(), anyhow::Error>) -> bool {
        C1::start_spec(before.first(), after.first(), r) && after.second() == before.second()
            && after.first_done() == before.first_done()
    }

    open spec fn execute_spec(before: Self, after: Self, r: Result<(), anyhow::Error>) -> bool {
        chain_step::<C1, C2>(before.first(), before.second(), before.first_done(),
            after.first(), after.second(), after.first_done(), r)
    }

    open spec fn end_spec(before: Self, after: Self, r: Result<(), anyhow::Error>) -> bool {
        &&& after.first_done() == before.first_done()
        &&& if before.first_done() {
            C2::end_spec(before.second(), after.second(), r) && after.first() == before.first()
        } else {
            C1::end_spec(before.first(), after.first(), r) && after.second() == before.second()
        }
    }

    open spec fn is_finished_spec(before: Self, after: Self, r: Result<bool, anyhow::Error>) -> bool {
        chain_finished::<C1, C2>(before.first(), before.second(), before.first_done(), after.first(),
            after.second(), r) && after.first_done() == before.first_done()
    }

    fn start(&mut self) -> Result<(), anyhow::Error> {
        self.command1.start()
    }

    fn execute(&mut self) -> Result<(), anyhow::Error> {
        self.execute_step()
    }

    fn end(&mut self) -> Result<(), anyhow::Error> {
        if self.command1_done {
            self.command2.end()
        } else {
            self.command1.end()
        }
    }

    fn is_finished(&mut self) -> Result<bool, anyhow::Error> {
        if self.command1_done {
            self.command2.is_finished()
        } else {
            Ok(false)
        }
    }
}

/// Calls a predicate supplied by the user of `until`. The predicate is arbitrary code of the
/// caller: what it returns is whatever its own contract allows, and it is taken to accept being
/// called at any time, as every Rust closure does.
#[verifier::external_body]
fn call_predicate<F: FnMut() -> Result<bool, anyhow::Error>>(predicate: &mut F) -> (r: Result<bool, anyhow::Error>)
    ensures
        call_ensures(*old(predicate), (), r),
{
    predicate()
}

/// Runs a command until it finishes or a predicate reports true.
pub struct UntilCommand<C: Command, F: FnMut() -> Result<bool, anyhow::Error>> {
    is_finished: F,
    command: C,
}

impl<C: Command, F: FnMut() -> Result<bool, anyhow::Error>> UntilCommand<C, F> {
    /// The command that runs.
    pub closed spec fn command(&self) -> C {
        self.command
    }

    /// The predicate that can stop it.
    pub closed spec fn predicate(&self) -> F {
        self.is_finished
    }

    /// Finished when the command is, or else when the predicate reports true.
    pub fn check_finished(&mut self) -> (r: Result<bool, anyhow::Error>)
        ensures
            until_finished::<C, F>(
                old(self).command(),
                old(self).predicate(),
                final(self).command(),
                final(self).predicate(),
                r,
            ),
    {
        let done = self.command.is_finished();
        let ghost gq = done;
        let ghost m = self.command;
        assert(C::is_finished_spec(old(self).command, m, gq));
        match done {
            Err(e) => Err(e),
            Ok(true) => Ok(true),
            Ok(false) => call_predicate(&mut self.is_finished),
        }
    }
}

/// An until-command's completion check: the command is asked first; an error is the result and
/// a "finished" makes it finished, in both cases without calling the predicate; when the command
/// is not finished, the predicate is called and its answer is the result.
pub open spec fn until_finished<C: Command, F: FnMut() -> Result<bool, anyhow::Error>>(
    c0: C,
    f0: F,
    c1: C,
    f1: F,
    r: Result<bool, anyhow::Error>,
) -> bool {
    exists|q: Result<bool, anyhow::Error>|
        #[trigger] C::is_finished_spec(c0, c1, q) && match q {
            Err(e) => r == Err::<bool, anyhow::Error>(e) && f1 == f0,
            Ok(true) => r == Ok::<bool, anyhow::Error>(true) && f1 == f0,
            Ok(false) => call_ensures(f0, (), r),
        }
}

/// An until-command is finished when its command is or when its predicate says so: when the
/// command answers `q`, "finished" and errors are the answer without calling the predicate, and
/// "not finished" leaves the answer to the predicate.
pub proof fn lemma_until_finished_either<C: Command, F: FnMut() -> Result<bool, anyhow::Error>>(
    before: UntilCommand<C, F>,
    after: UntilCommand<C, F>,
    r: Result<bool, anyhow::Error>,
    q: Result<bool, anyhow::Error>,
)
    requires
        UntilCommand::<C, F>::is_finished_spec(before, after, r),
        forall|m: C, x: Result<bool, anyhow::Error>|
            #[trigger] C::is_finished_spec(before.command(), m, x) ==> x == q,
    ensures
        q == Ok::<bool, anyhow::Error>(true) ==> r == Ok::<bool, anyhow::Error>(true) && after.predicate()
            == before.predicate(),
        q is Err ==> r == q && after.predicate() == before.predicate(),
        q == Ok::<bool, anyhow::Error>(false) ==> call_ensures(before.predicate(), (), r),
{
}

impl<C: Command, F: FnMut() -> Result<bool, anyhow::Error>> Command for UntilCommand<C, F> {
    open spec fn start_spec(before: Self, after: Self, r: Result<(), anyhow::Error>) -> bool {
        C::start_spec(before.command(), after.command(), r) && after.predicate() == before.predicate()
    }

    open spec fn execute_spec(before: Self, after: Self, r: Result<(), anyhow::Error>) -> bool {
        C::execute_spec(before.command(), after.command(), r) && after.predicate() == before.predicate()
    }

    open spec fn end_spec(before: Self, after: Self, r: Result<(), anyhow::Error>) -> bool {
        C::end_spec(before.command(), after.command(), r) && after.predicate() == before.predicate()
    }

    open spec fn is_finished_spec(before: Self, after: Self, r: Result<bool, anyhow::Error>) -> bool {
        until_finished::<C, F>(before.command(), before.predicate(), after.command(), after.predicate(), r)
    }

    fn start(&mut self) -> Result<(), anyhow::Error> {
        self.command.start()
    }

    fn execute(&mut self) -> Result<(), anyhow::Error> {
        self.command.execute()
    }

    fn end(&mut self) -> Result<(), anyhow::Error> {
        self.command.end()
    }

    fn is_finished(&mut self) -> Result<bool, anyhow::Error> {
        self.check_finished()
    }
}

/// A command that runs its phases only until it has been ended once.
pub struct FusedCommand<C: Command>(C, bool);

impl<C: Command> FusedCommand<C> {
    /// Whether the inner command has been ended.
    pub closed spec fn ended(&self) -> bool {
        self.1
    }

    /// The inner command.
    pub closed spec fn inner(&self) -> C {
        self.0
    }

    /// Starts the inner command unless it has been ended; once ended, nothing runs and
    /// nothing changes.
    pub fn start_once(&mut self) -> (r: Result<(), anyhow::Error>)
        ensures
            final(self).ended() == old(self).ended(),
            old(self).ended() ==> r is Ok && final(self).inner() == old(self).inner(),
            !old(self).ended() ==> C::start_spec(old(self).inner(), final(self).inner(), r),
    {
        if !self.1 {
            self.0.start()
        } else {
            Ok(())
        }
    }

    /// Executes the inner command unless it has been ended; once ended, nothing runs and
    /// nothing changes.
    pub fn execute_once(&mut self) -> (r: Result<(), anyhow::Error>)
        ensures
            final(self).ended() == old(self).ended(),
            old(self).ended() ==> r is Ok && final(self).inner() == old(self).inner(),
            !old(self).ended() ==> C::execute_spec(old(self).inner(), final(self).inner(), r),
    {
        if !self.1 {
            self.0.execute()
        } else {
            Ok(())
        }
    }

    /// Ends the inner command the first time; later calls do nothing.
    pub fn end_once(&mut self) -> (r: Result<(), anyhow::Error>)
        ensures
            final(self).ended(),
            old(self).ended() ==> r is Ok && final(self).inner() == old(self).inner(),
            !old(self).ended() ==> C::end_spec(old(self).inner(), final(self).inner(), r),
    {
        if !self.1 {
            self.1 = true;
            self.0.end()
        } else {
            Ok(())
        }
    }

    /// Asks the inner command unless it has been ended, in which case it counts as finished
    /// and is not asked.
    pub fn check_finished(&mut self) -> (r: Result<bool, anyhow::Error>)
        ensures
            final(self).ended() == old(self).ended(),
            old(self).ended() ==> (r matches Ok(true)) && final(self).inner() == old(self).inner(),
            !old(self).ended() ==> C::is_finished_spec(old(self).inner(), final(self).inner(), r),
    {
        if !self.1 {
            self.0.is_finished()
        } else {
            Ok(true)
        }
    }
}

impl<C: Command> Command for FusedCommand<C> {
    open spec fn start_spec(before: Self, after: Self, r: Result<(), anyhow::Error>) -> bool {
        &&& after.ended() == before.ended()
        &&& if before.ended() {
            r is Ok && after.inner() == before.inner()
        } else {
            C::start_spec(before.inner(), after.inner(), r)
        }
    }

    open spec fn execute_spec(before: Self, after: Self, r: Result<(), anyhow::Error>) -> bool {
        &&& after.ended() == before.ended()
        &&& if before.ended() {
            r is Ok && after.inner() == before.inner()
        } else {
            C::execute_spec(before.inner(), after.inner(), r)
        }
    }

    open spec fn end_spec(before: Self, after: Self, r: Result<(), anyhow::Error>) -> bool {
        &&& after.ended()
        &&& if before.ended() {
            r is Ok && after.inner() == before.inner()
        } else {
            C::end_spec(before.inner(), after.inner(), r)
        }
    }

    open spec fn is_finished_spec(before: Self, after: Self, r: Result<bool, anyhow::Error>) -> bool {
        &&& after.ended() == before.ended()
        &&& if before.ended() {
            r == Ok::<bool, anyhow::Error>(true) && after.inner() == before.inner()
        } else {
            C::is_finished_spec(before.inner(), after.inner(), r)
        }
    }

    fn start(&mut self) -> Result<(), anyhow::Error> {
        self.start_once()
    }

    fn execute(&mut self) -> Result<(), anyhow::Error> {
        self.execute_once()
    }

    fn end(&mut self) -> Result<(), anyhow::Error> {
        self.end_once()
    }

    fn is_finished(&mut self) -> Result<bool, anyhow::Error> {
        self.check_finished()
    }
}

/// Combinators available on every command.
pub trait CommandExt: Command + Sized {
    /// Prevents a command from running after it has ended.
    fn fuse(self) -> (r: FusedCommand<Self>)
        ensures
            r.inner() == self,
            !r.ended(),
    {
        FusedCommand(self, false)
    }

    /// Runs this and `other` until either finishes.
    fn race<C: Command>(self, other: C) -> (r: RaceCommand<Self, C>)
        ensures
            r.first() == self,
            r.second() == other,
    {
        RaceCommand { command1: self, command2: other }
    }

    /// Runs this and `other` until both finish.
    fn parallel<C: Command>(self, other: C) -> (r: ParallelCommand<Self, C>)
        ensures
            r.first() == self,
            r.second() == other,
            !r.first_done(),
            !r.second_done(),
    {
        ParallelCommand { command1: self, command1_done: false, command2: other, command2_done: false }
    }

    /// Runs this, then `other`.
    fn chain<C: Command>(self, other: C) -> (r: ChainCommand<Self, C>)
        ensures
            r.first() == self,
            r.second() == other,
            !r.first_done(),
    {
        ChainCommand { command1: self, command2: other, command1_done: false }
    }

    /// Runs this until it finishes or `is_finished` reports true.
    fn until<F: FnMut() -> Result<bool, anyhow::Error>>(self, is_finished: F) -> (r: UntilCommand<Self, F>)
        ensures
            r.command() == self,
            r.predicate() == is_finished,
    {
        UntilCommand { is_finished, command: self }
    }
}

impl<C: Command> CommandExt for C {}

// ---------------------------------------------------------------------------------------------
// Running a command as a future
// ---------------------------------------------------------------------------------------------

/// The rest of a poll once the command is `c0`: it executes; an error is the result; otherwise
/// it is asked whether it is finished: an error is the result, "not finished" gives
/// `Ok(false)`, and "finished" ends it, after which an error is the result and a success marks
/// the future stopped and gives `Ok(true)`.
pub open spec fn poll_rest<C: Command>(c0: C, s0: bool, c1: C, s1: bool, r: Result<bool, anyhow::Error>) -> bool {
    exists|m: C, x: Result<(), anyhow::Error>|
        #[trigger] C::execute_spec(c0, m, x) && match x {
            Err(e) => r == Err::<bool, anyhow::Error>(e) && c1 == m && s1 == s0,
            Ok(_) => exists|m2: C, q: Result<bool, anyhow::Error>|
                #[trigger] C::is_finished_spec(m, m2, q) && match q {
                    Err(e) => r == Err::<bool, anyhow::Error>(e) && c1 == m2 && s1 == s0,
                    Ok(false) => r == Ok::<bool, anyhow::Error>(false) && c1 == m2 && s1 == s0,
                    Ok(true) => exists|e1: Result<(), anyhow::Error>|
                        #[trigger] C::end_spec(m2, c1, e1) && match e1 {
                            Err(e) => r == Err::<bool, anyhow::Error>(e) && s1 == s0,
                            Ok(_) => r == Ok::<bool, anyhow::Error>(true) && s1,
                        },
                },
        }
}

/// One poll of a command run as a future: unless marked started, the command is started first,
/// and an error of that is the result with the mark left unset; a successful start sets the
/// mark (`started1`); then `poll_rest`.
pub open spec fn command_poll<C: Command>(
    started: bool,
    c0: C,
    s0: bool,
    started1: bool,
    c1: C,
    s1: bool,
    r: Result<bool, anyhow::Error>,
) -> bool {
    if started {
        started1 && poll_rest::<C>(c0, s0, c1, s1, r)
    } else {
        exists|m: C, x: Result<(), anyhow::Error>|
            #[trigger] C::start_spec(c0, m, x) && match x {
                Err(e) => r == Err::<bool, anyhow::Error>(e) && c1 == m && s1 == s0 && !started1,
                Ok(_) => started1 && poll_rest::<C>(m, s0, c1, s1, r),
            }
    }
}

/// Once a command future is marked started, a poll does not start the command again: it only
/// executes it, asks whether it is finished and, if so, ends it; the mark stays set. With the
/// first poll setting the mark on a successful start, the command starts once however often
/// the future is polled.
pub proof fn lemma_started_poll_skips_start<C: Command>(
    c0: C,
    s0: bool,
    started1: bool,
    c1: C,
    s1: bool,
    r: Result<bool, anyhow::Error>,
)
    requires
        command_poll::<C>(true, c0, s0, started1, c1, s1, r),
    ensures
        started1,
        poll_rest::<C>(c0, s0, c1, s1, r),
{
}

/// The polling state of a command run as a future.
pub struct CommandFuture<C: Command> {
    command: C,
    started: bool,
    stopped: bool,
}

impl<C: Command> CommandFuture<C> {
    /// Whether the command has been started.
    pub closed spec fn is_started(&self) -> bool {
        self.started
    }

    /// Whether the command has finished and been ended.
    pub closed spec fn is_stopped(&self) -> bool {
        self.stopped
    }

    /// A future that has not polled `command` yet.
    pub fn new(command: C) -> (f: Self)
        ensures
            !f.is_started(),
            !f.is_stopped(),
            f.command() == command,
    {
        CommandFuture { command, started: false, stopped: false }
    }

    /// The command being run.
    pub closed spec fn command(&self) -> C {
        self.command
    }

    /// One poll: starts the command once, on the first poll, and marks it started; executes it,
    /// and if it reports being finished ends it, marks it stopped and returns `Ok(true)`;
    /// otherwise `Ok(false)` (pending: the caller queues its waker). Any error of a phase is
    /// returned at once.
    pub fn failable_poll(&mut self) -> (r: Result<bool, anyhow::Error>)
        ensures
            old(self).is_started() ==> final(self).is_started(),
            r is Ok ==> final(self).is_started(),
            r matches Ok(true) ==> final(self).is_stopped(),
            !(r matches Ok(true)) ==> final(self).is_stopped() == old(self).is_stopped(),
            command_poll::<C>(
                old(self).is_started(),
                old(self).command(),
                old(self).is_stopped(),
                final(self).is_started(),
                final(self).command(),
                final(self).is_stopped(),
                r,
            ),
    {
        if !self.started {
            let s = self.command.start();
            let ghost gs = s;
            let ghost m0 = self.command;
            assert(C::start_spec(old(self).command, m0, gs));
            if let Err(e) = s {
                return Err(e);
            }
            self.started = true;
        }
        let ghost c0 = self.command;
        let x = self.command.execute();
        let ghost gx = x;
        let ghost m1 = self.command;
        assert(C::execute_spec(c0, m1, gx));
        if let Err(e) = x {
            return Err(e);
        }
        let q = self.command.is_finished();
        let ghost gq = q;
        let ghost m2 = self.command;
        assert(C::is_finished_spec(m1, m2, gq));
        match q {
            Err(e) => Err(e),
            Ok(false) => Ok(false),
            Ok(true) => {
                let ended = self.command.end();
                let ghost ge = ended;
                assert(C::end_spec(m2, self.command, ge));
                match ended {
                    Err(e) => Err(e),
                    Ok(()) => {
                        self.stopped = true;
                        Ok(true)
                    },
                }
            },
        }
    }

    /// Whether dropping the future must end the command: it was started and has not stopped.
    pub fn needs_end(&self) -> (r: bool)
        ensures
            r == (self.is_started() && !self.is_stopped()),
    {
        self.started && !self.stopped
    }

    /// Ends the command when dropping the future requires it.
    pub fn end_if_running(&mut self) -> (r: Result<(), anyhow::Error>)
        ensures
            !old(self).is_started() || old(self).is_stopped() ==> r is Ok && final(self).command()
                == old(self).command(),
            old(self).is_started() && !old(self).is_stopped() ==> C::end_spec(
                old(self).command(),
                final(self).command(),
                r,
            ),
            final(self).is_started() == old(self).is_started(),
            final(self).is_stopped() == old(self).is_stopped(),
    {
        if self.started && !self.stopped {
            self.command.end()
        } else {
            Ok(())
        }
    }
}


// ---------------------------------------------------------------------------------------------
// Futures run as commands
// ---------------------------------------------------------------------------------------------

/// Conversion into a command; futures become commands that poll them on each execution.
pub trait ToCommand {
    type Command: Command;

    /// The command that runs `self`.
    fn to_command(self) -> Self::Command;
}

/// How a poll of the future inside a future command came out.
pub enum FuturePoll<E> {
    /// The future completed with this result.
    Ready(Result<(), E>),
    /// The future is still running.
    Pending,
}

/// The decisions of a command that runs a future: it may not start or execute once the future
/// has completed, it polls the future only when woken, and it is finished once the future
/// completed successfully.
pub struct FutureCommandState {
    done: bool,
}

impl FutureCommandState {
    /// Whether the future has completed successfully.
    pub closed spec fn is_done(&self) -> bool {
        self.done
    }

    /// A command whose future has not completed.
    pub fn new() -> (s: Self)
        ensures
            !s.is_done(),
    {
        FutureCommandState { done: false }
    }

    /// Starting fails once the future has completed.
    pub fn start(&self) -> (r: Result<(), anyhow::Error>)
        ensures
            r is Ok <==> !self.is_done(),
    {
        if self.done {
            return Err(command_error("Started an already complete future command"));
        }
        Ok(())
    }

    /// Whether an execution polls the future: it fails once the future has completed, and
    /// otherwise polls only when the future's waker was woken.
    pub fn should_poll(&self, woken: bool) -> (r: Result<bool, anyhow::Error>)
        ensures
            r is Err <==> self.is_done(),
            r matches Ok(p) ==> p == woken,
    {
        if self.done {
            return Err(command_error("Ran while done"));
        }
        Ok(woken)
    }

    /// Records a poll of the future: an error is passed on, a success marks the command done,
    /// and a pending future changes nothing.
    pub fn record<E>(&mut self, outcome: FuturePoll<E>) -> (r: Result<(), E>)
        ensures
            outcome matches FuturePoll::Ready(Err(e)) ==> r == Err::<(), E>(e) && final(self).is_done()
                == old(self).is_done(),
            outcome matches FuturePoll::Ready(Ok(())) ==> r is Ok && final(self).is_done(),
            outcome is Pending ==> r is Ok && final(self).is_done() == old(self).is_done(),
    {
        match outcome {
            FuturePoll::Ready(Err(err)) => Err(err),
            FuturePoll::Ready(Ok(())) => {
                self.done = true;
                Ok(())
            },
            FuturePoll::Pending => Ok(()),
        }
    }

    /// Finished once the future completed successfully.
    pub fn is_finished(&self) -> (r: bool)
        ensures
            r == self.is_done(),
    {
        self.done
    }
}

} // verus!
