//! The decisions of a tool setup run: the .NET Desktop Runtime is
//! installed first when the prefix lacks it, then the tools are installed
//! one after the other, each tried up to three times with waits of 1 and 2
//! seconds, and a cancellation stops the run. The caller performs the installations and
//! the waits, and reads the cancellation flag before each decision.
use vstd::prelude::*;
use crate::manifest::ToolEntry;
use crate::tools::ToolSetupResult;

verus! {

/// What the caller does next.
#[derive(Debug, PartialEq, Eq)]
pub enum SetupAction {
    /// Install the .NET Desktop Runtime into the prefix and report the
    /// outcome with `record_dotnet`.
    InstallDotnet,
    /// Read the cancellation flag again and ask for the next action.
    Poll,
    /// Wait `delay_secs` seconds, then try to install tool `index` and
    /// report the outcome with `record`.
    Attempt { index: usize, delay_secs: u64 },
    /// The run is over; its results are in `results`.
    Finished,
}

/// The .NET Desktop Runtime is installed before the tools only when the
/// run is not cancelled and the prefix does not have it yet.
pub open spec fn needs_dotnet_spec(cancelled: bool, dotnet_installed: bool) -> bool {
    !cancelled && !dotnet_installed
}

/// Whether the .NET Desktop Runtime is installed before the tools.
pub fn needs_dotnet(cancelled: bool, dotnet_installed: bool) -> (b: bool)
    ensures
        b == needs_dotnet_spec(cancelled, dotnet_installed),
{
    !cancelled && !dotnet_installed
}

/// The wait before attempt `attempt` (counting from 0): none, then 1 and 2
/// seconds.
pub open spec fn retry_delay(attempt: int) -> u64 {
    if attempt == 0 {
        0
    } else if attempt == 1 {
        1
    } else {
        2
    }
}

/// The number of attempts per tool.
pub open spec fn max_setup_attempts() -> int {
    3
}

/// A result that records a cancelled tool.
pub open spec fn is_cancel_result(r: ToolSetupResult) -> bool {
    !r.success && r.error is Some && r.error->0@ == "Cancelled"@
}

/// The result `r` is about `tool`.
pub open spec fn result_for(r: ToolSetupResult, tool: ToolEntry) -> bool {
    r.slug == tool.slug && r.name == tool.name
}

/// `post` follows `pre` after the outcome `outcome` of the awaited
/// attempt: a success is recorded and the next tool follows; a failure is
/// retried, and after the third failed attempt it is recorded with its
/// error.
pub open spec fn record_transition(pre: SetupRun, post: SetupRun, outcome: Result<(), String>) -> bool {
    &&& post.tools() == pre.tools()
    &&& !post.awaiting()
    &&& !post.finished()
    &&& post.dotnet_done()
    &&& !post.awaiting_dotnet()
    &&& post.dotnet_installed() == pre.dotnet_installed()
    &&& outcome is Ok ==> {
        &&& !post.in_attempts()
        &&& post.index() == pre.index() + 1
        &&& post.results().drop_last() == pre.results()
        &&& post.results().last().success
        &&& post.results().last().error is None
        &&& result_for(post.results().last(), pre.tools()[pre.index() as int])
    }
    &&& (outcome is Err && pre.attempts() + 1 < max_setup_attempts()) ==> {
        &&& post.in_attempts()
        &&& post.attempts() == pre.attempts() + 1
        &&& post.results() == pre.results()
        &&& post.index() == pre.index()
    }
    &&& (outcome is Err && pre.attempts() + 1 == max_setup_attempts()) ==> {
        &&& !post.in_attempts()
        &&& post.index() == pre.index() + 1
        &&& post.results().drop_last() == pre.results()
        &&& !post.results().last().success
        &&& post.results().last().error == Some(outcome->Err_0)
        &&& result_for(post.results().last(), pre.tools()[pre.index() as int])
    }
}

/// `post` and `res` follow `pre` when the cancellation flag reads
/// `cancelled`: a finished run stays finished; at the start of a tool the
/// run ends when every tool is dealt with, and a cancellation records the
/// tool as cancelled and ends it; before an attempt a cancellation records
/// the tool as cancelled and moves on, and otherwise the attempt is handed
/// out with its wait.
pub open spec fn next_transition(pre: SetupRun, post: SetupRun, cancelled: bool, res: SetupAction) -> bool {
    &&& post.tools() == pre.tools()
    &&& post.dotnet_installed() == pre.dotnet_installed()
    &&& pre.dotnet_done() ==> post.dotnet_done()
    &&& post.awaiting_dotnet() == (res == SetupAction::InstallDotnet)
    &&& !pre.dotnet_done() ==> {
        &&& post.results() == pre.results()
        &&& post.index() == pre.index()
        &&& !post.in_attempts()
        &&& !post.finished()
        &&& needs_dotnet_spec(cancelled, pre.dotnet_installed()) ==> res == SetupAction::InstallDotnet
            && post.awaiting_dotnet() && !post.dotnet_done()
        &&& !needs_dotnet_spec(cancelled, pre.dotnet_installed()) ==> res == SetupAction::Poll && post.dotnet_done()
    }
    &&& pre.finished() ==> res == SetupAction::Finished && post == pre
    &&& (pre.dotnet_done() && !pre.finished() && !pre.in_attempts() && pre.index() == pre.tools().len()) ==> {
        &&& res == SetupAction::Finished
        &&& post.finished()
        &&& post.results() == pre.results()
    }
    &&& (pre.dotnet_done() && !pre.finished() && !pre.in_attempts() && pre.index() < pre.tools().len() && cancelled) ==> {
        &&& res == SetupAction::Finished
        &&& post.finished()
        &&& post.results().len() == pre.results().len() + 1
        &&& post.results().drop_last() == pre.results()
        &&& is_cancel_result(post.results().last())
    }
    &&& (pre.dotnet_done() && !pre.finished() && !pre.in_attempts() && pre.index() < pre.tools().len() && !cancelled) ==> {
        &&& res == SetupAction::Poll
        &&& post.in_attempts()
        &&& post.attempts() == 0
        &&& post.results() == pre.results()
        &&& !post.finished()
    }
    &&& (pre.dotnet_done() && !pre.finished() && pre.in_attempts() && cancelled) ==> {
        &&& res == SetupAction::Poll
        &&& !post.in_attempts()
        &&& !post.finished()
        &&& post.index() == pre.index() + 1
        &&& post.results().drop_last() == pre.results()
        &&& is_cancel_result(post.results().last())
    }
    &&& (pre.dotnet_done() && !pre.finished() && pre.in_attempts() && !cancelled) ==> {
        &&& res == (SetupAction::Attempt {
            index: pre.index() as usize,
            delay_secs: retry_delay(pre.attempts() as int),
        })
        &&& post.awaiting()
        &&& post.results() == pre.results()
        &&& post.index() == pre.index()
        &&& post.attempts() == pre.attempts()
    }
}

/// A setup run in progress.
pub struct SetupRun {
    tools: Vec<ToolEntry>,
    index: usize,
    attempt: usize,
    in_attempts: bool,
    awaiting: bool,
    finished: bool,
    results: Vec<ToolSetupResult>,
    dotnet_installed: bool,
    dotnet_done: bool,
    awaiting_dotnet: bool,
}

impl SetupRun {
    /// The tools to set up, in order.
    pub closed spec fn tools(&self) -> Seq<ToolEntry> {
        self.tools@
    }

    /// The results so far, one per tool dealt with, in the tools' order.
    pub closed spec fn results(&self) -> Seq<ToolSetupResult> {
        self.results@
    }

    /// The position of the tool being dealt with.
    pub closed spec fn index(&self) -> nat {
        self.index as nat
    }

    /// The attempts made on the current tool.
    pub closed spec fn attempts(&self) -> nat {
        self.attempt as nat
    }

    /// Past the check at the start of the current tool.
    pub closed spec fn in_attempts(&self) -> bool {
        self.in_attempts
    }

    /// An attempt was handed out and its outcome is awaited.
    pub closed spec fn awaiting(&self) -> bool {
        self.awaiting
    }

    /// The run is over.
    pub closed spec fn finished(&self) -> bool {
        self.finished
    }

    /// The prefix had the .NET Desktop Runtime when the run was made.
    pub closed spec fn dotnet_installed(&self) -> bool {
        self.dotnet_installed
    }

    /// The .NET step is behind the run: installed, or not needed.
    pub closed spec fn dotnet_done(&self) -> bool {
        self.dotnet_done
    }

    /// The .NET installation was handed out and its outcome is awaited.
    pub closed spec fn awaiting_dotnet(&self) -> bool {
        self.awaiting_dotnet
    }

    /// What holds of every run between calls: one result per tool dealt
    /// with, each about its tool; at most three attempts per tool; a run
    /// ends either with every tool dealt with or with a cancelled one.
    pub open spec fn wf(&self) -> bool {
        &&& self.index() <= self.tools().len()
        &&& self.results().len() == self.index()
        &&& forall|j: int| 0 <= j < self.results().len() ==> result_for(#[trigger] self.results()[j], self.tools()[j])
        &&& forall|j: int| 0 <= j < self.results().len() ==> (#[trigger] self.results()[j]).success == (
            self.results()[j].error is None)
        &&& self.in_attempts() ==> self.index() < self.tools().len() && self.attempts() < max_setup_attempts()
        &&& self.awaiting() ==> self.in_attempts()
        &&& self.finished() ==> !self.in_attempts()
        &&& self.finished() ==> (self.index() == self.tools().len() || (self.index() > 0
            && is_cancel_result(self.results().last())))
        &&& !self.dotnet_done() ==> self.index() == 0 && !self.in_attempts() && !self.finished()
        &&& self.awaiting_dotnet() ==> !self.dotnet_done()
    }

    /// A run over `tools` that has not started; `dotnet_installed` tells
    /// whether the prefix already has the .NET Desktop Runtime.
    pub fn new(tools: Vec<ToolEntry>, dotnet_installed: bool) -> (res: Self)
        ensures
            res.wf(),
            res.tools() == tools@,
            res.dotnet_installed() == dotnet_installed,
            !res.dotnet_done(),
            !res.awaiting_dotnet(),
            res.results().len() == 0,
            res.index() == 0,
            !res.in_attempts(),
            !res.awaiting(),
            !res.finished(),
    {
        SetupRun {
            tools,
            index: 0,
            attempt: 0,
            in_attempts: false,
            awaiting: false,
            finished: false,
            results: Vec::new(),
            dotnet_installed,
            dotnet_done: false,
            awaiting_dotnet: false,
        }
    }

    /// The next action, given the cancellation flag as just read. At the
    /// start of a tool a cancellation records it as cancelled and ends the
    /// run; before an attempt a cancellation records the tool as cancelled
    /// and moves on to the next tool.
    pub fn next(&mut self, cancelled: bool) -> (res: SetupAction)
        requires
            old(self).wf(),
            !old(self).awaiting(),
            !old(self).awaiting_dotnet(),
        ensures
            final(self).wf(),
            next_transition(*old(self), *final(self), cancelled, res),
    {
        if !self.dotnet_done {
            if needs_dotnet(cancelled, self.dotnet_installed) {
                self.awaiting_dotnet = true;
                return SetupAction::InstallDotnet;
            }
            self.dotnet_done = true;
            return SetupAction::Poll;
        }
        if self.finished {
            return SetupAction::Finished;
        }
        if !self.in_attempts {
            if self.index == self.tools.len() {
                self.finished = true;
                return SetupAction::Finished;
            }
            if cancelled {
                let r = ToolSetupResult::cancelled(&self.tools[self.index]);
                let ghost before = self.results@;
                self.results.push(r);
                assert(self.results@.drop_last() =~= before);
                self.index = self.index + 1;
                self.finished = true;
                return SetupAction::Finished;
            }
            self.in_attempts = true;
            self.attempt = 0;
            return SetupAction::Poll;
        }
        let n = self.tools.len();
        assert(self.index < n);
        if cancelled {
            let r = ToolSetupResult::cancelled(&self.tools[self.index]);
            let ghost before = self.results@;
            self.results.push(r);
            assert(self.results@.drop_last() =~= before);
            self.index = self.index + 1;
            self.in_attempts = false;
            return SetupAction::Poll;
        }
        self.awaiting = true;
        let delay: u64 = if self.attempt == 0 {
            0
        } else if self.attempt == 1 {
            1
        } else {
            2
        };
        SetupAction::Attempt { index: self.index, delay_secs: delay }
    }

    /// Takes the outcome of the attempt handed out: a success is recorded
    /// and the next tool follows; a failure is retried, and after the third
    /// failed attempt it is recorded with its error.
    pub fn record(&mut self, outcome: Result<(), String>)
        requires
            old(self).wf(),
            old(self).awaiting(),
        ensures
            final(self).wf(),
            record_transition(*old(self), *final(self), outcome),
    {
        self.awaiting = false;
        let n = self.tools.len();
        assert(self.index < n);
        let ghost before = self.results@;
        let tool = &self.tools[self.index];
        match outcome {
            Ok(()) => {
                let r = ToolSetupResult::succeeded(tool);
                self.results.push(r);
                assert(self.results@.drop_last() =~= before);
                self.index = self.index + 1;
                self.in_attempts = false;
            },
            Err(e) => {
                if self.attempt + 1 < 3 {
                    self.attempt = self.attempt + 1;
                } else {
                    let r = ToolSetupResult::failed(tool, e);
                    self.results.push(r);
                    assert(self.results@.drop_last() =~= before);
                    self.index = self.index + 1;
                    self.in_attempts = false;
                }
            },
        }
    }

    /// Takes the outcome of the .NET installation. The tools are set up
    /// whatever it was: the outcome is only the caller's to log.
    pub fn record_dotnet(&mut self, outcome: &Result<(), String>)
        requires
            old(self).wf(),
            old(self).awaiting_dotnet(),
        ensures
            final(self).wf(),
            final(self).dotnet_done(),
            !final(self).awaiting_dotnet(),
            final(self).tools() == old(self).tools(),
            final(self).results() == old(self).results(),
            final(self).index() == old(self).index(),
            !final(self).in_attempts(),
            !final(self).awaiting(),
            !final(self).finished(),
            final(self).dotnet_installed() == old(self).dotnet_installed(),
    {
        self.awaiting_dotnet = false;
        self.dotnet_done = true;
    }

    /// The results of the run.
    pub fn results_vec(&self) -> (res: Vec<ToolSetupResult>)
        ensures
            res@ == self.results(),
    {
        let mut out: Vec<ToolSetupResult> = Vec::new();
        let mut i: usize = 0;
        while i < self.results.len()
            invariant
                i <= self.results@.len(),
                out@ =~= self.results@.take(i as int),
            decreases self.results.len() - i,
        {
            out.push(self.results[i].clone());
            i = i + 1;
        }
        assert(self.results@.take(self.results@.len() as int) =~= self.results@);
        out
    }

    /// Whether the run is over.
    pub fn is_finished(&self) -> (b: bool)
        ensures
            b == self.finished(),
    {
        self.finished
    }

    /// The tool at `index`.
    pub fn tool(&self, index: usize) -> (res: &ToolEntry)
        requires
            index < self.tools().len(),
        ensures
            *res == self.tools()[index as int],
    {
        &self.tools[index]
    }
}

/// A finished run that no cancellation ended has one result per tool, each
/// about its tool, in order.
pub proof fn lemma_uncancelled_run_covers_all(run: SetupRun)
    requires
        run.wf(),
        run.finished(),
        run.results().len() == 0 || !is_cancel_result(run.results().last()),
    ensures
        run.results().len() == run.tools().len(),
        forall|j: int| 0 <= j < run.results().len() ==> result_for(#[trigger] run.results()[j], run.tools()[j]),
        forall|j: int| 0 <= j < run.results().len() ==> (#[trigger] run.results()[j]).success == (
            run.results()[j].error is None),
{
}


/// A cancellation stops a run: after two decisions taken with the
/// cancellation flag set, the run is over, and every tool it dealt with on
/// the way is recorded as cancelled.
pub proof fn lemma_cancel_stops_run(
    pre: SetupRun,
    mid: SetupRun,
    a1: SetupAction,
    post: SetupRun,
    a2: SetupAction,
)
    requires
        pre.wf(),
        !pre.awaiting(),
        !pre.awaiting_dotnet(),
        next_transition(pre, mid, true, a1),
        mid.wf(),
        !mid.awaiting(),
        next_transition(mid, post, true, a2),
    ensures
        post.finished(),
        a2 == SetupAction::Finished,
        post.results().len() >= pre.results().len(),
        post.results().subrange(0, pre.results().len() as int) == pre.results(),
        forall|j: int| pre.results().len() <= j < post.results().len() ==> is_cancel_result(#[trigger] post.results()[j]),
{
    if !pre.dotnet_done() {
        if mid.index() < mid.tools().len() {
            assert(post.results() =~= mid.results().push(post.results().last()));
        }
    } else if pre.finished() {
    } else if !pre.in_attempts() {
        if pre.index() < pre.tools().len() {
            assert(mid.results() =~= pre.results().push(mid.results().last()));
        }
    } else {
        assert(mid.results() =~= pre.results().push(mid.results().last()));
        if mid.index() < mid.tools().len() {
            assert(post.results() =~= mid.results().push(post.results().last()));
        }
    }
    assert(post.results().subrange(0, pre.results().len() as int) =~= pre.results());
}

/// The .NET Desktop Runtime comes before every tool: the installation is
/// handed out only at the start of a run, with no tool dealt with and no
/// result recorded, and only when the flag read then is clear and the
/// prefix lacks it; no attempt at a tool is handed out before the .NET
/// step is behind the run, and once it is, it is never handed out again.
pub proof fn lemma_dotnet_before_tools(pre: SetupRun, cancelled: bool, post: SetupRun, res: SetupAction)
    requires
        pre.wf(),
        !pre.awaiting_dotnet(),
        next_transition(pre, post, cancelled, res),
    ensures
        res == SetupAction::InstallDotnet ==> !pre.dotnet_done() && pre.index() == 0 && pre.results().len()
            == 0 && needs_dotnet_spec(cancelled, pre.dotnet_installed()),
        res is Attempt ==> pre.dotnet_done(),
        pre.dotnet_done() ==> res != SetupAction::InstallDotnet,
{
}

} // verus!
