//! Running a block of commands on a device. Each command is a list of program
//! invocations run one after the other; the block answers with one exit record
//! per command (the last invocation's), plus one record per invocation that
//! could not be started. A stop request ends the block at once.
use vstd::prelude::*;

use crate::backend::message::{Command, Invocation, Message, S2C, Sequence};

verus! {

/// An exit record: exit code, standard output, standard error.
pub type Exit = (i32, Vec<u8>, Vec<u8>);

/// An exit record by its contents.
pub type ExitView = (i32, Seq<u8>, Seq<u8>);

pub open spec fn exit_view(e: Exit) -> ExitView {
    (e.0, e.1@, e.2@)
}

/// What happened to one invocation.
#[derive(Debug)]
pub enum Outcome {
    /// The program ran to its end.
    Exited { code: i32, stdout: Vec<u8>, stderr: Vec<u8> },
    /// The program could not be run; the bytes describe the error.
    Failed(Vec<u8>),
    /// The block was asked to stop while the program ran.
    Killed,
}

/// The progress of a block of commands.
pub struct BlockView {
    pub cmds: Seq<Command>,
    /// The command whose invocations run now (`cmds.len()` once all ran).
    pub cmd: nat,
    /// The invocation of that command that runs next.
    pub sub: nat,
    /// The exit record of the last invocation of the current command so far.
    pub out: Option<ExitView>,
    /// The records collected for the reply.
    pub exits: Seq<ExitView>,
    pub killed: bool,
}

/// The first command from `from` on that has an invocation (`cmds.len()` if
/// none has).
pub open spec fn next_runnable(cmds: Seq<Command>, from: nat) -> nat
    decreases cmds.len() - from,
{
    if from >= cmds.len() {
        cmds.len()
    } else if cmds[from as int].command@.len() > 0 {
        from
    } else {
        next_runnable(cmds, from + 1)
    }
}

/// The state in which a block starts.
pub open spec fn start(cmds: Seq<Command>) -> BlockView {
    BlockView { cmds, cmd: next_runnable(cmds, 0), sub: 0, out: None, exits: seq![], killed: false }
}

impl BlockView {
    /// Whether no invocation is left to run.
    pub open spec fn done(self) -> bool {
        self.killed || self.cmd >= self.cmds.len()
    }

    /// Ends the current command: its last record joins the reply, and the block
    /// moves on to the next command that has an invocation.
    pub open spec fn close(self) -> BlockView {
        BlockView {
            cmd: next_runnable(self.cmds, self.cmd + 1),
            sub: 0,
            out: None,
            exits: match self.out {
                Some(e) => self.exits.push(e),
                None => self.exits,
            },
            ..self
        }
    }

    /// The progress after the current invocation ended with `o`.
    pub open spec fn step(self, o: Outcome) -> BlockView {
        match o {
            Outcome::Killed => BlockView { killed: true, ..self },
            Outcome::Exited { code, stdout, stderr } => {
                let ran = BlockView {
                    sub: self.sub + 1,
                    out: Some((code, stdout@, stderr@)),
                    ..self
                };
                if ran.sub >= self.cmds[self.cmd as int].command@.len() {
                    ran.close()
                } else {
                    ran
                }
            },
            Outcome::Failed(err) => BlockView {
                exits: self.exits.push((-1i32, Seq::<u8>::empty(), err@)),
                ..self
            }.close(),
        }
    }

    /// The progress after the invocations ended with `outcomes`, one after the
    /// other, as long as the block still had an invocation to run.
    pub open spec fn run(self, outcomes: Seq<Outcome>) -> BlockView
        decreases outcomes.len(),
    {
        if outcomes.len() == 0 {
            self
        } else {
            let before = self.run(outcomes.drop_last());
            if before.done() {
                before
            } else {
                before.step(outcomes.last())
            }
        }
    }

    /// The invariant of the progress record.
    pub open spec fn wf(self) -> bool {
        &&& self.cmd <= self.cmds.len()
        &&& self.cmd < self.cmds.len() ==> self.sub < self.cmds[self.cmd as int].command@.len()
    }
}

/// A block of commands being run.
pub struct CommandBlock {
    cmds: Vec<Command>,
    cmd: usize,
    sub: usize,
    out: Option<Exit>,
    exits: Vec<Exit>,
    killed: bool,
}

impl View for CommandBlock {
    type V = BlockView;

    closed spec fn view(&self) -> BlockView {
        BlockView {
            cmds: self.cmds@,
            cmd: self.cmd as nat,
            sub: self.sub as nat,
            out: match self.out {
                Some(e) => Some(exit_view(e)),
                None => None,
            },
            exits: self.exits@.map_values(|e: Exit| exit_view(e)),
            killed: self.killed,
        }
    }
}

proof fn lemma_next_runnable(cmds: Seq<Command>, from: nat)
    ensures
        from <= cmds.len() ==> from <= next_runnable(cmds, from),
        next_runnable(cmds, from) <= cmds.len() || from > cmds.len(),
        next_runnable(cmds, from) < cmds.len() ==> cmds[next_runnable(cmds, from) as int].command@.len() > 0,
        forall|j: nat| from <= j < next_runnable(cmds, from) ==> cmds[j as int].command@.len() == 0,
    decreases cmds.len() - from,
{
    if from < cmds.len() && cmds[from as int].command@.len() == 0 {
        lemma_next_runnable(cmds, from + 1);
    }
}

impl CommandBlock {
    /// The runnable state of the block: all fields consistent.
    pub closed spec fn inv(&self) -> bool {
        self@.wf()
    }

    /// Moves `cmd` forward to the next command that has an invocation.
    fn skip_empty(&mut self)
        requires
            old(self).cmd <= old(self).cmds@.len(),
        ensures
            final(self).cmd as nat == next_runnable(old(self).cmds@, old(self).cmd as nat),
            final(self).cmds == old(self).cmds,
            final(self).sub == old(self).sub,
            final(self).out == old(self).out,
            final(self).exits == old(self).exits,
            final(self).killed == old(self).killed,
    {
        proof {
            lemma_next_runnable(self.cmds@, self.cmd as nat);
        }
        while self.cmd < self.cmds.len() && self.cmds[self.cmd].command.len() == 0
            invariant
                self.cmd <= self.cmds@.len(),
                self.cmds == old(self).cmds,
                self.sub == old(self).sub,
                self.out == old(self).out,
                self.exits == old(self).exits,
                self.killed == old(self).killed,
                next_runnable(self.cmds@, self.cmd as nat) == next_runnable(
                    old(self).cmds@,
                    old(self).cmd as nat,
                ),
            decreases self.cmds@.len() - self.cmd,
        {
            self.cmd = self.cmd + 1;
        }
    }

    /// Starts a block.
    pub fn new(cmds: Vec<Command>) -> (b: CommandBlock)
        ensures
            b.inv(),
            b@ == start(cmds@),
    {
        let mut b = CommandBlock { cmds, cmd: 0, sub: 0, out: None, exits: Vec::new(), killed: false };
        b.skip_empty();
        proof {
            lemma_next_runnable(b.cmds@, 0);
            assert(b@.exits =~= Seq::<ExitView>::empty());
        }
        b
    }

    /// Whether every invocation has run, or the block was stopped.
    pub fn is_done(&self) -> (r: bool)
        requires
            self.inv(),
        ensures
            r == self@.done(),
    {
        self.killed || self.cmd >= self.cmds.len()
    }

    /// The invocation to run next, with the command it belongs to (which gives
    /// its environment and working directory); `None` once the block is done.
    pub fn pending(&self) -> (r: Option<(&Command, &Invocation)>)
        requires
            self.inv(),
        ensures
            self@.done() ==> r is None,
            !self@.done() ==> r == Some((
                &self@.cmds[self@.cmd as int],
                &self@.cmds[self@.cmd as int].command@[self@.sub as int],
            )),
    {
        if self.killed || self.cmd >= self.cmds.len() {
            None
        } else {
            let c = &self.cmds[self.cmd];
            Some((c, &c.command[self.sub]))
        }
    }

    /// Ends the current command and moves on to the next runnable one.
    fn close(&mut self)
        requires
            old(self).cmd < old(self).cmds@.len(),
        ensures
            final(self).inv(),
            final(self)@ == old(self)@.close(),
    {
        let out = self.out.take();
        match out {
            Some(e) => {
                self.exits.push(e);
            },
            None => {},
        }
        let n = self.cmds.len();
        assert(self.cmd < n);
        self.cmd = self.cmd + 1;
        self.sub = 0;
        self.skip_empty();
        proof {
            lemma_next_runnable(self.cmds@, (old(self).cmd + 1) as nat);
            assert(self@.exits =~= old(self)@.close().exits);
        }
    }

    /// Records how the pending invocation ended.
    pub fn record(&mut self, outcome: Outcome)
        requires
            old(self).inv(),
            !old(self)@.done(),
        ensures
            final(self).inv(),
            final(self)@ == old(self)@.step(outcome),
    {
        let ghost o = outcome;
        match outcome {
            Outcome::Killed => {
                self.killed = true;
            },
            Outcome::Exited { code, stdout, stderr } => {
                let n = self.cmds[self.cmd].command.len();
                self.sub = self.sub + 1;
                self.out = Some((code, stdout, stderr));
                if self.sub >= n {
                    self.close();
                }
            },
            Outcome::Failed(err) => {
                self.exits.push((-1i32, Vec::new(), err));
                proof {
                    assert(self@.exits =~= old(self)@.exits.push((-1i32, Seq::<u8>::empty(), o->Failed_0@)));
                }
                self.close();
            },
        }
    }

    /// The reply that reports the block: its exit records, in order.
    pub fn into_reply(self, seq: Sequence) -> (m: Message<S2C>)
        ensures
            m.seq == seq,
            m.cmd matches S2C::CommandDone(exits) && exits@.map_values(|e: Exit| exit_view(e))
                == self@.exits,
    {
        Message { seq, cmd: S2C::CommandDone(self.exits) }
    }
}

/// The exit record that an invocation that ran to its end contributes.
pub open spec fn outcome_exit(o: Outcome) -> ExitView {
    match o {
        Outcome::Exited { code, stdout, stderr } => (code, stdout@, stderr@),
        Outcome::Failed(err) => (-1i32, Seq::<u8>::empty(), err@),
        Outcome::Killed => (0i32, Seq::<u8>::empty(), Seq::<u8>::empty()),
    }
}

proof fn lemma_next_runnable_all_single(cmds: Seq<Command>, j: nat)
    requires
        forall|i: int| 0 <= i < cmds.len() ==> #[trigger] cmds[i].command@.len() == 1,
        j <= cmds.len(),
    ensures
        next_runnable(cmds, j) == j,
{
}

proof fn lemma_single_invocations_prefix(cmds: Seq<Command>, outcomes: Seq<Outcome>, k: nat)
    requires
        forall|i: int| 0 <= i < cmds.len() ==> #[trigger] cmds[i].command@.len() == 1,
        outcomes.len() == cmds.len(),
        forall|i: int| 0 <= i < outcomes.len() ==> #[trigger] outcomes[i] is Exited,
        k <= outcomes.len(),
    ensures
        start(cmds).run(outcomes.take(k as int)) == (BlockView {
            cmds,
            cmd: k,
            sub: 0,
            out: None,
            exits: outcomes.take(k as int).map_values(|o: Outcome| outcome_exit(o)),
            killed: false,
        }),
    decreases k,
{
    lemma_next_runnable_all_single(cmds, 0);
    if k == 0 {
        assert(outcomes.take(0) =~= Seq::<Outcome>::empty());
        assert(outcomes.take(0).map_values(|o: Outcome| outcome_exit(o)) =~= Seq::<ExitView>::empty());
    } else {
        let prev = (k - 1) as nat;
        lemma_single_invocations_prefix(cmds, outcomes, prev);
        assert(outcomes.take(k as int).drop_last() =~= outcomes.take(prev as int));
        assert(outcomes.take(k as int).last() == outcomes[prev as int]);
        lemma_next_runnable_all_single(cmds, k);
        let o = outcomes[prev as int];
        assert(o is Exited);
        assert(outcomes.take(k as int).map_values(|o: Outcome| outcome_exit(o)) =~= outcomes.take(
            prev as int,
        ).map_values(|o: Outcome| outcome_exit(o)).push(outcome_exit(o)));
    }
}

/// When every command of a block is a single invocation and each invocation
/// runs to its end, the block is then done and reports exactly one exit
/// record per command, in the order of the commands.
pub proof fn law_one_record_per_command(cmds: Seq<Command>, outcomes: Seq<Outcome>)
    requires
        forall|i: int| 0 <= i < cmds.len() ==> #[trigger] cmds[i].command@.len() == 1,
        outcomes.len() == cmds.len(),
        forall|i: int| 0 <= i < outcomes.len() ==> #[trigger] outcomes[i] is Exited,
    ensures
        start(cmds).run(outcomes).done(),
        start(cmds).run(outcomes).exits == outcomes.map_values(|o: Outcome| outcome_exit(o)),
{
    lemma_single_invocations_prefix(cmds, outcomes, outcomes.len());
    assert(outcomes.take(outcomes.len() as int) =~= outcomes);
}

/// A stop request ends a block at once: nothing more runs, and the records
/// collected so far are the reply.
pub proof fn law_stop_ends_block(b: BlockView)
    ensures
        b.step(Outcome::Killed).done(),
        b.step(Outcome::Killed).exits == b.exits,
        forall|more: Seq<Outcome>| #[trigger] b.step(Outcome::Killed).run(more) == b.step(Outcome::Killed),
{
    assert forall|more: Seq<Outcome>| #[trigger] b.step(Outcome::Killed).run(more) == b.step(Outcome::Killed) by {
        lemma_run_done(b.step(Outcome::Killed), more);
    }
}

proof fn lemma_run_done(b: BlockView, more: Seq<Outcome>)
    requires
        b.done(),
    ensures
        b.run(more) == b,
    decreases more.len(),
{
    if more.len() > 0 {
        lemma_run_done(b, more.drop_last());
    }
}

/// An invocation that cannot be started ends its command: its error record
/// joins the reply, followed by the record of the command's last invocation
/// that had run, and the block goes on with the next command.
pub proof fn law_failure_ends_command(b: BlockView, err: Vec<u8>)
    requires
        b.wf(),
        !b.done(),
    ensures
        b.step(Outcome::Failed(err)).exits == match b.out {
            Some(e) => b.exits.push((-1i32, Seq::<u8>::empty(), err@)).push(e),
            None => b.exits.push((-1i32, Seq::<u8>::empty(), err@)),
        },
        b.step(Outcome::Failed(err)).cmd == next_runnable(b.cmds, b.cmd + 1),
        b.step(Outcome::Failed(err)).wf(),
{
    lemma_next_runnable(b.cmds, b.cmd + 1);
}

} // verus!
