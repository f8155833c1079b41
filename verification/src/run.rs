//! Running a script against the runtime, one native call at a time.
//!
//! A run hands out the next call; the caller makes it and hands back the
//! address that the runtime returned. What that address means is decided here:
//! a class, a selector, a reply, or the absence of one.

use vstd::prelude::*;
use crate::message::{arg_views, Arg, ArgView, Expect, MessageView, Receiver, ReceiverView, Script, ScriptView};
use crate::objc::{Id, Sel};
use crate::text::{c_string, is_c_string};

verus! {

/// One call into the runtime. Each returns one pointer-sized value.
#[derive(Debug, PartialEq, Eq)]
pub enum Call {
    /// `objc_getClass`, on the address of these bytes: a class name and its
    /// terminating zero.
    GetClass(Vec<u8>),
    /// `sel_registerName`, on the address of these bytes: a selector name and
    /// its terminating zero.
    RegisterName(Vec<u8>),
    /// `objc_msgSend`, with these arguments after the receiver and the
    /// selector. No argument is [`Arg::Previous`].
    MsgSend { receiver: Id, op: Sel, args: Vec<Arg> },
}

/// A call, with buffers as byte sequences and handles as addresses.
pub enum CallView {
    GetClass(Seq<u8>),
    RegisterName(Seq<u8>),
    MsgSend { receiver: usize, op: usize, args: Seq<ArgView> },
}

impl View for Call {
    type V = CallView;

    open spec fn view(&self) -> CallView {
        match *self {
            Call::GetClass(name) => CallView::GetClass(name@),
            Call::RegisterName(name) => CallView::RegisterName(name@),
            Call::MsgSend { receiver, op, args } => CallView::MsgSend {
                receiver: receiver@,
                op: op@,
                args: arg_views(args@),
            },
        }
    }
}

/// Why a run cannot go on. Nothing is retried: without these the program cannot work at all.
#[derive(Clone, Copy, Debug, PartialEq, Eq, Structural)]
pub enum Fatal {
    /// The runtime knows no class of the name.
    UnknownClass,
    /// The runtime registered no selector for the name.
    NoSelector,
    /// No object came back where the operation needs one.
    NoObject,
}

/// The address of an object that may be none.
pub open spec fn address(object: Option<Id>) -> Option<usize> {
    match object {
        Some(id) => Some(id@),
        None => None,
    }
}

/// What an operation comes to.
#[derive(Clone, Copy, Debug, PartialEq, Eq)]
pub enum Outcome {
    /// The object that came back.
    Object(Id),
    /// The object that came back, or none.
    Optional(Option<Id>),
    /// Whether the runtime accepted the request.
    Accepted(bool),
    /// The message was sent; its reply was dropped.
    Nothing,
}

/// An outcome, with handles as addresses.
pub enum OutcomeView {
    Object(usize),
    Optional(Option<usize>),
    Accepted(bool),
    Nothing,
}

impl View for Outcome {
    type V = OutcomeView;

    open spec fn view(&self) -> OutcomeView {
        match *self {
            Outcome::Object(id) => OutcomeView::Object(id@),
            Outcome::Optional(reply) => OutcomeView::Optional(address(reply)),
            Outcome::Accepted(accepted) => OutcomeView::Accepted(accepted),
            Outcome::Nothing => OutcomeView::Nothing,
        }
    }
}

/// Which call of the message in hand is outstanding.
#[derive(Clone, Copy, Debug, PartialEq, Eq)]
enum Stage {
    /// The lookup of the receiving class.
    Class,
    /// The registration of the selector, the receiver being known.
    Selector(Id),
    /// The send itself.
    Send,
}

/// A stage, with the receiver as an address.
pub enum StageView {
    Class,
    Selector(usize),
    Send,
}

/// A script under way: the caller owes it the result of one call.
#[derive(Debug)]
pub struct Run {
    script: Script,
    at: usize,
    stage: Stage,
    previous: Option<Id>,
}

/// A run as a value: the script, the position of the message in hand, the call
/// that is outstanding, and the object that the message before returned.
pub struct RunView {
    pub script: ScriptView,
    pub at: int,
    pub stage: StageView,
    pub previous: Option<usize>,
}

/// The next thing to happen in a run.
#[derive(Debug)]
pub enum Step {
    /// Make this call, and resume the run with what it returned.
    Call(Run, Call),
    /// The operation is complete.
    Done(Outcome),
    /// The operation cannot be completed.
    Fatal(Fatal),
}

/// A step, by the views of its parts.
pub enum StepView {
    Call(RunView, CallView),
    Done(OutcomeView),
    Fatal(Fatal),
}

impl View for Step {
    type V = StepView;

    open spec fn view(&self) -> StepView {
        match *self {
            Step::Call(run, call) => StepView::Call(run@, call@),
            Step::Done(outcome) => StepView::Done(outcome@),
            Step::Fatal(fatal) => StepView::Fatal(fatal),
        }
    }
}

/// The arguments as they are sent: the object that the message before
/// returned stands where the script spoke of it.
pub open spec fn resolved(args: Seq<ArgView>, previous: Option<usize>) -> Seq<ArgView> {
    match previous {
        Some(object) => args.map_values(
            |arg: ArgView|
                if arg is Previous {
                    ArgView::Object(object)
                } else {
                    arg
                },
        ),
        None => args,
    }
}

/// What the reply to the last message comes to. Null is no object: whether the
/// receiver was none or the method returned none cannot be told apart.
pub open spec fn settled(expect: Expect, addr: usize) -> StepView {
    match expect {
        Expect::Object => if addr == 0 {
            StepView::Fatal(Fatal::NoObject)
        } else {
            StepView::Done(OutcomeView::Object(addr))
        },
        Expect::Optional => StepView::Done(
            OutcomeView::Optional(
                if addr == 0 {
                    None
                } else {
                    Some(addr)
                },
            ),
        ),
        Expect::Accepted => StepView::Done(OutcomeView::Accepted(addr != 0)),
        Expect::Nothing => StepView::Done(OutcomeView::Nothing),
    }
}

/// The first call for the message at position `at`: the lookup of its class
/// where it goes to a class, else the registration of its selector.
pub open spec fn begun(script: ScriptView, at: int, previous: Option<usize>) -> StepView {
    let message = script.messages[at];
    match message.receiver {
        ReceiverView::Class(name) => StepView::Call(
            RunView { script, at, stage: StageView::Class, previous },
            CallView::GetClass(c_string(name)),
        ),
        ReceiverView::Object(receiver) => StepView::Call(
            RunView { script, at, stage: StageView::Selector(receiver), previous },
            CallView::RegisterName(c_string(message.selector)),
        ),
        ReceiverView::Previous => StepView::Call(
            RunView { script, at, stage: StageView::Selector(previous.unwrap()), previous },
            CallView::RegisterName(c_string(message.selector)),
        ),
    }
}

/// The first step of a run of `script`.
pub open spec fn started(script: ScriptView) -> StepView {
    begun(script, 0, None)
}

impl RunView {
    /// The run is at a message of a script that can run, and past the first
    /// message it holds the object that the message before returned.
    pub open spec fn wf(self) -> bool {
        &&& self.script.wf()
        &&& 0 <= self.at < self.script.messages.len()
        &&& self.at > 0 ==> self.previous is Some
    }

    /// The message in hand.
    pub open spec fn message(self) -> MessageView {
        self.script.messages[self.at]
    }

    /// The step after the outstanding call returned `addr`.
    ///
    /// A null class or selector is fatal. A reply to any message but the last
    /// must be an object, and the run goes on to the next message; the reply to
    /// the last is settled as the script expects.
    pub open spec fn resumed(self, addr: usize) -> StepView {
        match self.stage {
            StageView::Class => if addr == 0 {
                StepView::Fatal(Fatal::UnknownClass)
            } else {
                StepView::Call(
                    RunView { stage: StageView::Selector(addr), ..self },
                    CallView::RegisterName(c_string(self.message().selector)),
                )
            },
            StageView::Selector(receiver) => if addr == 0 {
                StepView::Fatal(Fatal::NoSelector)
            } else {
                StepView::Call(
                    RunView { stage: StageView::Send, ..self },
                    CallView::MsgSend {
                        receiver,
                        op: addr,
                        args: resolved(self.message().args, self.previous),
                    },
                )
            },
            StageView::Send => if self.at + 1 == self.script.messages.len() {
                settled(self.script.expect, addr)
            } else if addr == 0 {
                StepView::Fatal(Fatal::NoObject)
            } else {
                begun(self.script, self.at + 1, Some(addr))
            },
        }
    }

    /// How many calls the run can still ask for, at most.
    pub open spec fn calls_left(self) -> int {
        3 * (self.script.messages.len() - self.at) - match self.stage {
            StageView::Class => 0int,
            StageView::Selector(_) => 1int,
            StageView::Send => 2int,
        }
    }
}

/// A run begins with a call, and is then under way with the whole script
/// before it.
pub proof fn lemma_started(script: ScriptView)
    requires
        script.wf(),
    ensures
        started(script) matches StepView::Call(run, _) && run.wf() && run.script == script
            && run.at == 0 && run.calls_left() <= 3 * script.messages.len(),
{
}

/// Every run ends: a run that goes on after a call is under way with the same
/// script, and can ask for fewer calls than before.
pub proof fn lemma_resumed_advances(run: RunView, addr: usize)
    requires
        run.wf(),
    ensures
        run.calls_left() > 0,
        run.resumed(addr) matches StepView::Call(next, _) ==> next.wf() && next.script
            == run.script && next.calls_left() < run.calls_left(),
{
}

/// A null address never passes for a class, a selector or a needed object: on
/// null a run goes on to no call; it ends, and in an outcome only where the
/// last reply was due and the script expects no object.
pub proof fn lemma_null_ends(run: RunView)
    requires
        run.wf(),
    ensures
        !(run.resumed(0) is Call),
        run.resumed(0) is Done ==> run.stage is Send && run.at + 1 == run.script.messages.len()
            && run.script.expect != Expect::Object,
{
}

/// A script that expects an object comes to nothing else: its run is done only
/// with the object at the address that the last send returned, which is not
/// null.
pub proof fn lemma_object_or_fatal(run: RunView, addr: usize)
    requires
        run.wf(),
        run.script.expect == Expect::Object,
    ensures
        run.resumed(addr) matches StepView::Done(outcome) ==> addr != 0 && outcome
            == OutcomeView::Object(addr),
{
}

impl View for Run {
    type V = RunView;

    closed spec fn view(&self) -> RunView {
        RunView {
            script: self.script@,
            at: self.at as int,
            stage: match self.stage {
                Stage::Class => StageView::Class,
                Stage::Selector(receiver) => StageView::Selector(receiver@),
                Stage::Send => StageView::Send,
            },
            previous: address(self.previous),
        }
    }
}

impl Step {
    /// What holds of every step of a run: a run that goes on is under way;
    /// whatever the runtime is to read as a name ends at its only zero byte;
    /// and what is sent holds no reference left to resolve.
    pub open spec fn sound(self) -> bool {
        match self {
            Step::Call(run, Call::GetClass(name)) => run@.wf() && is_c_string(name@),
            Step::Call(run, Call::RegisterName(name)) => run@.wf() && is_c_string(name@),
            Step::Call(run, Call::MsgSend { args, .. }) => run@.wf() && forall|i: int|
                0 <= i < args.len() ==> !(#[trigger] args[i] is Previous),
            _ => true,
        }
    }
}

fn settle(expect: Expect, addr: usize) -> (step: Step)
    ensures
        step@ == settled(expect, addr),
{
    match expect {
        Expect::Object => match Id::from_addr(addr) {
            Some(object) => Step::Done(Outcome::Object(object)),
            None => Step::Fatal(Fatal::NoObject),
        },
        Expect::Optional => Step::Done(Outcome::Optional(Id::from_addr(addr))),
        Expect::Accepted => Step::Done(Outcome::Accepted(addr != 0)),
        Expect::Nothing => Step::Done(Outcome::Nothing),
    }
}

fn resolve(args: &Vec<Arg>, previous: Option<Id>) -> (sent: Vec<Arg>)
    requires
        previous is None ==> forall|i: int| 0 <= i < args.len() ==> !(#[trigger] args[i] is Previous),
    ensures
        arg_views(sent@) == resolved(arg_views(args@), address(previous)),
        forall|i: int| 0 <= i < sent.len() ==> !(#[trigger] sent[i] is Previous),
{
    let ghost wanted = resolved(arg_views(args@), address(previous));
    let mut sent: Vec<Arg> = Vec::new();
    let mut i: usize = 0;
    while i < args.len()
        invariant
            i <= args.len(),
            sent.len() == i,
            wanted.len() == args.len(),
            wanted == resolved(arg_views(args@), address(previous)),
            previous is None ==> forall|j: int|
                0 <= j < args.len() ==> !(#[trigger] args[j] is Previous),
            forall|j: int| 0 <= j < i ==> (#[trigger] sent[j])@ == wanted[j],
            forall|j: int| 0 <= j < i ==> !(#[trigger] sent[j] is Previous),
        decreases args.len() - i,
    {
        let arg = match &args[i] {
            Arg::Previous => Arg::Object(previous.unwrap()),
            other => other.copy(),
        };
        sent.push(arg);
        i += 1;
    }
    assert(arg_views(sent@) =~= wanted);
    sent
}

impl Run {
    #[verifier::type_invariant]
    spec fn under_way(self) -> bool {
        self@.wf()
    }

    fn begin(script: Script, at: usize, previous: Option<Id>) -> (step: Step)
        requires
            at < script@.messages.len(),
            at > 0 ==> previous is Some,
        ensures
            step@ == begun(script@, at as int, address(previous)),
            step.sound(),
    {
        proof {
            use_type_invariant(&script);
        }
        let message = script.message(at);
        match message.receiver {
            Receiver::Class(name) => {
                let bytes = name.c_bytes();
                Step::Call(Run { script, at, stage: Stage::Class, previous }, Call::GetClass(bytes))
            },
            Receiver::Object(receiver) => {
                let bytes = message.selector.c_bytes();
                Step::Call(
                    Run { script, at, stage: Stage::Selector(receiver), previous },
                    Call::RegisterName(bytes),
                )
            },
            Receiver::Previous => {
                let bytes = message.selector.c_bytes();
                let receiver = previous.unwrap();
                Step::Call(
                    Run { script, at, stage: Stage::Selector(receiver), previous },
                    Call::RegisterName(bytes),
                )
            },
        }
    }

    /// Starts a run of `script`: the step is its first call.
    pub fn start(script: Script) -> (step: Step)
        ensures
            step@ == started(script@),
            step.sound(),
    {
        proof {
            use_type_invariant(&script);
        }
        Run::begin(script, 0, None)
    }

    /// Resumes the run with `addr`, the value that the outstanding call
    /// returned.
    pub fn resume(self, addr: usize) -> (step: Step)
        ensures
            step@ == self@.resumed(addr),
            step.sound(),
    {
        proof {
            use_type_invariant(&self);
            use_type_invariant(&self.script);
        }
        let Run { script, at, stage, previous } = self;
        let len: usize = script.len();
        match stage {
            Stage::Class => match Id::from_addr(addr) {
                Some(receiver) => {
                    let bytes = script.message(at).selector.c_bytes();
                    Step::Call(
                        Run { script, at, stage: Stage::Selector(receiver), previous },
                        Call::RegisterName(bytes),
                    )
                },
                None => Step::Fatal(Fatal::UnknownClass),
            },
            Stage::Selector(receiver) => match Sel::from_addr(addr) {
                Some(op) => {
                    let message = script.message(at);
                    assert forall|i: int| 0 <= i < message.args.len() && previous is None implies !(
                    #[trigger] message.args[i] is Previous) by {
                        assert(message@.args[i] == message.args[i]@);
                    }
                    let args = resolve(&message.args, previous);
                    Step::Call(
                        Run { script, at, stage: Stage::Send, previous },
                        Call::MsgSend { receiver, op, args },
                    )
                },
                None => Step::Fatal(Fatal::NoSelector),
            },
            Stage::Send => if at + 1 == len {
                settle(script.expect(), addr)
            } else {
                match Id::from_addr(addr) {
                    Some(object) => Run::begin(script, at + 1, Some(object)),
                    None => Step::Fatal(Fatal::NoObject),
                }
            },
        }
    }
}

} // verus!
