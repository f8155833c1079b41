//! Messages as data: who receives, which selector, which arguments; and scripts,
//! the short sequences of messages that one operation sends.

use vstd::prelude::*;
use crate::objc::{Id, Name};

verus! {

/// Who a message goes to.
#[derive(Clone, Copy, Debug, PartialEq, Eq)]
pub enum Receiver {
    /// The class of this name, looked up when the message is sent.
    Class(Name),
    /// This object.
    Object(Id),
    /// The object that the message before this one returned.
    Previous,
}

/// A receiver, with names as characters and handles as addresses.
pub enum ReceiverView {
    Class(Seq<char>),
    Object(usize),
    Previous,
}

impl View for Receiver {
    type V = ReceiverView;

    open spec fn view(&self) -> ReceiverView {
        match *self {
            Receiver::Class(name) => ReceiverView::Class(name@),
            Receiver::Object(id) => ReceiverView::Object(id@),
            Receiver::Previous => ReceiverView::Previous,
        }
    }
}

/// One argument of a message, by the type that the callee reads it as.
#[derive(Debug, PartialEq, Eq)]
pub enum Arg {
    /// A pointer to the first of these bytes.
    Bytes(Vec<u8>),
    /// A count of bytes.
    Length(usize),
    /// A C `int`.
    Int(i32),
    /// A C `unsigned int`.
    UInt(u32),
    /// This object.
    Object(Id),
    /// The object that the message before this one returned.
    Previous,
}

/// An argument, with buffers as byte sequences and handles as addresses.
pub enum ArgView {
    Bytes(Seq<u8>),
    Length(usize),
    Int(i32),
    UInt(u32),
    Object(usize),
    Previous,
}

impl View for Arg {
    type V = ArgView;

    open spec fn view(&self) -> ArgView {
        match *self {
            Arg::Bytes(bytes) => ArgView::Bytes(bytes@),
            Arg::Length(length) => ArgView::Length(length),
            Arg::Int(value) => ArgView::Int(value),
            Arg::UInt(value) => ArgView::UInt(value),
            Arg::Object(id) => ArgView::Object(id@),
            Arg::Previous => ArgView::Previous,
        }
    }
}

/// The views of `args`, in their order.
pub open spec fn arg_views(args: Seq<Arg>) -> Seq<ArgView> {
    args.map_values(|arg: Arg| arg@)
}

impl Arg {
    /// A copy of the argument.
    pub fn copy(&self) -> (arg: Arg)
        ensures
            arg@ == self@,
    {
        match self {
            Arg::Bytes(bytes) => {
                let copied = bytes.clone();
                assert(copied@ =~= bytes@);
                Arg::Bytes(copied)
            },
            Arg::Length(length) => Arg::Length(*length),
            Arg::Int(value) => Arg::Int(*value),
            Arg::UInt(value) => Arg::UInt(*value),
            Arg::Object(id) => Arg::Object(*id),
            Arg::Previous => Arg::Previous,
        }
    }
}

/// One message send.
#[derive(Debug, PartialEq, Eq)]
pub struct Message {
    pub receiver: Receiver,
    pub selector: Name,
    pub args: Vec<Arg>,
}

/// A message, by the views of its parts.
pub struct MessageView {
    pub receiver: ReceiverView,
    pub selector: Seq<char>,
    pub args: Seq<ArgView>,
}

impl MessageView {
    /// Whether the message speaks of the object that the message before it
    /// returned, as its receiver or as an argument.
    pub open spec fn uses_previous(self) -> bool {
        ||| self.receiver is Previous
        ||| exists|i: int| 0 <= i < self.args.len() && #[trigger] self.args[i] is Previous
    }
}

impl View for Message {
    type V = MessageView;

    open spec fn view(&self) -> MessageView {
        MessageView {
            receiver: self.receiver@,
            selector: self.selector@,
            args: arg_views(self.args@),
        }
    }
}

/// What an operation makes of the reply to its last message.
#[derive(Clone, Copy, Debug, PartialEq, Eq, Structural)]
pub enum Expect {
    /// An object that must be there: no object is fatal.
    Object,
    /// An object or none; none is an ordinary answer.
    Optional,
    /// Whether the runtime accepted the request: any reply but null.
    Accepted,
    /// Nothing: the reply is dropped.
    Nothing,
}

/// The messages of one operation, in the order they are sent, and what the
/// operation makes of the last reply. Every reply before the last must be an
/// object.
#[derive(Debug, PartialEq, Eq)]
pub struct Script {
    messages: Vec<Message>,
    expect: Expect,
}

/// A script, by the views of its messages.
pub struct ScriptView {
    pub messages: Seq<MessageView>,
    pub expect: Expect,
}

impl ScriptView {
    /// A script can run: it has a first message, and that one speaks of no
    /// message before it.
    pub open spec fn wf(self) -> bool {
        &&& self.messages.len() > 0
        &&& !self.messages[0].uses_previous()
    }
}

/// The views of `messages`, in their order.
pub open spec fn message_views(messages: Seq<Message>) -> Seq<MessageView> {
    messages.map_values(|message: Message| message@)
}

impl View for Script {
    type V = ScriptView;

    closed spec fn view(&self) -> ScriptView {
        ScriptView {
            messages: message_views(self.messages@),
            expect: self.expect,
        }
    }
}

impl Script {
    /// Every script can run.
    #[verifier::type_invariant]
    pub open spec fn runnable(self) -> bool {
        self@.wf()
    }

    /// The script of one message.
    pub(crate) fn new(message: Message, expect: Expect) -> (script: Script)
        requires
            !message@.uses_previous(),
        ensures
            script@ == (ScriptView { messages: seq![message@], expect }),
    {
        let mut messages = Vec::new();
        messages.push(message);
        let script = Script { messages, expect };
        assert(script@.messages =~= seq![message@]);
        script
    }

    /// This script, and `message` after it; `expect` says what becomes of its reply.
    pub(crate) fn followed_by(self, message: Message, expect: Expect) -> (script: Script)
        ensures
            script@ == (ScriptView { messages: self@.messages.push(message@), expect }),
    {
        proof {
            use_type_invariant(&self);
        }
        let mut messages = self.messages;
        messages.push(message);
        let script = Script { messages, expect };
        assert(script@.messages =~= self@.messages.push(message@));
        script
    }

    /// How many messages the script sends.
    pub fn len(&self) -> (len: usize)
        ensures
            len == self@.messages.len(),
            len > 0,
    {
        proof {
            use_type_invariant(self);
        }
        self.messages.len()
    }

    /// The message sent at position `index`.
    pub fn message(&self, index: usize) -> (message: &Message)
        requires
            index < self@.messages.len(),
        ensures
            message@ == self@.messages[index as int],
    {
        &self.messages[index]
    }

    /// What the operation makes of the last reply.
    pub fn expect(&self) -> (expect: Expect)
        ensures
            expect == self@.expect,
    {
        self.expect
    }
}

} // verus!
