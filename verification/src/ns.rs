//! The operations on Foundation and AppKit objects that a launcher needs, each
//! as the script of messages that performs it.

use vstd::prelude::*;
use vstd::utf8::*;
use crate::message::{Arg, ArgView, Expect, Message, MessageView, Receiver, ReceiverView, Script, ScriptView};
use crate::objc::{Id, Name};
use crate::text::{lemma_round_trip, text_of};

verus! {

/// `NSUTF8StringEncoding`.
pub const UTF8_ENCODING: i32 = 4;

/// An `NSString`.
pub type String = Id;

/// The shared `NSApplication`.
pub type Application = Id;

/// An `NSBundle`.
pub type Bundle = Id;

/// The `NSProcessInfo` of this process.
pub type ProcessInfo = Id;

/// How an application shows itself to the user.
#[derive(Clone, Copy, Debug, PartialEq, Eq, Structural)]
pub enum ApplicationActivationPolicy {
    /// An ordinary application: in the Dock, with a menu bar and windows.
    Regular,
}

impl ApplicationActivationPolicy {
    /// The number that AppKit knows the policy by.
    pub open spec fn code(self) -> u32 {
        match self {
            ApplicationActivationPolicy::Regular => 0,
        }
    }

    /// The number that AppKit knows the policy by.
    pub fn value(self) -> (value: u32)
        ensures
            value == self.code(),
    {
        match self {
            ApplicationActivationPolicy::Regular => 0,
        }
    }
}

/// A message without arguments.
pub open spec fn plain(receiver: ReceiverView, selector: Seq<char>) -> MessageView {
    MessageView { receiver, selector, args: Seq::empty() }
}

/// The script of one message.
pub open spec fn single(message: MessageView, expect: Expect) -> ScriptView {
    ScriptView { messages: seq![message], expect }
}

/// How a new string is made from `text`: allocate, then initialise from the
/// UTF-8 bytes of `text`, whose count is passed beside them.
pub open spec fn new_string(text: Seq<char>) -> ScriptView {
    ScriptView {
        messages: seq![
            plain(ReceiverView::Class("NSString"@), "alloc"@),
            MessageView {
                receiver: ReceiverView::Previous,
                selector: "initWithBytes:length:encoding:"@,
                args: seq![
                    ArgView::Bytes(encode_utf8(text)),
                    ArgView::Length(encode_utf8(text).len() as usize),
                    ArgView::Int(UTF8_ENCODING),
                ],
            },
        ],
        expect: Expect::Object,
    }
}

/// How a string object is asked for its text: the reply is the address of its
/// bytes in UTF-8, terminated by a zero.
pub open spec fn utf8_of(string: usize) -> ScriptView {
    single(plain(ReceiverView::Object(string), "UTF8String"@), Expect::Object)
}

/// How the application object of the process is reached.
pub open spec fn shared_application() -> ScriptView {
    single(plain(ReceiverView::Class("NSApplication"@), "sharedApplication"@), Expect::Object)
}

/// How the application is asked to take `policy`: the reply says whether it
/// did.
pub open spec fn activation_policy(
    app: usize,
    policy: ApplicationActivationPolicy,
) -> ScriptView {
    single(
        MessageView {
            receiver: ReceiverView::Object(app),
            selector: "setActivationPolicy:"@,
            args: seq![ArgView::UInt(policy.code())],
        },
        Expect::Accepted,
    )
}

/// How the application is told that its configuration is complete.
pub open spec fn launching_finished(app: usize) -> ScriptView {
    single(plain(ReceiverView::Object(app), "finishLaunching"@), Expect::Nothing)
}

/// How the bundle of the running executable is reached.
pub open spec fn main_bundle() -> ScriptView {
    single(plain(ReceiverView::Class("NSBundle"@), "mainBundle"@), Expect::Object)
}

/// How the bundle is asked for the value under `key` in its information
/// dictionary: the key is made a string object, which then goes as the one
/// argument of the lookup. No value is an ordinary answer.
pub open spec fn info_value(bundle: usize, key: Seq<char>) -> ScriptView {
    ScriptView {
        messages: new_string(key).messages.push(
            MessageView {
                receiver: ReceiverView::Object(bundle),
                selector: "objectForInfoDictionaryKey:"@,
                args: seq![ArgView::Previous],
            },
        ),
        expect: Expect::Optional,
    }
}

/// How the process information object is reached.
pub open spec fn process_info() -> ScriptView {
    single(plain(ReceiverView::Class("NSProcessInfo"@), "processInfo"@), Expect::Object)
}

/// How the process information object is asked for the name of the process.
pub open spec fn process_name(info: usize) -> ScriptView {
    single(plain(ReceiverView::Object(info), "processName"@), Expect::Object)
}

/// What goes out with a new string comes back from it. Where the runtime
/// keeps the bytes that the string was made from and hands them out with a
/// terminating zero, the text read from them is the text that went in. It must
/// hold no zero byte: the text read ends at the first.
pub proof fn lemma_new_string_comes_back(text: Seq<char>)
    requires
        !encode_utf8(text).contains(0u8),
    ensures
        new_string(text).messages[1].args[0] == ArgView::Bytes(encode_utf8(text)),
        new_string(text).messages[1].args[1] == ArgView::Length(encode_utf8(text).len() as usize),
        text_of(encode_utf8(text).push(0u8)) == Some(text),
{
    lemma_round_trip(text);
}

fn send(receiver: Receiver, selector: Name) -> (message: Message)
    ensures
        message@ == plain(receiver@, selector@),
{
    let message = Message { receiver, selector, args: Vec::new() };
    assert(message@.args =~= Seq::empty());
    message
}

impl String {
    /// A new string object that holds `s`. The bytes need no terminator: their
    /// count goes with them.
    pub fn new(s: &str) -> (script: Script)
        ensures
            script@ == new_string(s@),
    {
        proof {
            reveal_strlit("NSString");
            reveal_strlit("alloc");
            reveal_strlit("initWithBytes:length:encoding:");
        }
        let alloc = send(Receiver::Class(Name::new("NSString")), Name::new("alloc"));
        let bytes = s.as_bytes_vec();
        let length: usize = bytes.len();
        let mut args = Vec::new();
        args.push(Arg::Bytes(bytes));
        args.push(Arg::Length(length));
        args.push(Arg::Int(UTF8_ENCODING));
        let init = Message {
            receiver: Receiver::Previous,
            selector: Name::new("initWithBytes:length:encoding:"),
            args,
        };
        assert(init@.args =~= new_string(s@).messages[1].args);
        let script = Script::new(alloc, Expect::Object).followed_by(init, Expect::Object);
        assert(script@.messages =~= new_string(s@).messages);
        script
    }

    /// The text of this string object, as null-terminated UTF-8. The reply is
    /// the address of the first byte; the bytes are the caller's to take once.
    pub fn utf8_string(&self) -> (script: Script)
        ensures
            script@ == utf8_of(self@),
    {
        proof {
            reveal_strlit("UTF8String");
        }
        Script::new(send(Receiver::Object(*self), Name::new("UTF8String")), Expect::Object)
    }
}

impl Application {
    /// The application object of this process, made on first use.
    pub fn shared() -> (script: Script)
        ensures
            script@ == shared_application(),
    {
        proof {
            reveal_strlit("NSApplication");
            reveal_strlit("sharedApplication");
        }
        Script::new(
            send(Receiver::Class(Name::new("NSApplication")), Name::new("sharedApplication")),
            Expect::Object,
        )
    }

    /// Asks the application to take `policy`. The outcome says whether the
    /// runtime accepted.
    pub fn set_activation_policy(&self, policy: ApplicationActivationPolicy) -> (script: Script)
        ensures
            script@ == activation_policy(self@, policy),
    {
        proof {
            reveal_strlit("setActivationPolicy:");
        }
        let mut args = Vec::new();
        args.push(Arg::UInt(policy.value()));
        let message = Message {
            receiver: Receiver::Object(*self),
            selector: Name::new("setActivationPolicy:"),
            args,
        };
        assert(message@.args =~= activation_policy(self@, policy).messages[0].args);
        Script::new(message, Expect::Accepted)
    }

    /// Tells the application that its configuration is complete. Nothing comes
    /// back.
    pub fn finish_launching(&self) -> (script: Script)
        ensures
            script@ == launching_finished(self@),
    {
        proof {
            reveal_strlit("finishLaunching");
        }
        Script::new(
            send(Receiver::Object(*self), Name::new("finishLaunching")),
            Expect::Nothing,
        )
    }
}

impl Bundle {
    /// The bundle that the running executable lies in.
    pub fn main() -> (script: Script)
        ensures
            script@ == main_bundle(),
    {
        proof {
            reveal_strlit("NSBundle");
            reveal_strlit("mainBundle");
        }
        Script::new(
            send(Receiver::Class(Name::new("NSBundle")), Name::new("mainBundle")),
            Expect::Object,
        )
    }

    /// The value that the bundle's information dictionary holds for `key`, or
    /// none where it holds none. The key goes as a new string object.
    pub fn object(&self, key: &str) -> (script: Script)
        ensures
            script@ == info_value(self@, key@),
    {
        proof {
            reveal_strlit("objectForInfoDictionaryKey:");
        }
        let mut args = Vec::new();
        args.push(Arg::Previous);
        let lookup = Message {
            receiver: Receiver::Object(*self),
            selector: Name::new("objectForInfoDictionaryKey:"),
            args,
        };
        assert(lookup@.args =~= seq![ArgView::Previous]);
        String::new(key).followed_by(lookup, Expect::Optional)
    }
}

impl ProcessInfo {
    /// The process information object of this process.
    pub fn process_info() -> (script: Script)
        ensures
            script@ == process_info(),
    {
        proof {
            reveal_strlit("NSProcessInfo");
            reveal_strlit("processInfo");
        }
        Script::new(
            send(Receiver::Class(Name::new("NSProcessInfo")), Name::new("processInfo")),
            Expect::Object,
        )
    }

    /// The name of this process, as a string object. A process always has one.
    pub fn process_name(&self) -> (script: Script)
        ensures
            script@ == process_name(self@),
    {
        proof {
            reveal_strlit("processName");
        }
        Script::new(send(Receiver::Object(*self), Name::new("processName")), Expect::Object)
    }
}

} // verus!
