use objc_facade::message::{Arg, Expect, Receiver, Script};
use objc_facade::ns::{
    Application, ApplicationActivationPolicy, Bundle, ProcessInfo, UTF8_ENCODING,
};
use objc_facade::objc::Id;

fn object(addr: usize) -> Id {
    Id::from_addr(addr).unwrap()
}

fn class_of(script: &Script, index: usize) -> &'static str {
    match script.message(index).receiver {
        Receiver::Class(name) => name.as_str(),
        other => panic!("message {} goes to {:?}", index, other),
    }
}

fn selector_of(script: &Script, index: usize) -> &'static str {
    script.message(index).selector.as_str()
}

fn check_new_string(script: &Script, text: &str) {
    assert_eq!(class_of(script, 0), "NSString");
    assert_eq!(selector_of(script, 0), "alloc");
    assert!(script.message(0).args.is_empty());
    assert_eq!(script.message(1).receiver, Receiver::Previous);
    assert_eq!(selector_of(script, 1), "initWithBytes:length:encoding:");
    assert_eq!(
        script.message(1).args,
        vec![Arg::Bytes(text.as_bytes().to_vec()), Arg::Length(text.len()), Arg::Int(4)]
    );
}

#[test]
fn utf8_encoding_is_four() {
    assert_eq!(UTF8_ENCODING, 4);
}

#[test]
fn regular_policy_is_zero() {
    assert_eq!(ApplicationActivationPolicy::Regular.value(), 0);
}

#[test]
fn new_string_allocates_then_initialises() {
    let script = objc_facade::ns::String::new("CFBundleName");
    assert_eq!(script.len(), 2);
    check_new_string(&script, "CFBundleName");
    assert_eq!(script.expect(), Expect::Object);
}

#[test]
fn new_string_counts_bytes_not_characters() {
    let script = objc_facade::ns::String::new("Caf\u{e9}");
    assert_eq!(
        script.message(1).args,
        vec![Arg::Bytes(vec![0x43, 0x61, 0x66, 0xc3, 0xa9]), Arg::Length(5), Arg::Int(4)]
    );
}

#[test]
fn new_string_of_nothing_sends_no_bytes() {
    let script = objc_facade::ns::String::new("");
    assert_eq!(
        script.message(1).args,
        vec![Arg::Bytes(Vec::new()), Arg::Length(0), Arg::Int(4)]
    );
}

#[test]
fn new_string_sends_bytes_without_terminator() {
    let script = objc_facade::ns::String::new("a\0b");
    assert_eq!(
        script.message(1).args,
        vec![Arg::Bytes(vec![0x61, 0x00, 0x62]), Arg::Length(3), Arg::Int(4)]
    );
}

#[test]
fn utf8_string_asks_the_string() {
    let script = object(0x9000).utf8_string();
    assert_eq!(script.len(), 1);
    assert_eq!(script.message(0).receiver, Receiver::Object(object(0x9000)));
    assert_eq!(selector_of(&script, 0), "UTF8String");
    assert!(script.message(0).args.is_empty());
    assert_eq!(script.expect(), Expect::Object);
}

#[test]
fn shared_application_asks_the_class() {
    let script = Application::shared();
    assert_eq!(script.len(), 1);
    assert_eq!(class_of(&script, 0), "NSApplication");
    assert_eq!(selector_of(&script, 0), "sharedApplication");
    assert!(script.message(0).args.is_empty());
    assert_eq!(script.expect(), Expect::Object);
}

#[test]
fn activation_policy_goes_as_unsigned_number() {
    let app = object(0x7000);
    let script = app.set_activation_policy(ApplicationActivationPolicy::Regular);
    assert_eq!(script.len(), 1);
    assert_eq!(script.message(0).receiver, Receiver::Object(app));
    assert_eq!(selector_of(&script, 0), "setActivationPolicy:");
    assert_eq!(script.message(0).args, vec![Arg::UInt(0)]);
    assert_eq!(script.expect(), Expect::Accepted);
}

#[test]
fn activation_policy_twice_is_the_same_request() {
    let app = object(0x7000);
    assert_eq!(
        app.set_activation_policy(ApplicationActivationPolicy::Regular),
        app.set_activation_policy(ApplicationActivationPolicy::Regular)
    );
}

#[test]
fn finish_launching_expects_nothing() {
    let app = object(0x7000);
    let script = app.finish_launching();
    assert_eq!(script.len(), 1);
    assert_eq!(script.message(0).receiver, Receiver::Object(app));
    assert_eq!(selector_of(&script, 0), "finishLaunching");
    assert!(script.message(0).args.is_empty());
    assert_eq!(script.expect(), Expect::Nothing);
}

#[test]
fn main_bundle_asks_the_class() {
    let script = Bundle::main();
    assert_eq!(script.len(), 1);
    assert_eq!(class_of(&script, 0), "NSBundle");
    assert_eq!(selector_of(&script, 0), "mainBundle");
    assert!(script.message(0).args.is_empty());
    assert_eq!(script.expect(), Expect::Object);
}

#[test]
fn bundle_lookup_makes_the_key_a_string_first() {
    let bundle = object(0x8000);
    let script = bundle.object("CFBundleDisplayName");
    assert_eq!(script.len(), 3);
    check_new_string(&script, "CFBundleDisplayName");
    assert_eq!(script.message(2).receiver, Receiver::Object(bundle));
    assert_eq!(selector_of(&script, 2), "objectForInfoDictionaryKey:");
    assert_eq!(script.message(2).args, vec![Arg::Previous]);
    assert_eq!(script.expect(), Expect::Optional);
}

#[test]
fn process_info_asks_the_class() {
    let script = ProcessInfo::process_info();
    assert_eq!(script.len(), 1);
    assert_eq!(class_of(&script, 0), "NSProcessInfo");
    assert_eq!(selector_of(&script, 0), "processInfo");
    assert!(script.message(0).args.is_empty());
    assert_eq!(script.expect(), Expect::Object);
}

#[test]
fn process_name_asks_the_process_info() {
    let info = object(0x6000);
    let script = info.process_name();
    assert_eq!(script.len(), 1);
    assert_eq!(script.message(0).receiver, Receiver::Object(info));
    assert_eq!(selector_of(&script, 0), "processName");
    assert!(script.message(0).args.is_empty());
    assert_eq!(script.expect(), Expect::Object);
}

#[test]
fn copy_of_an_argument_is_equal_to_it() {
    for arg in [
        Arg::Bytes(vec![1, 0, 2]),
        Arg::Length(3),
        Arg::Int(-4),
        Arg::UInt(5),
        Arg::Object(object(0x10)),
        Arg::Previous,
    ] {
        assert_eq!(arg.copy(), arg);
    }
}

#[test]
fn first_message_never_speaks_of_a_previous_one() {
    let id = object(0x10);
    for script in [
        objc_facade::ns::String::new("x"),
        id.utf8_string(),
        Application::shared(),
        id.set_activation_policy(ApplicationActivationPolicy::Regular),
        id.finish_launching(),
        Bundle::main(),
        id.object("x"),
        ProcessInfo::process_info(),
        id.process_name(),
    ] {
        assert_ne!(script.message(0).receiver, Receiver::Previous);
        assert!(!script.message(0).args.contains(&Arg::Previous));
    }
}
