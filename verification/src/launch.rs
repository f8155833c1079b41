//! The launcher's course from start to finish, one task at a time.
//!
//! The application is made a regular one; its name is looked up, in the bundle
//! first and with the process last, and printed; then the application is told
//! that launching is finished. The caller does each task and reports back.

use vstd::prelude::*;
use crate::app_name::{Key, Search};
use crate::message::{Script, ScriptView};
use crate::ns::{
    activation_policy, info_value, launching_finished, main_bundle, process_info, process_name,
    shared_application, utf8_of, Application, ApplicationActivationPolicy, Bundle, ProcessInfo,
};
use crate::objc::Id;
use crate::run::{Outcome, OutcomeView};
use crate::text::{native, text_of};

verus! {

/// What the caller is to do next.
#[derive(Debug, PartialEq, Eq)]
pub enum Task {
    /// Run this script, and report what it came to.
    Run(Script),
    /// Take the C string at this address, and report its bytes.
    Read(Id),
    /// Write this name to standard output, quoted as `Debug` quotes a string,
    /// on a line of its own, and report that it is written.
    Print(String),
}

/// A task, by the views of its parts.
pub enum TaskView {
    Run(ScriptView),
    Read(usize),
    Print(Seq<char>),
}

impl View for Task {
    type V = TaskView;

    open spec fn view(&self) -> TaskView {
        match *self {
            Task::Run(script) => TaskView::Run(script@),
            Task::Read(at) => TaskView::Read(at@),
            Task::Print(name) => TaskView::Print(name@),
        }
    }
}

/// What the caller reports of the task it did.
#[derive(Debug, PartialEq, Eq)]
pub enum Report {
    /// What the script came to.
    Outcome(Outcome),
    /// The bytes read, with or without the terminating zero.
    Bytes(Vec<u8>),
    /// The name is written.
    Printed,
}

/// A report, by the views of its parts.
pub enum ReportView {
    Outcome(OutcomeView),
    Bytes(Seq<u8>),
    Printed,
}

impl View for Report {
    type V = ReportView;

    open spec fn view(&self) -> ReportView {
        match *self {
            Report::Outcome(outcome) => ReportView::Outcome(outcome@),
            Report::Bytes(bytes) => ReportView::Bytes(bytes@),
            Report::Printed => ReportView::Printed,
        }
    }
}

/// Why a launch cannot go on.
#[derive(Clone, Copy, Debug, PartialEq, Eq, Structural)]
pub enum Failure {
    /// The name is not valid UTF-8.
    NotText,
    /// The report is not one of the task that was given.
    Unexpected,
}

#[derive(Clone, Copy, Debug, PartialEq, Eq)]
enum Stage {
    App,
    Policy { app: Id },
    Bundle { app: Id },
    Key { app: Id, bundle: Id, key: Key },
    Info { app: Id },
    ProcessName { app: Id },
    Text { app: Id },
    Bytes { app: Id },
    Print { app: Id },
    Finish,
}

/// A launch under way: the caller owes it the report of one task.
#[derive(Debug)]
pub struct Launch {
    stage: Stage,
}

/// A launch as a value: the task that is outstanding, and the objects that
/// later tasks need.
pub enum LaunchView {
    /// The application object is asked for.
    App,
    /// The application is asked to become a regular one.
    Policy { app: usize },
    /// The main bundle is asked for.
    Bundle { app: usize },
    /// The bundle is asked for the name under `key`.
    Key { app: usize, bundle: usize, key: Key },
    /// The process information object is asked for.
    Info { app: usize },
    /// The name of the process is asked for.
    ProcessName { app: usize },
    /// The name, a string object, is asked for its text.
    Text { app: usize },
    /// The text is being read.
    Bytes { app: usize },
    /// The name is being printed.
    Print { app: usize },
    /// The application is told that launching is finished.
    Finish,
}

impl View for Launch {
    type V = LaunchView;

    closed spec fn view(&self) -> LaunchView {
        match self.stage {
            Stage::App => LaunchView::App,
            Stage::Policy { app } => LaunchView::Policy { app: app@ },
            Stage::Bundle { app } => LaunchView::Bundle { app: app@ },
            Stage::Key { app, bundle, key } => LaunchView::Key { app: app@, bundle: bundle@, key },
            Stage::Info { app } => LaunchView::Info { app: app@ },
            Stage::ProcessName { app } => LaunchView::ProcessName { app: app@ },
            Stage::Text { app } => LaunchView::Text { app: app@ },
            Stage::Bytes { app } => LaunchView::Bytes { app: app@ },
            Stage::Print { app } => LaunchView::Print { app: app@ },
            Stage::Finish => LaunchView::Finish,
        }
    }
}

/// The next thing to happen in a launch.
#[derive(Debug)]
pub enum Turn {
    /// The task to do now; the launch proceeds with the report of it.
    Task(Launch, Task),
    /// The launch is complete.
    Done,
    /// The launch cannot be completed.
    Failed(Failure),
}

/// A turn, by the views of its parts.
pub enum TurnView {
    Task(LaunchView, TaskView),
    Done,
    Failed(Failure),
}

impl View for Turn {
    type V = TurnView;

    open spec fn view(&self) -> TurnView {
        match *self {
            Turn::Task(launch, task) => TurnView::Task(launch@, task@),
            Turn::Done => TurnView::Done,
            Turn::Failed(failure) => TurnView::Failed(failure),
        }
    }
}

/// The first turn of a launch: the application object is asked for.
pub open spec fn started() -> TurnView {
    TurnView::Task(LaunchView::App, TaskView::Run(shared_application()))
}

impl LaunchView {
    /// The turn after the outstanding task was reported as `report`.
    pub open spec fn proceeded(self, report: ReportView) -> TurnView {
        match (self, report) {
            (LaunchView::App, ReportView::Outcome(OutcomeView::Object(app))) => TurnView::Task(
                LaunchView::Policy { app },
                TaskView::Run(activation_policy(app, ApplicationActivationPolicy::Regular)),
            ),
            (LaunchView::Policy { app }, ReportView::Outcome(OutcomeView::Accepted(_))) => {
                TurnView::Task(LaunchView::Bundle { app }, TaskView::Run(main_bundle()))
            },
            (LaunchView::Bundle { app }, ReportView::Outcome(OutcomeView::Object(bundle))) => {
                TurnView::Task(
                    LaunchView::Key { app, bundle, key: Key::DisplayName },
                    TaskView::Run(info_value(bundle, Key::DisplayName.text())),
                )
            },
            (
                LaunchView::Key { app, bundle, key },
                ReportView::Outcome(OutcomeView::Optional(reply)),
            ) => match key.answer(reply) {
                Search::Found(name) => TurnView::Task(
                    LaunchView::Text { app },
                    TaskView::Run(utf8_of(name)),
                ),
                Search::Bundle(next) => TurnView::Task(
                    LaunchView::Key { app, bundle, key: next },
                    TaskView::Run(info_value(bundle, next.text())),
                ),
                Search::Process => TurnView::Task(
                    LaunchView::Info { app },
                    TaskView::Run(process_info()),
                ),
            },
            (LaunchView::Info { app }, ReportView::Outcome(OutcomeView::Object(info))) => {
                TurnView::Task(LaunchView::ProcessName { app }, TaskView::Run(process_name(info)))
            },
            (LaunchView::ProcessName { app }, ReportView::Outcome(OutcomeView::Object(name))) => {
                TurnView::Task(LaunchView::Text { app }, TaskView::Run(utf8_of(name)))
            },
            (LaunchView::Text { app }, ReportView::Outcome(OutcomeView::Object(at))) => {
                TurnView::Task(LaunchView::Bytes { app }, TaskView::Read(at))
            },
            (LaunchView::Bytes { app }, ReportView::Bytes(bytes)) => match text_of(bytes) {
                Some(name) => TurnView::Task(LaunchView::Print { app }, TaskView::Print(name)),
                None => TurnView::Failed(Failure::NotText),
            },
            (LaunchView::Print { app }, ReportView::Printed) => TurnView::Task(
                LaunchView::Finish,
                TaskView::Run(launching_finished(app)),
            ),
            (LaunchView::Finish, ReportView::Outcome(OutcomeView::Nothing)) => TurnView::Done,
            _ => TurnView::Failed(Failure::Unexpected),
        }
    }

    /// How many tasks the launch can still give, at most.
    pub open spec fn tasks_left(self) -> int {
        match self {
            LaunchView::App => 10,
            LaunchView::Policy { .. } => 9,
            LaunchView::Bundle { .. } => 8,
            LaunchView::Key { key: Key::DisplayName, .. } => 7,
            LaunchView::Key { key: Key::Name, .. } => 6,
            LaunchView::Info { .. } => 5,
            LaunchView::ProcessName { .. } => 4,
            LaunchView::Text { .. } => 3,
            LaunchView::Bytes { .. } => 2,
            LaunchView::Print { .. } => 1,
            LaunchView::Finish => 0,
        }
    }
}

/// Every launch ends: each turn leaves fewer tasks to give.
pub proof fn lemma_proceeded_advances(launch: LaunchView, report: ReportView)
    ensures
        launch.tasks_left() >= 0,
        launch.proceeded(report) matches TurnView::Task(next, _) ==> next.tasks_left()
            < launch.tasks_left(),
{
}

/// The application is told that launching is finished once, as the last task
/// of all and only when the name is printed: no other turn leads to that task,
/// and a launch is done only on the report of it.
pub proof fn lemma_finish_comes_last(launch: LaunchView, report: ReportView)
    ensures
        launch.proceeded(report) matches TurnView::Task(LaunchView::Finish, task) ==> ({
            &&& report is Printed
            &&& launch matches LaunchView::Print { app }
            &&& task == TaskView::Run(launching_finished(app))
        }),
        launch is Print && report is Printed ==> (launch.proceeded(report) matches TurnView::Task(
            LaunchView::Finish,
            _,
        )),
        launch.proceeded(report) is Done ==> launch is Finish,
{
}

/// The application is asked to become a regular one once, as the first thing
/// done with the application object: no other turn leads to that task.
pub proof fn lemma_policy_comes_first(launch: LaunchView, report: ReportView)
    ensures
        launch.proceeded(report) matches TurnView::Task(LaunchView::Policy { app }, task) ==> ({
            &&& launch is App
            &&& report == ReportView::Outcome(OutcomeView::Object(app))
            &&& task == TaskView::Run(activation_policy(app, ApplicationActivationPolicy::Regular))
        }),
        launch is App && (report matches ReportView::Outcome(OutcomeView::Object(_))) ==> (
        launch.proceeded(report) matches TurnView::Task(LaunchView::Policy { .. }, _)),
{
}

/// The name that is printed is the first that a source gave: a key's answer
/// is asked for its text at once, and the process is asked only when the
/// bundle has no name under either key.
pub proof fn lemma_first_answer_is_printed(launch: LaunchView, reply: Option<usize>)
    requires
        launch is Key,
    ensures
        reply matches Some(name) ==> launch.proceeded(
            ReportView::Outcome(OutcomeView::Optional(reply)),
        ) == TurnView::Task(
            LaunchView::Text { app: launch->Key_app },
            TaskView::Run(utf8_of(name)),
        ),
        reply is None && launch->key == Key::DisplayName ==> (launch.proceeded(
            ReportView::Outcome(OutcomeView::Optional(reply)),
        ) matches TurnView::Task(LaunchView::Key { key: Key::Name, .. }, _)),
        (launch.proceeded(ReportView::Outcome(OutcomeView::Optional(reply))) matches TurnView::Task(
            LaunchView::Info { .. },
            _,
        )) <==> reply is None && launch->key == Key::Name,
{
}

impl Launch {
    /// Starts a launch: the turn is its first task.
    pub fn start() -> (turn: Turn)
        ensures
            turn@ == started(),
    {
        Turn::Task(Launch { stage: Stage::App }, Task::Run(Application::shared()))
    }

    fn lookup(app: Id, bundle: Id, key: Key) -> (turn: Turn)
        ensures
            turn@ == TurnView::Task(
                LaunchView::Key { app: app@, bundle: bundle@, key },
                TaskView::Run(info_value(bundle@, key.text())),
            ),
    {
        Turn::Task(
            Launch { stage: Stage::Key { app, bundle, key } },
            Task::Run(bundle.object(key.as_str())),
        )
    }

    fn text(app: Id, name: Id) -> (turn: Turn)
        ensures
            turn@ == TurnView::Task(LaunchView::Text { app: app@ }, TaskView::Run(utf8_of(name@))),
    {
        Turn::Task(Launch { stage: Stage::Text { app } }, Task::Run(name.utf8_string()))
    }

    /// Proceeds with `report`, the caller's report of the outstanding task.
    pub fn proceed(self, report: Report) -> (turn: Turn)
        ensures
            turn@ == self@.proceeded(report@),
    {
        match (self.stage, report) {
            (Stage::App, Report::Outcome(Outcome::Object(app))) => Turn::Task(
                Launch { stage: Stage::Policy { app } },
                Task::Run(app.set_activation_policy(ApplicationActivationPolicy::Regular)),
            ),
            (Stage::Policy { app }, Report::Outcome(Outcome::Accepted(_))) => Turn::Task(
                Launch { stage: Stage::Bundle { app } },
                Task::Run(Bundle::main()),
            ),
            (Stage::Bundle { app }, Report::Outcome(Outcome::Object(bundle))) => Launch::lookup(
                app,
                bundle,
                Key::first(),
            ),
            (Stage::Key { app, bundle, key }, Report::Outcome(Outcome::Optional(reply))) => {
                match key.answered(reply) {
                    Search::Found(name) => Launch::text(app, name),
                    Search::Bundle(next) => Launch::lookup(app, bundle, next),
                    Search::Process => Turn::Task(
                        Launch { stage: Stage::Info { app } },
                        Task::Run(ProcessInfo::process_info()),
                    ),
                }
            },
            (Stage::Info { app }, Report::Outcome(Outcome::Object(info))) => Turn::Task(
                Launch { stage: Stage::ProcessName { app } },
                Task::Run(info.process_name()),
            ),
            (Stage::ProcessName { app }, Report::Outcome(Outcome::Object(name))) => Launch::text(
                app,
                name,
            ),
            (Stage::Text { app }, Report::Outcome(Outcome::Object(at))) => Turn::Task(
                Launch { stage: Stage::Bytes { app } },
                Task::Read(at),
            ),
            (Stage::Bytes { app }, Report::Bytes(bytes)) => match native(bytes.as_slice()) {
                Some(name) => Turn::Task(Launch { stage: Stage::Print { app } }, Task::Print(name)),
                None => Turn::Failed(Failure::NotText),
            },
            (Stage::Print { app }, Report::Printed) => Turn::Task(
                Launch { stage: Stage::Finish },
                Task::Run(app.finish_launching()),
            ),
            (Stage::Finish, Report::Outcome(Outcome::Nothing)) => Turn::Done,
            _ => Turn::Failed(Failure::Unexpected),
        }
    }
}

} // verus!
