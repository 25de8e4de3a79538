//! Bringing up the local MeNote service: the decisions of the background
//! start-up work, as a state machine that the application drives.
//!
//! The work reuses a service that already answers on the port; otherwise it
//! prepares the runtime and the data links, writes the install lock when
//! needed, starts `node` and probes the port until the service answers, the
//! child exits, or the readiness window closes.
use vstd::prelude::*;
use crate::pages::UiMessage;
use crate::text::{decimal, signed_decimal, push_decimal, push_signed_decimal, push_text};

verus! {

/// The port the service listens on.
pub const PORT: u16 = 3107;

/// How long the launcher waits for the service to answer, in milliseconds.
pub const PROBE_TIMEOUT_MS: u64 = 180000;

/// Time limit of one probe, in milliseconds.
pub const PROBE_ONCE_MS: u64 = 800;

/// Pause between two probes, in milliseconds.
pub const PROBE_INTERVAL_MS: u64 = 350;

/// Pause before switching to an already running service, in milliseconds.
pub const REUSE_PAUSE_MS: u64 = 400;

/// Status text shown when a service already answers.
pub open spec fn running_text() -> Seq<char> {
    "检测到 MeNote 服务已在运行，正在连接…"@
}

/// Status text shown before the service is started.
pub open spec fn starting_text() -> Seq<char> {
    "正在启动服务…"@
}

/// Error when the readiness window closes.
pub open spec fn timeout_text() -> Seq<char> {
    "服务未能在限定时间内就绪（可能端口被占用或运行环境异常）"@
}

/// Error when the service process exits before answering; `code` is its exit
/// code (`-1` when it has none).
pub open spec fn exit_text(code: int) -> Seq<char> {
    "服务进程启动即退出（详见 server.log 尾部），退出码：Some("@ + signed_decimal(code) + ")"@
}

/// The address the window opens: the admin console when the database
/// exists, the install wizard otherwise.
pub open spec fn service_url_text(installed: bool) -> Seq<char> {
    "http://localhost:"@ + decimal(PORT as nat) + if installed {
        "/admin"@
    } else {
        "/install"@
    }
}

/// The address of the service for the window to open.
pub fn service_url(installed: bool) -> (r: String)
    ensures
        r@ == service_url_text(installed),
{
    let mut url = String::new();
    push_text(&mut url, "http://localhost:");
    push_decimal(&mut url, PORT as u64);
    if installed {
        push_text(&mut url, "/admin");
    } else {
        push_text(&mut url, "/install");
    }
    url
}

/// The socket address that probes connect to.
pub fn probe_address() -> (r: String)
    ensures
        r@ == "127.0.0.1:"@ + decimal(PORT as nat),
{
    let mut addr = String::new();
    push_text(&mut addr, "127.0.0.1:");
    push_decimal(&mut addr, PORT as u64);
    addr
}

/// The bytes that start an HTTP reply.
pub open spec fn http_prefix() -> Seq<u8> {
    seq![72u8, 84u8, 84u8, 80u8]
}

/// Whether the first `n` bytes read back from a probe start an HTTP reply
/// (at least four bytes, the first four being `HTTP`).
pub fn is_http_reply(buf: &[u8], n: usize) -> (r: bool)
    requires
        buf@.len() >= 4,
    ensures
        r == (n >= 4 && buf@.take(4) == http_prefix()),
{
    let ok = n >= 4 && buf[0] == 72 && buf[1] == 84 && buf[2] == 84 && buf[3] == 80;
    proof {
        if n >= 4 {
            if ok {
                assert(buf@.take(4) =~= http_prefix());
            } else if buf@.take(4) == http_prefix() {
                assert(buf@.take(4)[0] == buf@[0]);
                assert(buf@.take(4)[1] == buf@[1]);
                assert(buf@.take(4)[2] == buf@[2]);
                assert(buf@.take(4)[3] == buf@[3]);
            }
        }
    }
    ok
}

/// Whether the started service process is still running.
pub enum ChildState {
    /// Still running (or its state could not be read).
    Running,
    /// Exited, with its exit code when it has one.
    Exited(Option<i32>),
}

/// What the application reports back after carrying out a command.
pub enum Event {
    /// Result of a probe: did the service answer?
    Probed(bool),
    /// Result of a preparation or launch step.
    StepResult(Result<(), String>),
    /// Whether the database exists.
    DatabaseFound(bool),
    /// Whether the readiness window is still open.
    WithinDeadline(bool),
    /// State of the service process.
    Child(ChildState),
}

/// What the application does next.
pub enum Command {
    /// Probe the port once.
    Probe,
    /// Make sure the runtime matches the package (rebuild it if not).
    PrepareRuntime,
    /// Link the runtime's data directories to the user data directory.
    PrepareJunctions,
    /// Check whether the database exists.
    CheckDatabase,
    /// Write the install lock when the argument holds and the lock is missing.
    EnsureLock(bool),
    /// Start the service process and keep its handle.
    Launch,
    /// Check whether the readiness window is still open.
    CheckDeadline,
    /// Check whether the service process has exited.
    CheckChild,
    /// Stop: success, or failure with its message.
    Finish(Result<(), String>),
}

/// Something the application does before carrying out the command.
pub enum Output {
    /// Send a message to the window.
    Send(UiMessage),
    /// Pause for this many milliseconds.
    Pause(u64),
}

/// One transition's effects: outputs in order, then a command.
pub struct Step {
    /// Done first, in order.
    pub outputs: Vec<Output>,
    /// Done next.
    pub command: Command,
}

/// Where the start-up work stands.
#[derive(PartialEq, Eq, Structural, Clone, Copy, Debug)]
pub enum Stage {
    /// Waiting for the first probe.
    Reuse,
    /// Waiting for the runtime step.
    Runtime,
    /// Waiting for the junction step.
    Junctions,
    /// Waiting for the database check.
    Database,
    /// Waiting for the lock step.
    Lock,
    /// Waiting for the launch.
    Launch,
    /// Waiting for the deadline check.
    Deadline,
    /// Waiting for a readiness probe.
    Probing,
    /// Waiting for the child check.
    Child,
    /// Finished.
    Done,
}

/// The start-up state machine.
#[derive(PartialEq, Eq, Structural, Clone, Copy, Debug)]
pub struct Worker {
    /// Where the work stands.
    pub stage: Stage,
    /// Whether the database existed when the launcher started.
    pub already_installed: bool,
    /// Whether the database existed after the data links were made.
    pub installed_now: bool,
}

/// A message as plain text.
pub enum MessageView {
    Status(Seq<char>),
    Ready(Seq<char>),
    Fatal(Seq<char>),
}

/// An output as plain values.
pub enum OutputView {
    Send(MessageView),
    Pause(nat),
}

/// A command as plain values.
pub enum CommandView {
    Probe,
    PrepareRuntime,
    PrepareJunctions,
    CheckDatabase,
    EnsureLock(bool),
    Launch,
    CheckDeadline,
    CheckChild,
    Finish(Result<(), Seq<char>>),
}

/// An event as plain values.
pub enum EventView {
    Probed(bool),
    StepResult(Result<(), Seq<char>>),
    DatabaseFound(bool),
    WithinDeadline(bool),
    ChildRunning,
    ChildExited(int),
}

impl View for UiMessage {
    type V = MessageView;

    open spec fn view(&self) -> MessageView {
        match self {
            UiMessage::Status(t) => MessageView::Status(t@),
            UiMessage::Ready(u) => MessageView::Ready(u@),
            UiMessage::Fatal(t) => MessageView::Fatal(t@),
        }
    }
}

impl View for Output {
    type V = OutputView;

    open spec fn view(&self) -> OutputView {
        match self {
            Output::Send(m) => OutputView::Send(m@),
            Output::Pause(ms) => OutputView::Pause(*ms as nat),
        }
    }
}

/// The plain value of a step result.
pub open spec fn result_view(r: Result<(), String>) -> Result<(), Seq<char>> {
    match r {
        Ok(()) => Ok(()),
        Err(m) => Err(m@),
    }
}

impl View for Command {
    type V = CommandView;

    open spec fn view(&self) -> CommandView {
        match self {
            Command::Probe => CommandView::Probe,
            Command::PrepareRuntime => CommandView::PrepareRuntime,
            Command::PrepareJunctions => CommandView::PrepareJunctions,
            Command::CheckDatabase => CommandView::CheckDatabase,
            Command::EnsureLock(b) => CommandView::EnsureLock(*b),
            Command::Launch => CommandView::Launch,
            Command::CheckDeadline => CommandView::CheckDeadline,
            Command::CheckChild => CommandView::CheckChild,
            Command::Finish(r) => CommandView::Finish(result_view(*r)),
        }
    }
}

impl View for Event {
    type V = EventView;

    open spec fn view(&self) -> EventView {
        match self {
            Event::Probed(b) => EventView::Probed(*b),
            Event::StepResult(r) => EventView::StepResult(result_view(*r)),
            Event::DatabaseFound(b) => EventView::DatabaseFound(*b),
            Event::WithinDeadline(b) => EventView::WithinDeadline(*b),
            Event::Child(ChildState::Running) => EventView::ChildRunning,
            Event::Child(ChildState::Exited(code)) => EventView::ChildExited(
                match code {
                    Some(c) => *c as int,
                    None => -1,
                },
            ),
        }
    }
}

/// The outputs of a step as plain values.
pub open spec fn outputs_view(outputs: Seq<Output>) -> Seq<OutputView> {
    outputs.map_values(|o: Output| o@)
}

/// Which event a stage waits for.
pub open spec fn accepts_event(stage: Stage, e: EventView) -> bool {
    match stage {
        Stage::Reuse | Stage::Probing => e is Probed,
        Stage::Runtime | Stage::Junctions | Stage::Lock | Stage::Launch => e is StepResult,
        Stage::Database => e is DatabaseFound,
        Stage::Deadline => e is WithinDeadline,
        Stage::Child => e is ChildRunning || e is ChildExited,
        Stage::Done => false,
    }
}

/// The transition: next state, outputs and command for an accepted event.
pub open spec fn transition(w: Worker, e: EventView) -> (Worker, Seq<OutputView>, CommandView) {
    let done = Worker { stage: Stage::Done, ..w };
    match (w.stage, e) {
        (Stage::Reuse, EventView::Probed(true)) => (
            done,
            seq![
                OutputView::Send(MessageView::Status(running_text())),
                OutputView::Pause(REUSE_PAUSE_MS as nat),
                OutputView::Send(MessageView::Ready(service_url_text(w.already_installed))),
            ],
            CommandView::Finish(Ok(())),
        ),
        (Stage::Reuse, EventView::Probed(false)) => (
            Worker { stage: Stage::Runtime, ..w },
            seq![],
            CommandView::PrepareRuntime,
        ),
        (Stage::Runtime, EventView::StepResult(Ok(()))) => (
            Worker { stage: Stage::Junctions, ..w },
            seq![],
            CommandView::PrepareJunctions,
        ),
        (Stage::Junctions, EventView::StepResult(Ok(()))) => (
            Worker { stage: Stage::Database, ..w },
            seq![],
            CommandView::CheckDatabase,
        ),
        (Stage::Runtime, EventView::StepResult(Err(m))) => (
            done,
            seq![],
            CommandView::Finish(Err(m)),
        ),
        (Stage::Junctions, EventView::StepResult(Err(m))) => (
            done,
            seq![],
            CommandView::Finish(Err(m)),
        ),
        (Stage::Database, EventView::DatabaseFound(found)) => (
            Worker { stage: Stage::Lock, installed_now: found, ..w },
            seq![],
            CommandView::EnsureLock(found),
        ),
        (Stage::Lock, EventView::StepResult(_)) => (
            Worker { stage: Stage::Launch, ..w },
            seq![OutputView::Send(MessageView::Status(starting_text()))],
            CommandView::Launch,
        ),
        (Stage::Launch, EventView::StepResult(Ok(()))) => (
            Worker { stage: Stage::Deadline, ..w },
            seq![],
            CommandView::CheckDeadline,
        ),
        (Stage::Launch, EventView::StepResult(Err(m))) => (
            done,
            seq![],
            CommandView::Finish(Err(m)),
        ),
        (Stage::Deadline, EventView::WithinDeadline(true)) => (
            Worker { stage: Stage::Probing, ..w },
            seq![],
            CommandView::Probe,
        ),
        (Stage::Deadline, EventView::WithinDeadline(false)) => (
            done,
            seq![],
            CommandView::Finish(Err(timeout_text())),
        ),
        (Stage::Probing, EventView::Probed(true)) => (
            done,
            seq![OutputView::Send(MessageView::Ready(service_url_text(w.installed_now)))],
            CommandView::Finish(Ok(())),
        ),
        (Stage::Probing, EventView::Probed(false)) => (
            Worker { stage: Stage::Child, ..w },
            seq![],
            CommandView::CheckChild,
        ),
        (Stage::Child, EventView::ChildExited(code)) => (
            done,
            seq![],
            CommandView::Finish(Err(exit_text(code))),
        ),
        (Stage::Child, EventView::ChildRunning) => (
            Worker { stage: Stage::Deadline, ..w },
            seq![OutputView::Pause(PROBE_INTERVAL_MS as nat)],
            CommandView::CheckDeadline,
        ),
        _ => (w, seq![], CommandView::Finish(Ok(()))),
    }
}

/// Whether `e` is a report that carrying out `cmd` can produce: a probe
/// answers or not; a preparation, lock or launch step succeeds or fails
/// with a message; the database is found or not; the readiness window is
/// open or closed; the child runs or has exited with any code.
pub open spec fn answers(cmd: CommandView, e: EventView) -> bool {
    match cmd {
        CommandView::Probe => e is Probed,
        CommandView::PrepareRuntime | CommandView::PrepareJunctions | CommandView::EnsureLock(_)
        | CommandView::Launch => e is StepResult,
        CommandView::CheckDatabase => e is DatabaseFound,
        CommandView::CheckDeadline => e is WithinDeadline,
        CommandView::CheckChild => e is ChildRunning || e is ChildExited,
        CommandView::Finish(_) => false,
    }
}

/// The work never refuses a report: every report that the command it has
/// just issued can produce is accepted in the stage it is then in. In
/// particular the child check accepts the child running and the child
/// having exited with any code.
pub proof fn lemma_every_report_accepted(w: Worker, e: EventView, report: EventView)
    requires
        accepts_event(w.stage, e),
        answers(transition(w, e).2, report),
    ensures
        accepts_event(transition(w, e).0.stage, report),
{
}

/// The first command, a probe, has every answer accepted too.
pub proof fn lemma_first_probe_accepted(answered: bool)
    ensures
        answers(CommandView::Probe, EventView::Probed(answered)),
        accepts_event(Stage::Reuse, EventView::Probed(answered)),
{
}

/// A child that exits while the service is being awaited ends the run with
/// an error, whatever its exit code, and a child still running leads back
/// to the readiness window.
pub proof fn lemma_child_exit_fails(w: Worker, code: int)
    requires
        w.stage == Stage::Child,
    ensures
        accepts_event(w.stage, EventView::ChildExited(code)),
        accepts_event(w.stage, EventView::ChildRunning),
        transition(w, EventView::ChildExited(code)).2 is Finish,
        transition(w, EventView::ChildExited(code)).2->Finish_0 is Err,
        transition(w, EventView::ChildExited(code)).0.stage == Stage::Done,
        transition(w, EventView::ChildRunning).2 == CommandView::CheckDeadline,
{
}

/// When no service answers the first probe, the runtime is prepared next,
/// whether or not MeNote was installed before: an installed user who starts
/// a new package still gets the runtime checked and rebuilt.
pub proof fn lemma_no_service_prepares_runtime(w: Worker)
    requires
        w.stage == Stage::Reuse,
    ensures
        transition(w, EventView::Probed(false)).2 == CommandView::PrepareRuntime,
        transition(w, EventView::Probed(false)).0.stage == Stage::Runtime,
        transition(w, EventView::Probed(false)).1.len() == 0,
{
}

/// Every launch is preceded by preparing the runtime: from the first probe,
/// a run that reaches the launch went through the runtime, junction,
/// database and lock steps, in that order, each one succeeding where it
/// can fail.
pub proof fn lemma_launch_after_runtime(w: Worker, found: bool, lock: Result<(), Seq<char>>)
    requires
        w.stage == Stage::Reuse,
    ensures
        ({
            let (a, _, c1) = transition(w, EventView::Probed(false));
            let (b, _, c2) = transition(a, EventView::StepResult(Ok(())));
            let (c, _, c3) = transition(b, EventView::StepResult(Ok(())));
            let (d, _, c4) = transition(c, EventView::DatabaseFound(found));
            let (_e, _, c5) = transition(d, EventView::StepResult(lock));
            &&& c1 == CommandView::PrepareRuntime
            &&& c2 == CommandView::PrepareJunctions
            &&& c3 == CommandView::CheckDatabase
            &&& c4 == CommandView::EnsureLock(found)
            &&& c5 == CommandView::Launch
        }),
{
}

/// Whether the output is the message that sends the service address.
pub open spec fn is_ready(o: OutputView) -> bool {
    o matches OutputView::Send(MessageView::Ready(_))
}

/// Finishing and reaching the final stage go together, and the final stage
/// waits for nothing: a run issues exactly one `Finish`, as its last command.
pub proof fn lemma_finish_is_final(w: Worker, e: EventView, e2: EventView)
    requires
        accepts_event(w.stage, e),
    ensures
        ({
            let (next, _outs, cmd) = transition(w, e);
            (cmd is Finish) <==> next.stage == Stage::Done
        }),
        !accepts_event(Stage::Done, e2),
{
}

/// The run succeeds exactly when it sends the service address; that message
/// is the last output of the run, and it sends the admin console when the
/// database existed (at start-up for a service that already ran, after the
/// data links for a service this run started) and the install wizard
/// otherwise.
pub proof fn lemma_ready_ends_run(w: Worker, e: EventView)
    requires
        accepts_event(w.stage, e),
    ensures
        ({
            let (next, outs, cmd) = transition(w, e);
            &&& (cmd == CommandView::Finish(Ok(()))) <==> (exists|i: int|
                0 <= i < outs.len() && #[trigger] is_ready(outs[i]))
            &&& forall|i: int| 0 <= i < outs.len() && #[trigger] is_ready(outs[i]) ==> {
                &&& i == outs.len() - 1
                &&& next.stage == Stage::Done
                &&& outs[i] == OutputView::Send(
                    MessageView::Ready(
                        service_url_text(
                            if w.stage == Stage::Reuse {
                                w.already_installed
                            } else {
                                w.installed_now
                            },
                        ),
                    ),
                )
            }
        }),
{
    let (next, outs, cmd) = transition(w, e);
    if cmd == CommandView::Finish(Ok(())) {
        assert(is_ready(outs[outs.len() - 1]));
    }
}

/// The database check decides which page a service started by this run
/// opens with, and a service that already ran keeps the start-up answer.
pub proof fn lemma_database_decides_page(w: Worker, found: bool)
    requires
        w.stage == Stage::Database,
    ensures
        ({
            let (next, _outs, cmd) = transition(w, EventView::DatabaseFound(found));
            &&& next.installed_now == found
            &&& next.already_installed == w.already_installed
            &&& cmd == CommandView::EnsureLock(found)
        }),
{
}

/// A service that already answers is reused: the run ends at once, without
/// preparing the runtime or starting a process, and opens the page that
/// matches the database found at start-up.
pub proof fn lemma_running_service_reused(already_installed: bool)
    ensures
        ({
            let w = Worker {
                stage: Stage::Reuse,
                already_installed,
                installed_now: already_installed,
            };
            let (next, outs, cmd) = transition(w, EventView::Probed(true));
            &&& next.stage == Stage::Done
            &&& cmd == CommandView::Finish(Ok(()))
            &&& outs.last() == OutputView::Send(
                MessageView::Ready(service_url_text(already_installed)),
            )
        }),
{
}

/// Only the database check changes what the run knows about the install.
pub proof fn lemma_install_flags_stable(w: Worker, e: EventView)
    requires
        accepts_event(w.stage, e),
        w.stage != Stage::Database,
    ensures
        transition(w, e).0.installed_now == w.installed_now,
        transition(w, e).0.already_installed == w.already_installed,
{
}

/// A failed preparation or launch step ends the run with its own message.
pub proof fn lemma_failure_forwarded(w: Worker, m: Seq<char>)
    requires
        w.stage == Stage::Runtime || w.stage == Stage::Junctions || w.stage == Stage::Launch,
    ensures
        transition(w, EventView::StepResult(Err(m))).2 == CommandView::Finish(Err(m)),
        transition(w, EventView::StepResult(Err(m))).0.stage == Stage::Done,
{
}

/// While the service neither answers nor exits, the run keeps probing,
/// pausing between probes, until the readiness window closes.
pub proof fn lemma_probe_loop(w: Worker)
    requires
        w.stage == Stage::Deadline,
    ensures
        ({
            let (a, _, c1) = transition(w, EventView::WithinDeadline(true));
            let (b, _, c2) = transition(a, EventView::Probed(false));
            let (c, outs, c3) = transition(b, EventView::ChildRunning);
            &&& c1 == CommandView::Probe
            &&& c2 == CommandView::CheckChild
            &&& c3 == CommandView::CheckDeadline
            &&& c == w
            &&& outs == seq![OutputView::Pause(PROBE_INTERVAL_MS as nat)]
        }),
        transition(w, EventView::WithinDeadline(false)).2 == CommandView::Finish(Err(timeout_text())),
{
}

fn text(s: &str) -> (r: String)
    ensures
        r@ == s@,
{
    String::from_str(s)
}

impl Worker {
    /// Starts the work; `already_installed` tells whether the database existed
    /// when the launcher started. The first command is a probe.
    pub fn start(already_installed: bool) -> (r: (Worker, Command))
        ensures
            r.0 == (Worker {
                stage: Stage::Reuse,
                already_installed,
                installed_now: already_installed,
            }),
            r.1@ == CommandView::Probe,
    {
        (
            Worker { stage: Stage::Reuse, already_installed, installed_now: already_installed },
            Command::Probe,
        )
    }

    /// Whether the work waits for this event now.
    pub fn accepts(&self, e: &Event) -> (r: bool)
        ensures
            r == accepts_event(self.stage, e@),
    {
        match (self.stage, e) {
            (Stage::Reuse, Event::Probed(_)) => true,
            (Stage::Probing, Event::Probed(_)) => true,
            (Stage::Runtime, Event::StepResult(_)) => true,
            (Stage::Junctions, Event::StepResult(_)) => true,
            (Stage::Lock, Event::StepResult(_)) => true,
            (Stage::Launch, Event::StepResult(_)) => true,
            (Stage::Database, Event::DatabaseFound(_)) => true,
            (Stage::Deadline, Event::WithinDeadline(_)) => true,
            (Stage::Child, Event::Child(_)) => true,
            _ => false,
        }
    }

    /// Takes the result of the last command and decides what comes next.
    pub fn advance(&mut self, e: Event) -> (r: Step)
        requires
            accepts_event(old(self).stage, e@),
        ensures
            (*final(self), outputs_view(r.outputs@), r.command@) == transition(*old(self), e@),
    {
        let w = *self;
        let ghost ev = e@;
        let mut outputs: Vec<Output> = Vec::new();
        let command;
        match e {
            Event::Probed(answered) => {
                if self.stage == Stage::Reuse {
                    if answered {
                        self.stage = Stage::Done;
                        outputs.push(
                            Output::Send(UiMessage::Status(text("检测到 MeNote 服务已在运行，正在连接…"))),
                        );
                        outputs.push(Output::Pause(REUSE_PAUSE_MS));
                        outputs.push(Output::Send(UiMessage::Ready(service_url(w.already_installed))));
                        command = Command::Finish(Ok(()));
                    } else {
                        self.stage = Stage::Runtime;
                        command = Command::PrepareRuntime;
                    }
                } else {
                    if answered {
                        self.stage = Stage::Done;
                        outputs.push(Output::Send(UiMessage::Ready(service_url(w.installed_now))));
                        command = Command::Finish(Ok(()));
                    } else {
                        self.stage = Stage::Child;
                        command = Command::CheckChild;
                    }
                }
            },
            Event::StepResult(result) => {
                if self.stage == Stage::Lock {
                    self.stage = Stage::Launch;
                    outputs.push(Output::Send(UiMessage::Status(text("正在启动服务…"))));
                    command = Command::Launch;
                } else {
                    match result {
                        Ok(()) => {
                            if self.stage == Stage::Runtime {
                                self.stage = Stage::Junctions;
                                command = Command::PrepareJunctions;
                            } else if self.stage == Stage::Junctions {
                                self.stage = Stage::Database;
                                command = Command::CheckDatabase;
                            } else {
                                self.stage = Stage::Deadline;
                                command = Command::CheckDeadline;
                            }
                        },
                        Err(m) => {
                            self.stage = Stage::Done;
                            command = Command::Finish(Err(m));
                        },
                    }
                }
            },
            Event::DatabaseFound(found) => {
                self.stage = Stage::Lock;
                self.installed_now = found;
                command = Command::EnsureLock(found);
            },
            Event::WithinDeadline(open) => {
                if open {
                    self.stage = Stage::Probing;
                    command = Command::Probe;
                } else {
                    self.stage = Stage::Done;
                    command = Command::Finish(
                        Err(text("服务未能在限定时间内就绪（可能端口被占用或运行环境异常）")),
                    );
                }
            },
            Event::Child(ChildState::Running) => {
                self.stage = Stage::Deadline;
                outputs.push(Output::Pause(PROBE_INTERVAL_MS));
                command = Command::CheckDeadline;
            },
            Event::Child(ChildState::Exited(code)) => {
                self.stage = Stage::Done;
                let c: i32 = match code {
                    Some(c) => c,
                    None => -1,
                };
                command = Command::Finish(Err(exit_message(c)));
            },
        }
        let r = Step { outputs, command };
        assert(outputs_view(r.outputs@) =~= transition(w, ev).1);
        r
    }
}

/// The error reported when the service process exits with `code` before
/// it answers.
pub fn exit_message(code: i32) -> (r: String)
    ensures
        r@ == exit_text(code as int),
{
    let mut msg = String::new();
    push_text(&mut msg, "服务进程启动即退出（详见 server.log 尾部），退出码：Some(");
    push_signed_decimal(&mut msg, code as i64);
    push_text(&mut msg, ")");
    msg
}

} // verus!
