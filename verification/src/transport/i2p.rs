//! The I2P transport: the SAMv3 dialogue with a local I2P router.
//!
//! SAMv3 is a line-based text protocol spoken over TCP. Every operation of
//! the I2P transport is a short script of stages: open a connection to the
//! router's SAM bridge, or send a command and check the router's one-line
//! reply. [`SamMachine`] runs such a script: the caller performs each
//! [`SamAction`] it asks for (open a TCP connection, write, flush, read a
//! line) and reports back how it went as a [`SamEvent`]; the machine decides
//! what comes next and, in the end, the operation's outcome.
use vstd::prelude::*;

use crate::error::{Error, ErrorView};
use crate::text::{contains, has_substring, has_suffix};
use crate::transport::{check_address_suffix, failure_text, wrong_suffix_error, TransportCapability};

verus! {

/// The I2P transport's name.
pub fn name() -> (n: &'static str)
    ensures
        n@ == "i2p"@,
{
    "i2p"
}

/// I2P hides the client's IP address and resists deep packet inspection
/// through its garlic routing. It has no .onion addresses and no DNS.
pub fn capabilities() -> (c: Vec<TransportCapability>)
    ensures
        c@ == seq![TransportCapability::IpAnonymity, TransportCapability::DpiResistant],
{
    let mut c = Vec::new();
    c.push(TransportCapability::IpAnonymity);
    c.push(TransportCapability::DpiResistant);
    proof {
        assert(c@ =~= seq![TransportCapability::IpAnonymity, TransportCapability::DpiResistant]);
    }
    c
}

/// I2P is an overlay network: clearnet hosts cannot be reached through it.
pub fn connect_refusal() -> (e: Error)
    ensures
        e@ == ErrorView::Transport(
            "I2P is an overlay network and does not support clearnet connections \u{2014} use connect_onion() with .i2p addresses"@,
        ),
{
    Error::Transport(
        String::from_str(
            "I2P is an overlay network and does not support clearnet connections \u{2014} use connect_onion() with .i2p addresses",
        ),
    )
}

/// The text a SAM reply must hold to count as a success.
pub open spec fn reply_ok_marker() -> Seq<char> {
    "RESULT=OK"@
}

/// Whether a SAM reply reports success.
pub fn reply_is_ok(reply: &str) -> (b: bool)
    ensures
        b == has_substring(reply@, reply_ok_marker()),
{
    contains(reply, "RESULT=OK")
}

/// How a reply without success is reported: the variant, and the text put
/// before the reply itself.
#[derive(Debug)]
pub enum Rejection {
    Bootstrap(String),
    Connection(String),
}

/// Model of a [`Rejection`].
pub enum RejectionView {
    Bootstrap(Seq<char>),
    Connection(Seq<char>),
}

impl View for Rejection {
    type V = RejectionView;

    open spec fn view(&self) -> RejectionView {
        match self {
            Rejection::Bootstrap(p) => RejectionView::Bootstrap(p@),
            Rejection::Connection(p) => RejectionView::Connection(p@),
        }
    }
}

impl RejectionView {
    /// The error raised for the refused reply `reply`.
    pub open spec fn error_for(self, reply: Seq<char>) -> ErrorView {
        match self {
            RejectionView::Bootstrap(p) => ErrorView::Bootstrap(p + reply),
            RejectionView::Connection(p) => ErrorView::Connection(p + reply),
        }
    }
}

/// One command sent to the SAM bridge, with the contexts named by the errors
/// of its write, flush and read, and how a refused reply is reported.
#[derive(Debug)]
pub struct SamExchange {
    command: String,
    write_context: String,
    flush_context: String,
    read_context: String,
    rejection: Rejection,
}

/// Model of a [`SamExchange`].
pub struct ExchangeView {
    pub command: Seq<char>,
    pub write_context: Seq<char>,
    pub flush_context: Seq<char>,
    pub read_context: Seq<char>,
    pub rejection: RejectionView,
}

impl View for SamExchange {
    type V = ExchangeView;

    closed spec fn view(&self) -> ExchangeView {
        ExchangeView {
            command: self.command@,
            write_context: self.write_context@,
            flush_context: self.flush_context@,
            read_context: self.read_context@,
            rejection: self.rejection@,
        }
    }
}

/// A stage of a SAM script: open a new connection to the bridge (the
/// context names it in the error of a failed open), or run an exchange on
/// the connection opened last.
#[derive(Debug)]
pub enum SamStage {
    Open(String),
    Exchange(SamExchange),
}

/// Model of a [`SamStage`].
pub enum StageView {
    Open(Seq<char>),
    Exchange(ExchangeView),
}

impl View for SamStage {
    type V = StageView;

    open spec fn view(&self) -> StageView {
        match self {
            SamStage::Open(c) => StageView::Open(c@),
            SamStage::Exchange(x) => StageView::Exchange(x@),
        }
    }
}

/// Where a running script stands within its current stage.
#[derive(Debug, Clone, Copy, PartialEq, Eq, Structural)]
pub enum SamPhase {
    /// Waiting for a connection to open.
    Opening,
    /// Waiting for a command to be written.
    Writing,
    /// Waiting for the connection to be flushed.
    Flushing,
    /// Waiting for the reply line.
    Reading,
    /// The script is over.
    Finished,
}

/// What the caller is asked to do next.
#[derive(Debug)]
pub enum SamAction {
    /// Open a new TCP connection to the SAM bridge.
    Open,
    /// Write these bytes on the connection opened last.
    Send(String),
    /// Flush the connection opened last.
    Flush,
    /// Read one line from the connection opened last.
    ReadLine,
    /// Stop: the operation is over, with this outcome. On success the
    /// connection opened last is the one that carries the result.
    Finish(Result<(), Error>),
}

/// Model of an outcome.
pub open spec fn outcome_view(r: Result<(), Error>) -> Result<(), ErrorView> {
    match r {
        Ok(()) => Ok(()),
        Err(e) => Err(e@),
    }
}

/// Model of a [`SamAction`].
pub enum ActionView {
    Open,
    Send(Seq<char>),
    Flush,
    ReadLine,
    Finish(Result<(), ErrorView>),
}

impl View for SamAction {
    type V = ActionView;

    open spec fn view(&self) -> ActionView {
        match self {
            SamAction::Open => ActionView::Open,
            SamAction::Send(c) => ActionView::Send(c@),
            SamAction::Flush => ActionView::Flush,
            SamAction::ReadLine => ActionView::ReadLine,
            SamAction::Finish(r) => ActionView::Finish(outcome_view(*r)),
        }
    }
}

/// How the last action went, as reported by the caller.
#[derive(Debug)]
pub enum SamEvent {
    /// The action succeeded. For [`SamAction::ReadLine`] the text is the line
    /// that was read (with its line ending); otherwise it is not looked at.
    Completed(String),
    /// The action failed; the text describes the I/O error.
    Failed(String),
}

/// Model of a [`SamEvent`].
pub enum EventView {
    Completed(Seq<char>),
    Failed(Seq<char>),
}

impl View for SamEvent {
    type V = EventView;

    open spec fn view(&self) -> EventView {
        match self {
            SamEvent::Completed(s) => EventView::Completed(s@),
            SamEvent::Failed(s) => EventView::Failed(s@),
        }
    }
}

/// Model of a [`SamMachine`]: the script, the outcome it ends with when every
/// stage succeeds (or, once finished, the outcome it ended with), the
/// current stage and the phase within it.
pub struct MachineView {
    pub stages: Seq<StageView>,
    pub outcome: Result<(), ErrorView>,
    pub pos: nat,
    pub phase: SamPhase,
}

impl MachineView {
    /// The machine stands at a stage of its script, in a phase that fits
    /// that stage, or is finished.
    pub open spec fn wf(self) -> bool {
        &&& self.pos <= self.stages.len()
        &&& self.phase != SamPhase::Finished ==> {
            &&& self.pos < self.stages.len()
            &&& (self.stages[self.pos as int] is Open <==> self.phase == SamPhase::Opening)
        }
    }

    pub open spec fn is_finished(self) -> bool {
        self.phase == SamPhase::Finished
    }

    /// The context that names the current step in the error of its failure.
    pub open spec fn context(self) -> Seq<char> {
        match self.stages[self.pos as int] {
            StageView::Open(c) => c,
            StageView::Exchange(x) => match self.phase {
                SamPhase::Writing => x.write_context,
                SamPhase::Flushing => x.flush_context,
                _ => x.read_context,
            },
        }
    }

    /// The same script, stopped with `outcome`.
    pub open spec fn finished_with(self, outcome: Result<(), ErrorView>) -> (MachineView, ActionView) {
        (
            MachineView { outcome, phase: SamPhase::Finished, ..self },
            ActionView::Finish(outcome),
        )
    }

    /// The same script, at the start of stage `i`, with the action that
    /// starts it; past the last stage, finished with the script's outcome.
    pub open spec fn entering(self, i: nat) -> (MachineView, ActionView) {
        if i >= self.stages.len() {
            (
                MachineView { pos: i, phase: SamPhase::Finished, ..self },
                ActionView::Finish(self.outcome),
            )
        } else {
            match self.stages[i as int] {
                StageView::Open(_) => (
                    MachineView { pos: i, phase: SamPhase::Opening, ..self },
                    ActionView::Open,
                ),
                StageView::Exchange(x) => (
                    MachineView { pos: i, phase: SamPhase::Writing, ..self },
                    ActionView::Send(x.command),
                ),
            }
        }
    }

    /// One step of a SAM script: the state after `event` and the next action.
    ///
    /// - A finished machine stays as it is and repeats its outcome.
    /// - A failed action ends the script with a connection error: the context
    ///   of the step that failed, a colon, the description of the failure.
    /// - An opened connection moves on to the next stage; a written command
    ///   is flushed; a flushed command waits for its reply.
    /// - A reply that holds `RESULT=OK` moves on to the next stage; any other
    ///   reply ends the script with the exchange's rejection of that reply.
    /// - After the last stage the script ends with its own outcome.
    pub open spec fn next(self, event: EventView) -> (MachineView, ActionView) {
        if self.phase == SamPhase::Finished {
            (self, ActionView::Finish(self.outcome))
        } else {
            match event {
                EventView::Failed(detail) => self.finished_with(
                    Err(ErrorView::Connection(failure_text(self.context(), detail))),
                ),
                EventView::Completed(line) => match self.phase {
                    SamPhase::Opening => self.entering(self.pos + 1),
                    SamPhase::Writing => (
                        MachineView { phase: SamPhase::Flushing, ..self },
                        ActionView::Flush,
                    ),
                    SamPhase::Flushing => (
                        MachineView { phase: SamPhase::Reading, ..self },
                        ActionView::ReadLine,
                    ),
                    _ => if has_substring(line, reply_ok_marker()) {
                        self.entering(self.pos + 1)
                    } else {
                        match self.stages[self.pos as int] {
                            StageView::Exchange(x) => self.finished_with(
                                Err(x.rejection.error_for(line)),
                            ),
                            StageView::Open(_) => (self, ActionView::Finish(self.outcome)),
                        }
                    },
                },
            }
        }
    }
}

#[derive(Debug, Clone, Copy)]
struct Cursor {
    pos: usize,
    phase: SamPhase,
}

/// A running SAM script.
#[derive(Debug)]
pub struct SamMachine {
    stages: Vec<SamStage>,
    outcome: Result<(), Error>,
    at: Cursor,
}

impl View for SamMachine {
    type V = MachineView;

    closed spec fn view(&self) -> MachineView {
        MachineView {
            stages: self.stages@.map_values(|s: SamStage| s@),
            outcome: outcome_view(self.outcome),
            pos: self.at.pos as nat,
            phase: self.at.phase,
        }
    }
}

fn copy_outcome(r: &Result<(), Error>) -> (c: Result<(), Error>)
    ensures
        outcome_view(c) == outcome_view(*r),
{
    match r {
        Ok(()) => Ok(()),
        Err(e) => Err(e.clone()),
    }
}

impl SamMachine {
    #[verifier::type_invariant]
    spec fn well_formed(self) -> bool {
        self@.wf()
    }

    /// Whether the script is over.
    pub fn is_finished(&self) -> (b: bool)
        ensures
            b == self@.is_finished(),
    {
        self.at.phase == SamPhase::Finished
    }

    fn finish(&mut self, e: Error) -> (a: SamAction)
        requires
            old(self)@.wf(),
            !old(self)@.is_finished(),
        ensures
            (final(self)@, a@) == old(self)@.finished_with(Err(e@)),
    {
        let a = SamAction::Finish(Err(e.clone()));
        self.outcome = Err(e);
        let pos = self.at.pos;
        self.at = Cursor { pos, phase: SamPhase::Finished };
        proof {
            assert(self@.stages =~= old(self)@.stages);
        }
        a
    }

    fn enter(&mut self, i: usize) -> (a: SamAction)
        requires
            i <= old(self).stages@.len(),
        ensures
            (final(self)@, a@) == old(self)@.entering(i as nat),
    {
        if i >= self.stages.len() {
            self.at = Cursor { pos: i, phase: SamPhase::Finished };
            let a = SamAction::Finish(copy_outcome(&self.outcome));
            proof {
                assert(self@.stages =~= old(self)@.stages);
            }
            a
        } else {
            let a = match &self.stages[i] {
                SamStage::Open(_) => {
                    self.at = Cursor { pos: i, phase: SamPhase::Opening };
                    SamAction::Open
                },
                SamStage::Exchange(x) => {
                    let c = x.command.clone();
                    self.at = Cursor { pos: i, phase: SamPhase::Writing };
                    SamAction::Send(c)
                },
            };
            proof {
                assert(self@.stages =~= old(self)@.stages);
            }
            a
        }
    }

    /// Advances the script by the outcome of the last action and returns the
    /// next action.
    pub fn step(&mut self, event: SamEvent) -> (a: SamAction)
        ensures
            final(self)@.wf(),
            (final(self)@, a@) == old(self)@.next(event@),
    {
        proof {
            use_type_invariant(&*self);
        }
        let at = self.at;
        if at.phase == SamPhase::Finished {
            return SamAction::Finish(copy_outcome(&self.outcome));
        }
        let n = self.stages.len();
        assert(self@.stages.len() == n);
        assert(at.pos < n);
        match event {
            SamEvent::Failed(detail) => {
                let mut msg = match &self.stages[at.pos] {
                    SamStage::Open(c) => c.clone(),
                    SamStage::Exchange(x) => {
                        if at.phase == SamPhase::Writing {
                            x.write_context.clone()
                        } else if at.phase == SamPhase::Flushing {
                            x.flush_context.clone()
                        } else {
                            x.read_context.clone()
                        }
                    },
                };
                msg.append(": ");
                msg.append(detail.as_str());
                proof {
                    assert(msg@ =~= failure_text(self@.context(), detail@));
                }
                self.finish(Error::Connection(msg))
            },
            SamEvent::Completed(line) => {
                if at.phase == SamPhase::Opening {
                    self.enter(at.pos + 1)
                } else if at.phase == SamPhase::Writing {
                    self.at = Cursor { pos: at.pos, phase: SamPhase::Flushing };
                    SamAction::Flush
                } else if at.phase == SamPhase::Flushing {
                    self.at = Cursor { pos: at.pos, phase: SamPhase::Reading };
                    SamAction::ReadLine
                } else if reply_is_ok(line.as_str()) {
                    self.enter(at.pos + 1)
                } else {
                    let e = match &self.stages[at.pos] {
                        SamStage::Exchange(x) => match &x.rejection {
                            Rejection::Bootstrap(p) => Error::Bootstrap(p.clone().concat(line.as_str())),
                            Rejection::Connection(p) => Error::Connection(p.clone().concat(line.as_str())),
                        },
                        SamStage::Open(_) => {
                            proof {
                                assert(false);
                            }
                            Error::Timeout
                        },
                    };
                    self.finish(e)
                }
            },
        }
    }
}


/// The greeting that opens every SAM dialogue.
pub open spec fn hello_command() -> Seq<char> {
    "HELLO VERSION MIN=3.1 MAX=3.3\n"@
}

/// The command that creates a transient streaming session named `id`.
pub open spec fn session_create_command(id: Seq<char>) -> Seq<char> {
    "SESSION CREATE STYLE=STREAM ID="@ + id + " DESTINATION=TRANSIENT\n"@
}

/// The command that connects session `id` to the I2P destination `dest`.
pub open spec fn stream_connect_command(id: Seq<char>, dest: Seq<char>) -> Seq<char> {
    "STREAM CONNECT ID="@ + id + " DESTINATION="@ + dest + "\n"@
}

/// The command that looks up the I2P name `name`.
pub open spec fn naming_lookup_command(name: Seq<char>) -> Seq<char> {
    "NAMING LOOKUP NAME="@ + name + "\n"@
}

/// The name of the session that carries the transport's connections.
pub open spec fn session_id() -> Seq<char> {
    "kakuremino"@
}

/// The name of the session created to take on a new identity.
pub open spec fn identity_session_id() -> Seq<char> {
    "kakuremino-identity"@
}

/// The HELLO exchange; a refused greeting means the router cannot be used.
pub open spec fn hello_stage() -> StageView {
    StageView::Exchange(
        ExchangeView {
            command: hello_command(),
            write_context: "SAM hello write"@,
            flush_context: "SAM hello flush"@,
            read_context: "SAM hello read"@,
            rejection: RejectionView::Bootstrap("SAM hello failed: "@),
        },
    )
}

/// A new connection to the bridge at `sam_addr`, followed by the greeting.
pub open spec fn greeting_script(sam_addr: Seq<char>) -> Seq<StageView> {
    seq![StageView::Open("SAM connect to "@ + sam_addr), hello_stage()]
}

/// The script that tells whether the router answers: connect and greet.
pub open spec fn probe_script(sam_addr: Seq<char>) -> Seq<StageView> {
    greeting_script(sam_addr)
}

/// The script that takes on a new identity: connect, greet and create a
/// session with a fresh transient destination.
pub open spec fn identity_script(sam_addr: Seq<char>) -> Seq<StageView> {
    greeting_script(sam_addr).push(
        StageView::Exchange(
            ExchangeView {
                command: session_create_command(identity_session_id()),
                write_context: "SAM session create write"@,
                flush_context: "SAM session create flush"@,
                read_context: "SAM session status read"@,
                rejection: RejectionView::Bootstrap("SAM session create failed: "@),
            },
        ),
    )
}

/// The script that looks up an I2P name: connect, greet and ask.
pub open spec fn lookup_script(sam_addr: Seq<char>, name: Seq<char>) -> Seq<StageView> {
    greeting_script(sam_addr).push(
        StageView::Exchange(
            ExchangeView {
                command: naming_lookup_command(name),
                write_context: "SAM naming lookup write"@,
                flush_context: "SAM naming lookup flush"@,
                read_context: "SAM naming reply read"@,
                rejection: RejectionView::Connection("SAM naming lookup for "@ + name + " failed: "@),
            },
        ),
    )
}

/// The script that connects to the I2P destination `dest`: create a
/// session on one connection, then connect a stream of that session on a
/// second one.
pub open spec fn connect_script(sam_addr: Seq<char>, dest: Seq<char>) -> Seq<StageView> {
    greeting_script(sam_addr) + seq![
        StageView::Exchange(
            ExchangeView {
                command: session_create_command(session_id()),
                write_context: "SAM session write"@,
                flush_context: "SAM session flush"@,
                read_context: "SAM session read"@,
                rejection: RejectionView::Bootstrap("SAM session failed: "@),
            },
        ),
        StageView::Open("SAM stream connect to "@ + sam_addr),
        hello_stage(),
        StageView::Exchange(
            ExchangeView {
                command: stream_connect_command(session_id(), dest),
                write_context: "SAM stream connect write"@,
                flush_context: "SAM stream connect flush"@,
                read_context: "SAM stream status read"@,
                rejection: RejectionView::Connection(
                    "SAM stream connect to "@ + dest + " failed: "@,
                ),
            },
        ),
    ]
}

/// The outcome of a lookup whose dialogue succeeded: the router answers with
/// a base64 destination, which is no IP address.
pub open spec fn lookup_outcome() -> Result<(), ErrorView> {
    Err(
        ErrorView::Transport(
            "I2P naming lookup returns base64 destinations, not IP addresses \u{2014} use connect_onion() with the .i2p address directly"@,
        ),
    )
}

/// A machine at the start of `stages`, ending with `outcome` when every stage
/// succeeds, and its first action.
pub open spec fn started(stages: Seq<StageView>, outcome: Result<(), ErrorView>) -> (MachineView, ActionView) {
    MachineView { stages, outcome, pos: 0, phase: SamPhase::Finished }.entering(0)
}

fn open_stage(prefix: &str, sam_addr: &str) -> (s: SamStage)
    ensures
        s@ == StageView::Open(prefix@ + sam_addr@),
{
    SamStage::Open(String::from_str(prefix).concat(sam_addr))
}

fn exchange_stage(command: String, write: &str, flush: &str, read: &str, rejection: Rejection) -> (s: SamStage)
    ensures
        s@ == StageView::Exchange(
            ExchangeView {
                command: command@,
                write_context: write@,
                flush_context: flush@,
                read_context: read@,
                rejection: rejection@,
            },
        ),
{
    let x = SamExchange {
        command,
        write_context: String::from_str(write),
        flush_context: String::from_str(flush),
        read_context: String::from_str(read),
        rejection,
    };
    proof {
        assert(x@ == ExchangeView {
            command: command@,
            write_context: write@,
            flush_context: flush@,
            read_context: read@,
            rejection: rejection@,
        });
    }
    SamStage::Exchange(x)
}

fn hello() -> (s: SamStage)
    ensures
        s@ == hello_stage(),
{
    exchange_stage(
        String::from_str("HELLO VERSION MIN=3.1 MAX=3.3\n"),
        "SAM hello write",
        "SAM hello flush",
        "SAM hello read",
        Rejection::Bootstrap(String::from_str("SAM hello failed: ")),
    )
}

fn session_create(id: &str) -> (c: String)
    ensures
        c@ == session_create_command(id@),
{
    let mut c = String::from_str("SESSION CREATE STYLE=STREAM ID=");
    c.append(id);
    c.append(" DESTINATION=TRANSIENT\n");
    proof {
        assert(c@ =~= session_create_command(id@));
    }
    c
}

fn greeting(sam_addr: &str) -> (v: Vec<SamStage>)
    ensures
        v@.map_values(|s: SamStage| s@) == greeting_script(sam_addr@),
{
    let mut v = Vec::new();
    v.push(open_stage("SAM connect to ", sam_addr));
    v.push(hello());
    proof {
        assert(v@.map_values(|s: SamStage| s@) =~= greeting_script(sam_addr@));
    }
    v
}

impl SamMachine {
    fn start(stages: Vec<SamStage>, outcome: Result<(), Error>) -> (r: (SamMachine, SamAction))
        ensures
            (r.0@, r.1@) == started(stages@.map_values(|s: SamStage| s@), outcome_view(outcome)),
    {
        let mut m = SamMachine { stages, outcome, at: Cursor { pos: 0, phase: SamPhase::Finished } };
        let a = m.enter(0);
        (m, a)
    }

    /// The dialogue that tells whether the router at `sam_addr` answers.
    /// It succeeds once the greeting is accepted.
    pub fn probe(sam_addr: &str) -> (r: (SamMachine, SamAction))
        ensures
            (r.0@, r.1@) == started(probe_script(sam_addr@), Ok(())),
    {
        SamMachine::start(greeting(sam_addr), Ok(()))
    }

    /// The dialogue that takes on a new identity through the router at
    /// `sam_addr`. It succeeds once the new session is created.
    pub fn new_identity(sam_addr: &str) -> (r: (SamMachine, SamAction))
        ensures
            (r.0@, r.1@) == started(identity_script(sam_addr@), Ok(())),
    {
        let mut v = greeting(sam_addr);
        v.push(
            exchange_stage(
                session_create("kakuremino-identity"),
                "SAM session create write",
                "SAM session create flush",
                "SAM session status read",
                Rejection::Bootstrap(String::from_str("SAM session create failed: ")),
            ),
        );
        proof {
            assert(v@.map_values(|s: SamStage| s@) =~= identity_script(sam_addr@));
        }
        SamMachine::start(v, Ok(()))
    }

    /// The dialogue that looks up the I2P name `name` through the router at
    /// `sam_addr`. A refused lookup ends with a connection error; an accepted
    /// one still ends with an error, since the router answers with a
    /// destination and not with an IP address.
    pub fn lookup(sam_addr: &str, name: &str) -> (r: (SamMachine, SamAction))
        ensures
            (r.0@, r.1@) == started(lookup_script(sam_addr@, name@), lookup_outcome()),
    {
        let mut v = greeting(sam_addr);
        let mut cmd = String::from_str("NAMING LOOKUP NAME=");
        cmd.append(name);
        cmd.append("\n");
        let mut rej = String::from_str("SAM naming lookup for ");
        rej.append(name);
        rej.append(" failed: ");
        proof {
            assert(cmd@ =~= naming_lookup_command(name@));
            assert(rej@ =~= "SAM naming lookup for "@ + name@ + " failed: "@);
        }
        v.push(
            exchange_stage(
                cmd,
                "SAM naming lookup write",
                "SAM naming lookup flush",
                "SAM naming reply read",
                Rejection::Connection(rej),
            ),
        );
        proof {
            assert(v@.map_values(|s: SamStage| s@) =~= lookup_script(sam_addr@, name@));
        }
        SamMachine::start(
            v,
            Err(
                Error::Transport(
                    String::from_str(
                        "I2P naming lookup returns base64 destinations, not IP addresses \u{2014} use connect_onion() with the .i2p address directly",
                    ),
                ),
            ),
        )
    }

    /// The dialogue that connects to the I2P destination `dest` through the
    /// router at `sam_addr`, or the error that refuses `dest` before any
    /// I/O when it does not end in `.i2p`. On success the connection opened
    /// last carries the stream to `dest`.
    pub fn connect(sam_addr: &str, dest: &str) -> (r: Result<(SamMachine, SamAction), Error>)
        ensures
            match r {
                Ok((m, a)) => has_suffix(dest@, ".i2p"@) && (m@, a@) == started(
                    connect_script(sam_addr@, dest@),
                    Ok(()),
                ),
                Err(e) => !has_suffix(dest@, ".i2p"@) && e@ == wrong_suffix_error(".i2p"@, dest@),
            },
    {
        check_address_suffix(".i2p", dest)?;
        let mut v = greeting(sam_addr);
        v.push(
            exchange_stage(
                session_create("kakuremino"),
                "SAM session write",
                "SAM session flush",
                "SAM session read",
                Rejection::Bootstrap(String::from_str("SAM session failed: ")),
            ),
        );
        v.push(open_stage("SAM stream connect to ", sam_addr));
        v.push(hello());
        let mut cmd = String::from_str("STREAM CONNECT ID=kakuremino DESTINATION=");
        cmd.append(dest);
        cmd.append("\n");
        let mut rej = String::from_str("SAM stream connect to ");
        rej.append(dest);
        rej.append(" failed: ");
        proof {
            reveal_strlit("STREAM CONNECT ID=kakuremino DESTINATION=");
            reveal_strlit("STREAM CONNECT ID=");
            reveal_strlit("kakuremino");
            reveal_strlit(" DESTINATION=");
            assert(cmd@ =~= stream_connect_command(session_id(), dest@));
            assert(rej@ =~= "SAM stream connect to "@ + dest@ + " failed: "@);
        }
        v.push(
            exchange_stage(
                cmd,
                "SAM stream connect write",
                "SAM stream connect flush",
                "SAM stream status read",
                Rejection::Connection(rej),
            ),
        );
        proof {
            assert(v@.map_values(|s: SamStage| s@) =~= connect_script(sam_addr@, dest@));
        }
        Ok(SamMachine::start(v, Ok(())))
    }
}


/// How many more events a machine can take before it finishes: four per
/// stage still ahead, less the phases already done in the current one.
pub open spec fn remaining_steps(m: MachineView) -> nat {
    if m.phase == SamPhase::Finished {
        0
    } else {
        let rank: nat = match m.phase {
            SamPhase::Flushing => 1,
            SamPhase::Reading => 2,
            _ => 0,
        };
        (4 * (m.stages.len() - m.pos) - rank) as nat
    }
}

/// Every step of an unfinished SAM script keeps it well formed and brings it
/// closer to its end, so that a script of `n` stages is over after at most
/// `4 * n` events.
pub proof fn lemma_step_progress(m: MachineView, event: EventView)
    requires
        m.wf(),
        !m.is_finished(),
    ensures
        m.next(event).0.wf(),
        remaining_steps(m.next(event).0) < remaining_steps(m),
{
}

/// The number of events a stage takes when everything goes well: one for
/// opening a connection, three (write, flush, read) for an exchange.
pub open spec fn stage_cost(s: StageView) -> nat {
    match s {
        StageView::Open(_) => 1,
        StageView::Exchange(_) => 3,
    }
}

/// The number of events that the stages from `i` on take when everything
/// goes well.
pub open spec fn cost_from(stages: Seq<StageView>, i: nat) -> nat
    decreases stages.len() - i,
{
    if i >= stages.len() {
        0
    } else {
        stage_cost(stages[i as int]) + cost_from(stages, i + 1)
    }
}

/// The state after the events `events`, one after the other.
pub open spec fn run(m: MachineView, events: Seq<EventView>) -> MachineView
    decreases events.len(),
{
    if events.len() == 0 {
        m
    } else {
        run(m.next(events[0]).0, events.drop_first())
    }
}

/// `n` completions that each carry `line`.
pub open spec fn completions(n: nat, line: Seq<char>) -> Seq<EventView> {
    Seq::new(n, |k: int| EventView::Completed(line))
}

proof fn lemma_run_from(base: MachineView, i: nat, line: Seq<char>)
    requires
        i <= base.stages.len(),
        has_substring(line, reply_ok_marker()),
    ensures
        run(base.entering(i).0, completions(cost_from(base.stages, i), line)) == base.entering(
            base.stages.len(),
        ).0,
    decreases base.stages.len() - i,
{
    let n = base.stages.len();
    if i == n {
        assert(completions(0, line) =~= Seq::<EventView>::empty());
    } else {
        lemma_run_from(base, i + 1, line);
        let rest = cost_from(base.stages, i + 1);
        let s = base.entering(i).0;
        let ev = EventView::Completed(line);
        match base.stages[i as int] {
            StageView::Open(_) => {
                let evs = completions(1 + rest, line);
                assert(evs.drop_first() =~= completions(rest, line));
                assert(s.next(ev).0 == base.entering(i + 1).0);
            },
            StageView::Exchange(_) => {
                let evs = completions(3 + rest, line);
                let s1 = s.next(ev).0;
                let s2 = s1.next(ev).0;
                let s3 = s2.next(ev).0;
                assert(evs.drop_first() =~= completions(2 + rest, line));
                assert(completions(2 + rest, line).drop_first() =~= completions(1 + rest, line));
                assert(completions(1 + rest, line).drop_first() =~= completions(rest, line));
                assert(s3 == base.entering(i + 1).0);
                assert(run(s, evs) == run(s1, completions(2 + rest, line)));
                assert(run(s1, completions(2 + rest, line)) == run(s2, completions(1 + rest, line)));
                assert(run(s2, completions(1 + rest, line)) == run(s3, completions(rest, line)));
            },
        }
    }
}

/// A SAM script whose every action succeeds and whose every reply holds
/// `RESULT=OK` runs through all its stages and ends with its own outcome.
pub proof fn lemma_cooperative_run(stages: Seq<StageView>, outcome: Result<(), ErrorView>, line: Seq<char>)
    requires
        has_substring(line, reply_ok_marker()),
    ensures
        ({
            let end = run(started(stages, outcome).0, completions(cost_from(stages, 0), line));
            &&& end.is_finished()
            &&& end.pos == stages.len()
            &&& end.outcome == outcome
            &&& end.next(EventView::Completed(line)).1 == ActionView::Finish(outcome)
        }),
{
    let base = MachineView { stages, outcome, pos: 0, phase: SamPhase::Finished };
    lemma_run_from(base, 0, line);
}


/// What holds of every state a script of `stages` that ends with `outcome`
/// reaches: it is well formed and keeps its stages; it holds a success only
/// when the script ends in success; and it is finished with a success only
/// once it has gone through all its stages.
pub open spec fn reachable_from(m: MachineView, stages: Seq<StageView>, outcome: Result<(), ErrorView>) -> bool {
    &&& m.wf()
    &&& m.stages == stages
    &&& m.outcome is Ok ==> outcome is Ok
    &&& (m.is_finished() && m.outcome is Ok) ==> m.pos == stages.len()
}

/// Whether `stages` begins by opening a connection.
pub open spec fn opens_first(stages: Seq<StageView>) -> bool {
    stages.len() > 0 && stages[0] is Open
}

/// The state a step leads to fits the action it asks for: a finish carries
/// the outcome the machine now holds, and each other action stands in its
/// own phase.
pub proof fn lemma_action_fits_state(m: MachineView, event: EventView)
    requires
        m.wf(),
    ensures
        ({
            let (n, a) = m.next(event);
            match a {
                ActionView::Finish(o) => n.is_finished() && n.outcome == o,
                ActionView::Open => n.phase == SamPhase::Opening,
                ActionView::Send(_) => n.phase == SamPhase::Writing,
                ActionView::Flush => n.phase == SamPhase::Flushing,
                ActionView::ReadLine => n.phase == SamPhase::Reading,
            }
        }),
{
}

/// The first action of a script likewise fits the state it starts in.
pub proof fn lemma_start_fits_state(stages: Seq<StageView>, outcome: Result<(), ErrorView>)
    ensures
        reachable_from(started(stages, outcome).0, stages, outcome),
        ({
            let (n, a) = started(stages, outcome);
            match a {
                ActionView::Finish(o) => n.is_finished() && n.outcome == o,
                ActionView::Open => n.phase == SamPhase::Opening,
                ActionView::Send(_) => n.phase == SamPhase::Writing,
                ActionView::Flush => n.phase == SamPhase::Flushing,
                ActionView::ReadLine => n.phase == SamPhase::Reading,
            }
        }),
{
}

/// Every step keeps what holds of the states a script reaches.
pub proof fn lemma_step_keeps_reachable(
    m: MachineView,
    stages: Seq<StageView>,
    outcome: Result<(), ErrorView>,
    event: EventView,
)
    requires
        reachable_from(m, stages, outcome),
    ensures
        reachable_from(m.next(event).0, stages, outcome),
{
}

/// Whatever the caller reports, a script that starts from `stages` only
/// reaches states described by [`reachable_from`].
pub proof fn lemma_run_reachable(
    m: MachineView,
    stages: Seq<StageView>,
    outcome: Result<(), ErrorView>,
    events: Seq<EventView>,
)
    requires
        reachable_from(m, stages, outcome),
    ensures
        reachable_from(run(m, events), stages, outcome),
    decreases events.len(),
{
    if events.len() > 0 {
        lemma_step_keeps_reachable(m, stages, outcome, events[0]);
        lemma_run_reachable(m.next(events[0]).0, stages, outcome, events.drop_first());
    }
}

/// In a script that begins by opening a connection, the machine asks to
/// write, flush or read only after it has moved past that first stage, which
/// it does only once the connection has been reported open: there is always
/// a connection for these actions to use.
pub proof fn lemma_exchanges_follow_an_open(
    stages: Seq<StageView>,
    outcome: Result<(), ErrorView>,
    events: Seq<EventView>,
    event: EventView,
)
    requires
        opens_first(stages),
    ensures
        ({
            let m = run(started(stages, outcome).0, events);
            let (n, a) = m.next(event);
            &&& (a is Send || a is Flush || a is ReadLine) ==> n.pos >= 1
            &&& started(stages, outcome).1 is Open
        }),
{
    let m0 = started(stages, outcome).0;
    lemma_start_fits_state(stages, outcome);
    lemma_run_reachable(m0, stages, outcome, events);
    let m = run(m0, events);
    lemma_action_fits_state(m, event);
    lemma_step_keeps_reachable(m, stages, outcome, event);
}

/// A script ends in success only after it has gone through every one of its
/// stages, and only if its own outcome is a success.
pub proof fn lemma_success_only_at_end(
    stages: Seq<StageView>,
    outcome: Result<(), ErrorView>,
    events: Seq<EventView>,
    event: EventView,
)
    ensures
        ({
            let m = run(started(stages, outcome).0, events);
            let (n, a) = m.next(event);
            a == ActionView::Finish(Ok(())) ==> n.pos == stages.len() && outcome is Ok
        }),
        started(stages, outcome).1 == ActionView::Finish(Ok(())) ==> stages.len() == 0
            && outcome is Ok,
{
    let m0 = started(stages, outcome).0;
    lemma_start_fits_state(stages, outcome);
    lemma_run_reachable(m0, stages, outcome, events);
    let m = run(m0, events);
    lemma_action_fits_state(m, event);
    lemma_step_keeps_reachable(m, stages, outcome, event);
}

/// Each of the transport's SAM scripts begins by opening a connection to the
/// bridge, and the connect script opens a second one before its last
/// exchange.
pub proof fn lemma_scripts_open_first(sam_addr: Seq<char>, name: Seq<char>, dest: Seq<char>)
    ensures
        opens_first(probe_script(sam_addr)),
        opens_first(identity_script(sam_addr)),
        opens_first(lookup_script(sam_addr, name)),
        opens_first(connect_script(sam_addr, dest)),
        connect_script(sam_addr, dest).len() == 6,
        connect_script(sam_addr, dest)[3] is Open,
{
}

/// A successful connect dialogue has gone through all six stages, both
/// connections to the bridge included; the stream is the one opened last.
pub proof fn lemma_connect_success_opened(
    sam_addr: Seq<char>,
    dest: Seq<char>,
    events: Seq<EventView>,
    event: EventView,
)
    ensures
        ({
            let s = started(connect_script(sam_addr, dest), Ok(()));
            let (n, a) = run(s.0, events).next(event);
            a == ActionView::Finish(Ok(())) ==> n.pos == 6
        }),
{
    lemma_scripts_open_first(sam_addr, Seq::empty(), dest);
    lemma_success_only_at_end(connect_script(sam_addr, dest), Ok(()), events, event);
}

/// A lookup never ends in success, whatever the router answers: either the
/// dialogue fails, or the router's answer is no IP address.
pub proof fn lemma_lookup_never_succeeds(
    sam_addr: Seq<char>,
    name: Seq<char>,
    events: Seq<EventView>,
    event: EventView,
)
    ensures
        ({
            let s = started(lookup_script(sam_addr, name), lookup_outcome());
            &&& s.1 != ActionView::Finish(Ok(()))
            &&& run(s.0, events).next(event).1 != ActionView::Finish(Ok(()))
        }),
{
    lemma_success_only_at_end(lookup_script(sam_addr, name), lookup_outcome(), events, event);
}


/// The actions a machine asks for, one per event, when the events
/// `events` are reported one after the other.
pub open spec fn trace(m: MachineView, events: Seq<EventView>) -> Seq<ActionView>
    decreases events.len(),
{
    if events.len() == 0 {
        Seq::empty()
    } else {
        seq![m.next(events[0]).1] + trace(m.next(events[0]).0, events.drop_first())
    }
}

/// A reply read at an exchange decides the script: a reply that holds
/// `RESULT=OK` moves on to the next stage, or ends the script with its own
/// outcome after the last stage; any other reply ends the script at once with
/// the exchange's rejection of that very reply.
pub proof fn lemma_reply_decides(m: MachineView, line: Seq<char>)
    requires
        m.wf(),
        m.phase == SamPhase::Reading,
    ensures
        m.stages[m.pos as int] is Exchange,
        ({
            let (n, a) = m.next(EventView::Completed(line));
            let err = m.stages[m.pos as int]->Exchange_0.rejection.error_for(line);
            &&& !has_substring(line, "RESULT=OK"@) ==> {
                &&& a == ActionView::Finish(Err(err))
                &&& n.is_finished()
                &&& n.outcome == Err::<(), ErrorView>(err)
                &&& n.pos == m.pos
            }
            &&& has_substring(line, "RESULT=OK"@) ==> {
                &&& n.pos == m.pos + 1
                &&& n.outcome == m.outcome
                &&& n.pos < m.stages.len() ==> !n.is_finished() && !(a is Finish)
                &&& n.pos == m.stages.len() ==> n.is_finished() && a == ActionView::Finish(m.outcome)
            }
        }),
{
    assert(reply_ok_marker() == "RESULT=OK"@);
}

/// A finished script stays finished: whatever is reported afterwards, it
/// keeps its state and only repeats its outcome.
pub proof fn lemma_finished_stays(m: MachineView, events: Seq<EventView>)
    requires
        m.is_finished(),
    ensures
        run(m, events) == m,
        trace(m, events) == Seq::new(events.len(), |k: int| ActionView::Finish(m.outcome)),
    decreases events.len(),
{
    if events.len() > 0 {
        lemma_finished_stays(m, events.drop_first());
    }
    assert(trace(m, events) =~= Seq::new(events.len(), |k: int| ActionView::Finish(m.outcome)));
}

/// One completion carrying `x` taken off the front of
/// `completions(a, x) + completions(b, y)`.
proof fn lemma_trace_front(m: MachineView, a: nat, x: Seq<char>, b: nat, y: Seq<char>)
    requires
        a + b > 0,
    ensures
        ({
            let evs = completions(a, x) + completions(b, y);
            let e = if a > 0 { EventView::Completed(x) } else { EventView::Completed(y) };
            let rest = if a > 0 {
                completions((a - 1) as nat, x) + completions(b, y)
            } else {
                completions(a, x) + completions((b - 1) as nat, y)
            };
            &&& trace(m, evs) == seq![m.next(e).1] + trace(m.next(e).0, rest)
            &&& run(m, evs) == run(m.next(e).0, rest)
        }),
{
    let evs = completions(a, x) + completions(b, y);
    if a > 0 {
        assert(evs[0] == EventView::Completed(x));
        assert(evs.drop_first() =~= completions((a - 1) as nat, x) + completions(b, y));
    } else {
        assert(evs[0] == EventView::Completed(y));
        assert(evs.drop_first() =~= completions(a, x) + completions((b - 1) as nat, y));
    }
}

/// The greeting sent first on every connection to the bridge.
pub open spec fn hello_text() -> Seq<char> {
    "HELLO VERSION MIN=3.1 MAX=3.3\n"@
}

/// The readiness probe: it opens a connection, greets the bridge and
/// succeeds exactly when the reply to the greeting holds `RESULT=OK`; any
/// other reply (an empty line from a closed connection included) makes it
/// fail with a bootstrap error that quotes the reply, and a connection that
/// cannot be opened makes it fail with a connection error naming the bridge.
pub proof fn lemma_probe_dialogue(sam_addr: Seq<char>, reply: Seq<char>, detail: Seq<char>)
    ensures
        started(probe_script(sam_addr), Ok(())).1 == ActionView::Open,
        has_substring(reply, "RESULT=OK"@) ==> trace(
            started(probe_script(sam_addr), Ok(())).0,
            completions(4, reply) + completions(0, reply),
        ) == seq![
            ActionView::Send(hello_text()),
            ActionView::Flush,
            ActionView::ReadLine,
            ActionView::Finish(Ok(())),
        ],
        !has_substring(reply, "RESULT=OK"@) ==> trace(
            started(probe_script(sam_addr), Ok(())).0,
            completions(4, reply) + completions(0, reply),
        ) == seq![
            ActionView::Send(hello_text()),
            ActionView::Flush,
            ActionView::ReadLine,
            ActionView::Finish(Err(ErrorView::Bootstrap("SAM hello failed: "@ + reply))),
        ],
        trace(started(probe_script(sam_addr), Ok(())).0, seq![EventView::Failed(detail)]) == seq![
            ActionView::Finish(Err(ErrorView::Connection("SAM connect to "@ + sam_addr + ": "@ + detail))),
        ],
{
    let m0 = started(probe_script(sam_addr), Ok(())).0;
    let e = EventView::Completed(reply);
    let m1 = m0.next(e).0;
    let m2 = m1.next(e).0;
    let m3 = m2.next(e).0;
    let m4 = m3.next(e).0;
    lemma_trace_front(m0, 4, reply, 0, reply);
    lemma_trace_front(m1, 3, reply, 0, reply);
    lemma_trace_front(m2, 2, reply, 0, reply);
    lemma_trace_front(m3, 1, reply, 0, reply);
    assert(completions(0, reply) + completions(0, reply) =~= Seq::<EventView>::empty());
    assert(reply_ok_marker() == "RESULT=OK"@);
    let f = EventView::Failed(detail);
    assert(seq![f].drop_first() =~= Seq::<EventView>::empty());
    assert(seq![f][0] == f);
    assert(trace(m0.next(f).0, Seq::<EventView>::empty()) == Seq::<ActionView>::empty());
    assert(trace(m0, seq![f]) =~= seq![m0.next(f).1]);
    assert(failure_text("SAM connect to "@ + sam_addr, detail) =~= "SAM connect to "@ + sam_addr + ": "@ + detail);
    if has_substring(reply, "RESULT=OK"@) {
        assert(trace(m0, completions(4, reply) + completions(0, reply)) =~= seq![
            ActionView::Send(hello_text()),
            ActionView::Flush,
            ActionView::ReadLine,
            ActionView::Finish(Ok(())),
        ]);
    } else {
        assert(trace(m0, completions(4, reply) + completions(0, reply)) =~= seq![
            ActionView::Send(hello_text()),
            ActionView::Flush,
            ActionView::ReadLine,
            ActionView::Finish(Err(ErrorView::Bootstrap("SAM hello failed: "@ + reply))),
        ]);
    }
}


/// Taking on a new identity: one connection, the greeting, then exactly one
/// SESSION CREATE for the session `kakuremino-identity`; the dialogue
/// succeeds right after a reply to it that holds `RESULT=OK`, and fails with a
/// bootstrap error quoting the reply to it otherwise.
pub proof fn lemma_identity_dialogue(sam_addr: Seq<char>, reply: Seq<char>, refusal: Seq<char>)
    requires
        has_substring(reply, "RESULT=OK"@),
        !has_substring(refusal, "RESULT=OK"@),
    ensures
        started(identity_script(sam_addr), Ok(())).1 == ActionView::Open,
        trace(
            started(identity_script(sam_addr), Ok(())).0,
            completions(7, reply) + completions(0, reply),
        ) == seq![
            ActionView::Send(hello_text()),
            ActionView::Flush,
            ActionView::ReadLine,
            ActionView::Send("SESSION CREATE STYLE=STREAM ID=kakuremino-identity DESTINATION=TRANSIENT\n"@),
            ActionView::Flush,
            ActionView::ReadLine,
            ActionView::Finish(Ok(())),
        ],
        trace(
            started(identity_script(sam_addr), Ok(())).0,
            completions(4, reply) + completions(3, refusal),
        ) == seq![
            ActionView::Send(hello_text()),
            ActionView::Flush,
            ActionView::ReadLine,
            ActionView::Send("SESSION CREATE STYLE=STREAM ID=kakuremino-identity DESTINATION=TRANSIENT\n"@),
            ActionView::Flush,
            ActionView::ReadLine,
            ActionView::Finish(Err(ErrorView::Bootstrap("SAM session create failed: "@ + refusal))),
        ],
{
    reveal_strlit("SESSION CREATE STYLE=STREAM ID=");
    reveal_strlit(" DESTINATION=TRANSIENT\n");
    reveal_strlit("kakuremino-identity");
    reveal_strlit("kakuremino");
    reveal_strlit("STREAM CONNECT ID=");
    reveal_strlit(" DESTINATION=");
    reveal_strlit("\n");
    reveal_strlit("SESSION CREATE STYLE=STREAM ID=kakuremino-identity DESTINATION=TRANSIENT\n");
    reveal_strlit("SESSION CREATE STYLE=STREAM ID=kakuremino DESTINATION=TRANSIENT\n");
    reveal_strlit("STREAM CONNECT ID=kakuremino DESTINATION=");
    assert(reply_ok_marker() == "RESULT=OK"@);
    assert(session_create_command(identity_session_id()) =~= "SESSION CREATE STYLE=STREAM ID=kakuremino-identity DESTINATION=TRANSIENT\n"@);
    let m0 = started(identity_script(sam_addr), Ok(())).0;
    lemma_trace_front(m0, 7, reply, 0, reply);
    let m1 = m0.next(EventView::Completed(reply)).0;
    lemma_trace_front(m1, 6, reply, 0, reply);
    let m2 = m1.next(EventView::Completed(reply)).0;
    lemma_trace_front(m2, 5, reply, 0, reply);
    let m3 = m2.next(EventView::Completed(reply)).0;
    lemma_trace_front(m3, 4, reply, 0, reply);
    let m4 = m3.next(EventView::Completed(reply)).0;
    lemma_trace_front(m4, 3, reply, 0, reply);
    let m5 = m4.next(EventView::Completed(reply)).0;
    lemma_trace_front(m5, 2, reply, 0, reply);
    let m6 = m5.next(EventView::Completed(reply)).0;
    lemma_trace_front(m6, 1, reply, 0, reply);
    let m7 = m6.next(EventView::Completed(reply)).0;
    assert(completions(0, reply) + completions(0, reply) =~= Seq::<EventView>::empty());
    assert(trace(m0, completions(7, reply) + completions(0, reply)) =~= seq![
            ActionView::Send(hello_text()),
            ActionView::Flush,
            ActionView::ReadLine,
            ActionView::Send("SESSION CREATE STYLE=STREAM ID=kakuremino-identity DESTINATION=TRANSIENT\n"@),
            ActionView::Flush,
            ActionView::ReadLine,
            ActionView::Finish(Ok(())),
        ]);
    let r0 = started(identity_script(sam_addr), Ok(())).0;
    lemma_trace_front(r0, 4, reply, 3, refusal);
    let r1 = r0.next(EventView::Completed(reply)).0;
    lemma_trace_front(r1, 3, reply, 3, refusal);
    let r2 = r1.next(EventView::Completed(reply)).0;
    lemma_trace_front(r2, 2, reply, 3, refusal);
    let r3 = r2.next(EventView::Completed(reply)).0;
    lemma_trace_front(r3, 1, reply, 3, refusal);
    let r4 = r3.next(EventView::Completed(reply)).0;
    lemma_trace_front(r4, 0, reply, 3, refusal);
    let r5 = r4.next(EventView::Completed(refusal)).0;
    lemma_trace_front(r5, 0, reply, 2, refusal);
    let r6 = r5.next(EventView::Completed(refusal)).0;
    lemma_trace_front(r6, 0, reply, 1, refusal);
    let r7 = r6.next(EventView::Completed(refusal)).0;
    assert(completions(0, reply) + completions(0, refusal) =~= Seq::<EventView>::empty());
    assert(trace(r0, completions(4, reply) + completions(3, refusal)) =~= seq![
            ActionView::Send(hello_text()),
            ActionView::Flush,
            ActionView::ReadLine,
            ActionView::Send("SESSION CREATE STYLE=STREAM ID=kakuremino-identity DESTINATION=TRANSIENT\n"@),
            ActionView::Flush,
            ActionView::ReadLine,
            ActionView::Finish(Err(ErrorView::Bootstrap("SAM session create failed: "@ + refusal))),
        ]);
}

/// Connecting to the I2P destination `dest`: a first connection greets the
/// bridge and creates the session `kakuremino`; a second connection greets
/// the bridge and connects a stream of that session to `dest`. The dialogue
/// succeeds only after both replies hold `RESULT=OK`. A refused session ends
/// it at once with a bootstrap error quoting the reply, before any second
/// connection is asked for, and stays ended; a refused stream connection
/// ends it with a connection error naming `dest` and quoting the reply.
pub proof fn lemma_connect_dialogue(
    sam_addr: Seq<char>,
    dest: Seq<char>,
    reply: Seq<char>,
    refusal: Seq<char>,
    later: Seq<EventView>,
)
    requires
        has_substring(reply, "RESULT=OK"@),
        !has_substring(refusal, "RESULT=OK"@),
    ensures
        started(connect_script(sam_addr, dest), Ok(())).1 == ActionView::Open,
        trace(
            started(connect_script(sam_addr, dest), Ok(())).0,
            completions(14, reply) + completions(0, reply),
        ) == seq![
            ActionView::Send(hello_text()),
            ActionView::Flush,
            ActionView::ReadLine,
            ActionView::Send("SESSION CREATE STYLE=STREAM ID=kakuremino DESTINATION=TRANSIENT\n"@),
            ActionView::Flush,
            ActionView::ReadLine,
            ActionView::Open,
            ActionView::Send(hello_text()),
            ActionView::Flush,
            ActionView::ReadLine,
            ActionView::Send("STREAM CONNECT ID=kakuremino DESTINATION="@ + dest + "\n"@),
            ActionView::Flush,
            ActionView::ReadLine,
            ActionView::Finish(Ok(())),
        ],
        trace(
            started(connect_script(sam_addr, dest), Ok(())).0,
            completions(4, reply) + completions(3, refusal),
        ) == seq![
            ActionView::Send(hello_text()),
            ActionView::Flush,
            ActionView::ReadLine,
            ActionView::Send("SESSION CREATE STYLE=STREAM ID=kakuremino DESTINATION=TRANSIENT\n"@),
            ActionView::Flush,
            ActionView::ReadLine,
            ActionView::Finish(Err(ErrorView::Bootstrap("SAM session failed: "@ + refusal))),
        ],
        ({
            let ended = run(
                started(connect_script(sam_addr, dest), Ok(())).0,
                completions(4, reply) + completions(3, refusal),
            );
            &&& ended.is_finished()
            &&& trace(ended, later) == Seq::new(
                later.len(),
                |k: int| ActionView::Finish(Err(ErrorView::Bootstrap("SAM session failed: "@ + refusal))),
            )
        }),
        trace(
            started(connect_script(sam_addr, dest), Ok(())).0,
            completions(13, reply) + completions(1, refusal),
        ) == seq![
            ActionView::Send(hello_text()),
            ActionView::Flush,
            ActionView::ReadLine,
            ActionView::Send("SESSION CREATE STYLE=STREAM ID=kakuremino DESTINATION=TRANSIENT\n"@),
            ActionView::Flush,
            ActionView::ReadLine,
            ActionView::Open,
            ActionView::Send(hello_text()),
            ActionView::Flush,
            ActionView::ReadLine,
            ActionView::Send("STREAM CONNECT ID=kakuremino DESTINATION="@ + dest + "\n"@),
            ActionView::Flush,
            ActionView::ReadLine,
            ActionView::Finish(Err(ErrorView::Connection("SAM stream connect to "@ + dest + " failed: "@ + refusal))),
        ],
{
    reveal_strlit("SESSION CREATE STYLE=STREAM ID=");
    reveal_strlit(" DESTINATION=TRANSIENT\n");
    reveal_strlit("kakuremino-identity");
    reveal_strlit("kakuremino");
    reveal_strlit("STREAM CONNECT ID=");
    reveal_strlit(" DESTINATION=");
    reveal_strlit("\n");
    reveal_strlit("SESSION CREATE STYLE=STREAM ID=kakuremino-identity DESTINATION=TRANSIENT\n");
    reveal_strlit("SESSION CREATE STYLE=STREAM ID=kakuremino DESTINATION=TRANSIENT\n");
    reveal_strlit("STREAM CONNECT ID=kakuremino DESTINATION=");
    assert(reply_ok_marker() == "RESULT=OK"@);
    assert(session_create_command(session_id()) =~= "SESSION CREATE STYLE=STREAM ID=kakuremino DESTINATION=TRANSIENT\n"@);
    assert(stream_connect_command(session_id(), dest) =~= "STREAM CONNECT ID=kakuremino DESTINATION="@ + dest + "\n"@);
    let m0 = started(connect_script(sam_addr, dest), Ok(())).0;
    lemma_trace_front(m0, 14, reply, 0, reply);
    let m1 = m0.next(EventView::Completed(reply)).0;
    lemma_trace_front(m1, 13, reply, 0, reply);
    let m2 = m1.next(EventView::Completed(reply)).0;
    lemma_trace_front(m2, 12, reply, 0, reply);
    let m3 = m2.next(EventView::Completed(reply)).0;
    lemma_trace_front(m3, 11, reply, 0, reply);
    let m4 = m3.next(EventView::Completed(reply)).0;
    lemma_trace_front(m4, 10, reply, 0, reply);
    let m5 = m4.next(EventView::Completed(reply)).0;
    lemma_trace_front(m5, 9, reply, 0, reply);
    let m6 = m5.next(EventView::Completed(reply)).0;
    lemma_trace_front(m6, 8, reply, 0, reply);
    let m7 = m6.next(EventView::Completed(reply)).0;
    lemma_trace_front(m7, 7, reply, 0, reply);
    let m8 = m7.next(EventView::Completed(reply)).0;
    lemma_trace_front(m8, 6, reply, 0, reply);
    let m9 = m8.next(EventView::Completed(reply)).0;
    lemma_trace_front(m9, 5, reply, 0, reply);
    let m10 = m9.next(EventView::Completed(reply)).0;
    lemma_trace_front(m10, 4, reply, 0, reply);
    let m11 = m10.next(EventView::Completed(reply)).0;
    lemma_trace_front(m11, 3, reply, 0, reply);
    let m12 = m11.next(EventView::Completed(reply)).0;
    lemma_trace_front(m12, 2, reply, 0, reply);
    let m13 = m12.next(EventView::Completed(reply)).0;
    lemma_trace_front(m13, 1, reply, 0, reply);
    let m14 = m13.next(EventView::Completed(reply)).0;
    assert(completions(0, reply) + completions(0, reply) =~= Seq::<EventView>::empty());
    assert(trace(m0, completions(14, reply) + completions(0, reply)) =~= seq![
            ActionView::Send(hello_text()),
            ActionView::Flush,
            ActionView::ReadLine,
            ActionView::Send("SESSION CREATE STYLE=STREAM ID=kakuremino DESTINATION=TRANSIENT\n"@),
            ActionView::Flush,
            ActionView::ReadLine,
            ActionView::Open,
            ActionView::Send(hello_text()),
            ActionView::Flush,
            ActionView::ReadLine,
            ActionView::Send("STREAM CONNECT ID=kakuremino DESTINATION="@ + dest + "\n"@),
            ActionView::Flush,
            ActionView::ReadLine,
            ActionView::Finish(Ok(())),
        ]);
    let r0 = started(connect_script(sam_addr, dest), Ok(())).0;
    lemma_trace_front(r0, 4, reply, 3, refusal);
    let r1 = r0.next(EventView::Completed(reply)).0;
    lemma_trace_front(r1, 3, reply, 3, refusal);
    let r2 = r1.next(EventView::Completed(reply)).0;
    lemma_trace_front(r2, 2, reply, 3, refusal);
    let r3 = r2.next(EventView::Completed(reply)).0;
    lemma_trace_front(r3, 1, reply, 3, refusal);
    let r4 = r3.next(EventView::Completed(reply)).0;
    lemma_trace_front(r4, 0, reply, 3, refusal);
    let r5 = r4.next(EventView::Completed(refusal)).0;
    lemma_trace_front(r5, 0, reply, 2, refusal);
    let r6 = r5.next(EventView::Completed(refusal)).0;
    lemma_trace_front(r6, 0, reply, 1, refusal);
    let r7 = r6.next(EventView::Completed(refusal)).0;
    assert(completions(0, reply) + completions(0, refusal) =~= Seq::<EventView>::empty());
    assert(trace(r0, completions(4, reply) + completions(3, refusal)) =~= seq![
            ActionView::Send(hello_text()),
            ActionView::Flush,
            ActionView::ReadLine,
            ActionView::Send("SESSION CREATE STYLE=STREAM ID=kakuremino DESTINATION=TRANSIENT\n"@),
            ActionView::Flush,
            ActionView::ReadLine,
            ActionView::Finish(Err(ErrorView::Bootstrap("SAM session failed: "@ + refusal))),
        ]);
    lemma_finished_stays(r7, later);
    let t0 = started(connect_script(sam_addr, dest), Ok(())).0;
    lemma_trace_front(t0, 13, reply, 1, refusal);
    let t1 = t0.next(EventView::Completed(reply)).0;
    lemma_trace_front(t1, 12, reply, 1, refusal);
    let t2 = t1.next(EventView::Completed(reply)).0;
    lemma_trace_front(t2, 11, reply, 1, refusal);
    let t3 = t2.next(EventView::Completed(reply)).0;
    lemma_trace_front(t3, 10, reply, 1, refusal);
    let t4 = t3.next(EventView::Completed(reply)).0;
    lemma_trace_front(t4, 9, reply, 1, refusal);
    let t5 = t4.next(EventView::Completed(reply)).0;
    lemma_trace_front(t5, 8, reply, 1, refusal);
    let t6 = t5.next(EventView::Completed(reply)).0;
    lemma_trace_front(t6, 7, reply, 1, refusal);
    let t7 = t6.next(EventView::Completed(reply)).0;
    lemma_trace_front(t7, 6, reply, 1, refusal);
    let t8 = t7.next(EventView::Completed(reply)).0;
    lemma_trace_front(t8, 5, reply, 1, refusal);
    let t9 = t8.next(EventView::Completed(reply)).0;
    lemma_trace_front(t9, 4, reply, 1, refusal);
    let t10 = t9.next(EventView::Completed(reply)).0;
    lemma_trace_front(t10, 3, reply, 1, refusal);
    let t11 = t10.next(EventView::Completed(reply)).0;
    lemma_trace_front(t11, 2, reply, 1, refusal);
    let t12 = t11.next(EventView::Completed(reply)).0;
    lemma_trace_front(t12, 1, reply, 1, refusal);
    let t13 = t12.next(EventView::Completed(reply)).0;
    lemma_trace_front(t13, 0, reply, 1, refusal);
    let t14 = t13.next(EventView::Completed(refusal)).0;
    assert(completions(0, reply) + completions(0, refusal) =~= Seq::<EventView>::empty());
    assert(trace(t0, completions(13, reply) + completions(1, refusal)) =~= seq![
            ActionView::Send(hello_text()),
            ActionView::Flush,
            ActionView::ReadLine,
            ActionView::Send("SESSION CREATE STYLE=STREAM ID=kakuremino DESTINATION=TRANSIENT\n"@),
            ActionView::Flush,
            ActionView::ReadLine,
            ActionView::Open,
            ActionView::Send(hello_text()),
            ActionView::Flush,
            ActionView::ReadLine,
            ActionView::Send("STREAM CONNECT ID=kakuremino DESTINATION="@ + dest + "\n"@),
            ActionView::Flush,
            ActionView::ReadLine,
            ActionView::Finish(Err(ErrorView::Connection("SAM stream connect to "@ + dest + " failed: "@ + refusal))),
        ]);
}

} // verus!
