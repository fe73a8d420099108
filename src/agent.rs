//! The main loop's decisions. The loop is the only caller into the sandbox:
//! each step takes the next operator command, then the next inbound message,
//! and otherwise ticks the sandbox; the caller performs the step.
use vstd::prelude::*;
use vstd::string::StringExecFns;
use vstd::utf8::encode_utf8;
use crate::bridge::{message_fits, set_message_buffer, with_message, BufferRegistration};
use crate::cli::{direct_rest, direct_word, exit_word, has_prefix, info_word, parse_cli, space,
    splits_at_first_space, CliCommand};
use crate::inbound::{InboundMessage, Topics};
use crate::lifecycle::{entry_points_of, get_exported_eea_apis, EntryPoint, EntryPoints, EntryRef};
use crate::memory::{AccessError, LinearMemory};

verus! {

/// The bundle identifier of an agent that has no bundle yet; an agent whose
/// bundle reports it counts as unprovisioned.
pub open spec fn default_bundle_id() -> Seq<char> {
    "nullVersion"@
}

/// What a load produced.
pub enum LoadedBundle {
    /// No bundle at the configured location: an empty module.
    Unprovisioned,
    /// A running module and the identifier it reported.
    Running(String),
}

/// A call into the sandbox, with its arguments.
#[derive(Debug, Clone, Copy, PartialEq, Eq, Structural)]
pub enum SandboxCall {
    /// The periodic entry point, with the Unix time in milliseconds.
    Tick(i64),
    /// 1 for connected, 0 for disconnected.
    SetConnectionStatus(i32),
    /// Lengths of the topic and payload just written to the registered buffers.
    MessageReceived(i32, i32),
    /// Lengths of the identifier and payload just written to the registered buffers.
    DirectTrigger(i32, i32),
}

/// What the caller does next.
#[derive(Debug, PartialEq, Eq)]
pub enum Step {
    /// A reload is under way: load the bundle, then report it.
    AwaitReload,
    /// Publish the hello announcement for this bundle identifier.
    SendHello(String),
    /// Shut the instance down (where one runs), disconnect, and terminate.
    Exit { shutdown: Option<EntryRef> },
    /// Print the agent's status.
    ShowInfo,
    /// A `direct` command without a payload: report its format.
    FormatError,
    /// The request needs a bundle, and none is loaded.
    NotSupported,
    /// An operator line that names no command.
    Ignored,
    /// Shut the instance down (where one runs), then load the new bundle.
    Reload { shutdown: Option<EntryRef> },
    /// Call this entry point; a non-zero status is logged.
    Call { target: EntryRef, call: SandboxCall },
    /// Connectivity changed while no bundle is loaded: nothing to call.
    Noted,
    /// A message did not fit the linear memory.
    MemoryFault(AccessError),
    /// No bundle is loaded: nothing to tick.
    Idle,
}

/// Which kind of step comes next.
#[derive(Debug, Clone, Copy, PartialEq, Eq, Structural)]
pub enum StepKind {
    AwaitReload,
    Hello,
    Command,
    Inbound,
    Tick,
}

/// The step for a message that is written through the registered buffers and
/// handed to `message_received` (or, for `direct`, to `direct_trigger`).
pub open spec fn message_effect(
    instance: u64,
    direct: bool,
    reg: BufferRegistration,
    m0: Seq<u8>,
    m1: Seq<u8>,
    topic: Seq<u8>,
    payload: Seq<u8>,
    r: Step,
) -> bool {
    if message_fits(m0.len(), reg, topic, payload) {
        &&& m1 == with_message(m0, reg, topic, payload)
        &&& r == if direct {
            Step::Call {
                target: EntryRef { instance, entry: EntryPoint::DirectTrigger },
                call: SandboxCall::DirectTrigger(topic.len() as i32, payload.len() as i32),
            }
        } else {
            Step::Call {
                target: EntryRef { instance, entry: EntryPoint::MessageReceived },
                call: SandboxCall::MessageReceived(topic.len() as i32, payload.len() as i32),
            }
        }
    } else {
        m1 == m0 && r == Step::MemoryFault(AccessError::OutOfBounds)
    }
}

/// The shutdown entry point to call before the instance goes, where one runs.
pub open spec fn shutdown_of(provisioned: bool, instance: u64) -> Option<EntryRef> {
    if provisioned {
        Some(EntryRef { instance, entry: EntryPoint::Shutdown })
    } else {
        None
    }
}

/// The step for the operator line `line`, and what it does to memory.
pub open spec fn cli_effect(
    provisioned: bool,
    instance: u64,
    reg: BufferRegistration,
    m0: Seq<u8>,
    m1: Seq<u8>,
    line: Seq<u8>,
    r: Step,
) -> bool {
    if line == exit_word() {
        r == Step::Exit { shutdown: shutdown_of(provisioned, instance) } && m1 == m0
    } else if line == info_word() {
        r == Step::ShowInfo && m1 == m0
    } else if !has_prefix(line, direct_word()) {
        r == Step::Ignored && m1 == m0
    } else if !provisioned {
        r == Step::NotSupported && m1 == m0
    } else if !direct_rest(line).contains(space()) {
        r == Step::FormatError && m1 == m0
    } else {
        exists|id: Seq<u8>, payload: Seq<u8>|
            #[trigger] splits_at_first_space(direct_rest(line), id, payload) && message_effect(
                instance,
                true,
                reg,
                m0,
                m1,
                id,
                payload,
                r,
            )
    }
}

/// The step for the inbound message `msg`, and what it does to memory.
pub open spec fn inbound_effect(
    provisioned: bool,
    instance: u64,
    reg: BufferRegistration,
    m0: Seq<u8>,
    m1: Seq<u8>,
    command_topic: Seq<char>,
    button_topic: Seq<char>,
    msg: InboundMessage,
    r: Step,
) -> bool {
    match msg {
        InboundMessage::ModuleUpdateAvailable => r == Step::Reload { shutdown: shutdown_of(provisioned, instance) }
            && m1 == m0,
        InboundMessage::BrokerConnected => m1 == m0 && r == if provisioned {
            Step::Call {
                target: EntryRef { instance, entry: EntryPoint::SetConnectionStatus },
                call: SandboxCall::SetConnectionStatus(1),
            }
        } else {
            Step::Noted
        },
        InboundMessage::BrokerDisconnected => m1 == m0 && r == if provisioned {
            Step::Call {
                target: EntryRef { instance, entry: EntryPoint::SetConnectionStatus },
                call: SandboxCall::SetConnectionStatus(0),
            }
        } else {
            Step::Noted
        },
        InboundMessage::CommandReceived(p) => if !provisioned {
            r == Step::NotSupported && m1 == m0
        } else {
            message_effect(instance, false, reg, m0, m1, encode_utf8(command_topic), encode_utf8(p@), r)
        },
        InboundMessage::VirtualButtonReceived(p) => if !provisioned {
            r == Step::NotSupported && m1 == m0
        } else {
            message_effect(instance, false, reg, m0, m1, encode_utf8(button_topic), encode_utf8(p@), r)
        },
    }
}

/// Whether a step calls into the sandbox.
pub open spec fn calls_sandbox(r: Step) -> bool {
    r is Call || (r matches Step::Exit { shutdown } && shutdown is Some) || (r matches Step::Reload {
        shutdown,
    } && shutdown is Some)
}

/// Writes a direct trigger's identifier and payload through the registered
/// buffers (identifier in the topic buffer) and names the call that hands them
/// to `target`; a range outside the memory is a fault and writes nothing.
pub fn send_direct_trigger(
    memory: &mut LinearMemory,
    reg: &BufferRegistration,
    direct_id: &[u8],
    payload: &[u8],
    target: EntryRef,
) -> (r: Step)
    requires
        old(memory).wf(),
    ensures
        final(memory).wf(),
        message_fits(old(memory)@.len(), *reg, direct_id@, payload@) ==> final(memory)@ == with_message(
            old(memory)@,
            *reg,
            direct_id@,
            payload@,
        ) && r == (Step::Call {
            target,
            call: SandboxCall::DirectTrigger(direct_id@.len() as i32, payload@.len() as i32),
        }),
        !message_fits(old(memory)@.len(), *reg, direct_id@, payload@) ==> final(memory)@ == old(memory)@ && r
            == Step::MemoryFault(AccessError::OutOfBounds),
{
    match set_message_buffer(memory, reg, payload, direct_id) {
        Ok((il, pl)) => Step::Call { target, call: SandboxCall::DirectTrigger(il, pl) },
        Err(e) => Step::MemoryFault(e),
    }
}

/// The main loop's state.
pub struct Agent {
    bundle_id: String,
    provisioned: bool,
    connected: bool,
    instance: u64,
    entries: EntryPoints,
    reloading: bool,
    hello_due: Option<String>,
    commands: Vec<String>,
    inbound: Vec<InboundMessage>,
    topics: Topics,
    arrived: Ghost<Seq<InboundMessage>>,
    dispatched: Ghost<Seq<InboundMessage>>,
}

impl Agent {
    pub closed spec fn bundle_id_spec(&self) -> Seq<char> {
        self.bundle_id@
    }

    pub closed spec fn provisioned(&self) -> bool {
        self.provisioned
    }

    pub closed spec fn connected(&self) -> bool {
        self.connected
    }

    pub closed spec fn instance(&self) -> u64 {
        self.instance
    }

    pub closed spec fn entries(&self) -> EntryPoints {
        self.entries
    }

    pub closed spec fn reloading(&self) -> bool {
        self.reloading
    }

    pub closed spec fn hello_due(&self) -> Option<String> {
        self.hello_due
    }

    /// Operator lines not yet handled, oldest first.
    pub closed spec fn commands(&self) -> Seq<String> {
        self.commands@
    }

    /// Inbound messages not yet dispatched, oldest first.
    pub closed spec fn pending(&self) -> Seq<InboundMessage> {
        self.inbound@
    }

    /// Every inbound message handed to the agent, in order of arrival.
    pub closed spec fn arrived(&self) -> Seq<InboundMessage> {
        self.arrived@
    }

    /// Every inbound message dispatched so far, in order of dispatch.
    pub closed spec fn dispatched(&self) -> Seq<InboundMessage> {
        self.dispatched@
    }

    pub closed spec fn command_topic(&self) -> Seq<char> {
        self.topics.command@
    }

    pub closed spec fn button_topic(&self) -> Seq<char> {
        self.topics.virtual_button@
    }

    /// Dispatched messages followed by pending ones are exactly the arrivals,
    /// and the resolved entry points are those of the current instance.
    pub closed spec fn wf(&self) -> bool {
        &&& self.dispatched@ + self.inbound@ == self.arrived@
        &&& self.entries == entry_points_of(self.instance)
    }

    /// The kind of step that comes next: a reload blocks everything, a due
    /// hello goes first, then operator commands, then inbound messages, and
    /// with both queues empty the sandbox ticks.
    pub open spec fn upcoming(&self) -> StepKind {
        if self.reloading() {
            StepKind::AwaitReload
        } else if self.hello_due() is Some {
            StepKind::Hello
        } else if self.commands().len() > 0 {
            StepKind::Command
        } else if self.pending().len() > 0 {
            StepKind::Inbound
        } else {
            StepKind::Tick
        }
    }

    /// The parts that only a reload changes.
    pub open spec fn same_instance(&self, other: &Agent) -> bool {
        &&& self.bundle_id_spec() == other.bundle_id_spec()
        &&& self.provisioned() == other.provisioned()
        &&& self.instance() == other.instance()
        &&& self.entries() == other.entries()
        &&& self.command_topic() == other.command_topic()
        &&& self.button_topic() == other.button_topic()
    }

    /// An agent for the instance numbered `instance`, loaded from `bundle`.
    pub fn new(instance: u64, bundle: LoadedBundle, topics: Topics) -> (r: Agent)
        ensures
            r.wf(),
            r.instance() == instance,
            r.entries() == entry_points_of(instance),
            match bundle {
                LoadedBundle::Unprovisioned => !r.provisioned() && r.bundle_id_spec() == default_bundle_id(),
                LoadedBundle::Running(id) => r.bundle_id_spec() == id@,
            },
            r.provisioned() == (r.bundle_id_spec() != default_bundle_id()),
            !r.connected(),
            !r.reloading(),
            r.hello_due() is None,
            r.commands().len() == 0,
            r.pending().len() == 0,
            r.arrived().len() == 0,
            r.dispatched().len() == 0,
            r.command_topic() == topics.command@,
            r.button_topic() == topics.virtual_button@,
    {
        let (bundle_id, provisioned) = match bundle {
            LoadedBundle::Unprovisioned => (String::from_str("nullVersion"), false),
            LoadedBundle::Running(id) => {
                let provisioned = !(id == String::from_str("nullVersion"));
                (id, provisioned)
            },
        };
        Agent {
            bundle_id,
            provisioned,
            connected: false,
            instance,
            entries: get_exported_eea_apis(instance),
            reloading: false,
            hello_due: None,
            commands: Vec::new(),
            inbound: Vec::new(),
            topics,
            arrived: Ghost(Seq::empty()),
            dispatched: Ghost(Seq::empty()),
        }
    }

    /// The current bundle identifier.
    pub fn bundle_id(&self) -> (r: &String)
        ensures
            r@ == self.bundle_id_spec(),
    {
        &self.bundle_id
    }

    /// Whether the broker connection is up, as last reported.
    pub fn is_connected(&self) -> (r: bool)
        ensures
            r == self.connected(),
    {
        self.connected
    }

    /// Whether a bundle is loaded.
    pub fn is_provisioned(&self) -> (r: bool)
        ensures
            r == self.provisioned(),
    {
        self.provisioned
    }

    /// Queues operator lines, drained from the reader in order.
    pub fn accept_commands(&mut self, lines: Vec<String>)
        requires
            old(self).wf(),
        ensures
            final(self).wf(),
            final(self).commands() == old(self).commands() + lines@,
            final(self).pending() == old(self).pending(),
            final(self).arrived() == old(self).arrived(),
            final(self).dispatched() == old(self).dispatched(),
            final(self).same_instance(old(self)),
            final(self).connected() == old(self).connected(),
            final(self).reloading() == old(self).reloading(),
            final(self).hello_due() == old(self).hello_due(),
    {
        let mut lines = lines;
        self.commands.append(&mut lines);
    }

    /// Queues inbound messages, drained from the listener in order.
    pub fn accept_inbound(&mut self, msgs: Vec<InboundMessage>)
        requires
            old(self).wf(),
        ensures
            final(self).wf(),
            final(self).pending() == old(self).pending() + msgs@,
            final(self).arrived() == old(self).arrived() + msgs@,
            final(self).dispatched() == old(self).dispatched(),
            final(self).commands() == old(self).commands(),
            final(self).same_instance(old(self)),
            final(self).connected() == old(self).connected(),
            final(self).reloading() == old(self).reloading(),
            final(self).hello_due() == old(self).hello_due(),
    {
        let ghost before = self.inbound@;
        let mut msgs = msgs;
        let ghost added = msgs@;
        self.inbound.append(&mut msgs);
        self.arrived = Ghost(self.arrived@ + added);
        assert(self.dispatched@ + (before + added) =~= (self.dispatched@ + before) + added);
    }

    /// Installs the instance numbered `instance` that a reload produced: its
    /// entry points are resolved afresh and its hello becomes due.
    pub fn complete_reload(&mut self, instance: u64, bundle: LoadedBundle)
        requires
            old(self).wf(),
        ensures
            final(self).wf(),
            final(self).instance() == instance,
            final(self).entries() == entry_points_of(instance),
            match bundle {
                LoadedBundle::Unprovisioned => !final(self).provisioned()
                    && final(self).bundle_id_spec() == default_bundle_id(),
                LoadedBundle::Running(id) => final(self).bundle_id_spec() == id@,
            },
            final(self).provisioned() == (final(self).bundle_id_spec() != default_bundle_id()),
            !final(self).reloading(),
            final(self).hello_due() matches Some(h) && h@ == final(self).bundle_id_spec(),
            final(self).commands() == old(self).commands(),
            final(self).pending() == old(self).pending(),
            final(self).arrived() == old(self).arrived(),
            final(self).dispatched() == old(self).dispatched(),
            final(self).connected() == old(self).connected(),
            final(self).command_topic() == old(self).command_topic(),
            final(self).button_topic() == old(self).button_topic(),
    {
        let (bundle_id, provisioned) = match bundle {
            LoadedBundle::Unprovisioned => (String::from_str("nullVersion"), false),
            LoadedBundle::Running(id) => {
                let provisioned = !(id == String::from_str("nullVersion"));
                (id, provisioned)
            },
        };
        self.hello_due = Some(bundle_id.clone());
        self.bundle_id = bundle_id;
        self.provisioned = provisioned;
        self.instance = instance;
        self.entries = get_exported_eea_apis(instance);
        self.reloading = false;
    }

    /// The step for one operator line.
    fn cli_step(&self, memory: &mut LinearMemory, reg: &BufferRegistration, line: &str) -> (r: Step)
        requires
            old(memory).wf(),
            self.wf(),
        ensures
            final(memory).wf(),
            cli_effect(self.provisioned, self.instance, *reg, old(memory)@, final(memory)@, encode_utf8(line@), r),
    {
        let bytes = line.as_bytes();
        let cmd = parse_cli(bytes);
        match cmd {
            CliCommand::Exit => {
                Step::Exit { shutdown: if self.provisioned { Some(self.entries.shutdown) } else { None } }
            },
            CliCommand::Info => Step::ShowInfo,
            CliCommand::Unrecognized => Step::Ignored,
            CliCommand::MalformedDirect => {
                if self.provisioned {
                    Step::FormatError
                } else {
                    Step::NotSupported
                }
            },
            CliCommand::Direct { id, payload } => {
                if !self.provisioned {
                    return Step::NotSupported;
                }
                assert(direct_rest(bytes@)[id@.len() as int] == space());
                let r = send_direct_trigger(memory, reg, id.as_slice(), payload.as_slice(), self.entries.direct_trigger);
                assert(splits_at_first_space(direct_rest(bytes@), id@, payload@)
                    && message_effect(self.instance, true, *reg, old(memory)@, final(memory)@, id@, payload@, r));
                r
            },
        }
    }

    /// The step for one inbound message; connectivity and reload state are
    /// updated here.
    fn inbound_step(&mut self, memory: &mut LinearMemory, reg: &BufferRegistration, msg: &InboundMessage) -> (r: Step)
        requires
            old(memory).wf(),
            old(self).wf(),
        ensures
            final(memory).wf(),
            final(self).wf(),
            inbound_effect(old(self).provisioned, old(self).instance, *reg, old(memory)@, final(memory)@,
                old(self).topics.command@, old(self).topics.virtual_button@, *msg, r),
            final(self).connected == match *msg {
                InboundMessage::BrokerConnected => true,
                InboundMessage::BrokerDisconnected => false,
                _ => old(self).connected,
            },
            final(self).reloading == (old(self).reloading || *msg is ModuleUpdateAvailable),
            final(self).same_instance(old(self)),
            final(self).commands@ == old(self).commands@,
            final(self).inbound@ == old(self).inbound@,
            final(self).arrived@ == old(self).arrived@,
            final(self).dispatched@ == old(self).dispatched@,
            *msg is BrokerConnected ==> (final(self).hello_due matches Some(h) && h@ == old(self).bundle_id@),
            !(*msg is BrokerConnected) ==> final(self).hello_due == old(self).hello_due,
    {
        match msg {
            InboundMessage::ModuleUpdateAvailable => {
                self.reloading = true;
                Step::Reload { shutdown: if self.provisioned { Some(self.entries.shutdown) } else { None } }
            },
            InboundMessage::BrokerConnected => {
                self.connected = true;
                self.hello_due = Some(self.bundle_id.clone());
                if self.provisioned {
                    Step::Call {
                        target: self.entries.set_connection_status,
                        call: SandboxCall::SetConnectionStatus(1),
                    }
                } else {
                    Step::Noted
                }
            },
            InboundMessage::BrokerDisconnected => {
                self.connected = false;
                if self.provisioned {
                    Step::Call {
                        target: self.entries.set_connection_status,
                        call: SandboxCall::SetConnectionStatus(0),
                    }
                } else {
                    Step::Noted
                }
            },
            InboundMessage::CommandReceived(p) => {
                if !self.provisioned {
                    return Step::NotSupported;
                }
                let topic = self.topics.command.as_str().as_bytes();
                match set_message_buffer(memory, reg, p.as_str().as_bytes(), topic) {
                    Ok((tl, pl)) => Step::Call {
                        target: self.entries.message_received,
                        call: SandboxCall::MessageReceived(tl, pl),
                    },
                    Err(e) => Step::MemoryFault(e),
                }
            },
            InboundMessage::VirtualButtonReceived(p) => {
                if !self.provisioned {
                    return Step::NotSupported;
                }
                let topic = self.topics.virtual_button.as_str().as_bytes();
                match set_message_buffer(memory, reg, p.as_str().as_bytes(), topic) {
                    Ok((tl, pl)) => Step::Call {
                        target: self.entries.message_received,
                        call: SandboxCall::MessageReceived(tl, pl),
                    },
                    Err(e) => Step::MemoryFault(e),
                }
            },
        }
    }
    /// Takes the next step. A due hello goes out before any other step, so a
    /// reloaded bundle is announced before the sandbox ticks again, and each
    /// successful connect is followed by a hello for the current bundle; inbound
    /// messages are dispatched in order of arrival; while no bundle is loaded
    /// nothing calls into the sandbox.
    pub fn next_step(&mut self, memory: &mut LinearMemory, reg: &BufferRegistration, now_ms: i64) -> (r: Step)
        requires
            old(memory).wf(),
            old(self).wf(),
        ensures
            final(memory).wf(),
            final(self).wf(),
            final(self).same_instance(old(self)),
            final(self).arrived() == old(self).arrived(),
            !old(self).provisioned() ==> !calls_sandbox(r),
            r matches Step::Call { target, call } ==> target.instance == old(self).instance(),
            old(self).upcoming() == StepKind::AwaitReload ==> {
                &&& r == Step::AwaitReload
                &&& final(memory)@ == old(memory)@
                &&& final(self).reloading() && final(self).connected() == old(self).connected()
                &&& final(self).hello_due() == old(self).hello_due()
                &&& final(self).commands() == old(self).commands()
                &&& final(self).pending() == old(self).pending()
                &&& final(self).dispatched() == old(self).dispatched()
            },
            old(self).upcoming() == StepKind::Hello ==> {
                &&& old(self).hello_due() matches Some(h) && r == Step::SendHello(h)
                &&& final(memory)@ == old(memory)@
                &&& !final(self).reloading() && final(self).connected() == old(self).connected()
                &&& final(self).hello_due() is None
                &&& final(self).commands() == old(self).commands()
                &&& final(self).pending() == old(self).pending()
                &&& final(self).dispatched() == old(self).dispatched()
            },
            old(self).upcoming() == StepKind::Command ==> {
                &&& cli_effect(old(self).provisioned(), old(self).instance(), *reg, old(memory)@, final(memory)@,
                    encode_utf8(old(self).commands()[0]@), r)
                &&& !final(self).reloading() && final(self).connected() == old(self).connected()
                &&& final(self).hello_due() is None
                &&& final(self).commands() == old(self).commands().drop_first()
                &&& final(self).pending() == old(self).pending()
                &&& final(self).dispatched() == old(self).dispatched()
            },
            old(self).upcoming() == StepKind::Inbound ==> {
                &&& inbound_effect(old(self).provisioned(), old(self).instance(), *reg, old(memory)@, final(memory)@,
                    old(self).command_topic(), old(self).button_topic(), old(self).pending()[0], r)
                &&& final(self).reloading() == old(self).pending()[0] is ModuleUpdateAvailable
                &&& final(self).connected() == match old(self).pending()[0] {
                    InboundMessage::BrokerConnected => true,
                    InboundMessage::BrokerDisconnected => false,
                    _ => old(self).connected(),
                }
                &&& old(self).pending()[0] is BrokerConnected ==> (final(self).hello_due() matches Some(h) && h@
                    == old(self).bundle_id_spec())
                &&& !(old(self).pending()[0] is BrokerConnected) ==> final(self).hello_due() is None
                &&& final(self).commands() == old(self).commands()
                &&& final(self).pending() == old(self).pending().drop_first()
                &&& final(self).dispatched() == old(self).dispatched().push(old(self).pending()[0])
            },
            old(self).upcoming() == StepKind::Tick ==> {
                &&& r == if old(self).provisioned() {
                    Step::Call { target: old(self).entries().tick, call: SandboxCall::Tick(now_ms) }
                } else {
                    Step::Idle
                }
                &&& final(memory)@ == old(memory)@
                &&& !final(self).reloading() && final(self).connected() == old(self).connected()
                &&& final(self).hello_due() is None
                &&& final(self).commands() == old(self).commands()
                &&& final(self).pending() == old(self).pending()
                &&& final(self).dispatched() == old(self).dispatched()
            },
    {
        if self.reloading {
            return Step::AwaitReload;
        }
        if self.hello_due.is_some() {
            let mut due: Option<String> = None;
            std::mem::swap(&mut due, &mut self.hello_due);
            return match due {
                Some(h) => Step::SendHello(h),
                None => Step::Idle,
            };
        }
        if self.commands.len() > 0 {
            let line = self.commands.remove(0);
            assert(self.commands@ =~= old(self).commands@.drop_first());
            return self.cli_step(memory, reg, line.as_str());
        }
        if self.inbound.len() > 0 {
            let msg = self.inbound.remove(0);
            let ghost prev = self.dispatched@;
            self.dispatched = Ghost(self.dispatched@.push(msg));
            assert(self.inbound@ =~= old(self).inbound@.drop_first());
            assert(self.dispatched@ + self.inbound@ =~= prev + old(self).inbound@);
            return self.inbound_step(memory, reg, &msg);
        }
        if self.provisioned {
            Step::Call { target: self.entries.tick, call: SandboxCall::Tick(now_ms) }
        } else {
            Step::Idle
        }
    }
}

/// Inbound messages are dispatched in the order in which they arrived: what has
/// been dispatched is a prefix of the arrivals, and the rest wait in order.
pub proof fn dispatch_follows_arrival(a: &Agent)
    requires
        a.wf(),
    ensures
        a.dispatched() == a.arrived().take(a.dispatched().len() as int),
        a.pending() == a.arrived().skip(a.dispatched().len() as int),
{
    assert(a.arrived().take(a.dispatched().len() as int) =~= a.dispatched());
    assert(a.arrived().skip(a.dispatched().len() as int) =~= a.pending());
}

/// After a reload installs instance `instance`, all five entry points belong to
/// that instance and to no other.
pub proof fn reload_resolves_only_new_instance(a: &Agent, instance: u64)
    requires
        a.wf(),
        a.instance() == instance,
    ensures
        a.entries().tick.instance == instance,
        a.entries().shutdown.instance == instance,
        a.entries().set_connection_status.instance == instance,
        a.entries().message_received.instance == instance,
        a.entries().direct_trigger.instance == instance,
{
}

/// Right after a reload (the state that `complete_reload` leaves), the next step
/// announces the new bundle identifier: no tick, command or message comes
/// before the hello.
pub proof fn hello_precedes_tick(a: &Agent)
    requires
        a.wf(),
        !a.reloading(),
        a.hello_due() matches Some(h) && h@ == a.bundle_id_spec(),
    ensures
        a.upcoming() == StepKind::Hello,
        a.upcoming() != StepKind::Tick,
{
}

} // verus!
