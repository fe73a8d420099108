use edge_agent::agent::{Agent, LoadedBundle, SandboxCall, Step};
use edge_agent::bridge::BufferRegistration;
use edge_agent::cli::{parse_cli, CliCommand};
use edge_agent::config::Config;
use edge_agent::hello::hello_message;
use edge_agent::inbound::{classify_event, enqueue_events, BrokerEvent, InboundMessage, Topics};
use edge_agent::queue::FifoQueue;
use edge_agent::lifecycle::{
    configure_eea_wasm, get_exported_eea_apis, init_outcome, module_bytes, plan_load, BundleError, BundleSource,
    ConfigCall, EntryPoint, EntryRef, ModulePlan,
};
use edge_agent::memory::LinearMemory;
use std::io::Write;

fn topics() -> Topics {
    Topics::new("losant", "dev1")
}

fn running_agent(instance: u64) -> Agent {
    Agent::new(instance, LoadedBundle::Running("bundle-1".to_string()), topics())
}

fn entry(instance: u64, entry: EntryPoint) -> EntryRef {
    EntryRef { instance, entry }
}

fn registration() -> BufferRegistration {
    BufferRegistration { topic_ptr: 0, topic_cap: 64, payload_ptr: 64, payload_cap: 64 }
}

#[test]
fn cli_words_are_recognised() {
    assert_eq!(parse_cli(b"exit"), CliCommand::Exit);
    assert_eq!(parse_cli(b"info"), CliCommand::Info);
    assert_eq!(parse_cli(b"exits"), CliCommand::Unrecognized);
    assert_eq!(parse_cli(b""), CliCommand::Unrecognized);
    assert_eq!(
        parse_cli(b"direct myId123 { \"temp\": 98.7 }"),
        CliCommand::Direct { id: b"myId123".to_vec(), payload: b"{ \"temp\": 98.7 }".to_vec() }
    );
}

#[test]
fn direct_without_payload_is_rejected() {
    assert_eq!(parse_cli(b"direct abc"), CliCommand::MalformedDirect);
    assert_eq!(parse_cli(b"direct"), CliCommand::MalformedDirect);

    let mut agent = running_agent(1);
    let mut mem = LinearMemory::new(256);
    let reg = registration();
    agent.accept_commands(vec!["direct abc".to_string(), "info".to_string()]);
    assert_eq!(agent.next_step(&mut mem, &reg, 5), Step::FormatError);
    assert!(mem.as_bytes().iter().all(|b| *b == 0));
    assert_eq!(agent.next_step(&mut mem, &reg, 5), Step::ShowInfo);
    assert_eq!(
        agent.next_step(&mut mem, &reg, 5),
        Step::Call { target: entry(1, EntryPoint::Tick), call: SandboxCall::Tick(5) }
    );
}

#[test]
fn direct_trigger_encodes_identifier_and_payload() {
    let mut agent = running_agent(3);
    let mut mem = LinearMemory::new(256);
    let reg = registration();
    agent.accept_commands(vec!["direct trig {\"a\": 1}".to_string()]);
    assert_eq!(
        agent.next_step(&mut mem, &reg, 0),
        Step::Call { target: entry(3, EntryPoint::DirectTrigger), call: SandboxCall::DirectTrigger(4, 8) }
    );
    assert_eq!(&mem.as_bytes()[0..4], b"trig");
    assert_eq!(&mem.as_bytes()[64..72], b"{\"a\": 1}");
}

#[test]
fn inbound_messages_dispatch_in_arrival_order() {
    let mut agent = running_agent(1);
    let mut mem = LinearMemory::new(256);
    let reg = registration();
    agent.accept_inbound(vec![InboundMessage::BrokerConnected, InboundMessage::CommandReceived("go".to_string())]);
    agent.accept_inbound(vec![InboundMessage::BrokerDisconnected]);
    let set_status = entry(1, EntryPoint::SetConnectionStatus);
    assert_eq!(
        agent.next_step(&mut mem, &reg, 9),
        Step::Call { target: set_status, call: SandboxCall::SetConnectionStatus(1) }
    );
    assert!(agent.is_connected());
    assert_eq!(agent.next_step(&mut mem, &reg, 9), Step::SendHello("bundle-1".to_string()));
    let topic = "losant/dev1/command";
    assert_eq!(
        agent.next_step(&mut mem, &reg, 9),
        Step::Call {
            target: entry(1, EntryPoint::MessageReceived),
            call: SandboxCall::MessageReceived(topic.len() as i32, 2),
        }
    );
    assert_eq!(&mem.as_bytes()[0..topic.len()], topic.as_bytes());
    assert_eq!(&mem.as_bytes()[64..66], b"go");
    assert_eq!(
        agent.next_step(&mut mem, &reg, 9),
        Step::Call { target: set_status, call: SandboxCall::SetConnectionStatus(0) }
    );
    assert!(!agent.is_connected());
    assert_eq!(
        agent.next_step(&mut mem, &reg, 9),
        Step::Call { target: entry(1, EntryPoint::Tick), call: SandboxCall::Tick(9) }
    );
}

#[test]
fn commands_go_before_inbound_messages() {
    let mut agent = running_agent(1);
    let mut mem = LinearMemory::new(256);
    let reg = registration();
    agent.accept_inbound(vec![InboundMessage::BrokerConnected]);
    agent.accept_commands(vec!["info".to_string()]);
    assert_eq!(agent.next_step(&mut mem, &reg, 0), Step::ShowInfo);
    assert!(matches!(agent.next_step(&mut mem, &reg, 0), Step::Call { .. }));
}

#[test]
fn unprovisioned_agent_never_calls_the_sandbox() {
    let mut agent = Agent::new(0, LoadedBundle::Unprovisioned, topics());
    assert!(!agent.is_provisioned());
    assert_eq!(agent.bundle_id(), "nullVersion");
    let mut mem = LinearMemory::new(256);
    let reg = registration();
    agent.accept_inbound(vec![
        InboundMessage::CommandReceived("x".to_string()),
        InboundMessage::VirtualButtonReceived("y".to_string()),
        InboundMessage::BrokerConnected,
    ]);
    agent.accept_commands(vec!["direct a b".to_string(), "exit".to_string()]);
    assert_eq!(agent.next_step(&mut mem, &reg, 0), Step::NotSupported);
    assert_eq!(agent.next_step(&mut mem, &reg, 0), Step::Exit { shutdown: None });
    assert_eq!(agent.next_step(&mut mem, &reg, 0), Step::NotSupported);
    assert_eq!(agent.next_step(&mut mem, &reg, 0), Step::NotSupported);
    assert_eq!(agent.next_step(&mut mem, &reg, 0), Step::Noted);
    assert!(agent.is_connected());
    assert_eq!(agent.next_step(&mut mem, &reg, 0), Step::SendHello("nullVersion".to_string()));
    assert_eq!(agent.next_step(&mut mem, &reg, 0), Step::Idle);
    assert!(mem.as_bytes().iter().all(|b| *b == 0));
}

#[test]
fn reload_announces_new_bundle_before_next_tick() {
    let mut agent = running_agent(1);
    let mut mem = LinearMemory::new(256);
    let reg = registration();
    agent.accept_inbound(vec![InboundMessage::ModuleUpdateAvailable, InboundMessage::BrokerConnected]);
    assert_eq!(
        agent.next_step(&mut mem, &reg, 0),
        Step::Reload { shutdown: Some(entry(1, EntryPoint::Shutdown)) }
    );
    assert_eq!(agent.next_step(&mut mem, &reg, 0), Step::AwaitReload);
    agent.complete_reload(2, LoadedBundle::Running("bundle-2".to_string()));
    assert_eq!(agent.bundle_id(), "bundle-2");
    assert_eq!(agent.next_step(&mut mem, &reg, 7), Step::SendHello("bundle-2".to_string()));
    assert_eq!(
        agent.next_step(&mut mem, &reg, 7),
        Step::Call { target: entry(2, EntryPoint::SetConnectionStatus), call: SandboxCall::SetConnectionStatus(1) }
    );
    assert_eq!(agent.next_step(&mut mem, &reg, 7), Step::SendHello("bundle-2".to_string()));
    assert_eq!(
        agent.next_step(&mut mem, &reg, 7),
        Step::Call { target: entry(2, EntryPoint::Tick), call: SandboxCall::Tick(7) }
    );
}

#[test]
fn first_bundle_reload_from_unprovisioned() {
    let mut agent = Agent::new(0, LoadedBundle::Unprovisioned, topics());
    let mut mem = LinearMemory::new(64);
    let reg = registration();
    agent.accept_inbound(vec![InboundMessage::ModuleUpdateAvailable]);
    assert_eq!(agent.next_step(&mut mem, &reg, 0), Step::Reload { shutdown: None });
    agent.complete_reload(1, LoadedBundle::Running("first".to_string()));
    assert!(agent.is_provisioned());
    assert_eq!(agent.next_step(&mut mem, &reg, 0), Step::SendHello("first".to_string()));
}

#[test]
fn exit_shuts_down_running_instance() {
    let mut agent = running_agent(4);
    let mut mem = LinearMemory::new(64);
    agent.accept_commands(vec!["exit".to_string()]);
    assert_eq!(
        agent.next_step(&mut mem, &registration(), 0),
        Step::Exit { shutdown: Some(entry(4, EntryPoint::Shutdown)) }
    );
}

#[test]
fn message_outside_memory_is_a_fault() {
    let mut agent = running_agent(1);
    let mut mem = LinearMemory::new(16);
    agent.accept_inbound(vec![InboundMessage::VirtualButtonReceived("press".to_string())]);
    assert!(matches!(agent.next_step(&mut mem, &registration(), 0), Step::MemoryFault(_)));
}

#[test]
fn entry_points_belong_to_one_instance() {
    let e = get_exported_eea_apis(9);
    for r in [e.tick, e.shutdown, e.set_connection_status, e.message_received, e.direct_trigger] {
        assert_eq!(r.instance, 9);
    }
    assert_eq!(e.direct_trigger.entry, EntryPoint::DirectTrigger);
}

#[test]
fn topics_live_under_base_and_device() {
    let t = topics();
    assert_eq!(t.update, "losant/dev1/toAgent/flows");
    assert_eq!(t.command, "losant/dev1/command");
    assert_eq!(t.virtual_button, "losant/dev1/toAgent/virtualButton");
    assert_eq!(t.to_agent, "losant/dev1/toAgent/#");
    assert_eq!(t.hello, "losant/dev1/fromAgent/hello");
}

#[test]
fn broker_events_are_classified() {
    let t = topics();
    let publish = |topic: &str, payload: &[u8]| BrokerEvent::Publish { topic: topic.to_string(), payload: payload.to_vec() };
    assert_eq!(classify_event(&t, publish("losant/dev1/toAgent/flows", b"\x00asm")), Some(InboundMessage::ModuleUpdateAvailable));
    assert_eq!(
        classify_event(&t, publish("losant/dev1/command", b"{\"name\":\"x\"}")),
        Some(InboundMessage::CommandReceived("{\"name\":\"x\"}".to_string()))
    );
    assert_eq!(
        classify_event(&t, publish("losant/dev1/toAgent/virtualButton", b"{}")),
        Some(InboundMessage::VirtualButtonReceived("{}".to_string()))
    );
    assert_eq!(classify_event(&t, publish("losant/dev1/command", &[0xff])), None);
    assert_eq!(classify_event(&t, publish("losant/other", b"{}")), None);
    assert_eq!(classify_event(&t, BrokerEvent::ConnAck { accepted: true }), Some(InboundMessage::BrokerConnected));
    assert_eq!(classify_event(&t, BrokerEvent::ConnAck { accepted: false }), Some(InboundMessage::BrokerDisconnected));
    assert_eq!(classify_event(&t, BrokerEvent::ConnectionError), Some(InboundMessage::BrokerDisconnected));
    assert_eq!(classify_event(&t, BrokerEvent::Other), None);
}

fn gzip(data: &[u8]) -> Vec<u8> {
    let mut encoder = libflate::gzip::Encoder::new(Vec::new()).unwrap();
    encoder.write_all(data).unwrap();
    encoder.finish().into_result().unwrap()
}

#[test]
fn gzip_bundles_are_decompressed() {
    let module = b"\x00asm\x01\x00\x00\x00".to_vec();
    let packed = gzip(&module);
    assert_ne!(packed, module);
    assert_eq!(module_bytes(packed.clone(), true), Ok(module.clone()));
    assert_eq!(module_bytes(packed.clone(), false), Ok(packed));
    assert_eq!(module_bytes(module.clone(), true), Err(BundleError::NotGzip));
}

#[test]
fn missing_bundle_loads_unprovisioned() {
    assert_eq!(plan_load(BundleSource::Missing, true), Ok(ModulePlan::Unprovisioned));
    assert_eq!(plan_load(BundleSource::Present(vec![1, 2]), false), Ok(ModulePlan::Compile(vec![1, 2])));
    assert_eq!(plan_load(BundleSource::Present(vec![1, 2]), true), Err(BundleError::NotGzip));
}

#[test]
fn configuration_precedes_init() {
    assert_eq!(
        configure_eea_wasm(2, 4096, 60),
        vec![ConfigCall::SetTraceLevel(2), ConfigCall::SetStorageSize(4096), ConfigCall::SetStorageInterval(60)]
    );
    assert_eq!(init_outcome(0), Ok(()));
    assert_eq!(init_outcome(3), Err(3));
}

fn config(version: &str, stack_size: i32) -> Config {
    Config {
        eea_broker: "broker.example.com".to_string(),
        eea_device_id: "dev1".to_string(),
        eea_access_key: "key".to_string(),
        eea_access_secret: "secret".to_string(),
        eea_base_topic: "losant".to_string(),
        eea_trace_topic_level: 2,
        eea_version: version.to_string(),
        eea_stack_size: stack_size,
        eea_export_memory: false,
        eea_disable_debug_msg: true,
        eea_debug_symbols: false,
        eea_bundle_gzip: true,
        eea_bundle_path: "bundle.wasm".to_string(),
        eea_storage_size: 4096,
        eea_storage_interval: 60,
        eea_storage_path: "storage.json".to_string(),
        eea_main_loop_interval: 100,
    }
}

#[test]
fn hello_reports_bundle_and_options() {
    assert_eq!(
        hello_message(&config("1.0.3", -32768), "bundle-2"),
        "{\"service\":\"embeddedWorkflowAgent\",\"version\":\"1.0.3\",\"bundle\":\"bundle-2\",\
\"compilerOptions\":{\"exportMemory\":false,\"disableDebugMessage\":true,\"traceLevel\":2,\
\"debugSymbols\":false,\"stackSize\":-32768,\"gzip\":true}}"
    );
    let quoted = config("a\"b", 65536);
    assert!(hello_message(&quoted, "x").contains("\"version\":\"a\\\"b\""));
    assert!(hello_message(&quoted, "x").contains("\"stackSize\":65536"));
}

#[test]
fn every_connect_announces_the_bundle() {
    let mut agent = running_agent(1);
    let mut mem = LinearMemory::new(64);
    let reg = registration();
    agent.accept_inbound(vec![
        InboundMessage::BrokerConnected,
        InboundMessage::BrokerDisconnected,
        InboundMessage::BrokerConnected,
    ]);
    let set_status = entry(1, EntryPoint::SetConnectionStatus);
    assert_eq!(agent.next_step(&mut mem, &reg, 0), Step::Call { target: set_status, call: SandboxCall::SetConnectionStatus(1) });
    assert_eq!(agent.next_step(&mut mem, &reg, 0), Step::SendHello("bundle-1".to_string()));
    assert_eq!(agent.next_step(&mut mem, &reg, 0), Step::Call { target: set_status, call: SandboxCall::SetConnectionStatus(0) });
    assert_eq!(agent.next_step(&mut mem, &reg, 0), Step::Call { target: set_status, call: SandboxCall::SetConnectionStatus(1) });
    assert_eq!(agent.next_step(&mut mem, &reg, 0), Step::SendHello("bundle-1".to_string()));
    assert_eq!(agent.next_step(&mut mem, &reg, 0), Step::Call { target: entry(1, EntryPoint::Tick), call: SandboxCall::Tick(0) });
}

#[test]
fn bundle_reporting_default_identifier_is_unprovisioned() {
    let mut agent = Agent::new(1, LoadedBundle::Running("nullVersion".to_string()), topics());
    assert!(!agent.is_provisioned());
    let mut mem = LinearMemory::new(64);
    agent.accept_inbound(vec![InboundMessage::CommandReceived("x".to_string())]);
    assert_eq!(agent.next_step(&mut mem, &registration(), 0), Step::NotSupported);
    assert_eq!(agent.next_step(&mut mem, &registration(), 0), Step::Idle);
    agent.complete_reload(2, LoadedBundle::Running("real".to_string()));
    assert!(agent.is_provisioned());
    agent.complete_reload(3, LoadedBundle::Running("nullVersion".to_string()));
    assert!(!agent.is_provisioned());
}

#[test]
fn listener_queues_events_in_order() {
    let t = topics();
    let mut queue: FifoQueue<InboundMessage> = FifoQueue::new();
    queue.push(InboundMessage::BrokerDisconnected);
    let publish = |topic: &str, payload: &[u8]| BrokerEvent::Publish { topic: topic.to_string(), payload: payload.to_vec() };
    enqueue_events(
        &t,
        &mut queue,
        vec![
            BrokerEvent::ConnAck { accepted: true },
            publish("losant/dev1/command", b"a"),
            BrokerEvent::Other,
            publish("losant/dev1/toAgent/virtualButton", b"b"),
            publish("losant/dev1/toAgent/flows", b"\x00asm"),
        ],
    );
    enqueue_events(&t, &mut queue, vec![BrokerEvent::ConnectionError]);
    assert_eq!(
        queue.drain(),
        vec![
            InboundMessage::BrokerDisconnected,
            InboundMessage::BrokerConnected,
            InboundMessage::CommandReceived("a".to_string()),
            InboundMessage::VirtualButtonReceived("b".to_string()),
            InboundMessage::ModuleUpdateAvailable,
            InboundMessage::BrokerDisconnected,
        ]
    );
}
