use remotecli::auth::Certificate;
use remotecli::auth::TrustConfiguration;
use remotecli::descriptor::build;
use remotecli::engine::EngineConfig;
use remotecli::engine::ErrorKind;
use remotecli::greeter::GreeterService;
use remotecli::greeter::MyHelloWorld;
use remotecli::greeter::create_server;
use remotecli::options::RemoteCommandOptions;
use remotecli::options::ServerOptions;
use remotecli::options::SubCommand;
use remotecli::policy::Policy;
use remotecli::singleton::Singleton;

#[test]
fn build_splits_program_and_arguments() {
    let d = build(vec!["ls".to_string(), "-a".to_string(), "-l".to_string()], true)
        .expect("a named program builds");
    assert_eq!(d.program, "ls");
    assert_eq!(d.arguments, vec!["-a".to_string(), "-l".to_string()]);
    assert!(d.verbose);
}

#[test]
fn build_accepts_a_bare_program() {
    let d = build(vec!["date".to_string()], false).expect("a bare program builds");
    assert_eq!(d.program, "date");
    assert!(d.arguments.is_empty());
}

#[test]
fn build_rejects_an_empty_command() {
    assert_eq!(build(Vec::new(), false), Err(ErrorKind::SpawnFailed));
}

#[test]
fn build_rejects_an_empty_program_name() {
    assert_eq!(
        build(vec![String::new(), "-l".to_string()], false),
        Err(ErrorKind::SpawnFailed)
    );
}

#[test]
fn greeter_answers_with_the_name() {
    let service = GreeterService::new();
    assert_eq!(service.say_hello("world"), "Hello, world!");
    assert_eq!(service.say_hello(""), "Hello, !");
}

#[test]
fn default_greeter_behaves_like_a_new_one() {
    let service = GreeterService::default();
    assert_eq!(service.say_hello("peer"), "Hello, peer!");
}

fn context() -> Singleton {
    let anchor = Certificate { subject: 1, issuer: 1, not_before: 0, not_after: 1000 };
    let trust = TrustConfiguration {
        server_certificate: Certificate { subject: 2, issuer: 1, not_before: 0, not_after: 1000 },
        anchors: vec![anchor],
    };
    Singleton::new(
        trust,
        Policy::AllowAll,
        EngineConfig { timeout_ms: 1000, max_captured_bytes: 1024 },
    )
}

#[test]
fn hello_service_carries_the_context() {
    let singleton = context();
    let service = MyHelloWorld::new(singleton.clone());
    assert_eq!(service.singleton, singleton);
    assert_eq!(service.hello("operator"), "Hello, operator!");
}

#[test]
fn create_server_wraps_the_context() {
    let singleton = context();
    let server = create_server(singleton.clone());
    assert_eq!(server.singleton, singleton);
}

#[test]
fn server_options_default_to_localhost() {
    let opts = ServerOptions::default();
    assert_eq!(opts.server_listen_addr, "127.0.0.1:50051");
}

#[test]
fn run_options_default_to_localhost_and_no_command() {
    let opts = RemoteCommandOptions::default();
    assert_eq!(opts.server_addr, "http://127.0.0.1:50051");
    assert!(opts.command.is_empty());
}

#[test]
fn subcommands_carry_their_options() {
    let sub = SubCommand::StartServer(ServerOptions::default());
    match sub {
        SubCommand::StartServer(opts) => assert_eq!(opts.server_listen_addr, "127.0.0.1:50051"),
        SubCommand::Run(_) => panic!("built the server subcommand"),
    }
    let sub = SubCommand::Run(RemoteCommandOptions {
        server_addr: "http://10.0.0.1:50051".to_string(),
        command: vec!["uptime".to_string()],
    });
    match sub {
        SubCommand::Run(opts) => assert_eq!(opts.command, vec!["uptime".to_string()]),
        SubCommand::StartServer(_) => panic!("built the run subcommand"),
    }
}
