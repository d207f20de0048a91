use netcat::cli::{connection, decide, Decision, Switches};
use netcat::{parse_command_line, Command, Connection, Family, Flags, Transport};

fn args(a: &[&str]) -> Vec<String> {
    a.iter().map(|s| s.to_string()).collect()
}

fn run(a: &[&str]) -> netcat::Opts {
    match parse_command_line(&args(a)) {
        Ok(Command::Run(o)) => o,
        other => panic!("not a run: {:?}", other),
    }
}

#[test]
fn connect_mode_takes_host_and_port() {
    let o = run(&["nc", "example.org", "80"]);
    assert_eq!(o.host, "example.org");
    assert_eq!(o.port, "80");
    assert_eq!(o.flags, Flags { listen: false, shutdown: false });
    assert_eq!(o.family, None);
    assert_eq!(o.transport, Transport::Tcp);
}

#[test]
fn listen_mode_takes_a_port_alone() {
    let o = run(&["nc", "-l", "1234"]);
    assert_eq!(o.host, "");
    assert_eq!(o.port, "1234");
    assert!(o.flags.listen);
}

#[test]
fn single_argument_without_listen_is_a_usage_error() {
    match parse_command_line(&args(&["nc", "1234"])) {
        Ok(Command::Usage(t)) => assert!(t.starts_with("Usage: nc [options] [destination] [port]\n\nOptions:\n")),
        other => panic!("{:?}", other),
    }
}

#[test]
fn wrong_argument_count_is_a_usage_error() {
    assert!(matches!(parse_command_line(&args(&["nc"])), Ok(Command::Usage(_))));
    assert!(matches!(parse_command_line(&args(&["nc", "a", "b", "c"])), Ok(Command::Usage(_))));
}

#[test]
fn help_prints_usage() {
    match parse_command_line(&args(&["prog", "--help", "x"])) {
        Ok(Command::Help(t)) => {
            assert!(t.starts_with("Usage: prog [options] [destination] [port]\n\nOptions:\n"));
            assert!(t.contains("Listen mode, for inbound connects"));
        }
        other => panic!("{:?}", other),
    }
    assert!(matches!(parse_command_line(&args(&["prog", "-h"])), Ok(Command::Help(_))));
}

#[test]
fn unknown_option_is_refused() {
    assert_eq!(parse_command_line(&args(&["nc", "-x", "h", "p"])).unwrap_err(), "Unrecognized option: 'x'");
    assert_eq!(parse_command_line(&args(&["nc", "-I"])).unwrap_err(), "Argument to option 'I' missing");
}

#[test]
fn family_precedence_and_transport() {
    let o = run(&["nc", "-6", "-4", "-U", "-u", "h", "p"]);
    assert_eq!(o.family, Some(Family::IpV4));
    assert_eq!(o.transport, Transport::Udp);
    assert_eq!(run(&["nc", "-U", "-6", "h", "p"]).family, Some(Family::IpV6));
    assert_eq!(run(&["nc", "-U", "h", "p"]).family, Some(Family::Unix));
}

#[test]
fn shutdown_flag_and_buffer_options() {
    let o = run(&["nc", "-N", "-I", "4096", "-O", "10", "h", "p"]);
    assert!(o.flags.shutdown);
    assert_eq!(o.host, "h");
    assert_eq!(o.port, "p");
}

#[test]
fn decide_directly() {
    let sw = Switches { help: false, listen: true, ipv4: false, ipv6: false, unix: false, udp: false, shutdown: false };
    match decide(&sw, args(&["9"])) {
        Decision::Run(o) => assert_eq!((o.host.as_str(), o.port.as_str()), ("", "9")),
        d => panic!("{:?}", d),
    }
    let help = Switches { help: true, ..sw };
    assert!(matches!(decide(&help, args(&[])), Decision::Help));
}

#[test]
fn connections() {
    let o = run(&["nc", "-l", "1234"]);
    match connection(&o) {
        Connection::TcpListen { addr } => assert_eq!(addr, "0.0.0.0:1234"),
        c => panic!("{:?}", c),
    }
    let o = run(&["nc", "host", "80"]);
    match connection(&o) {
        Connection::TcpConnect { addr } => assert_eq!(addr, "host:80"),
        c => panic!("{:?}", c),
    }
    let o = run(&["nc", "-u", "-l", "53"]);
    match connection(&o) {
        Connection::UdpListen { addr, peek_len } => {
            assert_eq!(addr, "0.0.0.0:53");
            assert_eq!(peek_len, 2048);
        }
        c => panic!("{:?}", c),
    }
    let o = run(&["nc", "-u", "host", "53"]);
    match connection(&o) {
        Connection::UdpConnect { local, remote } => {
            assert_eq!(local, "0.0.0.0:0");
            assert_eq!(remote, "host:53");
        }
        c => panic!("{:?}", c),
    }
}

#[test]
fn refusal_messages() {
    assert_eq!(parse_command_line(&args(&["nc", "-l", "-l", "1"])).unwrap_err(), "Option 'l' given more than once");
    assert_eq!(parse_command_line(&args(&["nc", "--help=x"])).unwrap_err(), "Option 'help' does not take an argument");
}

#[test]
fn options_take_their_arguments() {
    // `-I` takes the next argument, so only `h p` remain free.
    let o = run(&["nc", "-I", "-l", "h", "p"]);
    assert!(!o.flags.listen);
    assert_eq!((o.host.as_str(), o.port.as_str()), ("h", "p"));
}
