use kakuremino::transport::i2p::{reply_is_ok, SamAction, SamEvent, SamMachine};
use kakuremino::Error;

fn ok() -> SamEvent {
    SamEvent::Completed(String::new())
}

fn line(s: &str) -> SamEvent {
    SamEvent::Completed(s.to_string())
}

fn expect_send(a: SamAction, text: &str) {
    match a {
        SamAction::Send(c) => assert_eq!(c, text),
        other => panic!("expected a command, got {:?}", other),
    }
}

/// Runs one exchange that the router accepts, starting from its Send action.
fn accept(m: &mut SamMachine, a: SamAction, command: &str) -> SamAction {
    expect_send(a, command);
    assert!(matches!(m.step(ok()), SamAction::Flush));
    assert!(matches!(m.step(ok()), SamAction::ReadLine));
    m.step(line("REPLY RESULT=OK\n"))
}

const HELLO: &str = "HELLO VERSION MIN=3.1 MAX=3.3\n";

#[test]
fn reply_check() {
    assert!(reply_is_ok("HELLO REPLY RESULT=OK VERSION=3.1\n"));
    assert!(!reply_is_ok("HELLO REPLY RESULT=I2P_ERROR\n"));
    assert!(!reply_is_ok(""));
}

#[test]
fn invalid_i2p_rejected() {
    let r = SamMachine::connect("127.0.0.1:19997", "not-an-i2p-addr.com");
    match r {
        Err(e) => assert_eq!(
            e,
            Error::InvalidAddress("expected .i2p address, got: not-an-i2p-addr.com".into())
        ),
        Ok(_) => panic!("address accepted"),
    }
}

#[test]
fn connect_dialogue_in_full() {
    let (mut m, a) = SamMachine::connect("127.0.0.1:7656", "abc.b32.i2p").unwrap();
    assert!(matches!(a, SamAction::Open));
    let a = m.step(ok());
    let a = accept(&mut m, a, HELLO);
    let a = accept(
        &mut m,
        a,
        "SESSION CREATE STYLE=STREAM ID=kakuremino DESTINATION=TRANSIENT\n",
    );
    assert!(matches!(a, SamAction::Open));
    let a = m.step(ok());
    let a = accept(&mut m, a, HELLO);
    let a = accept(
        &mut m,
        a,
        "STREAM CONNECT ID=kakuremino DESTINATION=abc.b32.i2p\n",
    );
    assert!(matches!(a, SamAction::Finish(Ok(()))));
    assert!(m.is_finished());
    assert!(matches!(m.step(ok()), SamAction::Finish(Ok(()))));
}

#[test]
fn connect_refused_by_router() {
    let (mut m, _) = SamMachine::connect("127.0.0.1:7656", "abc.i2p").unwrap();
    let a = m.step(ok());
    let a = accept(&mut m, a, HELLO);
    let a = accept(
        &mut m,
        a,
        "SESSION CREATE STYLE=STREAM ID=kakuremino DESTINATION=TRANSIENT\n",
    );
    let a2 = m.step(ok());
    let a3 = accept(&mut m, a2, HELLO);
    assert!(matches!(a, SamAction::Open));
    expect_send(a3, "STREAM CONNECT ID=kakuremino DESTINATION=abc.i2p\n");
    m.step(ok());
    m.step(ok());
    let end = m.step(line("STREAM STATUS RESULT=CANT_REACH_PEER\n"));
    match end {
        SamAction::Finish(Err(e)) => assert_eq!(
            e,
            Error::Connection(
                "SAM stream connect to abc.i2p failed: STREAM STATUS RESULT=CANT_REACH_PEER\n".into()
            )
        ),
        other => panic!("unexpected {:?}", other),
    }
    assert!(m.is_finished());
}

#[test]
fn unreachable_bridge() {
    let (mut m, a) = SamMachine::probe("127.0.0.1:19997");
    assert!(matches!(a, SamAction::Open));
    let end = m.step(SamEvent::Failed("Connection refused (os error 111)".into()));
    match end {
        SamAction::Finish(Err(e)) => assert_eq!(
            e,
            Error::Connection("SAM connect to 127.0.0.1:19997: Connection refused (os error 111)".into())
        ),
        other => panic!("unexpected {:?}", other),
    }
    assert!(m.is_finished());
}

#[test]
fn probe_succeeds_after_greeting() {
    let (mut m, _) = SamMachine::probe("127.0.0.1:7656");
    let a = m.step(ok());
    let a = accept(&mut m, a, HELLO);
    assert!(matches!(a, SamAction::Finish(Ok(()))));
}

#[test]
fn refused_greeting_is_bootstrap_error() {
    let (mut m, _) = SamMachine::probe("127.0.0.1:7656");
    let a = m.step(ok());
    expect_send(a, HELLO);
    m.step(ok());
    m.step(ok());
    match m.step(line("HELLO REPLY RESULT=NOVERSION\n")) {
        SamAction::Finish(Err(e)) => {
            assert_eq!(e, Error::Bootstrap("SAM hello failed: HELLO REPLY RESULT=NOVERSION\n".into()))
        }
        other => panic!("unexpected {:?}", other),
    }
}

#[test]
fn write_and_flush_failures_name_their_step() {
    let (mut m, _) = SamMachine::probe("h:1");
    m.step(ok());
    match m.step(SamEvent::Failed("broken pipe".into())) {
        SamAction::Finish(Err(e)) => assert_eq!(e, Error::Connection("SAM hello write: broken pipe".into())),
        other => panic!("unexpected {:?}", other),
    }
    let (mut m, _) = SamMachine::probe("h:1");
    m.step(ok());
    m.step(ok());
    match m.step(SamEvent::Failed("reset".into())) {
        SamAction::Finish(Err(e)) => assert_eq!(e, Error::Connection("SAM hello flush: reset".into())),
        other => panic!("unexpected {:?}", other),
    }
    let (mut m, _) = SamMachine::probe("h:1");
    m.step(ok());
    m.step(ok());
    m.step(ok());
    match m.step(SamEvent::Failed("eof".into())) {
        SamAction::Finish(Err(e)) => assert_eq!(e, Error::Connection("SAM hello read: eof".into())),
        other => panic!("unexpected {:?}", other),
    }
}

#[test]
fn new_identity_dialogue() {
    let (mut m, _) = SamMachine::new_identity("127.0.0.1:7656");
    let a = m.step(ok());
    let a = accept(&mut m, a, HELLO);
    expect_send(a, "SESSION CREATE STYLE=STREAM ID=kakuremino-identity DESTINATION=TRANSIENT\n");
    m.step(ok());
    m.step(ok());
    match m.step(line("SESSION STATUS RESULT=DUPLICATED_ID\n")) {
        SamAction::Finish(Err(e)) => assert_eq!(
            e,
            Error::Bootstrap("SAM session create failed: SESSION STATUS RESULT=DUPLICATED_ID\n".into())
        ),
        other => panic!("unexpected {:?}", other),
    }
}

#[test]
fn lookup_ends_with_error_either_way() {
    let (mut m, _) = SamMachine::lookup("127.0.0.1:7656", "example.i2p");
    let a = m.step(ok());
    let a = accept(&mut m, a, HELLO);
    let a = accept(&mut m, a, "NAMING LOOKUP NAME=example.i2p\n");
    assert!(matches!(a, SamAction::Finish(Err(Error::Transport(_)))));

    let (mut m, _) = SamMachine::lookup("127.0.0.1:7656", "example.i2p");
    let a = m.step(ok());
    let a = accept(&mut m, a, HELLO);
    expect_send(a, "NAMING LOOKUP NAME=example.i2p\n");
    m.step(ok());
    m.step(ok());
    match m.step(line("NAMING REPLY RESULT=KEY_NOT_FOUND\n")) {
        SamAction::Finish(Err(e)) => assert_eq!(
            e,
            Error::Connection(
                "SAM naming lookup for example.i2p failed: NAMING REPLY RESULT=KEY_NOT_FOUND\n".into()
            )
        ),
        other => panic!("unexpected {:?}", other),
    }
}

#[test]
fn second_connection_failure_is_named() {
    let (mut m, _) = SamMachine::connect("127.0.0.1:7656", "x.i2p").unwrap();
    let a = m.step(ok());
    let a = accept(&mut m, a, HELLO);
    let a = accept(&mut m, a, "SESSION CREATE STYLE=STREAM ID=kakuremino DESTINATION=TRANSIENT\n");
    assert!(matches!(a, SamAction::Open));
    match m.step(SamEvent::Failed("refused".into())) {
        SamAction::Finish(Err(e)) => assert_eq!(
            e,
            Error::Connection("SAM stream connect to 127.0.0.1:7656: refused".into())
        ),
        other => panic!("unexpected {:?}", other),
    }
}

#[test]
fn every_script_ends_within_bound() {
    // Four events per stage at most, whatever they say.
    let (mut m, _) = SamMachine::connect("127.0.0.1:7656", "x.i2p").unwrap();
    let mut n = 0;
    while !m.is_finished() {
        m.step(line("RESULT=OK"));
        n += 1;
        assert!(n <= 4 * 6);
    }
}
