use acv::control::is_terminate;

#[test]
fn terminate_command_is_recognised() {
    assert!(is_terminate(b"terminate"));
}

#[test]
fn other_messages_do_not_terminate() {
    assert!(!is_terminate(b""));
    assert!(!is_terminate(b"terminat"));
    assert!(!is_terminate(b"terminate\n"));
    assert!(!is_terminate(b"Terminate"));
    assert!(!is_terminate(b"terminatf"));
}
