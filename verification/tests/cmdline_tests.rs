use childproc::cmdline::{parse_command, tokenize, SpawnRequest};
use childproc::lifecycle::ProcessError;

#[test]
fn tokenize_splits_on_spaces() {
    let tokens = tokenize(b"echo hello");
    assert_eq!(tokens, vec![b"echo".to_vec(), b"hello".to_vec()]);
}

#[test]
fn tokenize_handles_runs_of_whitespace() {
    let tokens = tokenize(b"  ls\t-l\n  /tmp \r\n");
    assert_eq!(tokens, vec![b"ls".to_vec(), b"-l".to_vec(), b"/tmp".to_vec()]);
}

#[test]
fn tokenize_empty_input_gives_no_tokens() {
    assert_eq!(tokenize(b""), Vec::<Vec<u8>>::new());
}

#[test]
fn tokenize_whitespace_only_gives_no_tokens() {
    assert_eq!(tokenize(b" \t \n "), Vec::<Vec<u8>>::new());
}

#[test]
fn tokenize_treats_form_feed_as_whitespace() {
    let tokens = tokenize(b"a\x0cb");
    assert_eq!(tokens, vec![b"a".to_vec(), b"b".to_vec()]);
}

#[test]
fn tokenize_single_word() {
    assert_eq!(tokenize(b"cat"), vec![b"cat".to_vec()]);
}

#[test]
fn parse_command_splits_program_and_args() {
    let request = parse_command(b"echo test argument").unwrap();
    assert_eq!(request.program, b"echo".to_vec());
    assert_eq!(request.args, vec![b"test".to_vec(), b"argument".to_vec()]);
}

#[test]
fn parse_command_program_alone_has_no_args() {
    let request = parse_command(b"true").unwrap();
    assert_eq!(request.program, b"true".to_vec());
    assert!(request.args.is_empty());
}

#[test]
fn parse_command_empty_is_invalid_state() {
    assert_eq!(parse_command(b"").unwrap_err(), ProcessError::InvalidState);
}

#[test]
fn parse_command_whitespace_only_is_invalid_state() {
    assert_eq!(parse_command(b"   ").unwrap_err(), ProcessError::InvalidState);
}

#[test]
fn spawn_request_rejects_empty_program() {
    let err = SpawnRequest::new(Vec::new(), vec![b"arg1".to_vec()]).unwrap_err();
    assert_eq!(err, ProcessError::InvalidState);
}

#[test]
fn spawn_request_keeps_program_and_args() {
    let request =
        SpawnRequest::new(b"echo".to_vec(), vec![b"hello world".to_vec(), b"second".to_vec()])
            .unwrap();
    assert_eq!(request.program, b"echo".to_vec());
    assert_eq!(request.args, vec![b"hello world".to_vec(), b"second".to_vec()]);
}
