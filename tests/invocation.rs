use hledger_lib::{command_output, hledger_binary, launch_error, HLedgerError};

#[test]
fn failed_run_keeps_code_and_stderr() {
    let stderr = b"hledger: nonexistent.journal: openFile: does not exist\n".to_vec();
    match command_output(false, Some(1), Vec::new(), &stderr) {
        Err(HLedgerError::CommandFailed { code, stderr }) => {
            assert_ne!(code, 0);
            assert_eq!(code, 1);
            assert_eq!(stderr, "hledger: nonexistent.journal: openFile: does not exist\n");
        }
        other => panic!("expected CommandFailed, got {:?}", other),
    }
    match command_output(false, None, Vec::new(), &vec![0xff, b'x']) {
        Err(HLedgerError::CommandFailed { code, stderr }) => {
            assert_eq!(code, -1);
            assert_eq!(stderr, "\u{FFFD}x");
        }
        other => panic!("expected CommandFailed, got {:?}", other),
    }
}

#[test]
fn successful_run_must_be_utf8() {
    assert_eq!(command_output(true, Some(0), "[1]".as_bytes().to_vec(), &Vec::new()).unwrap(), "[1]");
    assert!(matches!(
        command_output(true, Some(0), vec![0xc3, 0x28], &Vec::new()),
        Err(HLedgerError::InvalidUtf8(_))
    ));
}

#[test]
fn launch_errors_are_classified() {
    let e = std::io::Error::new(std::io::ErrorKind::NotFound, "missing");
    assert!(matches!(launch_error(true, e), HLedgerError::HLedgerNotFound));
    let e = std::io::Error::new(std::io::ErrorKind::PermissionDenied, "denied");
    assert!(matches!(launch_error(false, e), HLedgerError::Io(_)));
}

#[test]
fn binary_defaults_to_hledger() {
    assert_eq!(hledger_binary(None), "hledger");
    assert_eq!(hledger_binary(Some("/opt/bin/hledger")), "/opt/bin/hledger");
}
