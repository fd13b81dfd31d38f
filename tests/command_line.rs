use process_memory::args::{parse_address, parse_args, ArgError, Invocation, Operation};

fn args(list: &[&str]) -> Vec<String> {
    list.iter().map(|s| s.to_string()).collect()
}

#[test]
fn read_invocation() {
    let r = parse_args(args(&["prog", "--pid", "1234", "--address", "0x00400000", "--read"]));
    assert_eq!(r, Ok(Invocation { pid: 1234, address: 0x00400000, operation: Operation::Read }));
}

#[test]
fn write_invocation() {
    let r = parse_args(args(&["prog", "--write", "42", "--address", "4194304", "--pid", "9"]));
    assert_eq!(r, Ok(Invocation { pid: 9, address: 4194304, operation: Operation::Write(42) }));
}

#[test]
fn too_few_arguments() {
    assert_eq!(parse_args(args(&["prog"])), Err(ArgError::Usage));
    assert_eq!(parse_args(args(&["prog", "--pid", "1", "--read"])), Err(ArgError::Usage));
}

#[test]
fn later_flag_replaces_earlier() {
    let r = parse_args(args(&["prog", "--pid", "1", "--pid", "2", "--address", "0x10", "--read"]));
    assert_eq!(r, Ok(Invocation { pid: 2, address: 16, operation: Operation::Read }));
}

#[test]
fn invalid_numbers() {
    assert_eq!(
        parse_args(args(&["prog", "--pid", "1", "--address", "0xZZ", "--read"])),
        Err(ArgError::InvalidAddress("0xZZ".to_string()))
    );
    assert_eq!(
        parse_args(args(&["prog", "--pid", "1", "--address", "1", "--write", "-5"])),
        Err(ArgError::InvalidWriteValue("-5".to_string()))
    );
}

#[test]
fn non_numeric_pid_counts_as_missing() {
    assert_eq!(
        parse_args(args(&["prog", "--pid", "abc", "--address", "0x10", "--read"])),
        Err(ArgError::MissingPid)
    );
    assert_eq!(
        parse_args(args(&["prog", "--pid", "4294967296", "--address", "1", "--read"])),
        Err(ArgError::MissingPid)
    );
}

#[test]
fn later_valid_pid_is_taken() {
    let r = parse_args(args(&["prog", "--pid", "abc", "--pid", "5", "--address", "0x10", "--read"]));
    assert_eq!(r, Ok(Invocation { pid: 5, address: 16, operation: Operation::Read }));
}

#[test]
fn later_invalid_pid_unsets_earlier() {
    assert_eq!(
        parse_args(args(&["prog", "--pid", "5", "--pid", "x", "--address", "1", "--read"])),
        Err(ArgError::MissingPid)
    );
}

#[test]
fn unknown_and_dangling_flags() {
    assert_eq!(
        parse_args(args(&["prog", "--pid", "1", "--address", "1", "--bogus"])),
        Err(ArgError::Malformed("--bogus".to_string()))
    );
    assert_eq!(
        parse_args(args(&["prog", "--read", "--pid", "1", "--address"])),
        Err(ArgError::Malformed("--address".to_string()))
    );
}

#[test]
fn missing_parts() {
    assert_eq!(
        parse_args(args(&["prog", "--address", "1", "--read", "--read"])),
        Err(ArgError::MissingPid)
    );
    assert_eq!(parse_args(args(&["prog", "--pid", "1", "--read", "--read"])), Err(ArgError::MissingAddress));
    assert_eq!(parse_args(args(&["prog", "--pid", "1", "--address", "2"])), Err(ArgError::MissingMode));
}

#[test]
fn both_modes_conflict() {
    assert_eq!(
        parse_args(args(&["prog", "--pid", "1", "--address", "2", "--read", "--write", "3"])),
        Err(ArgError::ConflictingModes)
    );
}

#[test]
fn address_forms() {
    assert_eq!(parse_address("0x00400000"), Some(0x00400000));
    assert_eq!(parse_address("0xfF"), Some(255));
    assert_eq!(parse_address("400000"), Some(400000));
    assert_eq!(parse_address("+12"), Some(12));
    assert_eq!(parse_address("0x"), None);
    assert_eq!(parse_address(""), None);
    assert_eq!(parse_address("12a"), None);
    assert_eq!(parse_address("18446744073709551615"), Some(u64::MAX));
    assert_eq!(parse_address("18446744073709551616"), None);
    assert_eq!(parse_address("0xffffffffffffffff"), Some(u64::MAX));
    assert_eq!(parse_address("0x10000000000000000"), None);
}
