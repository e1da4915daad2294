use almetica::opcode::Opcode;
use almetica::opcode_file::{parse_opcode_file, table_from_file, OpcodeFileError};

fn chars(s: &str) -> Vec<char> {
    s.chars().collect()
}

#[test]
fn opcode_file_with_indented_lines() {
    let text = chars(
        "
        C_CHECK_VERSION: 1
        S_CHECK_VERSION: 2
        ",
    );
    let entries = parse_opcode_file(&text).unwrap();
    assert_eq!(
        entries,
        vec![(Opcode::C_CHECK_VERSION, 1), (Opcode::S_CHECK_VERSION, 2)]
    );
    let t = table_from_file(&text).unwrap();
    assert_eq!(t.get(0), Opcode::UNKNOWN);
    assert_eq!(t.get(1), Opcode::C_CHECK_VERSION);
    assert_eq!(t.get(2), Opcode::S_CHECK_VERSION);
    assert_eq!(t.get(3), Opcode::UNKNOWN);
    assert_eq!(t.get_reverse(Opcode::S_CHECK_VERSION), Some(2));
}

#[test]
fn opcode_file_skips_comments_and_unknown_names() {
    let text = chars("# build 1234\r\nC_GET_USER_LIST:\t65535\r\nS_SOMETHING_NEW: 7\n\nS_GET_USER_LIST : 0");
    let entries = parse_opcode_file(&text).unwrap();
    assert_eq!(
        entries,
        vec![(Opcode::C_GET_USER_LIST, 65535), (Opcode::S_GET_USER_LIST, 0)]
    );
    let t = table_from_file(&text).unwrap();
    assert_eq!(t.get(7), Opcode::UNKNOWN);
    assert_eq!(t.get(65535), Opcode::C_GET_USER_LIST);
}

#[test]
fn opcode_file_errors() {
    assert_eq!(
        parse_opcode_file(&chars("C_CHECK_VERSION 1")),
        Err(OpcodeFileError::MissingSeparator)
    );
    assert_eq!(
        parse_opcode_file(&chars("C_CHECK_VERSION: 1x")),
        Err(OpcodeFileError::InvalidNumber)
    );
    assert_eq!(
        parse_opcode_file(&chars("C_CHECK_VERSION:")),
        Err(OpcodeFileError::InvalidNumber)
    );
    assert_eq!(
        parse_opcode_file(&chars("C_CHECK_VERSION: 65536")),
        Err(OpcodeFileError::NumberOutOfRange)
    );
    assert_eq!(
        table_from_file(&chars("C_CHECK_VERSION: 1\nS_CHECK_VERSION: 1")).err(),
        Some(OpcodeFileError::DuplicateNumber)
    );
    assert_eq!(
        table_from_file(&chars("C_CHECK_VERSION: 1\nC_CHECK_VERSION: 2")).err(),
        Some(OpcodeFileError::DuplicateName)
    );
}

#[test]
fn opcode_names_map_to_messages() {
    assert_eq!(Opcode::from_name(&chars("C_CHECK_USER_NAME")), Opcode::C_CHECK_USER_NAME);
    assert_eq!(Opcode::from_name(&chars("S_CAN_CREATE_USER")), Opcode::S_CAN_CREATE_USER);
    assert_eq!(Opcode::from_name(&chars("c_check_user_name")), Opcode::UNKNOWN);
    assert_eq!(Opcode::from_name(&chars("")), Opcode::UNKNOWN);
}
