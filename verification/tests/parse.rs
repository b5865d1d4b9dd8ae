use stringprep::parse::parse_table_line;

#[test]
fn parse_single_code_point() {
    let line = parse_table_line("   0221").unwrap();
    assert_eq!(line.start, 0x0221);
    assert_eq!(line.end, 0x0221);
    assert!(line.repl.is_empty());
}

#[test]
fn parse_range() {
    let line = parse_table_line("   0234-024F").unwrap();
    assert_eq!(line.start, 0x0234);
    assert_eq!(line.end, 0x024F);
    assert!(line.repl.is_empty());
}

#[test]
fn parse_replacement() {
    let line = parse_table_line("   00DF; 0073 0073;").unwrap();
    assert_eq!(line.start, 0x00DF);
    assert_eq!(line.end, 0x00DF);
    assert_eq!(line.repl, vec![0x0073, 0x0073]);
}

#[test]
fn parse_four_character_replacement() {
    let line = parse_table_line("   FB03; 0066 0066 0069;").unwrap();
    assert_eq!(line.repl, vec![0x0066, 0x0066, 0x0069]);
    let line = parse_table_line("   1D6D3; 03C2 03C2 03C2 03C2;").unwrap();
    assert_eq!(line.repl, vec![0x03C2, 0x03C2, 0x03C2, 0x03C2]);
}

#[test]
fn parse_empty_replacement() {
    let line = parse_table_line("   00AD; ;").unwrap();
    assert_eq!(line.start, 0x00AD);
    assert_eq!(line.end, 0x00AD);
    assert!(line.repl.is_empty());
}

#[test]
fn parse_range_with_replacement() {
    let line = parse_table_line("0041-005A; 0061;").unwrap();
    assert_eq!(line.start, 0x0041);
    assert_eq!(line.end, 0x005A);
    assert_eq!(line.repl, vec![0x0061]);
}

#[test]
fn parse_five_digit_code_point() {
    let line = parse_table_line("   10400-10425").unwrap();
    assert_eq!(line.start, 0x10400);
    assert_eq!(line.end, 0x10425);
}

#[test]
fn parse_trailing_spaces() {
    let line = parse_table_line("0221   ").unwrap();
    assert_eq!(line.start, 0x0221);
}

#[test]
fn parse_rejects_non_data_lines() {
    assert!(parse_table_line("").is_none());
    assert!(parse_table_line("   ----- Start Table A.1 -----").is_none());
    assert!(parse_table_line("Hoffman & Blanchet").is_none());
    assert!(parse_table_line("   00ad").is_none());
    assert!(parse_table_line("   0123456").is_none());
    assert!(parse_table_line("   0221-").is_none());
    assert!(parse_table_line("   00DF; 0073").is_none());
}
