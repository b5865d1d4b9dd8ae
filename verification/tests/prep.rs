use stringprep::{nameprep, saslprep, Error, ErrorCause};

fn prohibited_char(r: Result<String, Error>) -> char {
    match r {
        Err(Error(ErrorCause::ProhibitedCharacter(c))) => c,
        other => panic!("expected a prohibited-character error, got {:?}", other),
    }
}

fn bidi_error(r: Result<String, Error>) {
    match r {
        Err(Error(ErrorCause::ProhibitedBidirectionalText)) => (),
        other => panic!("expected a bidirectional-text error, got {:?}", other),
    }
}

#[test]
fn saslprep_examples() {
    match saslprep("\u{0007}") {
        Err(Error(ErrorCause::ProhibitedCharacter(_))) => (),
        _ => assert!(false),
    }
}

#[test]
fn saslprep_preserves_ascii_case() {
    assert_eq!(saslprep("user").unwrap(), "user");
    assert_eq!(saslprep("USER").unwrap(), "USER");
    assert_eq!(saslprep("I Love Rust 2").unwrap(), "I Love Rust 2");
}

#[test]
fn saslprep_deletes_mapped_to_nothing() {
    assert_eq!(saslprep("I\u{00AD}X").unwrap(), "IX");
    assert_eq!(saslprep("\u{00AD}").unwrap(), "");
    assert_eq!(saslprep("a\u{FE00}b\u{034F}c").unwrap(), "abc");
}

#[test]
fn saslprep_folds_non_ascii_space() {
    assert_eq!(saslprep("a\u{00A0}b").unwrap(), "a b");
    assert_eq!(saslprep("a\u{3000}b").unwrap(), "a b");
    // A zero-width space is also mapped to nothing, and deletion wins.
    assert_eq!(saslprep("a\u{200B}b").unwrap(), "ab");
}

#[test]
fn saslprep_normalizes_compatibility_characters() {
    assert_eq!(saslprep("\u{2168}").unwrap(), "IX");
    assert_eq!(saslprep("\u{FB01}le").unwrap(), "file");
}

#[test]
fn saslprep_rejects_ascii_control() {
    assert_eq!(prohibited_char(saslprep("ab\u{0007}cd")), '\u{0007}');
    assert_eq!(prohibited_char(saslprep("\u{001F}")), '\u{001F}');
    assert_eq!(prohibited_char(saslprep("a\u{007F}")), '\u{007F}');
}

#[test]
fn saslprep_rejects_prohibited_output() {
    assert_eq!(prohibited_char(saslprep("\u{E000}")), '\u{E000}');
    assert_eq!(prohibited_char(saslprep("a\u{200E}b")), '\u{200E}');
    assert_eq!(prohibited_char(saslprep("a\u{E0001}")), '\u{E0001}');
    assert_eq!(prohibited_char(saslprep("x\u{FDD0}")), '\u{FDD0}');
    assert_eq!(prohibited_char(saslprep("x\u{FFFC}")), '\u{FFFC}');
}

#[test]
fn saslprep_reports_first_prohibited_character() {
    assert_eq!(prohibited_char(saslprep("a\u{200E}b\u{0007}")), '\u{200E}');
}

#[test]
fn saslprep_bidi_mixed_rejected() {
    bidi_error(saslprep("\u{0627}a"));
    // Fails only because an L-class character is present: the ends are fine.
    bidi_error(saslprep("\u{0627}a\u{0627}"));
    bidi_error(saslprep("\u{05D0}a"));
    bidi_error(saslprep("a\u{0627}"));
}

#[test]
fn saslprep_bidi_ends_must_be_r_or_al() {
    bidi_error(saslprep("\u{0627}1"));
    bidi_error(saslprep("1\u{0627}"));
    assert_eq!(saslprep("\u{0627}1\u{0627}").unwrap(), "\u{0627}1\u{0627}");
    assert_eq!(saslprep("\u{05D0}\u{05D1}").unwrap(), "\u{05D0}\u{05D1}");
}

#[test]
fn saslprep_idempotent() {
    for input in ["a\u{00A0}b", "\u{2168}", "I\u{00AD}X", "user", "\u{0627}1\u{0627}"] {
        let once = saslprep(input).unwrap();
        let twice = saslprep(&once).unwrap();
        assert_eq!(once, twice);
    }
}

#[test]
fn nameprep_case_folds() {
    assert_eq!(nameprep("USER").unwrap(), "user");
    assert_eq!(nameprep("Example.COM").unwrap(), "example.com");
    assert_eq!(nameprep("\u{2168}").unwrap(), "ix");
}

#[test]
fn nameprep_deletes_mapped_to_nothing() {
    assert_eq!(nameprep("I\u{00AD}X").unwrap(), "ix");
}

#[test]
fn nameprep_expanding_case_folds() {
    assert_eq!(nameprep("stra\u{00DF}e").unwrap(), "strasse");
    assert_eq!(nameprep("\u{0130}").unwrap(), "i\u{0307}");
}

#[test]
fn nameprep_folds_compatibility_capitals() {
    assert_eq!(nameprep("\u{03F4}").unwrap(), "\u{03B8}");
    assert_eq!(nameprep("\u{2102}").unwrap(), "c");
    assert_eq!(nameprep("\u{2116}5").unwrap(), "no5");
    assert_eq!(nameprep("\u{1D400}").unwrap(), "a");
    assert_eq!(nameprep("\u{01C5}").unwrap(), "d\u{017E}");
}

#[test]
fn nameprep_allows_ascii_control() {
    // The case-folding profile deliberately leaves ASCII control
    // characters out of its prohibition set.
    assert_eq!(nameprep("\u{0007}").unwrap(), "\u{0007}");
}

#[test]
fn nameprep_rejects_prohibited_output() {
    assert_eq!(prohibited_char(nameprep("\u{E000}")), '\u{E000}');
    assert_eq!(prohibited_char(nameprep("a\u{2028}b")), '\u{2028}');
}

#[test]
fn nameprep_bidi_mixed_rejected() {
    bidi_error(nameprep("\u{0627}a"));
    bidi_error(nameprep("1\u{0627}"));
}

#[test]
fn nameprep_idempotent() {
    for input in ["USER", "Example.COM", "I\u{00AD}X", "\u{03F4}", "\u{2102}", "\u{1D400}"] {
        let once = nameprep(input).unwrap();
        let twice = nameprep(&once).unwrap();
        assert_eq!(once, twice);
    }
}

#[test]
fn error_messages() {
    let e = saslprep("\u{0007}").unwrap_err();
    assert_eq!(e.message(), "prohibited character `\u{0007}`");
    let e = saslprep("\u{0627}a").unwrap_err();
    assert_eq!(e.message(), "prohibited bidirectional text");
}
