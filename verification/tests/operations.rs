use psammophis::capabilities::fs::Operation;

#[test]
fn parse_read_tokens() {
    assert_eq!(Operation::from_str("r"), Ok(Operation::Read));
    assert_eq!(Operation::from_str("rb"), Ok(Operation::Read));
}

#[test]
fn parse_read_write_tokens() {
    assert_eq!(Operation::from_str("r+"), Ok(Operation::ReadWrite));
    assert_eq!(Operation::from_str("rb+"), Ok(Operation::ReadWrite));
    assert_eq!(Operation::from_str("wb+"), Ok(Operation::ReadWrite));
}

#[test]
fn parse_write_tokens() {
    assert_eq!(Operation::from_str("w"), Ok(Operation::Write));
    assert_eq!(Operation::from_str("wb"), Ok(Operation::Write));
}

#[test]
fn parse_append_tokens() {
    assert_eq!(Operation::from_str("a"), Ok(Operation::Append));
    assert_eq!(Operation::from_str("ab"), Ok(Operation::Append));
}

#[test]
fn parse_read_append_tokens() {
    assert_eq!(Operation::from_str("a+"), Ok(Operation::ReadAppend));
    assert_eq!(Operation::from_str("ab+"), Ok(Operation::ReadAppend));
}

#[test]
fn parse_rejects_everything_else() {
    for bad in ["", "x", "R", "r ", " r", "rb++", "w+", "a++", "read", "r\n"] {
        assert!(Operation::from_str(bad).is_err(), "token {:?} must be rejected", bad);
    }
}

#[test]
fn try_from_agrees_with_from_str() {
    assert_eq!(Operation::try_from("ab+"), Ok(Operation::ReadAppend));
    assert!(Operation::try_from("nope").is_err());
}

#[test]
fn subsumption_table() {
    let all = [
        Operation::Read,
        Operation::Write,
        Operation::ReadWrite,
        Operation::Append,
        Operation::ReadAppend,
    ];
    for req in all {
        assert_eq!(Operation::Read.subsumes(req), req == Operation::Read);
        assert_eq!(Operation::Write.subsumes(req), req == Operation::Write);
        assert_eq!(Operation::ReadWrite.subsumes(req), req == Operation::Read || req == Operation::Write);
        assert_eq!(Operation::Append.subsumes(req), req == Operation::Append);
        assert_eq!(Operation::ReadAppend.subsumes(req), req == Operation::Read || req == Operation::Append);
    }
}
