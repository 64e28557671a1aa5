use opengreeks::{parse_flag, FlagError, OptionType};

#[test]
fn from_flag_lower_and_upper_case() {
    assert_eq!(OptionType::from_flag('c'), Some(OptionType::Call));
    assert_eq!(OptionType::from_flag('C'), Some(OptionType::Call));
    assert_eq!(OptionType::from_flag('p'), Some(OptionType::Put));
    assert_eq!(OptionType::from_flag('P'), Some(OptionType::Put));
}

#[test]
fn from_flag_rejects_other_characters() {
    for c in ['x', 'q', ' ', '0', 'é', 'ç', 'Ｃ'] {
        assert_eq!(OptionType::from_flag(c), None, "flag {:?}", c);
    }
}

#[test]
fn parse_flag_reads_first_character() {
    assert_eq!(parse_flag("c"), Ok(OptionType::Call));
    assert_eq!(parse_flag("call"), Ok(OptionType::Call));
    assert_eq!(parse_flag("Call"), Ok(OptionType::Call));
    assert_eq!(parse_flag("p"), Ok(OptionType::Put));
    assert_eq!(parse_flag("put"), Ok(OptionType::Put));
    assert_eq!(parse_flag("PUT"), Ok(OptionType::Put));
    // Only the first character counts.
    assert_eq!(parse_flag("cxyz"), parse_flag("c"));
    assert_eq!(parse_flag("px"), parse_flag("P"));
}

#[test]
fn parse_flag_empty_is_its_own_error() {
    assert_eq!(parse_flag(""), Err(FlagError::Empty));
}

#[test]
fn parse_flag_unrecognized() {
    assert_eq!(parse_flag("x"), Err(FlagError::Unrecognized));
    assert_eq!(parse_flag(" c"), Err(FlagError::Unrecognized));
    assert_eq!(parse_flag("éc"), Err(FlagError::Unrecognized));
    assert_eq!(parse_flag("Ｃall"), Err(FlagError::Unrecognized));
}
