use portmap::{help_requested, parse_index_argument, Command, InputField, MappingError};

#[test]
fn add_never_needs_a_gateway() {
    for registered in [0usize, 1, 7, usize::MAX] {
        assert!(!Command::Add.needs_gateway(registered));
        assert!(!Command::Help.needs_gateway(registered));
        assert!(!Command::Remove(Some(1)).needs_gateway(registered));
        assert!(!Command::Remove(Some(0)).needs_gateway(registered));
    }
}

#[test]
fn enable_and_disable_always_need_a_gateway() {
    for registered in [0usize, 1, 7] {
        for index in [None, Some(0), Some(1), Some(9)] {
            assert!(Command::Enable(index).needs_gateway(registered));
            assert!(Command::Disable(index).needs_gateway(registered));
        }
    }
}

#[test]
fn listing_needs_a_gateway_only_for_its_lines() {
    assert!(!Command::List.needs_gateway(0));
    assert!(Command::List.needs_gateway(1));
    assert!(Command::List.needs_gateway(12));
    assert!(!Command::Remove(None).needs_gateway(0));
    assert!(Command::Remove(None).needs_gateway(1));
}

#[test]
fn index_argument_is_optional() {
    assert_eq!(parse_index_argument(None), Ok(None));
    assert_eq!(parse_index_argument(Some("3")), Ok(Some(3)));
    assert_eq!(parse_index_argument(Some("0")), Ok(Some(0)));
    assert_eq!(parse_index_argument(Some("999")), Ok(Some(999)));
}

#[test]
fn index_argument_must_be_a_number() {
    let err = Err(MappingError::InputParse(InputField::Index));
    assert_eq!(parse_index_argument(Some("three")), err);
    assert_eq!(parse_index_argument(Some("-3")), err);
    assert_eq!(parse_index_argument(Some("")), err);
    assert_eq!(parse_index_argument(Some("3.")), err);
}

#[test]
fn help_is_found_wherever_it_stands() {
    assert!(!help_requested(&vec![]));
    assert!(!help_requested(&vec![Command::Add, Command::List, Command::Remove(None)]));
    assert!(help_requested(&vec![Command::Help]));
    assert!(help_requested(&vec![Command::Add, Command::Help]));
    assert!(help_requested(&vec![Command::Help, Command::Enable(Some(1))]));
    assert!(help_requested(&vec![Command::List, Command::Help, Command::List]));
}
