use portmap::{
    add_mapping, list_mappings, read_mappings, remove_mapping, resolve_index, IndexChoice,
    InputField, IpAddress, Mapping, MappingError, RemoveStep,
};

fn record(last_octet: u8, port: u16, label: &str) -> Mapping {
    Mapping::new(IpAddress::V4([10, 0, 0, last_octet]), port, port + 1000, label.to_string())
}

fn abc() -> Vec<Mapping> {
    vec![record(1, 1001, "A"), record(2, 1002, "B"), record(3, 1003, "C")]
}

#[test]
fn new_keeps_the_four_values() {
    let m = Mapping::new(IpAddress::V4([10, 0, 0, 5]), 8080, 9090, "web".to_string());
    assert_eq!(m.dest_ip, IpAddress::V4([10, 0, 0, 5]));
    assert_eq!(m.dest_port, 8080);
    assert_eq!(m.ext_port, 9090);
    assert_eq!(m.description, "web");
    assert_eq!(m.clone(), m);
}

#[test]
fn undecodable_store_is_an_empty_registry() {
    assert_eq!(read_mappings(None), Vec::<Mapping>::new());
}

#[test]
fn decoded_store_is_kept_as_it_is() {
    assert_eq!(read_mappings(Some(abc())), abc());
    assert_eq!(read_mappings(Some(Vec::new())), Vec::<Mapping>::new());
}

#[test]
fn add_appends_one_mapping() {
    let mut registry = abc();
    let r = add_mapping(
        &mut registry,
        Some(IpAddress::V6([0xfd00, 0, 0, 0, 0, 0, 0, 7])),
        "22",
        "2222",
        "ssh".to_string(),
    );
    assert_eq!(r, Ok(()));
    assert_eq!(registry.len(), 4);
    assert_eq!(&registry[..3], &abc()[..]);
    assert_eq!(
        registry[3],
        Mapping::new(IpAddress::V6([0xfd00, 0, 0, 0, 0, 0, 0, 7]), 22, 2222, "ssh".to_string())
    );
}

#[test]
fn add_permits_duplicates() {
    let mut registry = Vec::new();
    for _ in 0..2 {
        let r = add_mapping(
            &mut registry,
            Some(IpAddress::V4([10, 0, 0, 5])),
            "80",
            "80",
            String::new(),
        );
        assert_eq!(r, Ok(()));
    }
    assert_eq!(registry.len(), 2);
    assert_eq!(registry[0], registry[1]);
}

#[test]
fn add_without_an_address_changes_nothing() {
    let mut registry = abc();
    let r = add_mapping(&mut registry, None, "x", "y", "web".to_string());
    assert_eq!(r, Err(MappingError::InputParse(InputField::DestinationAddress)));
    assert_eq!(registry, abc());
}

#[test]
fn add_with_a_bad_destination_port_changes_nothing() {
    for text in ["http", "", "0", "65536", "-1", "80 "] {
        let mut registry = abc();
        let r = add_mapping(
            &mut registry,
            Some(IpAddress::V4([10, 0, 0, 5])),
            text,
            "also bad",
            "web".to_string(),
        );
        assert_eq!(r, Err(MappingError::InputParse(InputField::DestinationPort)));
        assert_eq!(registry, abc());
    }
}

#[test]
fn add_with_a_bad_external_port_changes_nothing() {
    for text in ["http", "", "0", "65536", "-1", "1e3"] {
        let mut registry = abc();
        let r = add_mapping(
            &mut registry,
            Some(IpAddress::V4([10, 0, 0, 5])),
            "8080",
            text,
            "web".to_string(),
        );
        assert_eq!(r, Err(MappingError::InputParse(InputField::ExternalPort)));
        assert_eq!(registry, abc());
    }
}

#[test]
fn resolve_index_prefers_the_given_index() {
    assert_eq!(resolve_index(Some(3), None), Ok(IndexChoice::Index(3)));
    assert_eq!(resolve_index(Some(3), Some("7")), Ok(IndexChoice::Index(3)));
    assert_eq!(resolve_index(Some(0), Some("seven")), Ok(IndexChoice::Index(0)));
}

#[test]
fn resolve_index_asks_then_reads_the_answer() {
    assert_eq!(resolve_index(None, None), Ok(IndexChoice::Ask));
    assert_eq!(resolve_index(None, Some("7")), Ok(IndexChoice::Index(7)));
    assert_eq!(
        resolve_index(None, Some("seven")),
        Err(MappingError::InputParse(InputField::Index))
    );
    assert_eq!(resolve_index(None, Some("-7")), Err(MappingError::InputParse(InputField::Index)));
}

#[test]
fn remove_from_an_empty_registry_is_no_error() {
    let mut registry: Vec<Mapping> = Vec::new();
    assert_eq!(remove_mapping(&mut registry, Some(1), None), Ok(RemoveStep::Nothing));
    assert_eq!(remove_mapping(&mut registry, None, None), Ok(RemoveStep::Nothing));
    assert_eq!(remove_mapping(&mut registry, None, Some("x")), Ok(RemoveStep::Nothing));
    assert!(registry.is_empty());
}

#[test]
fn remove_within_bounds_takes_that_mapping_out() {
    for i in 1..=3usize {
        let mut registry = abc();
        assert_eq!(remove_mapping(&mut registry, Some(i), None), Ok(RemoveStep::Removed));
        let mut expected = abc();
        expected.remove(i - 1);
        assert_eq!(registry, expected);
    }
}

#[test]
fn remove_out_of_bounds_changes_nothing() {
    for i in [0usize, 4, 5, usize::MAX] {
        let mut registry = abc();
        assert_eq!(remove_mapping(&mut registry, Some(i), None), Err(MappingError::OutOfBounds));
        assert_eq!(registry, abc());
    }
}

#[test]
fn remove_shifts_the_mappings_behind() {
    let mut registry = abc();
    assert_eq!(remove_mapping(&mut registry, Some(2), None), Ok(RemoveStep::Removed));
    assert_eq!(registry, vec![record(1, 1001, "A"), record(3, 1003, "C")]);
    assert_eq!(remove_mapping(&mut registry, Some(2), None), Ok(RemoveStep::Removed));
    assert_eq!(registry, vec![record(1, 1001, "A")]);
}

#[test]
fn remove_without_an_index_asks_first() {
    let mut registry = abc();
    assert_eq!(remove_mapping(&mut registry, None, None), Ok(RemoveStep::Ask));
    assert_eq!(registry, abc());
    assert_eq!(remove_mapping(&mut registry, None, Some("3")), Ok(RemoveStep::Removed));
    assert_eq!(registry, vec![record(1, 1001, "A"), record(2, 1002, "B")]);
}

#[test]
fn remove_with_a_bad_answer_changes_nothing() {
    for answer in ["", "x", "-1", "2.0", "two"] {
        let mut registry = abc();
        assert_eq!(
            remove_mapping(&mut registry, None, Some(answer)),
            Err(MappingError::InputParse(InputField::Index))
        );
        assert_eq!(registry, abc());
    }
    for answer in ["0", "4", "+9"] {
        let mut registry = abc();
        assert_eq!(
            remove_mapping(&mut registry, None, Some(answer)),
            Err(MappingError::OutOfBounds)
        );
        assert_eq!(registry, abc());
    }
}

#[test]
fn list_of_an_empty_registry_has_no_line() {
    let lines = list_mappings(&Vec::new(), &IpAddress::V4([203, 0, 113, 1]));
    assert!(lines.is_empty());
}

#[test]
fn list_has_one_numbered_line_for_each_mapping() {
    let registry = vec![
        Mapping::new(IpAddress::V4([10, 0, 0, 5]), 8080, 9090, "web".to_string()),
        Mapping::new(IpAddress::V6([0xfd00, 0, 0, 0, 0, 0, 0, 7]), 22, 2222, String::new()),
        Mapping::new(IpAddress::V4([10, 0, 0, 6]), 0, 65535, "two  words".to_string()),
    ];
    let lines = list_mappings(&registry, &IpAddress::V4([203, 0, 113, 1]));
    assert_eq!(
        lines,
        vec![
            "1: 10.0.0.5:8080 -> 203.0.113.1:9090  web".to_string(),
            "2: fd00::7:22 -> 203.0.113.1:2222  ".to_string(),
            "3: 10.0.0.6:0 -> 203.0.113.1:65535  two  words".to_string(),
        ]
    );
}

#[test]
fn list_numbers_go_past_nine() {
    let registry: Vec<Mapping> = (0..12).map(|i| record(i, 5000 + i as u16, "x")).collect();
    let lines = list_mappings(&registry, &IpAddress::V6([0xfe80, 0, 0, 0, 0, 0, 0, 1]));
    assert_eq!(lines.len(), 12);
    assert_eq!(lines[9], "10: 10.0.0.9:5009 -> fe80::1:6009  x");
    assert_eq!(lines[11], "12: 10.0.0.11:5011 -> fe80::1:6011  x");
    assert_eq!(registry.len(), 12);
}
