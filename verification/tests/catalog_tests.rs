use grabcore::catalog::{
    admit_device, build_catalog, classify, contains_subseq, default_rules, should_skip_file_name,
    Capability, ClassRule, ProbeRecord,
};
use grabcore::events::DeviceType;

fn caps(list: &[(u16, u16)]) -> Vec<Capability> {
    list.iter().map(|&(kind, code)| Capability { kind, code }).collect()
}

#[test]
fn legacy_alias_file_names_are_skipped() {
    assert!(should_skip_file_name(b"mice"));
    assert!(should_skip_file_name(b"js0"));
    assert!(should_skip_file_name(b"js"));
    assert!(should_skip_file_name(b"mouse0"));
    assert!(should_skip_file_name(b"mouse12"));
    assert!(!should_skip_file_name(b"event3"));
    assert!(!should_skip_file_name(b"mic"));
    assert!(!should_skip_file_name(b"m"));
}

#[test]
fn contains_subseq_finds_runs() {
    assert!(contains_subseq(b"Example Mouse", b"Mouse"));
    assert!(contains_subseq(b"Example Mouse", b"Example Mouse"));
    assert!(contains_subseq(b"Example Mouse", b""));
    assert!(!contains_subseq(b"Example Mouse", b"mouse"));
    assert!(!contains_subseq(b"abc", b"abcd"));
    assert!(contains_subseq(b"aab", b"ab"));
}

#[test]
fn signature_capabilities_per_class() {
    assert_eq!(DeviceType::Keyboard.event_code(), Capability { kind: 1, code: 125 });
    assert_eq!(DeviceType::Mouse.event_code(), Capability { kind: 2, code: 8 });
    assert_eq!(DeviceType::Touchpad.event_code(), Capability { kind: 3, code: 54 });
    assert_eq!(DeviceType::LidSwitch.event_code(), Capability { kind: 5, code: 0 });
}

#[test]
fn default_table_classifies_by_name_and_capability() {
    let rules = default_rules();
    let name = b"Logitech MX Master 3S".to_vec();
    // reports the wheel: accepted as a mouse
    let with_wheel = caps(&[(2, 0), (2, 1), (2, 8)]);
    assert_eq!(classify(&name, &with_wheel, &rules), Some(DeviceType::Mouse));
    // same name, wheel missing: a partial device node, not accepted
    let without_wheel = caps(&[(2, 0), (2, 1)]);
    assert_eq!(classify(&name, &without_wheel, &rules), None);
}

#[test]
fn name_substring_is_enough_for_the_name_part() {
    let rules = default_rules();
    let name = b"Logitech MX Master 3S Mouse (USB)".to_vec();
    let with_wheel = caps(&[(2, 8)]);
    assert_eq!(classify(&name, &with_wheel, &rules), Some(DeviceType::Mouse));
}

#[test]
fn unmatched_name_capability_pair_is_never_classified() {
    let rules = default_rules();
    // a capable device under an unknown name matches no rule
    let name = b"Example Mouse".to_vec();
    let with_wheel = caps(&[(2, 0), (2, 1), (2, 8)]);
    assert_eq!(classify(&name, &with_wheel, &rules), None);
    // a known name with a foreign capability set matches no rule either
    let name = b"Lid Switch".to_vec();
    let wrong_caps = caps(&[(1, 125)]);
    assert_eq!(classify(&name, &wrong_caps, &rules), None);
}

#[test]
fn injected_table_overrides_classification() {
    // the table is injected configuration: a caller may classify the
    // "Example Mouse" of the clamping scenario as a mouse
    let rules = vec![ClassRule { fragment: b"Example Mouse".to_vec(), device_type: DeviceType::Mouse }];
    let name = b"Example Mouse".to_vec();
    let with_wheel = caps(&[(2, 0), (2, 1), (2, 8)]);
    assert_eq!(classify(&name, &with_wheel, &rules), Some(DeviceType::Mouse));
}

#[test]
fn first_matching_rule_wins() {
    let rules = vec![
        ClassRule { fragment: b"Combo".to_vec(), device_type: DeviceType::Keyboard },
        ClassRule { fragment: b"Combo".to_vec(), device_type: DeviceType::Mouse },
    ];
    let name = b"Combo Device".to_vec();
    let both = caps(&[(1, 125), (2, 8)]);
    assert_eq!(classify(&name, &both, &rules), Some(DeviceType::Keyboard));
}

fn probe(file_name: &[u8], is_char_device: bool, name: &[u8], cap_list: &[(u16, u16)]) -> ProbeRecord {
    ProbeRecord {
        file_name: file_name.to_vec(),
        is_char_device,
        name: name.to_vec(),
        caps: caps(cap_list),
    }
}

#[test]
fn catalog_keeps_only_admitted_probes_in_order() {
    let rules = default_rules();
    let probes = vec![
        // admitted: keyboard by name and left-meta capability
        probe(b"event0", true, b"Apple Inc. Magic Keyboard with Numeric Keypad", &[(1, 125)]),
        // not a character device
        probe(b"event1", false, b"Lid Switch", &[(5, 0)]),
        // legacy alias file name
        probe(b"mouse0", true, b"Logitech MX Master 3S", &[(2, 8)]),
        // no rule matches the name
        probe(b"event2", true, b"Example Mouse", &[(2, 8)]),
        // admitted: lid switch
        probe(b"event3", true, b"Lid Switch", &[(5, 0)]),
        // name matches but the signature capability is missing
        probe(b"event4", true, b"Logitech MX Master 3S", &[(2, 0)]),
    ];
    let catalog = build_catalog(&probes, &rules);
    assert_eq!(catalog.len(), 2);
    assert_eq!(catalog[0].probe_index, 0);
    assert_eq!(catalog[0].device_type, DeviceType::Keyboard);
    assert_eq!(catalog[1].probe_index, 4);
    assert_eq!(catalog[1].device_type, DeviceType::LidSwitch);
}

#[test]
fn admit_device_requires_all_three_conditions() {
    let rules = default_rules();
    let admitted = probe(b"event9", true, b"Logitech MX Master 3S", &[(2, 8)]);
    assert_eq!(admit_device(&admitted, &rules), Some(DeviceType::Mouse));
    let alias = probe(b"js1", true, b"Logitech MX Master 3S", &[(2, 8)]);
    assert_eq!(admit_device(&alias, &rules), None);
    let not_char = probe(b"event9", false, b"Logitech MX Master 3S", &[(2, 8)]);
    assert_eq!(admit_device(&not_char, &rules), None);
}
