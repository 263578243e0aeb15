use bcd_dump::device::DevicePacket;
use bcd_dump::element::{Element, ElementClass, ElementFormat, ElementValue};
use bcd_dump::guid::Guid;
use bcd_dump::names::{known_element_name, known_object_name};
use bcd_dump::object::{object_title, object_type_description};

fn data(bytes: Vec<u8>) -> Option<ElementValue> {
    Some(ElementValue { data: Some(bytes), string: None, multi_string: None })
}

fn string(s: &str) -> Option<ElementValue> {
    Some(ElementValue { data: None, string: Some(s.to_string()), multi_string: None })
}

const BOOTMGR: [u8; 16] = [
    0x9d, 0xea, 0x86, 0x2c, 0x5c, 0xdd, 0x4e, 0x70, 0xac, 0xc1, 0xf3, 0x2b, 0x34, 0x4d, 0x47, 0x95,
];

#[test]
fn known_element_header() {
    assert_eq!(Element::element_header(0x2500_00C2, 0x1010_0002), "bootmenupolicy");
    assert_eq!(Element::element_header(0x1100_0001, 1), "device");
}

#[test]
fn composed_element_header() {
    assert_eq!(Element::element_header(0x2500_0099, 1), "Application (integer) - 153");
    assert_eq!(Element::element_header(0x4700_0001, 1), "Template/OEM (integer list) - 1");
    assert_eq!(
        Element::element_header(0x5F12_3456, 1),
        "UNKNOWN CLASS 5 (UNKNOWN FORMAT 15) - 1193046"
    );
}

#[test]
fn integer_element() {
    let e = Element::new("250000c2", data(vec![1, 2, 0, 0, 0, 0, 0, 0, 9]), 0x1010_0002);
    assert_eq!(e.id, 0xC2);
    assert_eq!(e.parent, 0x1010_0002);
    assert_eq!(e.class, ElementClass::Unknown(2));
    assert!(matches!(e.format, ElementFormat::Integer(0x0201)));
}

#[test]
fn boolean_element() {
    let e = Element::new("16000009", data(vec![1]), 3);
    assert!(matches!(e.format, ElementFormat::Boolean(true)));
    let e = Element::new("16000009", data(vec![0, 1]), 3);
    assert!(matches!(e.format, ElementFormat::Boolean(false)));
    assert!(Element::try_new("16000009", data(vec![]), 3).is_none());
}

#[test]
fn string_element() {
    let e = Element::new("12000004", string("Windows Boot Manager"), 3);
    match e.format {
        ElementFormat::String(s) => assert_eq!(s, "Windows Boot Manager"),
        _ => panic!("not a string"),
    }
    assert!(Element::try_new("12000004", data(vec![1]), 3).is_none());
}

#[test]
fn guid_element() {
    let e = Element::new("23000003", string("{9dea862c-5cdd-4e70-acc1-f32b344d4795}"), 3);
    match e.format {
        ElementFormat::Guid(g) => assert_eq!(g, Guid { bytes: BOOTMGR }),
        _ => panic!("not a guid"),
    }
    assert!(Element::try_new("23000003", string("not a guid"), 3).is_none());
}

#[test]
fn guid_list_element() {
    let v = Some(ElementValue {
        data: None,
        string: None,
        multi_string: Some(vec![
            "{9dea862c-5cdd-4e70-acc1-f32b344d4795}".to_string(),
            "9DEA862C5CDD4E70ACC1F32B344D4795".to_string(),
        ]),
    });
    let e = Element::new("24000001", v, 3);
    match e.format {
        ElementFormat::GuidList(l) => {
            assert_eq!(l, vec![Guid { bytes: BOOTMGR }, Guid { bytes: BOOTMGR }]);
        }
        _ => panic!("not a list"),
    }
    let bad = Some(ElementValue {
        data: None,
        string: None,
        multi_string: Some(vec!["{9dea862c-5cdd-4e70-acc1-f32b344d4795}".to_string(), "x".to_string()]),
    });
    assert!(Element::try_new("24000001", bad, 3).is_none());
}

#[test]
fn device_element() {
    let mut raw = vec![0u8; 16];
    raw.extend_from_slice(&9u32.to_le_bytes());
    raw.extend_from_slice(&0u32.to_le_bytes());
    raw.extend_from_slice(&16u32.to_le_bytes());
    raw.extend_from_slice(&0u32.to_le_bytes());
    let e = Element::new("11000001", data(raw), 3);
    match e.format {
        ElementFormat::Device(d) => assert!(matches!(d.packet, DevicePacket::Unknown(9))),
        _ => panic!("not a device"),
    }
}

#[test]
fn unknown_format_element() {
    let e = Element::new("17000077", None.or(data(vec![1, 2])), 3);
    assert!(matches!(e.format, ElementFormat::Unknown(7, ref v) if v.is_empty()));
    let e = Element::new("1F000001", string("x"), 3);
    assert!(matches!(e.format, ElementFormat::Unknown(15, _)));
}

#[test]
fn refused_elements() {
    assert!(Element::try_new("250000c2", data(vec![0; 8]), 0).is_none());
    assert!(Element::try_new("not hex", data(vec![0; 8]), 1).is_none());
    assert!(Element::try_new("250000c2", None, 1).is_none());
    assert!(Element::try_new("250000c2", data(vec![0; 7]), 1).is_none());
    assert!(!Element::accepts("250000c2", &data(vec![0; 7]), 1));
    assert!(Element::accepts("250000c2", &data(vec![0; 8]), 1));
}

#[test]
fn element_fields_recompose_type() {
    let e = Element::new("35000002", data(vec![0; 8]), 1);
    let ElementClass::Unknown(c) = e.class else { panic!() };
    assert_eq!(c * 0x1000_0000 + 5 * 0x100_0000 + e.id, 0x3500_0002);
}

#[test]
fn object_names_ignore_case() {
    let lower = "{9dea862c-5cdd-4e70-acc1-f32b344d4795}".to_string();
    let upper = lower.to_uppercase();
    let a = Element::object_uuid_to_name(&lower);
    let b = Element::object_uuid_to_name(&upper);
    assert_eq!(a, ("GUID_WINDOWS_BOOTMGR".to_string(), "bootmgr".to_string()));
    assert_eq!(a, b);
}

#[test]
fn unlisted_object_keeps_upper_case_text() {
    let s = "{aaaaaaaa-0000-0000-0000-000000000000}".to_string();
    assert_eq!(
        Element::object_uuid_to_name(&s),
        (String::new(), "{AAAAAAAA-0000-0000-0000-000000000000}".to_string())
    );
}

#[test]
fn uuid_to_name_uses_braced_text() {
    assert_eq!(
        Element::uuid_to_name(Guid { bytes: BOOTMGR }),
        ("GUID_WINDOWS_BOOTMGR".to_string(), "bootmgr".to_string())
    );
    assert_eq!(
        Element::uuid_to_name(Guid { bytes: [0xab; 16] }),
        (String::new(), "{ABABABAB-ABAB-ABAB-ABAB-ABABABABABAB}".to_string())
    );
}

#[test]
fn name_to_str_joins() {
    let s = |a: &str, b: &str| Element::name_to_str((a.to_string(), b.to_string()));
    assert_eq!(s("GUID_WINDOWS_BOOTMGR", "bootmgr"), "bootmgr (GUID_WINDOWS_BOOTMGR)");
    assert_eq!(s("GUID_WINDOWS_SETUP_EFI", ""), "GUID_WINDOWS_SETUP_EFI");
    assert_eq!(s("", "{X}"), "{X}");
    assert_eq!(s("", ""), "");
}

#[test]
fn object_type_descriptions() {
    assert_eq!(object_type_description(0x1020_0003), "Application object - Windows Boot - osloader");
    assert_eq!(object_type_description(0x1010_0002), "Application object - Firmware - bootmgr");
    assert_eq!(
        object_type_description(0x10F0_000B),
        "Application object - UNKNOWN APPLICATION 15 - UNKNOWN TYPE 11"
    );
    assert_eq!(object_type_description(0x2010_0000), "Inherit object - for any objects");
    assert_eq!(object_type_description(0x2040_0000), "Inherit object - for UNKNOWN 4");
    assert_eq!(object_type_description(0x3000_0000), "Device object");
    assert_eq!(object_type_description(0x5000_0000), "UNKNOWN OBJECT TYPE");
}

#[test]
fn object_titles() {
    assert_eq!(
        object_title(&"{9dea862c-5cdd-4e70-acc1-f32b344d4795}".to_string()),
        "bootmgr (GUID_WINDOWS_BOOTMGR)"
    );
    assert_eq!(
        object_title(&"{7254a080-1510-4e85-ac0f-e7fb3d444736}".to_string()),
        " (GUID_WINDOWS_SETUP_EFI)"
    );
    assert_eq!(object_title(&"{abc}".to_string()), "{abc}");
}

#[test]
fn element_headers_are_never_empty() {
    for t in [0u32, 0x1100_0001, 0x2500_00C2, 0xFFFF_FFFF, 0x0700_0000, 0x3200_0004] {
        assert!(!Element::element_header(t, 1).is_empty());
    }
}

#[test]
fn name_tables() {
    assert_eq!(known_element_name(0x1600_0060), "isolatedcontext");
    assert_eq!(known_element_name(0x1600_0061), "");
    assert_eq!(
        known_object_name("{FA926493-6F1C-4193-A414-58F0B2456D1E}"),
        ("GUID_CURRENT_BOOT_ENTRY".to_string(), "current".to_string())
    );
    assert_eq!(
        known_object_name("{fa926493-6f1c-4193-a414-58f0b2456d1e}"),
        (String::new(), "{fa926493-6f1c-4193-a414-58f0b2456d1e}".to_string())
    );
}

#[test]
fn ascii_text_is_upper_cased_letter_by_letter() {
    assert_eq!(
        Element::object_uuid_to_name(&"{abc-XyZ_09}".to_string()),
        (String::new(), "{ABC-XYZ_09}".to_string())
    );
}
