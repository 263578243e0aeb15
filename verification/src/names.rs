//! The names that the BCD store gives to well-known object GUIDs and to
//! element types, and the words that describe element classes and formats.

use vstd::prelude::*;

use crate::text::{decimal_string, spec_decimal, str_eq};

verus! {

/// The names of a well-known object, looked up by its upper-case braced
/// GUID text: its symbolic name and its `bcdedit` alias (either may be
/// empty). For any other text, an empty name and the text itself.
pub open spec fn spec_known_object_name(upper: Seq<char>) -> (Seq<char>, Seq<char>) {
    if upper == "{0CE4991B-E6B3-4B16-B23C-5E0D9250E5D9}"@ {
        ("GUID_EMS_SETTINGS_GROUP"@, "emssettings"@)
    } else if upper == "{1AFA9C49-16AB-4A5C-4A90-212802DA9460}"@ {
        ("GUID_RESUME_LOADER_SETTINGS_GROUP"@, "resumeloadersettings"@)
    } else if upper == "{1CAE1EB7-A0DF-4D4D-9851-4860E34EF535}"@ {
        ("GUID_DEFAULT_BOOT_ENTRY"@, "default"@)
    } else if upper == "{313E8EED-7098-4586-A9BF-309C61F8D449}"@ {
        ("GUID_KERNEL_DEBUGGER_SETTINGS_GROUP"@, "kerneldbgsettings"@)
    } else if upper == "{4636856E-540F-4170-A130-A84776F4C654}"@ {
        ("GUID_DEBUGGER_SETTINGS_GROUP"@, "dbgsettings"@)
    } else if upper == "{466F5A88-0AF2-4F76-9038-095B170DC21C}"@ {
        ("WINDOWS_LEGACY_NTLDR"@, "ntldr"@)
    } else if upper == "{5189B25C-5558-4BF2-BCA4-289B11BD29E2}"@ {
        ("BAD_MEMORY_GROUP"@, "badmemory"@)
    } else if upper == "{6EFB52BF-1766-41DB-A6B3-0EE5EFF72BD7}"@ {
        ("BOOT_LOADER_SETTINGS_GROUP"@, "bootloadersettings"@)
    } else if upper == "{7254A080-1510-4E85-AC0F-E7FB3D444736}"@ {
        ("GUID_WINDOWS_SETUP_EFI"@, ""@)
    } else if upper == "{7EA2E1AC-2E61-4728-AAA3-896D9D0A9F0E}"@ {
        ("GUID_GLOBAL_SETTINGS_GROUP"@, "globalsettings"@)
    } else if upper == "{7FF607E0-4395-11DB-B0DE-0800200C9A66}"@ {
        ("GUID_HYPERVISOR_SETTINGS_GROUP"@, "hypervisorsettings"@)
    } else if upper == "{9DEA862C-5CDD-4E70-ACC1-F32B344D4795}"@ {
        ("GUID_WINDOWS_BOOTMGR"@, "bootmgr"@)
    } else if upper == "{A1943BBC-EA85-487C-97C7-C9EDE908A38A}"@ {
        ("GUID_WINDOWS_OS_TARGET_TEMPLATE_PCAT"@, ""@)
    } else if upper == "{A5A30FA2-3D06-4E9F-B5F4-A01DF9D1FCBA}"@ {
        ("GUID_FIRMWARE_BOOTMGR"@, "fwbootmgr"@)
    } else if upper == "{AE5534E0-A924-466C-B836-758539A3EE3A}"@ {
        ("GUID_WINDOWS_SETUP_RAMDISK_OPTIONS"@, "ramdiskoptions"@)
    } else if upper == "{B012B84D-C47C-4ED5-B722-C0C42163E569}"@ {
        ("GUID_WINDOWS_OS_TARGET_TEMPLATE_EFI"@, ""@)
    } else if upper == "{B2721D73-1DB4-4C62-BF78-C548A880142D}"@ {
        ("GUID_WINDOWS_MEMORY_TESTER"@, "memdiag"@)
    } else if upper == "{CBD971BF-B7B8-4885-951A-FA03044F5D71}"@ {
        ("GUID_WINDOWS_SETUP_PCAT"@, ""@)
    } else if upper == "{FA926493-6F1C-4193-A414-58F0B2456D1E}"@ {
        ("GUID_CURRENT_BOOT_ENTRY"@, "current"@)
    } else {
        (Seq::empty(), upper)
    }
}

/// Every well-known object has a symbolic name: where the symbolic name is
/// empty, the text was not a well-known GUID and comes back as the alias.
pub proof fn lemma_unlisted_object_names(upper: Seq<char>)
    ensures
        spec_known_object_name(upper).0.len() == 0 ==> spec_known_object_name(upper) == (
            Seq::<char>::empty(),
            upper,
        ),
{
    if spec_known_object_name(upper).0.len() == 0 {
        reveal_strlit("GUID_EMS_SETTINGS_GROUP");
        reveal_strlit("GUID_RESUME_LOADER_SETTINGS_GROUP");
        reveal_strlit("GUID_DEFAULT_BOOT_ENTRY");
        reveal_strlit("GUID_KERNEL_DEBUGGER_SETTINGS_GROUP");
        reveal_strlit("GUID_DEBUGGER_SETTINGS_GROUP");
        reveal_strlit("WINDOWS_LEGACY_NTLDR");
        reveal_strlit("BAD_MEMORY_GROUP");
        reveal_strlit("BOOT_LOADER_SETTINGS_GROUP");
        reveal_strlit("GUID_WINDOWS_SETUP_EFI");
        reveal_strlit("GUID_GLOBAL_SETTINGS_GROUP");
        reveal_strlit("GUID_HYPERVISOR_SETTINGS_GROUP");
        reveal_strlit("GUID_WINDOWS_BOOTMGR");
        reveal_strlit("GUID_WINDOWS_OS_TARGET_TEMPLATE_PCAT");
        reveal_strlit("GUID_FIRMWARE_BOOTMGR");
        reveal_strlit("GUID_WINDOWS_SETUP_RAMDISK_OPTIONS");
        reveal_strlit("GUID_WINDOWS_OS_TARGET_TEMPLATE_EFI");
        reveal_strlit("GUID_WINDOWS_MEMORY_TESTER");
        reveal_strlit("GUID_WINDOWS_SETUP_PCAT");
        reveal_strlit("GUID_CURRENT_BOOT_ENTRY");
    }
}

/// Looks up the names of a well-known object by its upper-case braced GUID
/// text (see `spec_known_object_name`).
pub fn known_object_name(upper: &str) -> (r: (String, String))
    ensures
        (r.0@, r.1@) == spec_known_object_name(upper@),
{
    if str_eq(upper, "{0CE4991B-E6B3-4B16-B23C-5E0D9250E5D9}") {
        return (String::from_str("GUID_EMS_SETTINGS_GROUP"), String::from_str("emssettings"));
    }
    if str_eq(upper, "{1AFA9C49-16AB-4A5C-4A90-212802DA9460}") {
        return (String::from_str("GUID_RESUME_LOADER_SETTINGS_GROUP"), String::from_str("resumeloadersettings"));
    }
    if str_eq(upper, "{1CAE1EB7-A0DF-4D4D-9851-4860E34EF535}") {
        return (String::from_str("GUID_DEFAULT_BOOT_ENTRY"), String::from_str("default"));
    }
    if str_eq(upper, "{313E8EED-7098-4586-A9BF-309C61F8D449}") {
        return (String::from_str("GUID_KERNEL_DEBUGGER_SETTINGS_GROUP"), String::from_str("kerneldbgsettings"));
    }
    if str_eq(upper, "{4636856E-540F-4170-A130-A84776F4C654}") {
        return (String::from_str("GUID_DEBUGGER_SETTINGS_GROUP"), String::from_str("dbgsettings"));
    }
    if str_eq(upper, "{466F5A88-0AF2-4F76-9038-095B170DC21C}") {
        return (String::from_str("WINDOWS_LEGACY_NTLDR"), String::from_str("ntldr"));
    }
    if str_eq(upper, "{5189B25C-5558-4BF2-BCA4-289B11BD29E2}") {
        return (String::from_str("BAD_MEMORY_GROUP"), String::from_str("badmemory"));
    }
    if str_eq(upper, "{6EFB52BF-1766-41DB-A6B3-0EE5EFF72BD7}") {
        return (String::from_str("BOOT_LOADER_SETTINGS_GROUP"), String::from_str("bootloadersettings"));
    }
    if str_eq(upper, "{7254A080-1510-4E85-AC0F-E7FB3D444736}") {
        return (String::from_str("GUID_WINDOWS_SETUP_EFI"), String::from_str(""));
    }
    if str_eq(upper, "{7EA2E1AC-2E61-4728-AAA3-896D9D0A9F0E}") {
        return (String::from_str("GUID_GLOBAL_SETTINGS_GROUP"), String::from_str("globalsettings"));
    }
    if str_eq(upper, "{7FF607E0-4395-11DB-B0DE-0800200C9A66}") {
        return (String::from_str("GUID_HYPERVISOR_SETTINGS_GROUP"), String::from_str("hypervisorsettings"));
    }
    if str_eq(upper, "{9DEA862C-5CDD-4E70-ACC1-F32B344D4795}") {
        return (String::from_str("GUID_WINDOWS_BOOTMGR"), String::from_str("bootmgr"));
    }
    if str_eq(upper, "{A1943BBC-EA85-487C-97C7-C9EDE908A38A}") {
        return (String::from_str("GUID_WINDOWS_OS_TARGET_TEMPLATE_PCAT"), String::from_str(""));
    }
    if str_eq(upper, "{A5A30FA2-3D06-4E9F-B5F4-A01DF9D1FCBA}") {
        return (String::from_str("GUID_FIRMWARE_BOOTMGR"), String::from_str("fwbootmgr"));
    }
    if str_eq(upper, "{AE5534E0-A924-466C-B836-758539A3EE3A}") {
        return (String::from_str("GUID_WINDOWS_SETUP_RAMDISK_OPTIONS"), String::from_str("ramdiskoptions"));
    }
    if str_eq(upper, "{B012B84D-C47C-4ED5-B722-C0C42163E569}") {
        return (String::from_str("GUID_WINDOWS_OS_TARGET_TEMPLATE_EFI"), String::from_str(""));
    }
    if str_eq(upper, "{B2721D73-1DB4-4C62-BF78-C548A880142D}") {
        return (String::from_str("GUID_WINDOWS_MEMORY_TESTER"), String::from_str("memdiag"));
    }
    if str_eq(upper, "{CBD971BF-B7B8-4885-951A-FA03044F5D71}") {
        return (String::from_str("GUID_WINDOWS_SETUP_PCAT"), String::from_str(""));
    }
    if str_eq(upper, "{FA926493-6F1C-4193-A414-58F0B2456D1E}") {
        return (String::from_str("GUID_CURRENT_BOOT_ENTRY"), String::from_str("current"));
    }
    (String::new(), String::from_str(upper))
}

/// The name of a well-known element type, or the empty text.
pub open spec fn spec_known_element_name(element_type: u32) -> Seq<char> {
    if element_type == 0x1100_0001 {
        "device"@
    } else if element_type == 0x1200_0002 {
        "path"@
    } else if element_type == 0x1200_0004 {
        "description"@
    } else if element_type == 0x1200_0005 {
        "locale"@
    } else if element_type == 0x1400_0006 {
        "inherit"@
    } else if element_type == 0x1500_0007 {
        "truncatememory"@
    } else if element_type == 0x1400_0008 {
        "recoversequence"@
    } else if element_type == 0x1600_0009 {
        "recoveryenabled"@
    } else if element_type == 0x1700_000A {
        "badmemorylist"@
    } else if element_type == 0x1600_000B {
        "badmemoryaccess"@
    } else if element_type == 0x1500_000C {
        "firstmegabytepolicy"@
    } else if element_type == 0x1600_0060 {
        "isolatedcontext"@
    } else if element_type == 0x1700_0077 {
        "allowedinmemorysettings"@
    } else if element_type == 0x3500_0001 {
        "ramdiskimageoffset"@
    } else if element_type == 0x3500_0002 {
        "ramdisktftpclientport"@
    } else if element_type == 0x3100_0003 {
        "ramdisksdidevice"@
    } else if element_type == 0x3200_0004 {
        "ramdisksdipath"@
    } else if element_type == 0x2500_00C2 {
        "bootmenupolicy"@
    } else {
        Seq::empty()
    }
}

/// Looks up the name of a well-known element type (see
/// `spec_known_element_name`).
pub fn known_element_name(element_type: u32) -> (r: &'static str)
    ensures
        r@ == spec_known_element_name(element_type),
{
    if element_type == 0x1100_0001 {
        "device"
    } else if element_type == 0x1200_0002 {
        "path"
    } else if element_type == 0x1200_0004 {
        "description"
    } else if element_type == 0x1200_0005 {
        "locale"
    } else if element_type == 0x1400_0006 {
        "inherit"
    } else if element_type == 0x1500_0007 {
        "truncatememory"
    } else if element_type == 0x1400_0008 {
        "recoversequence"
    } else if element_type == 0x1600_0009 {
        "recoveryenabled"
    } else if element_type == 0x1700_000A {
        "badmemorylist"
    } else if element_type == 0x1600_000B {
        "badmemoryaccess"
    } else if element_type == 0x1500_000C {
        "firstmegabytepolicy"
    } else if element_type == 0x1600_0060 {
        "isolatedcontext"
    } else if element_type == 0x1700_0077 {
        "allowedinmemorysettings"
    } else if element_type == 0x3500_0001 {
        "ramdiskimageoffset"
    } else if element_type == 0x3500_0002 {
        "ramdisktftpclientport"
    } else if element_type == 0x3100_0003 {
        "ramdisksdidevice"
    } else if element_type == 0x3200_0004 {
        "ramdisksdipath"
    } else if element_type == 0x2500_00C2 {
        "bootmenupolicy"
    } else {
        proof {
            reveal_strlit("");
        }
        ""
    }
}

/// The word for an element class code.
pub open spec fn spec_class_word(class: int) -> Seq<char> {
    if class == 1 {
        "Library"@
    } else if class == 2 {
        "Application"@
    } else if class == 3 {
        "Device"@
    } else if class == 4 {
        "Template/OEM"@
    } else {
        "UNKNOWN CLASS "@ + spec_decimal(class as nat)
    }
}

/// The word for an element class code (see `spec_class_word`).
pub fn class_word(class: u32) -> (r: String)
    ensures
        r@ == spec_class_word(class as int),
{
    if class == 1 {
        String::from_str("Library")
    } else if class == 2 {
        String::from_str("Application")
    } else if class == 3 {
        String::from_str("Device")
    } else if class == 4 {
        String::from_str("Template/OEM")
    } else {
        let mut s = String::from_str("UNKNOWN CLASS ");
        s.append(decimal_string(class).as_str());
        s
    }
}

/// The word for an element format code.
pub open spec fn spec_format_word(format: int) -> Seq<char> {
    if format == 1 {
        "device"@
    } else if format == 2 {
        "string"@
    } else if format == 3 {
        "GUID"@
    } else if format == 4 {
        "GUID list"@
    } else if format == 5 {
        "integer"@
    } else if format == 6 {
        "boolean"@
    } else if format == 7 {
        "integer list"@
    } else {
        "UNKNOWN FORMAT "@ + spec_decimal(format as nat)
    }
}

/// The word for an element format code (see `spec_format_word`).
pub fn format_word(format: u32) -> (r: String)
    ensures
        r@ == spec_format_word(format as int),
{
    if format == 1 {
        String::from_str("device")
    } else if format == 2 {
        String::from_str("string")
    } else if format == 3 {
        String::from_str("GUID")
    } else if format == 4 {
        String::from_str("GUID list")
    } else if format == 5 {
        String::from_str("integer")
    } else if format == 6 {
        String::from_str("boolean")
    } else if format == 7 {
        String::from_str("integer list")
    } else {
        let mut s = String::from_str("UNKNOWN FORMAT ");
        s.append(decimal_string(format).as_str());
        s
    }
}

/// The well-known BCD objects: GUID text in upper case, symbolic name,
/// `bcdedit` alias.
pub open spec fn well_known_objects() -> Seq<(Seq<char>, Seq<char>, Seq<char>)> {
    seq![
        ("{0CE4991B-E6B3-4B16-B23C-5E0D9250E5D9}"@, "GUID_EMS_SETTINGS_GROUP"@, "emssettings"@),
        ("{1AFA9C49-16AB-4A5C-4A90-212802DA9460}"@, "GUID_RESUME_LOADER_SETTINGS_GROUP"@, "resumeloadersettings"@),
        ("{1CAE1EB7-A0DF-4D4D-9851-4860E34EF535}"@, "GUID_DEFAULT_BOOT_ENTRY"@, "default"@),
        ("{313E8EED-7098-4586-A9BF-309C61F8D449}"@, "GUID_KERNEL_DEBUGGER_SETTINGS_GROUP"@, "kerneldbgsettings"@),
        ("{4636856E-540F-4170-A130-A84776F4C654}"@, "GUID_DEBUGGER_SETTINGS_GROUP"@, "dbgsettings"@),
        ("{466F5A88-0AF2-4F76-9038-095B170DC21C}"@, "WINDOWS_LEGACY_NTLDR"@, "ntldr"@),
        ("{5189B25C-5558-4BF2-BCA4-289B11BD29E2}"@, "BAD_MEMORY_GROUP"@, "badmemory"@),
        ("{6EFB52BF-1766-41DB-A6B3-0EE5EFF72BD7}"@, "BOOT_LOADER_SETTINGS_GROUP"@, "bootloadersettings"@),
        ("{7254A080-1510-4E85-AC0F-E7FB3D444736}"@, "GUID_WINDOWS_SETUP_EFI"@, ""@),
        ("{7EA2E1AC-2E61-4728-AAA3-896D9D0A9F0E}"@, "GUID_GLOBAL_SETTINGS_GROUP"@, "globalsettings"@),
        ("{7FF607E0-4395-11DB-B0DE-0800200C9A66}"@, "GUID_HYPERVISOR_SETTINGS_GROUP"@, "hypervisorsettings"@),
        ("{9DEA862C-5CDD-4E70-ACC1-F32B344D4795}"@, "GUID_WINDOWS_BOOTMGR"@, "bootmgr"@),
        ("{A1943BBC-EA85-487C-97C7-C9EDE908A38A}"@, "GUID_WINDOWS_OS_TARGET_TEMPLATE_PCAT"@, ""@),
        ("{A5A30FA2-3D06-4E9F-B5F4-A01DF9D1FCBA}"@, "GUID_FIRMWARE_BOOTMGR"@, "fwbootmgr"@),
        ("{AE5534E0-A924-466C-B836-758539A3EE3A}"@, "GUID_WINDOWS_SETUP_RAMDISK_OPTIONS"@, "ramdiskoptions"@),
        ("{B012B84D-C47C-4ED5-B722-C0C42163E569}"@, "GUID_WINDOWS_OS_TARGET_TEMPLATE_EFI"@, ""@),
        ("{B2721D73-1DB4-4C62-BF78-C548A880142D}"@, "GUID_WINDOWS_MEMORY_TESTER"@, "memdiag"@),
        ("{CBD971BF-B7B8-4885-951A-FA03044F5D71}"@, "GUID_WINDOWS_SETUP_PCAT"@, ""@),
        ("{FA926493-6F1C-4193-A414-58F0B2456D1E}"@, "GUID_CURRENT_BOOT_ENTRY"@, "current"@),
    ]
}

/// The well-known element types and their `bcdedit` names.
pub open spec fn well_known_element_types() -> Seq<(u32, Seq<char>)> {
    seq![
        (0x1100_0001u32, "device"@),
        (0x1200_0002u32, "path"@),
        (0x1200_0004u32, "description"@),
        (0x1200_0005u32, "locale"@),
        (0x1400_0006u32, "inherit"@),
        (0x1500_0007u32, "truncatememory"@),
        (0x1400_0008u32, "recoversequence"@),
        (0x1600_0009u32, "recoveryenabled"@),
        (0x1700_000Au32, "badmemorylist"@),
        (0x1600_000Bu32, "badmemoryaccess"@),
        (0x1500_000Cu32, "firstmegabytepolicy"@),
        (0x1600_0060u32, "isolatedcontext"@),
        (0x1700_0077u32, "allowedinmemorysettings"@),
        (0x3500_0001u32, "ramdiskimageoffset"@),
        (0x3500_0002u32, "ramdisktftpclientport"@),
        (0x3100_0003u32, "ramdisksdidevice"@),
        (0x3200_0004u32, "ramdisksdipath"@),
        (0x2500_00C2u32, "bootmenupolicy"@),
    ]
}

/// The element classes and their words.
pub open spec fn element_class_words() -> Seq<(int, Seq<char>)> {
    seq![
        (1, "Library"@),
        (2, "Application"@),
        (3, "Device"@),
        (4, "Template/OEM"@),
    ]
}

/// The element formats and their words.
pub open spec fn element_format_words() -> Seq<(int, Seq<char>)> {
    seq![
        (1, "device"@),
        (2, "string"@),
        (3, "GUID"@),
        (4, "GUID list"@),
        (5, "integer"@),
        (6, "boolean"@),
        (7, "integer list"@),
    ]
}

proof fn lemma_object_entry_0()
    ensures
        spec_known_object_name("{0CE4991B-E6B3-4B16-B23C-5E0D9250E5D9}"@) == ("GUID_EMS_SETTINGS_GROUP"@, "emssettings"@),
{
    reveal_strlit("{0CE4991B-E6B3-4B16-B23C-5E0D9250E5D9}");
}

proof fn lemma_object_entry_1()
    ensures
        spec_known_object_name("{1AFA9C49-16AB-4A5C-4A90-212802DA9460}"@) == ("GUID_RESUME_LOADER_SETTINGS_GROUP"@, "resumeloadersettings"@),
{
    reveal_strlit("{1AFA9C49-16AB-4A5C-4A90-212802DA9460}");
    reveal_strlit("{0CE4991B-E6B3-4B16-B23C-5E0D9250E5D9}");
    assert("{1AFA9C49-16AB-4A5C-4A90-212802DA9460}"@[1] != "{0CE4991B-E6B3-4B16-B23C-5E0D9250E5D9}"@[1]);
}

proof fn lemma_object_entry_2()
    ensures
        spec_known_object_name("{1CAE1EB7-A0DF-4D4D-9851-4860E34EF535}"@) == ("GUID_DEFAULT_BOOT_ENTRY"@, "default"@),
{
    reveal_strlit("{1CAE1EB7-A0DF-4D4D-9851-4860E34EF535}");
    reveal_strlit("{0CE4991B-E6B3-4B16-B23C-5E0D9250E5D9}");
    assert("{1CAE1EB7-A0DF-4D4D-9851-4860E34EF535}"@[1] != "{0CE4991B-E6B3-4B16-B23C-5E0D9250E5D9}"@[1]);
    reveal_strlit("{1AFA9C49-16AB-4A5C-4A90-212802DA9460}");
    assert("{1CAE1EB7-A0DF-4D4D-9851-4860E34EF535}"@[2] != "{1AFA9C49-16AB-4A5C-4A90-212802DA9460}"@[2]);
}

proof fn lemma_object_entry_3()
    ensures
        spec_known_object_name("{313E8EED-7098-4586-A9BF-309C61F8D449}"@) == ("GUID_KERNEL_DEBUGGER_SETTINGS_GROUP"@, "kerneldbgsettings"@),
{
    reveal_strlit("{313E8EED-7098-4586-A9BF-309C61F8D449}");
    reveal_strlit("{0CE4991B-E6B3-4B16-B23C-5E0D9250E5D9}");
    assert("{313E8EED-7098-4586-A9BF-309C61F8D449}"@[1] != "{0CE4991B-E6B3-4B16-B23C-5E0D9250E5D9}"@[1]);
    reveal_strlit("{1AFA9C49-16AB-4A5C-4A90-212802DA9460}");
    assert("{313E8EED-7098-4586-A9BF-309C61F8D449}"@[1] != "{1AFA9C49-16AB-4A5C-4A90-212802DA9460}"@[1]);
    reveal_strlit("{1CAE1EB7-A0DF-4D4D-9851-4860E34EF535}");
    assert("{313E8EED-7098-4586-A9BF-309C61F8D449}"@[1] != "{1CAE1EB7-A0DF-4D4D-9851-4860E34EF535}"@[1]);
}

proof fn lemma_object_entry_4()
    ensures
        spec_known_object_name("{4636856E-540F-4170-A130-A84776F4C654}"@) == ("GUID_DEBUGGER_SETTINGS_GROUP"@, "dbgsettings"@),
{
    reveal_strlit("{4636856E-540F-4170-A130-A84776F4C654}");
    reveal_strlit("{0CE4991B-E6B3-4B16-B23C-5E0D9250E5D9}");
    assert("{4636856E-540F-4170-A130-A84776F4C654}"@[1] != "{0CE4991B-E6B3-4B16-B23C-5E0D9250E5D9}"@[1]);
    reveal_strlit("{1AFA9C49-16AB-4A5C-4A90-212802DA9460}");
    assert("{4636856E-540F-4170-A130-A84776F4C654}"@[1] != "{1AFA9C49-16AB-4A5C-4A90-212802DA9460}"@[1]);
    reveal_strlit("{1CAE1EB7-A0DF-4D4D-9851-4860E34EF535}");
    assert("{4636856E-540F-4170-A130-A84776F4C654}"@[1] != "{1CAE1EB7-A0DF-4D4D-9851-4860E34EF535}"@[1]);
    reveal_strlit("{313E8EED-7098-4586-A9BF-309C61F8D449}");
    assert("{4636856E-540F-4170-A130-A84776F4C654}"@[1] != "{313E8EED-7098-4586-A9BF-309C61F8D449}"@[1]);
}

proof fn lemma_object_entry_5()
    ensures
        spec_known_object_name("{466F5A88-0AF2-4F76-9038-095B170DC21C}"@) == ("WINDOWS_LEGACY_NTLDR"@, "ntldr"@),
{
    reveal_strlit("{466F5A88-0AF2-4F76-9038-095B170DC21C}");
    reveal_strlit("{0CE4991B-E6B3-4B16-B23C-5E0D9250E5D9}");
    assert("{466F5A88-0AF2-4F76-9038-095B170DC21C}"@[1] != "{0CE4991B-E6B3-4B16-B23C-5E0D9250E5D9}"@[1]);
    reveal_strlit("{1AFA9C49-16AB-4A5C-4A90-212802DA9460}");
    assert("{466F5A88-0AF2-4F76-9038-095B170DC21C}"@[1] != "{1AFA9C49-16AB-4A5C-4A90-212802DA9460}"@[1]);
    reveal_strlit("{1CAE1EB7-A0DF-4D4D-9851-4860E34EF535}");
    assert("{466F5A88-0AF2-4F76-9038-095B170DC21C}"@[1] != "{1CAE1EB7-A0DF-4D4D-9851-4860E34EF535}"@[1]);
    reveal_strlit("{313E8EED-7098-4586-A9BF-309C61F8D449}");
    assert("{466F5A88-0AF2-4F76-9038-095B170DC21C}"@[1] != "{313E8EED-7098-4586-A9BF-309C61F8D449}"@[1]);
    reveal_strlit("{4636856E-540F-4170-A130-A84776F4C654}");
    assert("{466F5A88-0AF2-4F76-9038-095B170DC21C}"@[3] != "{4636856E-540F-4170-A130-A84776F4C654}"@[3]);
}

proof fn lemma_object_entry_6()
    ensures
        spec_known_object_name("{5189B25C-5558-4BF2-BCA4-289B11BD29E2}"@) == ("BAD_MEMORY_GROUP"@, "badmemory"@),
{
    reveal_strlit("{5189B25C-5558-4BF2-BCA4-289B11BD29E2}");
    reveal_strlit("{0CE4991B-E6B3-4B16-B23C-5E0D9250E5D9}");
    assert("{5189B25C-5558-4BF2-BCA4-289B11BD29E2}"@[1] != "{0CE4991B-E6B3-4B16-B23C-5E0D9250E5D9}"@[1]);
    reveal_strlit("{1AFA9C49-16AB-4A5C-4A90-212802DA9460}");
    assert("{5189B25C-5558-4BF2-BCA4-289B11BD29E2}"@[1] != "{1AFA9C49-16AB-4A5C-4A90-212802DA9460}"@[1]);
    reveal_strlit("{1CAE1EB7-A0DF-4D4D-9851-4860E34EF535}");
    assert("{5189B25C-5558-4BF2-BCA4-289B11BD29E2}"@[1] != "{1CAE1EB7-A0DF-4D4D-9851-4860E34EF535}"@[1]);
    reveal_strlit("{313E8EED-7098-4586-A9BF-309C61F8D449}");
    assert("{5189B25C-5558-4BF2-BCA4-289B11BD29E2}"@[1] != "{313E8EED-7098-4586-A9BF-309C61F8D449}"@[1]);
    reveal_strlit("{4636856E-540F-4170-A130-A84776F4C654}");
    assert("{5189B25C-5558-4BF2-BCA4-289B11BD29E2}"@[1] != "{4636856E-540F-4170-A130-A84776F4C654}"@[1]);
    reveal_strlit("{466F5A88-0AF2-4F76-9038-095B170DC21C}");
    assert("{5189B25C-5558-4BF2-BCA4-289B11BD29E2}"@[1] != "{466F5A88-0AF2-4F76-9038-095B170DC21C}"@[1]);
}

proof fn lemma_object_entry_7()
    ensures
        spec_known_object_name("{6EFB52BF-1766-41DB-A6B3-0EE5EFF72BD7}"@) == ("BOOT_LOADER_SETTINGS_GROUP"@, "bootloadersettings"@),
{
    reveal_strlit("{6EFB52BF-1766-41DB-A6B3-0EE5EFF72BD7}");
    reveal_strlit("{0CE4991B-E6B3-4B16-B23C-5E0D9250E5D9}");
    assert("{6EFB52BF-1766-41DB-A6B3-0EE5EFF72BD7}"@[1] != "{0CE4991B-E6B3-4B16-B23C-5E0D9250E5D9}"@[1]);
    reveal_strlit("{1AFA9C49-16AB-4A5C-4A90-212802DA9460}");
    assert("{6EFB52BF-1766-41DB-A6B3-0EE5EFF72BD7}"@[1] != "{1AFA9C49-16AB-4A5C-4A90-212802DA9460}"@[1]);
    reveal_strlit("{1CAE1EB7-A0DF-4D4D-9851-4860E34EF535}");
    assert("{6EFB52BF-1766-41DB-A6B3-0EE5EFF72BD7}"@[1] != "{1CAE1EB7-A0DF-4D4D-9851-4860E34EF535}"@[1]);
    reveal_strlit("{313E8EED-7098-4586-A9BF-309C61F8D449}");
    assert("{6EFB52BF-1766-41DB-A6B3-0EE5EFF72BD7}"@[1] != "{313E8EED-7098-4586-A9BF-309C61F8D449}"@[1]);
    reveal_strlit("{4636856E-540F-4170-A130-A84776F4C654}");
    assert("{6EFB52BF-1766-41DB-A6B3-0EE5EFF72BD7}"@[1] != "{4636856E-540F-4170-A130-A84776F4C654}"@[1]);
    reveal_strlit("{466F5A88-0AF2-4F76-9038-095B170DC21C}");
    assert("{6EFB52BF-1766-41DB-A6B3-0EE5EFF72BD7}"@[1] != "{466F5A88-0AF2-4F76-9038-095B170DC21C}"@[1]);
    reveal_strlit("{5189B25C-5558-4BF2-BCA4-289B11BD29E2}");
    assert("{6EFB52BF-1766-41DB-A6B3-0EE5EFF72BD7}"@[1] != "{5189B25C-5558-4BF2-BCA4-289B11BD29E2}"@[1]);
}

proof fn lemma_object_entry_8()
    ensures
        spec_known_object_name("{7254A080-1510-4E85-AC0F-E7FB3D444736}"@) == ("GUID_WINDOWS_SETUP_EFI"@, ""@),
{
    reveal_strlit("{7254A080-1510-4E85-AC0F-E7FB3D444736}");
    reveal_strlit("{0CE4991B-E6B3-4B16-B23C-5E0D9250E5D9}");
    assert("{7254A080-1510-4E85-AC0F-E7FB3D444736}"@[1] != "{0CE4991B-E6B3-4B16-B23C-5E0D9250E5D9}"@[1]);
    reveal_strlit("{1AFA9C49-16AB-4A5C-4A90-212802DA9460}");
    assert("{7254A080-1510-4E85-AC0F-E7FB3D444736}"@[1] != "{1AFA9C49-16AB-4A5C-4A90-212802DA9460}"@[1]);
    reveal_strlit("{1CAE1EB7-A0DF-4D4D-9851-4860E34EF535}");
    assert("{7254A080-1510-4E85-AC0F-E7FB3D444736}"@[1] != "{1CAE1EB7-A0DF-4D4D-9851-4860E34EF535}"@[1]);
    reveal_strlit("{313E8EED-7098-4586-A9BF-309C61F8D449}");
    assert("{7254A080-1510-4E85-AC0F-E7FB3D444736}"@[1] != "{313E8EED-7098-4586-A9BF-309C61F8D449}"@[1]);
    reveal_strlit("{4636856E-540F-4170-A130-A84776F4C654}");
    assert("{7254A080-1510-4E85-AC0F-E7FB3D444736}"@[1] != "{4636856E-540F-4170-A130-A84776F4C654}"@[1]);
    reveal_strlit("{466F5A88-0AF2-4F76-9038-095B170DC21C}");
    assert("{7254A080-1510-4E85-AC0F-E7FB3D444736}"@[1] != "{466F5A88-0AF2-4F76-9038-095B170DC21C}"@[1]);
    reveal_strlit("{5189B25C-5558-4BF2-BCA4-289B11BD29E2}");
    assert("{7254A080-1510-4E85-AC0F-E7FB3D444736}"@[1] != "{5189B25C-5558-4BF2-BCA4-289B11BD29E2}"@[1]);
    reveal_strlit("{6EFB52BF-1766-41DB-A6B3-0EE5EFF72BD7}");
    assert("{7254A080-1510-4E85-AC0F-E7FB3D444736}"@[1] != "{6EFB52BF-1766-41DB-A6B3-0EE5EFF72BD7}"@[1]);
}

proof fn lemma_object_entry_9()
    ensures
        spec_known_object_name("{7EA2E1AC-2E61-4728-AAA3-896D9D0A9F0E}"@) == ("GUID_GLOBAL_SETTINGS_GROUP"@, "globalsettings"@),
{
    reveal_strlit("{7EA2E1AC-2E61-4728-AAA3-896D9D0A9F0E}");
    reveal_strlit("{0CE4991B-E6B3-4B16-B23C-5E0D9250E5D9}");
    assert("{7EA2E1AC-2E61-4728-AAA3-896D9D0A9F0E}"@[1] != "{0CE4991B-E6B3-4B16-B23C-5E0D9250E5D9}"@[1]);
    reveal_strlit("{1AFA9C49-16AB-4A5C-4A90-212802DA9460}");
    assert("{7EA2E1AC-2E61-4728-AAA3-896D9D0A9F0E}"@[1] != "{1AFA9C49-16AB-4A5C-4A90-212802DA9460}"@[1]);
    reveal_strlit("{1CAE1EB7-A0DF-4D4D-9851-4860E34EF535}");
    assert("{7EA2E1AC-2E61-4728-AAA3-896D9D0A9F0E}"@[1] != "{1CAE1EB7-A0DF-4D4D-9851-4860E34EF535}"@[1]);
    reveal_strlit("{313E8EED-7098-4586-A9BF-309C61F8D449}");
    assert("{7EA2E1AC-2E61-4728-AAA3-896D9D0A9F0E}"@[1] != "{313E8EED-7098-4586-A9BF-309C61F8D449}"@[1]);
    reveal_strlit("{4636856E-540F-4170-A130-A84776F4C654}");
    assert("{7EA2E1AC-2E61-4728-AAA3-896D9D0A9F0E}"@[1] != "{4636856E-540F-4170-A130-A84776F4C654}"@[1]);
    reveal_strlit("{466F5A88-0AF2-4F76-9038-095B170DC21C}");
    assert("{7EA2E1AC-2E61-4728-AAA3-896D9D0A9F0E}"@[1] != "{466F5A88-0AF2-4F76-9038-095B170DC21C}"@[1]);
    reveal_strlit("{5189B25C-5558-4BF2-BCA4-289B11BD29E2}");
    assert("{7EA2E1AC-2E61-4728-AAA3-896D9D0A9F0E}"@[1] != "{5189B25C-5558-4BF2-BCA4-289B11BD29E2}"@[1]);
    reveal_strlit("{6EFB52BF-1766-41DB-A6B3-0EE5EFF72BD7}");
    assert("{7EA2E1AC-2E61-4728-AAA3-896D9D0A9F0E}"@[1] != "{6EFB52BF-1766-41DB-A6B3-0EE5EFF72BD7}"@[1]);
    reveal_strlit("{7254A080-1510-4E85-AC0F-E7FB3D444736}");
    assert("{7EA2E1AC-2E61-4728-AAA3-896D9D0A9F0E}"@[2] != "{7254A080-1510-4E85-AC0F-E7FB3D444736}"@[2]);
}

proof fn lemma_object_entry_10()
    ensures
        spec_known_object_name("{7FF607E0-4395-11DB-B0DE-0800200C9A66}"@) == ("GUID_HYPERVISOR_SETTINGS_GROUP"@, "hypervisorsettings"@),
{
    reveal_strlit("{7FF607E0-4395-11DB-B0DE-0800200C9A66}");
    reveal_strlit("{0CE4991B-E6B3-4B16-B23C-5E0D9250E5D9}");
    assert("{7FF607E0-4395-11DB-B0DE-0800200C9A66}"@[1] != "{0CE4991B-E6B3-4B16-B23C-5E0D9250E5D9}"@[1]);
    reveal_strlit("{1AFA9C49-16AB-4A5C-4A90-212802DA9460}");
    assert("{7FF607E0-4395-11DB-B0DE-0800200C9A66}"@[1] != "{1AFA9C49-16AB-4A5C-4A90-212802DA9460}"@[1]);
    reveal_strlit("{1CAE1EB7-A0DF-4D4D-9851-4860E34EF535}");
    assert("{7FF607E0-4395-11DB-B0DE-0800200C9A66}"@[1] != "{1CAE1EB7-A0DF-4D4D-9851-4860E34EF535}"@[1]);
    reveal_strlit("{313E8EED-7098-4586-A9BF-309C61F8D449}");
    assert("{7FF607E0-4395-11DB-B0DE-0800200C9A66}"@[1] != "{313E8EED-7098-4586-A9BF-309C61F8D449}"@[1]);
    reveal_strlit("{4636856E-540F-4170-A130-A84776F4C654}");
    assert("{7FF607E0-4395-11DB-B0DE-0800200C9A66}"@[1] != "{4636856E-540F-4170-A130-A84776F4C654}"@[1]);
    reveal_strlit("{466F5A88-0AF2-4F76-9038-095B170DC21C}");
    assert("{7FF607E0-4395-11DB-B0DE-0800200C9A66}"@[1] != "{466F5A88-0AF2-4F76-9038-095B170DC21C}"@[1]);
    reveal_strlit("{5189B25C-5558-4BF2-BCA4-289B11BD29E2}");
    assert("{7FF607E0-4395-11DB-B0DE-0800200C9A66}"@[1] != "{5189B25C-5558-4BF2-BCA4-289B11BD29E2}"@[1]);
    reveal_strlit("{6EFB52BF-1766-41DB-A6B3-0EE5EFF72BD7}");
    assert("{7FF607E0-4395-11DB-B0DE-0800200C9A66}"@[1] != "{6EFB52BF-1766-41DB-A6B3-0EE5EFF72BD7}"@[1]);
    reveal_strlit("{7254A080-1510-4E85-AC0F-E7FB3D444736}");
    assert("{7FF607E0-4395-11DB-B0DE-0800200C9A66}"@[2] != "{7254A080-1510-4E85-AC0F-E7FB3D444736}"@[2]);
    reveal_strlit("{7EA2E1AC-2E61-4728-AAA3-896D9D0A9F0E}");
    assert("{7FF607E0-4395-11DB-B0DE-0800200C9A66}"@[2] != "{7EA2E1AC-2E61-4728-AAA3-896D9D0A9F0E}"@[2]);
}

proof fn lemma_object_entry_11()
    ensures
        spec_known_object_name("{9DEA862C-5CDD-4E70-ACC1-F32B344D4795}"@) == ("GUID_WINDOWS_BOOTMGR"@, "bootmgr"@),
{
    reveal_strlit("{9DEA862C-5CDD-4E70-ACC1-F32B344D4795}");
    reveal_strlit("{0CE4991B-E6B3-4B16-B23C-5E0D9250E5D9}");
    assert("{9DEA862C-5CDD-4E70-ACC1-F32B344D4795}"@[1] != "{0CE4991B-E6B3-4B16-B23C-5E0D9250E5D9}"@[1]);
    reveal_strlit("{1AFA9C49-16AB-4A5C-4A90-212802DA9460}");
    assert("{9DEA862C-5CDD-4E70-ACC1-F32B344D4795}"@[1] != "{1AFA9C49-16AB-4A5C-4A90-212802DA9460}"@[1]);
    reveal_strlit("{1CAE1EB7-A0DF-4D4D-9851-4860E34EF535}");
    assert("{9DEA862C-5CDD-4E70-ACC1-F32B344D4795}"@[1] != "{1CAE1EB7-A0DF-4D4D-9851-4860E34EF535}"@[1]);
    reveal_strlit("{313E8EED-7098-4586-A9BF-309C61F8D449}");
    assert("{9DEA862C-5CDD-4E70-ACC1-F32B344D4795}"@[1] != "{313E8EED-7098-4586-A9BF-309C61F8D449}"@[1]);
    reveal_strlit("{4636856E-540F-4170-A130-A84776F4C654}");
    assert("{9DEA862C-5CDD-4E70-ACC1-F32B344D4795}"@[1] != "{4636856E-540F-4170-A130-A84776F4C654}"@[1]);
    reveal_strlit("{466F5A88-0AF2-4F76-9038-095B170DC21C}");
    assert("{9DEA862C-5CDD-4E70-ACC1-F32B344D4795}"@[1] != "{466F5A88-0AF2-4F76-9038-095B170DC21C}"@[1]);
    reveal_strlit("{5189B25C-5558-4BF2-BCA4-289B11BD29E2}");
    assert("{9DEA862C-5CDD-4E70-ACC1-F32B344D4795}"@[1] != "{5189B25C-5558-4BF2-BCA4-289B11BD29E2}"@[1]);
    reveal_strlit("{6EFB52BF-1766-41DB-A6B3-0EE5EFF72BD7}");
    assert("{9DEA862C-5CDD-4E70-ACC1-F32B344D4795}"@[1] != "{6EFB52BF-1766-41DB-A6B3-0EE5EFF72BD7}"@[1]);
    reveal_strlit("{7254A080-1510-4E85-AC0F-E7FB3D444736}");
    assert("{9DEA862C-5CDD-4E70-ACC1-F32B344D4795}"@[1] != "{7254A080-1510-4E85-AC0F-E7FB3D444736}"@[1]);
    reveal_strlit("{7EA2E1AC-2E61-4728-AAA3-896D9D0A9F0E}");
    assert("{9DEA862C-5CDD-4E70-ACC1-F32B344D4795}"@[1] != "{7EA2E1AC-2E61-4728-AAA3-896D9D0A9F0E}"@[1]);
    reveal_strlit("{7FF607E0-4395-11DB-B0DE-0800200C9A66}");
    assert("{9DEA862C-5CDD-4E70-ACC1-F32B344D4795}"@[1] != "{7FF607E0-4395-11DB-B0DE-0800200C9A66}"@[1]);
}

proof fn lemma_object_entry_12()
    ensures
        spec_known_object_name("{A1943BBC-EA85-487C-97C7-C9EDE908A38A}"@) == ("GUID_WINDOWS_OS_TARGET_TEMPLATE_PCAT"@, ""@),
{
    reveal_strlit("{A1943BBC-EA85-487C-97C7-C9EDE908A38A}");
    reveal_strlit("{0CE4991B-E6B3-4B16-B23C-5E0D9250E5D9}");
    assert("{A1943BBC-EA85-487C-97C7-C9EDE908A38A}"@[1] != "{0CE4991B-E6B3-4B16-B23C-5E0D9250E5D9}"@[1]);
    reveal_strlit("{1AFA9C49-16AB-4A5C-4A90-212802DA9460}");
    assert("{A1943BBC-EA85-487C-97C7-C9EDE908A38A}"@[1] != "{1AFA9C49-16AB-4A5C-4A90-212802DA9460}"@[1]);
    reveal_strlit("{1CAE1EB7-A0DF-4D4D-9851-4860E34EF535}");
    assert("{A1943BBC-EA85-487C-97C7-C9EDE908A38A}"@[1] != "{1CAE1EB7-A0DF-4D4D-9851-4860E34EF535}"@[1]);
    reveal_strlit("{313E8EED-7098-4586-A9BF-309C61F8D449}");
    assert("{A1943BBC-EA85-487C-97C7-C9EDE908A38A}"@[1] != "{313E8EED-7098-4586-A9BF-309C61F8D449}"@[1]);
    reveal_strlit("{4636856E-540F-4170-A130-A84776F4C654}");
    assert("{A1943BBC-EA85-487C-97C7-C9EDE908A38A}"@[1] != "{4636856E-540F-4170-A130-A84776F4C654}"@[1]);
    reveal_strlit("{466F5A88-0AF2-4F76-9038-095B170DC21C}");
    assert("{A1943BBC-EA85-487C-97C7-C9EDE908A38A}"@[1] != "{466F5A88-0AF2-4F76-9038-095B170DC21C}"@[1]);
    reveal_strlit("{5189B25C-5558-4BF2-BCA4-289B11BD29E2}");
    assert("{A1943BBC-EA85-487C-97C7-C9EDE908A38A}"@[1] != "{5189B25C-5558-4BF2-BCA4-289B11BD29E2}"@[1]);
    reveal_strlit("{6EFB52BF-1766-41DB-A6B3-0EE5EFF72BD7}");
    assert("{A1943BBC-EA85-487C-97C7-C9EDE908A38A}"@[1] != "{6EFB52BF-1766-41DB-A6B3-0EE5EFF72BD7}"@[1]);
    reveal_strlit("{7254A080-1510-4E85-AC0F-E7FB3D444736}");
    assert("{A1943BBC-EA85-487C-97C7-C9EDE908A38A}"@[1] != "{7254A080-1510-4E85-AC0F-E7FB3D444736}"@[1]);
    reveal_strlit("{7EA2E1AC-2E61-4728-AAA3-896D9D0A9F0E}");
    assert("{A1943BBC-EA85-487C-97C7-C9EDE908A38A}"@[1] != "{7EA2E1AC-2E61-4728-AAA3-896D9D0A9F0E}"@[1]);
    reveal_strlit("{7FF607E0-4395-11DB-B0DE-0800200C9A66}");
    assert("{A1943BBC-EA85-487C-97C7-C9EDE908A38A}"@[1] != "{7FF607E0-4395-11DB-B0DE-0800200C9A66}"@[1]);
    reveal_strlit("{9DEA862C-5CDD-4E70-ACC1-F32B344D4795}");
    assert("{A1943BBC-EA85-487C-97C7-C9EDE908A38A}"@[1] != "{9DEA862C-5CDD-4E70-ACC1-F32B344D4795}"@[1]);
}

proof fn lemma_object_entry_13()
    ensures
        spec_known_object_name("{A5A30FA2-3D06-4E9F-B5F4-A01DF9D1FCBA}"@) == ("GUID_FIRMWARE_BOOTMGR"@, "fwbootmgr"@),
{
    reveal_strlit("{A5A30FA2-3D06-4E9F-B5F4-A01DF9D1FCBA}");
    reveal_strlit("{0CE4991B-E6B3-4B16-B23C-5E0D9250E5D9}");
    assert("{A5A30FA2-3D06-4E9F-B5F4-A01DF9D1FCBA}"@[1] != "{0CE4991B-E6B3-4B16-B23C-5E0D9250E5D9}"@[1]);
    reveal_strlit("{1AFA9C49-16AB-4A5C-4A90-212802DA9460}");
    assert("{A5A30FA2-3D06-4E9F-B5F4-A01DF9D1FCBA}"@[1] != "{1AFA9C49-16AB-4A5C-4A90-212802DA9460}"@[1]);
    reveal_strlit("{1CAE1EB7-A0DF-4D4D-9851-4860E34EF535}");
    assert("{A5A30FA2-3D06-4E9F-B5F4-A01DF9D1FCBA}"@[1] != "{1CAE1EB7-A0DF-4D4D-9851-4860E34EF535}"@[1]);
    reveal_strlit("{313E8EED-7098-4586-A9BF-309C61F8D449}");
    assert("{A5A30FA2-3D06-4E9F-B5F4-A01DF9D1FCBA}"@[1] != "{313E8EED-7098-4586-A9BF-309C61F8D449}"@[1]);
    reveal_strlit("{4636856E-540F-4170-A130-A84776F4C654}");
    assert("{A5A30FA2-3D06-4E9F-B5F4-A01DF9D1FCBA}"@[1] != "{4636856E-540F-4170-A130-A84776F4C654}"@[1]);
    reveal_strlit("{466F5A88-0AF2-4F76-9038-095B170DC21C}");
    assert("{A5A30FA2-3D06-4E9F-B5F4-A01DF9D1FCBA}"@[1] != "{466F5A88-0AF2-4F76-9038-095B170DC21C}"@[1]);
    reveal_strlit("{5189B25C-5558-4BF2-BCA4-289B11BD29E2}");
    assert("{A5A30FA2-3D06-4E9F-B5F4-A01DF9D1FCBA}"@[1] != "{5189B25C-5558-4BF2-BCA4-289B11BD29E2}"@[1]);
    reveal_strlit("{6EFB52BF-1766-41DB-A6B3-0EE5EFF72BD7}");
    assert("{A5A30FA2-3D06-4E9F-B5F4-A01DF9D1FCBA}"@[1] != "{6EFB52BF-1766-41DB-A6B3-0EE5EFF72BD7}"@[1]);
    reveal_strlit("{7254A080-1510-4E85-AC0F-E7FB3D444736}");
    assert("{A5A30FA2-3D06-4E9F-B5F4-A01DF9D1FCBA}"@[1] != "{7254A080-1510-4E85-AC0F-E7FB3D444736}"@[1]);
    reveal_strlit("{7EA2E1AC-2E61-4728-AAA3-896D9D0A9F0E}");
    assert("{A5A30FA2-3D06-4E9F-B5F4-A01DF9D1FCBA}"@[1] != "{7EA2E1AC-2E61-4728-AAA3-896D9D0A9F0E}"@[1]);
    reveal_strlit("{7FF607E0-4395-11DB-B0DE-0800200C9A66}");
    assert("{A5A30FA2-3D06-4E9F-B5F4-A01DF9D1FCBA}"@[1] != "{7FF607E0-4395-11DB-B0DE-0800200C9A66}"@[1]);
    reveal_strlit("{9DEA862C-5CDD-4E70-ACC1-F32B344D4795}");
    assert("{A5A30FA2-3D06-4E9F-B5F4-A01DF9D1FCBA}"@[1] != "{9DEA862C-5CDD-4E70-ACC1-F32B344D4795}"@[1]);
    reveal_strlit("{A1943BBC-EA85-487C-97C7-C9EDE908A38A}");
    assert("{A5A30FA2-3D06-4E9F-B5F4-A01DF9D1FCBA}"@[2] != "{A1943BBC-EA85-487C-97C7-C9EDE908A38A}"@[2]);
}

proof fn lemma_object_entry_14()
    ensures
        spec_known_object_name("{AE5534E0-A924-466C-B836-758539A3EE3A}"@) == ("GUID_WINDOWS_SETUP_RAMDISK_OPTIONS"@, "ramdiskoptions"@),
{
    reveal_strlit("{AE5534E0-A924-466C-B836-758539A3EE3A}");
    reveal_strlit("{0CE4991B-E6B3-4B16-B23C-5E0D9250E5D9}");
    assert("{AE5534E0-A924-466C-B836-758539A3EE3A}"@[1] != "{0CE4991B-E6B3-4B16-B23C-5E0D9250E5D9}"@[1]);
    reveal_strlit("{1AFA9C49-16AB-4A5C-4A90-212802DA9460}");
    assert("{AE5534E0-A924-466C-B836-758539A3EE3A}"@[1] != "{1AFA9C49-16AB-4A5C-4A90-212802DA9460}"@[1]);
    reveal_strlit("{1CAE1EB7-A0DF-4D4D-9851-4860E34EF535}");
    assert("{AE5534E0-A924-466C-B836-758539A3EE3A}"@[1] != "{1CAE1EB7-A0DF-4D4D-9851-4860E34EF535}"@[1]);
    reveal_strlit("{313E8EED-7098-4586-A9BF-309C61F8D449}");
    assert("{AE5534E0-A924-466C-B836-758539A3EE3A}"@[1] != "{313E8EED-7098-4586-A9BF-309C61F8D449}"@[1]);
    reveal_strlit("{4636856E-540F-4170-A130-A84776F4C654}");
    assert("{AE5534E0-A924-466C-B836-758539A3EE3A}"@[1] != "{4636856E-540F-4170-A130-A84776F4C654}"@[1]);
    reveal_strlit("{466F5A88-0AF2-4F76-9038-095B170DC21C}");
    assert("{AE5534E0-A924-466C-B836-758539A3EE3A}"@[1] != "{466F5A88-0AF2-4F76-9038-095B170DC21C}"@[1]);
    reveal_strlit("{5189B25C-5558-4BF2-BCA4-289B11BD29E2}");
    assert("{AE5534E0-A924-466C-B836-758539A3EE3A}"@[1] != "{5189B25C-5558-4BF2-BCA4-289B11BD29E2}"@[1]);
    reveal_strlit("{6EFB52BF-1766-41DB-A6B3-0EE5EFF72BD7}");
    assert("{AE5534E0-A924-466C-B836-758539A3EE3A}"@[1] != "{6EFB52BF-1766-41DB-A6B3-0EE5EFF72BD7}"@[1]);
    reveal_strlit("{7254A080-1510-4E85-AC0F-E7FB3D444736}");
    assert("{AE5534E0-A924-466C-B836-758539A3EE3A}"@[1] != "{7254A080-1510-4E85-AC0F-E7FB3D444736}"@[1]);
    reveal_strlit("{7EA2E1AC-2E61-4728-AAA3-896D9D0A9F0E}");
    assert("{AE5534E0-A924-466C-B836-758539A3EE3A}"@[1] != "{7EA2E1AC-2E61-4728-AAA3-896D9D0A9F0E}"@[1]);
    reveal_strlit("{7FF607E0-4395-11DB-B0DE-0800200C9A66}");
    assert("{AE5534E0-A924-466C-B836-758539A3EE3A}"@[1] != "{7FF607E0-4395-11DB-B0DE-0800200C9A66}"@[1]);
    reveal_strlit("{9DEA862C-5CDD-4E70-ACC1-F32B344D4795}");
    assert("{AE5534E0-A924-466C-B836-758539A3EE3A}"@[1] != "{9DEA862C-5CDD-4E70-ACC1-F32B344D4795}"@[1]);
    reveal_strlit("{A1943BBC-EA85-487C-97C7-C9EDE908A38A}");
    assert("{AE5534E0-A924-466C-B836-758539A3EE3A}"@[2] != "{A1943BBC-EA85-487C-97C7-C9EDE908A38A}"@[2]);
    reveal_strlit("{A5A30FA2-3D06-4E9F-B5F4-A01DF9D1FCBA}");
    assert("{AE5534E0-A924-466C-B836-758539A3EE3A}"@[2] != "{A5A30FA2-3D06-4E9F-B5F4-A01DF9D1FCBA}"@[2]);
}

proof fn lemma_object_entry_15()
    ensures
        spec_known_object_name("{B012B84D-C47C-4ED5-B722-C0C42163E569}"@) == ("GUID_WINDOWS_OS_TARGET_TEMPLATE_EFI"@, ""@),
{
    reveal_strlit("{B012B84D-C47C-4ED5-B722-C0C42163E569}");
    reveal_strlit("{0CE4991B-E6B3-4B16-B23C-5E0D9250E5D9}");
    assert("{B012B84D-C47C-4ED5-B722-C0C42163E569}"@[1] != "{0CE4991B-E6B3-4B16-B23C-5E0D9250E5D9}"@[1]);
    reveal_strlit("{1AFA9C49-16AB-4A5C-4A90-212802DA9460}");
    assert("{B012B84D-C47C-4ED5-B722-C0C42163E569}"@[1] != "{1AFA9C49-16AB-4A5C-4A90-212802DA9460}"@[1]);
    reveal_strlit("{1CAE1EB7-A0DF-4D4D-9851-4860E34EF535}");
    assert("{B012B84D-C47C-4ED5-B722-C0C42163E569}"@[1] != "{1CAE1EB7-A0DF-4D4D-9851-4860E34EF535}"@[1]);
    reveal_strlit("{313E8EED-7098-4586-A9BF-309C61F8D449}");
    assert("{B012B84D-C47C-4ED5-B722-C0C42163E569}"@[1] != "{313E8EED-7098-4586-A9BF-309C61F8D449}"@[1]);
    reveal_strlit("{4636856E-540F-4170-A130-A84776F4C654}");
    assert("{B012B84D-C47C-4ED5-B722-C0C42163E569}"@[1] != "{4636856E-540F-4170-A130-A84776F4C654}"@[1]);
    reveal_strlit("{466F5A88-0AF2-4F76-9038-095B170DC21C}");
    assert("{B012B84D-C47C-4ED5-B722-C0C42163E569}"@[1] != "{466F5A88-0AF2-4F76-9038-095B170DC21C}"@[1]);
    reveal_strlit("{5189B25C-5558-4BF2-BCA4-289B11BD29E2}");
    assert("{B012B84D-C47C-4ED5-B722-C0C42163E569}"@[1] != "{5189B25C-5558-4BF2-BCA4-289B11BD29E2}"@[1]);
    reveal_strlit("{6EFB52BF-1766-41DB-A6B3-0EE5EFF72BD7}");
    assert("{B012B84D-C47C-4ED5-B722-C0C42163E569}"@[1] != "{6EFB52BF-1766-41DB-A6B3-0EE5EFF72BD7}"@[1]);
    reveal_strlit("{7254A080-1510-4E85-AC0F-E7FB3D444736}");
    assert("{B012B84D-C47C-4ED5-B722-C0C42163E569}"@[1] != "{7254A080-1510-4E85-AC0F-E7FB3D444736}"@[1]);
    reveal_strlit("{7EA2E1AC-2E61-4728-AAA3-896D9D0A9F0E}");
    assert("{B012B84D-C47C-4ED5-B722-C0C42163E569}"@[1] != "{7EA2E1AC-2E61-4728-AAA3-896D9D0A9F0E}"@[1]);
    reveal_strlit("{7FF607E0-4395-11DB-B0DE-0800200C9A66}");
    assert("{B012B84D-C47C-4ED5-B722-C0C42163E569}"@[1] != "{7FF607E0-4395-11DB-B0DE-0800200C9A66}"@[1]);
    reveal_strlit("{9DEA862C-5CDD-4E70-ACC1-F32B344D4795}");
    assert("{B012B84D-C47C-4ED5-B722-C0C42163E569}"@[1] != "{9DEA862C-5CDD-4E70-ACC1-F32B344D4795}"@[1]);
    reveal_strlit("{A1943BBC-EA85-487C-97C7-C9EDE908A38A}");
    assert("{B012B84D-C47C-4ED5-B722-C0C42163E569}"@[1] != "{A1943BBC-EA85-487C-97C7-C9EDE908A38A}"@[1]);
    reveal_strlit("{A5A30FA2-3D06-4E9F-B5F4-A01DF9D1FCBA}");
    assert("{B012B84D-C47C-4ED5-B722-C0C42163E569}"@[1] != "{A5A30FA2-3D06-4E9F-B5F4-A01DF9D1FCBA}"@[1]);
    reveal_strlit("{AE5534E0-A924-466C-B836-758539A3EE3A}");
    assert("{B012B84D-C47C-4ED5-B722-C0C42163E569}"@[1] != "{AE5534E0-A924-466C-B836-758539A3EE3A}"@[1]);
}

proof fn lemma_object_entry_16()
    ensures
        spec_known_object_name("{B2721D73-1DB4-4C62-BF78-C548A880142D}"@) == ("GUID_WINDOWS_MEMORY_TESTER"@, "memdiag"@),
{
    reveal_strlit("{B2721D73-1DB4-4C62-BF78-C548A880142D}");
    reveal_strlit("{0CE4991B-E6B3-4B16-B23C-5E0D9250E5D9}");
    assert("{B2721D73-1DB4-4C62-BF78-C548A880142D}"@[1] != "{0CE4991B-E6B3-4B16-B23C-5E0D9250E5D9}"@[1]);
    reveal_strlit("{1AFA9C49-16AB-4A5C-4A90-212802DA9460}");
    assert("{B2721D73-1DB4-4C62-BF78-C548A880142D}"@[1] != "{1AFA9C49-16AB-4A5C-4A90-212802DA9460}"@[1]);
    reveal_strlit("{1CAE1EB7-A0DF-4D4D-9851-4860E34EF535}");
    assert("{B2721D73-1DB4-4C62-BF78-C548A880142D}"@[1] != "{1CAE1EB7-A0DF-4D4D-9851-4860E34EF535}"@[1]);
    reveal_strlit("{313E8EED-7098-4586-A9BF-309C61F8D449}");
    assert("{B2721D73-1DB4-4C62-BF78-C548A880142D}"@[1] != "{313E8EED-7098-4586-A9BF-309C61F8D449}"@[1]);
    reveal_strlit("{4636856E-540F-4170-A130-A84776F4C654}");
    assert("{B2721D73-1DB4-4C62-BF78-C548A880142D}"@[1] != "{4636856E-540F-4170-A130-A84776F4C654}"@[1]);
    reveal_strlit("{466F5A88-0AF2-4F76-9038-095B170DC21C}");
    assert("{B2721D73-1DB4-4C62-BF78-C548A880142D}"@[1] != "{466F5A88-0AF2-4F76-9038-095B170DC21C}"@[1]);
    reveal_strlit("{5189B25C-5558-4BF2-BCA4-289B11BD29E2}");
    assert("{B2721D73-1DB4-4C62-BF78-C548A880142D}"@[1] != "{5189B25C-5558-4BF2-BCA4-289B11BD29E2}"@[1]);
    reveal_strlit("{6EFB52BF-1766-41DB-A6B3-0EE5EFF72BD7}");
    assert("{B2721D73-1DB4-4C62-BF78-C548A880142D}"@[1] != "{6EFB52BF-1766-41DB-A6B3-0EE5EFF72BD7}"@[1]);
    reveal_strlit("{7254A080-1510-4E85-AC0F-E7FB3D444736}");
    assert("{B2721D73-1DB4-4C62-BF78-C548A880142D}"@[1] != "{7254A080-1510-4E85-AC0F-E7FB3D444736}"@[1]);
    reveal_strlit("{7EA2E1AC-2E61-4728-AAA3-896D9D0A9F0E}");
    assert("{B2721D73-1DB4-4C62-BF78-C548A880142D}"@[1] != "{7EA2E1AC-2E61-4728-AAA3-896D9D0A9F0E}"@[1]);
    reveal_strlit("{7FF607E0-4395-11DB-B0DE-0800200C9A66}");
    assert("{B2721D73-1DB4-4C62-BF78-C548A880142D}"@[1] != "{7FF607E0-4395-11DB-B0DE-0800200C9A66}"@[1]);
    reveal_strlit("{9DEA862C-5CDD-4E70-ACC1-F32B344D4795}");
    assert("{B2721D73-1DB4-4C62-BF78-C548A880142D}"@[1] != "{9DEA862C-5CDD-4E70-ACC1-F32B344D4795}"@[1]);
    reveal_strlit("{A1943BBC-EA85-487C-97C7-C9EDE908A38A}");
    assert("{B2721D73-1DB4-4C62-BF78-C548A880142D}"@[1] != "{A1943BBC-EA85-487C-97C7-C9EDE908A38A}"@[1]);
    reveal_strlit("{A5A30FA2-3D06-4E9F-B5F4-A01DF9D1FCBA}");
    assert("{B2721D73-1DB4-4C62-BF78-C548A880142D}"@[1] != "{A5A30FA2-3D06-4E9F-B5F4-A01DF9D1FCBA}"@[1]);
    reveal_strlit("{AE5534E0-A924-466C-B836-758539A3EE3A}");
    assert("{B2721D73-1DB4-4C62-BF78-C548A880142D}"@[1] != "{AE5534E0-A924-466C-B836-758539A3EE3A}"@[1]);
    reveal_strlit("{B012B84D-C47C-4ED5-B722-C0C42163E569}");
    assert("{B2721D73-1DB4-4C62-BF78-C548A880142D}"@[2] != "{B012B84D-C47C-4ED5-B722-C0C42163E569}"@[2]);
}

proof fn lemma_object_entry_17()
    ensures
        spec_known_object_name("{CBD971BF-B7B8-4885-951A-FA03044F5D71}"@) == ("GUID_WINDOWS_SETUP_PCAT"@, ""@),
{
    reveal_strlit("{CBD971BF-B7B8-4885-951A-FA03044F5D71}");
    reveal_strlit("{0CE4991B-E6B3-4B16-B23C-5E0D9250E5D9}");
    assert("{CBD971BF-B7B8-4885-951A-FA03044F5D71}"@[1] != "{0CE4991B-E6B3-4B16-B23C-5E0D9250E5D9}"@[1]);
    reveal_strlit("{1AFA9C49-16AB-4A5C-4A90-212802DA9460}");
    assert("{CBD971BF-B7B8-4885-951A-FA03044F5D71}"@[1] != "{1AFA9C49-16AB-4A5C-4A90-212802DA9460}"@[1]);
    reveal_strlit("{1CAE1EB7-A0DF-4D4D-9851-4860E34EF535}");
    assert("{CBD971BF-B7B8-4885-951A-FA03044F5D71}"@[1] != "{1CAE1EB7-A0DF-4D4D-9851-4860E34EF535}"@[1]);
    reveal_strlit("{313E8EED-7098-4586-A9BF-309C61F8D449}");
    assert("{CBD971BF-B7B8-4885-951A-FA03044F5D71}"@[1] != "{313E8EED-7098-4586-A9BF-309C61F8D449}"@[1]);
    reveal_strlit("{4636856E-540F-4170-A130-A84776F4C654}");
    assert("{CBD971BF-B7B8-4885-951A-FA03044F5D71}"@[1] != "{4636856E-540F-4170-A130-A84776F4C654}"@[1]);
    reveal_strlit("{466F5A88-0AF2-4F76-9038-095B170DC21C}");
    assert("{CBD971BF-B7B8-4885-951A-FA03044F5D71}"@[1] != "{466F5A88-0AF2-4F76-9038-095B170DC21C}"@[1]);
    reveal_strlit("{5189B25C-5558-4BF2-BCA4-289B11BD29E2}");
    assert("{CBD971BF-B7B8-4885-951A-FA03044F5D71}"@[1] != "{5189B25C-5558-4BF2-BCA4-289B11BD29E2}"@[1]);
    reveal_strlit("{6EFB52BF-1766-41DB-A6B3-0EE5EFF72BD7}");
    assert("{CBD971BF-B7B8-4885-951A-FA03044F5D71}"@[1] != "{6EFB52BF-1766-41DB-A6B3-0EE5EFF72BD7}"@[1]);
    reveal_strlit("{7254A080-1510-4E85-AC0F-E7FB3D444736}");
    assert("{CBD971BF-B7B8-4885-951A-FA03044F5D71}"@[1] != "{7254A080-1510-4E85-AC0F-E7FB3D444736}"@[1]);
    reveal_strlit("{7EA2E1AC-2E61-4728-AAA3-896D9D0A9F0E}");
    assert("{CBD971BF-B7B8-4885-951A-FA03044F5D71}"@[1] != "{7EA2E1AC-2E61-4728-AAA3-896D9D0A9F0E}"@[1]);
    reveal_strlit("{7FF607E0-4395-11DB-B0DE-0800200C9A66}");
    assert("{CBD971BF-B7B8-4885-951A-FA03044F5D71}"@[1] != "{7FF607E0-4395-11DB-B0DE-0800200C9A66}"@[1]);
    reveal_strlit("{9DEA862C-5CDD-4E70-ACC1-F32B344D4795}");
    assert("{CBD971BF-B7B8-4885-951A-FA03044F5D71}"@[1] != "{9DEA862C-5CDD-4E70-ACC1-F32B344D4795}"@[1]);
    reveal_strlit("{A1943BBC-EA85-487C-97C7-C9EDE908A38A}");
    assert("{CBD971BF-B7B8-4885-951A-FA03044F5D71}"@[1] != "{A1943BBC-EA85-487C-97C7-C9EDE908A38A}"@[1]);
    reveal_strlit("{A5A30FA2-3D06-4E9F-B5F4-A01DF9D1FCBA}");
    assert("{CBD971BF-B7B8-4885-951A-FA03044F5D71}"@[1] != "{A5A30FA2-3D06-4E9F-B5F4-A01DF9D1FCBA}"@[1]);
    reveal_strlit("{AE5534E0-A924-466C-B836-758539A3EE3A}");
    assert("{CBD971BF-B7B8-4885-951A-FA03044F5D71}"@[1] != "{AE5534E0-A924-466C-B836-758539A3EE3A}"@[1]);
    reveal_strlit("{B012B84D-C47C-4ED5-B722-C0C42163E569}");
    assert("{CBD971BF-B7B8-4885-951A-FA03044F5D71}"@[1] != "{B012B84D-C47C-4ED5-B722-C0C42163E569}"@[1]);
    reveal_strlit("{B2721D73-1DB4-4C62-BF78-C548A880142D}");
    assert("{CBD971BF-B7B8-4885-951A-FA03044F5D71}"@[1] != "{B2721D73-1DB4-4C62-BF78-C548A880142D}"@[1]);
}

proof fn lemma_object_entry_18()
    ensures
        spec_known_object_name("{FA926493-6F1C-4193-A414-58F0B2456D1E}"@) == ("GUID_CURRENT_BOOT_ENTRY"@, "current"@),
{
    reveal_strlit("{FA926493-6F1C-4193-A414-58F0B2456D1E}");
    reveal_strlit("{0CE4991B-E6B3-4B16-B23C-5E0D9250E5D9}");
    assert("{FA926493-6F1C-4193-A414-58F0B2456D1E}"@[1] != "{0CE4991B-E6B3-4B16-B23C-5E0D9250E5D9}"@[1]);
    reveal_strlit("{1AFA9C49-16AB-4A5C-4A90-212802DA9460}");
    assert("{FA926493-6F1C-4193-A414-58F0B2456D1E}"@[1] != "{1AFA9C49-16AB-4A5C-4A90-212802DA9460}"@[1]);
    reveal_strlit("{1CAE1EB7-A0DF-4D4D-9851-4860E34EF535}");
    assert("{FA926493-6F1C-4193-A414-58F0B2456D1E}"@[1] != "{1CAE1EB7-A0DF-4D4D-9851-4860E34EF535}"@[1]);
    reveal_strlit("{313E8EED-7098-4586-A9BF-309C61F8D449}");
    assert("{FA926493-6F1C-4193-A414-58F0B2456D1E}"@[1] != "{313E8EED-7098-4586-A9BF-309C61F8D449}"@[1]);
    reveal_strlit("{4636856E-540F-4170-A130-A84776F4C654}");
    assert("{FA926493-6F1C-4193-A414-58F0B2456D1E}"@[1] != "{4636856E-540F-4170-A130-A84776F4C654}"@[1]);
    reveal_strlit("{466F5A88-0AF2-4F76-9038-095B170DC21C}");
    assert("{FA926493-6F1C-4193-A414-58F0B2456D1E}"@[1] != "{466F5A88-0AF2-4F76-9038-095B170DC21C}"@[1]);
    reveal_strlit("{5189B25C-5558-4BF2-BCA4-289B11BD29E2}");
    assert("{FA926493-6F1C-4193-A414-58F0B2456D1E}"@[1] != "{5189B25C-5558-4BF2-BCA4-289B11BD29E2}"@[1]);
    reveal_strlit("{6EFB52BF-1766-41DB-A6B3-0EE5EFF72BD7}");
    assert("{FA926493-6F1C-4193-A414-58F0B2456D1E}"@[1] != "{6EFB52BF-1766-41DB-A6B3-0EE5EFF72BD7}"@[1]);
    reveal_strlit("{7254A080-1510-4E85-AC0F-E7FB3D444736}");
    assert("{FA926493-6F1C-4193-A414-58F0B2456D1E}"@[1] != "{7254A080-1510-4E85-AC0F-E7FB3D444736}"@[1]);
    reveal_strlit("{7EA2E1AC-2E61-4728-AAA3-896D9D0A9F0E}");
    assert("{FA926493-6F1C-4193-A414-58F0B2456D1E}"@[1] != "{7EA2E1AC-2E61-4728-AAA3-896D9D0A9F0E}"@[1]);
    reveal_strlit("{7FF607E0-4395-11DB-B0DE-0800200C9A66}");
    assert("{FA926493-6F1C-4193-A414-58F0B2456D1E}"@[1] != "{7FF607E0-4395-11DB-B0DE-0800200C9A66}"@[1]);
    reveal_strlit("{9DEA862C-5CDD-4E70-ACC1-F32B344D4795}");
    assert("{FA926493-6F1C-4193-A414-58F0B2456D1E}"@[1] != "{9DEA862C-5CDD-4E70-ACC1-F32B344D4795}"@[1]);
    reveal_strlit("{A1943BBC-EA85-487C-97C7-C9EDE908A38A}");
    assert("{FA926493-6F1C-4193-A414-58F0B2456D1E}"@[1] != "{A1943BBC-EA85-487C-97C7-C9EDE908A38A}"@[1]);
    reveal_strlit("{A5A30FA2-3D06-4E9F-B5F4-A01DF9D1FCBA}");
    assert("{FA926493-6F1C-4193-A414-58F0B2456D1E}"@[1] != "{A5A30FA2-3D06-4E9F-B5F4-A01DF9D1FCBA}"@[1]);
    reveal_strlit("{AE5534E0-A924-466C-B836-758539A3EE3A}");
    assert("{FA926493-6F1C-4193-A414-58F0B2456D1E}"@[1] != "{AE5534E0-A924-466C-B836-758539A3EE3A}"@[1]);
    reveal_strlit("{B012B84D-C47C-4ED5-B722-C0C42163E569}");
    assert("{FA926493-6F1C-4193-A414-58F0B2456D1E}"@[1] != "{B012B84D-C47C-4ED5-B722-C0C42163E569}"@[1]);
    reveal_strlit("{B2721D73-1DB4-4C62-BF78-C548A880142D}");
    assert("{FA926493-6F1C-4193-A414-58F0B2456D1E}"@[1] != "{B2721D73-1DB4-4C62-BF78-C548A880142D}"@[1]);
    reveal_strlit("{CBD971BF-B7B8-4885-951A-FA03044F5D71}");
    assert("{FA926493-6F1C-4193-A414-58F0B2456D1E}"@[1] != "{CBD971BF-B7B8-4885-951A-FA03044F5D71}"@[1]);
}

/// Each well-known GUID, given in upper case, is named by its own entry of
/// `well_known_objects`: its symbolic name and its `bcdedit` alias. Every
/// symbolic name is non-empty.
pub proof fn lemma_well_known_object_names()
    ensures
        forall|k: int|
            0 <= k < well_known_objects().len() ==> spec_known_object_name(
                #[trigger] well_known_objects()[k].0,
            ) == (well_known_objects()[k].1, well_known_objects()[k].2) && well_known_objects()[k].1.len()
                > 0,
{
    reveal_strlit("GUID_EMS_SETTINGS_GROUP");
    reveal_strlit("GUID_RESUME_LOADER_SETTINGS_GROUP");
    reveal_strlit("GUID_DEFAULT_BOOT_ENTRY");
    reveal_strlit("GUID_KERNEL_DEBUGGER_SETTINGS_GROUP");
    reveal_strlit("GUID_DEBUGGER_SETTINGS_GROUP");
    reveal_strlit("WINDOWS_LEGACY_NTLDR");
    reveal_strlit("BAD_MEMORY_GROUP");
    reveal_strlit("BOOT_LOADER_SETTINGS_GROUP");
    reveal_strlit("GUID_WINDOWS_SETUP_EFI");
    reveal_strlit("GUID_GLOBAL_SETTINGS_GROUP");
    reveal_strlit("GUID_HYPERVISOR_SETTINGS_GROUP");
    reveal_strlit("GUID_WINDOWS_BOOTMGR");
    reveal_strlit("GUID_WINDOWS_OS_TARGET_TEMPLATE_PCAT");
    reveal_strlit("GUID_FIRMWARE_BOOTMGR");
    reveal_strlit("GUID_WINDOWS_SETUP_RAMDISK_OPTIONS");
    reveal_strlit("GUID_WINDOWS_OS_TARGET_TEMPLATE_EFI");
    reveal_strlit("GUID_WINDOWS_MEMORY_TESTER");
    reveal_strlit("GUID_WINDOWS_SETUP_PCAT");
    reveal_strlit("GUID_CURRENT_BOOT_ENTRY");
    assert forall|k: int| 0 <= k < well_known_objects().len() implies spec_known_object_name(
        #[trigger] well_known_objects()[k].0,
    ) == (well_known_objects()[k].1, well_known_objects()[k].2) && well_known_objects()[k].1.len()
        > 0 by {
        if k == 0 {
            lemma_object_entry_0();
        } else if k == 1 {
            lemma_object_entry_1();
        } else if k == 2 {
            lemma_object_entry_2();
        } else if k == 3 {
            lemma_object_entry_3();
        } else if k == 4 {
            lemma_object_entry_4();
        } else if k == 5 {
            lemma_object_entry_5();
        } else if k == 6 {
            lemma_object_entry_6();
        } else if k == 7 {
            lemma_object_entry_7();
        } else if k == 8 {
            lemma_object_entry_8();
        } else if k == 9 {
            lemma_object_entry_9();
        } else if k == 10 {
            lemma_object_entry_10();
        } else if k == 11 {
            lemma_object_entry_11();
        } else if k == 12 {
            lemma_object_entry_12();
        } else if k == 13 {
            lemma_object_entry_13();
        } else if k == 14 {
            lemma_object_entry_14();
        } else if k == 15 {
            lemma_object_entry_15();
        } else if k == 16 {
            lemma_object_entry_16();
        } else if k == 17 {
            lemma_object_entry_17();
        } else if k == 18 {
            lemma_object_entry_18();
        }
    }
}

/// Each well-known element type is named by its own entry of
/// `well_known_element_types`.
pub proof fn lemma_well_known_element_names()
    ensures
        forall|k: int|
            0 <= k < well_known_element_types().len() ==> spec_known_element_name(
                #[trigger] well_known_element_types()[k].0,
            ) == well_known_element_types()[k].1 && well_known_element_types()[k].1.len() > 0,
{
    reveal_strlit("device");
    reveal_strlit("path");
    reveal_strlit("description");
    reveal_strlit("locale");
    reveal_strlit("inherit");
    reveal_strlit("truncatememory");
    reveal_strlit("recoversequence");
    reveal_strlit("recoveryenabled");
    reveal_strlit("badmemorylist");
    reveal_strlit("badmemoryaccess");
    reveal_strlit("firstmegabytepolicy");
    reveal_strlit("isolatedcontext");
    reveal_strlit("allowedinmemorysettings");
    reveal_strlit("ramdiskimageoffset");
    reveal_strlit("ramdisktftpclientport");
    reveal_strlit("ramdisksdidevice");
    reveal_strlit("ramdisksdipath");
    reveal_strlit("bootmenupolicy");
    assert forall|k: int| 0 <= k < well_known_element_types().len() implies spec_known_element_name(
        #[trigger] well_known_element_types()[k].0,
    ) == well_known_element_types()[k].1 && well_known_element_types()[k].1.len() > 0 by {
        // Split on the entry, so that each is evaluated on its own.
        if k == 0 {
        } else if k == 1 {
        } else if k == 2 {
        } else if k == 3 {
        } else if k == 4 {
        } else if k == 5 {
        } else if k == 6 {
        } else if k == 7 {
        } else if k == 8 {
        } else if k == 9 {
        } else if k == 10 {
        } else if k == 11 {
        } else if k == 12 {
        } else if k == 13 {
        } else if k == 14 {
        } else if k == 15 {
        } else if k == 16 {
        } else if k == 17 {
        }
    }
}

/// Each code of `element_class_words` gets its own word.
pub proof fn lemma_element_class_words_table()
    ensures
        forall|k: int| 0 <= k < element_class_words().len() ==> spec_class_word(#[trigger] element_class_words()[k].0) == element_class_words()[k].1,
{
    assert forall|k: int| 0 <= k < element_class_words().len() implies spec_class_word(#[trigger] element_class_words()[k].0) == element_class_words()[k].1 by {
        // Split on the entry, so that each is evaluated on its own.
        if k == 0 {
        } else if k == 1 {
        } else if k == 2 {
        } else if k == 3 {
        }
    }
}

/// Each code of `element_format_words` gets its own word.
pub proof fn lemma_element_format_words_table()
    ensures
        forall|k: int| 0 <= k < element_format_words().len() ==> spec_format_word(#[trigger] element_format_words()[k].0) == element_format_words()[k].1,
{
    assert forall|k: int| 0 <= k < element_format_words().len() implies spec_format_word(#[trigger] element_format_words()[k].0) == element_format_words()[k].1 by {
        // Split on the entry, so that each is evaluated on its own.
        if k == 0 {
        } else if k == 1 {
        } else if k == 2 {
        } else if k == 3 {
        } else if k == 4 {
        } else if k == 5 {
        } else if k == 6 {
        }
    }
}

} // verus!
