//! BCD objects: each is a registry key named by its GUID, whose
//! `Description` holds a `Type` code: the object kind in its top four bits,
//! then a four-bit sub-kind in bits 20 to 23, and for applications the
//! application in the low 20 bits.

use vstd::prelude::*;

use crate::element::{lemma_well_known_objects_any_case, Element};
use crate::guid::Guid;
use crate::names::{lemma_well_known_object_names, spec_known_object_name, well_known_objects};
use crate::text::{ascii_uppercase, decimal_string, is_ascii_chars, spec_decimal, unicode_uppercase};

verus! {

/// A BCD object.
pub struct Object {
    pub id: Guid,
    pub type_: u32,
    pub subtype: u32,
}

/// The object kind: the top four bits of the type code.
pub open spec fn object_kind_code(object_type: u32) -> u32 {
    object_type / 0x1000_0000
}

/// The sub-kind: bits 20 to 23 of the type code.
pub open spec fn object_subkind_code(object_type: u32) -> u32 {
    (object_type / 0x10_0000) % 16
}

/// The application: the low 20 bits of the type code.
pub open spec fn object_application_code(object_type: u32) -> u32 {
    object_type % 0x10_0000
}

proof fn lemma_object_type_fields(t: u32)
    ensures
        (t & 0xF000_0000) >> 28 == object_kind_code(t),
        (t & 0x00F0_0000) >> 20 == object_subkind_code(t),
        t & 0x000F_FFFF == object_application_code(t),
{
    assert((t & 0xF000_0000) >> 28 == t / 0x1000_0000) by (bit_vector);
    assert((t & 0x00F0_0000) >> 20 == (t / 0x10_0000) % 16) by (bit_vector);
    assert(t & 0x000F_FFFF == t % 0x10_0000) by (bit_vector);
}

/// The word for the kind of an application object.
pub open spec fn spec_application_kind_word(kind: int) -> Seq<char> {
    if kind == 1 {
        "Firmware"@
    } else if kind == 2 {
        "Windows Boot"@
    } else if kind == 3 {
        "Legacy Loader"@
    } else if kind == 4 {
        "Real-mode Loader"@
    } else {
        "UNKNOWN APPLICATION "@ + spec_decimal(kind as nat)
    }
}

fn application_kind_word(kind: u32) -> (r: String)
    ensures
        r@ == spec_application_kind_word(kind as int),
{
    if kind == 1 {
        String::from_str("Firmware")
    } else if kind == 2 {
        String::from_str("Windows Boot")
    } else if kind == 3 {
        String::from_str("Legacy Loader")
    } else if kind == 4 {
        String::from_str("Real-mode Loader")
    } else {
        let mut s = String::from_str("UNKNOWN APPLICATION ");
        s.append(decimal_string(kind).as_str());
        s
    }
}

/// The name of the application of an application object.
pub open spec fn spec_application_type_word(code: int) -> Seq<char> {
    if code == 1 {
        "fwbootmgr"@
    } else if code == 2 {
        "bootmgr"@
    } else if code == 3 {
        "osloader"@
    } else if code == 4 {
        "resume"@
    } else if code == 5 {
        "memdiag"@
    } else if code == 6 {
        "ntldr"@
    } else if code == 7 {
        "setupldr"@
    } else if code == 8 {
        "bootsector"@
    } else if code == 9 {
        "startup"@
    } else if code == 10 {
        "bootapp"@
    } else {
        "UNKNOWN TYPE "@ + spec_decimal(code as nat)
    }
}

fn application_type_word(code: u32) -> (r: String)
    ensures
        r@ == spec_application_type_word(code as int),
{
    if code == 1 {
        String::from_str("fwbootmgr")
    } else if code == 2 {
        String::from_str("bootmgr")
    } else if code == 3 {
        String::from_str("osloader")
    } else if code == 4 {
        String::from_str("resume")
    } else if code == 5 {
        String::from_str("memdiag")
    } else if code == 6 {
        String::from_str("ntldr")
    } else if code == 7 {
        String::from_str("setupldr")
    } else if code == 8 {
        String::from_str("bootsector")
    } else if code == 9 {
        String::from_str("startup")
    } else if code == 10 {
        String::from_str("bootapp")
    } else {
        let mut s = String::from_str("UNKNOWN TYPE ");
        s.append(decimal_string(code).as_str());
        s
    }
}

/// The objects that an inherit object is for.
pub open spec fn spec_inherit_kind_word(kind: int) -> Seq<char> {
    if kind == 1 {
        "any objects"@
    } else if kind == 2 {
        "application objects"@
    } else if kind == 3 {
        "device objects"@
    } else {
        "UNKNOWN "@ + spec_decimal(kind as nat)
    }
}

fn inherit_kind_word(kind: u32) -> (r: String)
    ensures
        r@ == spec_inherit_kind_word(kind as int),
{
    if kind == 1 {
        String::from_str("any objects")
    } else if kind == 2 {
        String::from_str("application objects")
    } else if kind == 3 {
        String::from_str("device objects")
    } else {
        let mut s = String::from_str("UNKNOWN ");
        s.append(decimal_string(kind).as_str());
        s
    }
}

/// The description of an object type code, as in
/// `Application object - Windows Boot - osloader`.
pub open spec fn spec_object_type_description(object_type: u32) -> Seq<char> {
    let kind = object_kind_code(object_type);
    if kind == 1 {
        "Application object - "@ + spec_application_kind_word(object_subkind_code(object_type) as int)
            + " - "@ + spec_application_type_word(object_application_code(object_type) as int)
    } else if kind == 2 {
        "Inherit object - for "@ + spec_inherit_kind_word(object_subkind_code(object_type) as int)
    } else if kind == 3 {
        "Device object"@
    } else {
        "UNKNOWN OBJECT TYPE"@
    }
}

/// How an object is listed: by its GUID text when it is not a well-known
/// object, else as `alias (symbolic name)`.
pub open spec fn spec_object_title(object_uuid_str: Seq<char>) -> Seq<char> {
    spec_title_with_names(spec_known_object_name(unicode_uppercase(object_uuid_str)), object_uuid_str)
}

/// The title of an object with GUID text `object_uuid_str` and the names
/// `names` (see `spec_object_title`).
pub open spec fn spec_title_with_names(names: (Seq<char>, Seq<char>), object_uuid_str: Seq<char>) -> Seq<char> {
    if names.0.len() == 0 {
        object_uuid_str
    } else {
        names.1 + " ("@ + names.0 + ")"@
    }
}

/// Describes an object type code (see `spec_object_type_description`).
pub fn object_type_description(object_type: u32) -> (r: String)
    ensures
        r@ == spec_object_type_description(object_type),
{
    proof {
        lemma_object_type_fields(object_type);
    }
    let kind = (object_type & 0xF000_0000) >> 28;
    if kind == 1 {
        let mut out = String::from_str("Application object - ");
        out.append(application_kind_word((object_type & 0x00F0_0000) >> 20).as_str());
        out.append(" - ");
        out.append(application_type_word(object_type & 0x000F_FFFF).as_str());
        out
    } else if kind == 2 {
        let mut out = String::from_str("Inherit object - for ");
        out.append(inherit_kind_word((object_type & 0x00F0_0000) >> 20).as_str());
        out
    } else if kind == 3 {
        String::from_str("Device object")
    } else {
        String::from_str("UNKNOWN OBJECT TYPE")
    }
}

/// The title of the object whose GUID text is `object_uuid_str` (see
/// `spec_object_title`).
pub fn object_title(object_uuid_str: &String) -> (r: String)
    ensures
        r@ == spec_object_title(object_uuid_str@),
        is_ascii_chars(object_uuid_str@) ==> r@ == spec_title_with_names(
            spec_known_object_name(ascii_uppercase(object_uuid_str@)),
            object_uuid_str@,
        ),
{
    let names = Element::object_uuid_to_name(object_uuid_str);
    if names.0.as_str().is_empty() {
        return object_uuid_str.clone();
    }
    let mut out = names.1;
    out.append(" (");
    out.append(names.0.as_str());
    out.append(")");
    out
}

/// The kinds of application objects and their words.
pub open spec fn application_kinds() -> Seq<(int, Seq<char>)> {
    seq![
        (1, "Firmware"@),
        (2, "Windows Boot"@),
        (3, "Legacy Loader"@),
        (4, "Real-mode Loader"@),
    ]
}

/// The applications that application objects name, by code.
pub open spec fn applications() -> Seq<(int, Seq<char>)> {
    seq![
        (1, "fwbootmgr"@),
        (2, "bootmgr"@),
        (3, "osloader"@),
        (4, "resume"@),
        (5, "memdiag"@),
        (6, "ntldr"@),
        (7, "setupldr"@),
        (8, "bootsector"@),
        (9, "startup"@),
        (10, "bootapp"@),
    ]
}

/// The objects that inherit objects are for, by code.
pub open spec fn inherit_kinds() -> Seq<(int, Seq<char>)> {
    seq![
        (1, "any objects"@),
        (2, "application objects"@),
        (3, "device objects"@),
    ]
}

proof fn lemma_application_kinds_table()
    ensures
        forall|k: int| 0 <= k < application_kinds().len() ==> spec_application_kind_word(#[trigger] application_kinds()[k].0) == application_kinds()[k].1,
{
    assert forall|k: int| 0 <= k < application_kinds().len() implies spec_application_kind_word(#[trigger] application_kinds()[k].0) == application_kinds()[k].1 by {
        // Split on the entry, so that each is evaluated on its own.
        if k == 0 {
        } else if k == 1 {
        } else if k == 2 {
        } else if k == 3 {
        }
    }
}

proof fn lemma_applications_table()
    ensures
        forall|k: int| 0 <= k < applications().len() ==> spec_application_type_word(#[trigger] applications()[k].0) == applications()[k].1,
{
    assert forall|k: int| 0 <= k < applications().len() implies spec_application_type_word(#[trigger] applications()[k].0) == applications()[k].1 by {
        // Split on the entry, so that each is evaluated on its own.
        if k == 0 {
        } else if k == 1 {
        } else if k == 2 {
        } else if k == 3 {
        } else if k == 4 {
        } else if k == 5 {
        } else if k == 6 {
        } else if k == 7 {
        } else if k == 8 {
        } else if k == 9 {
        }
    }
}

proof fn lemma_inherit_kinds_table()
    ensures
        forall|k: int| 0 <= k < inherit_kinds().len() ==> spec_inherit_kind_word(#[trigger] inherit_kinds()[k].0) == inherit_kinds()[k].1,
{
    assert forall|k: int| 0 <= k < inherit_kinds().len() implies spec_inherit_kind_word(#[trigger] inherit_kinds()[k].0) == inherit_kinds()[k].1 by {
        // Split on the entry, so that each is evaluated on its own.
        if k == 0 {
        } else if k == 1 {
        } else if k == 2 {
        }
    }
}

/// An application object (kind 1 in the top four bits) is described by
/// the word for its sub-kind (bits 20 to 23) and the name of its
/// application (the low 20 bits).
pub proof fn lemma_application_object_description(object_type: u32, i: int, j: int)
    requires
        object_type / 0x1000_0000 == 1,
        0 <= i < application_kinds().len(),
        0 <= j < applications().len(),
        (object_type / 0x10_0000) % 16 == application_kinds()[i].0,
        object_type % 0x10_0000 == applications()[j].0,
    ensures
        spec_object_type_description(object_type) == "Application object - "@
            + application_kinds()[i].1 + " - "@ + applications()[j].1,
{
    lemma_application_kinds_table();
    lemma_applications_table();
    assert(spec_application_kind_word(application_kinds()[i].0) == application_kinds()[i].1);
    assert(spec_application_type_word(applications()[j].0) == applications()[j].1);
}

/// An inherit object (kind 2) is described by the objects it is for
/// (bits 20 to 23).
pub proof fn lemma_inherit_object_description(object_type: u32, i: int)
    requires
        object_type / 0x1000_0000 == 2,
        0 <= i < inherit_kinds().len(),
        (object_type / 0x10_0000) % 16 == inherit_kinds()[i].0,
    ensures
        spec_object_type_description(object_type) == "Inherit object - for "@ + inherit_kinds()[i].1,
{
    lemma_inherit_kinds_table();
    assert(spec_inherit_kind_word(inherit_kinds()[i].0) == inherit_kinds()[i].1);
}

/// A device object (kind 3) is described as such, and kinds other than 1,
/// 2 and 3 are unknown.
pub proof fn lemma_other_object_descriptions(object_type: u32)
    ensures
        object_type / 0x1000_0000 == 3 ==> spec_object_type_description(object_type)
            == "Device object"@,
        object_type / 0x1000_0000 == 0 || object_type / 0x1000_0000 > 3
            ==> spec_object_type_description(object_type) == "UNKNOWN OBJECT TYPE"@,
{
}

/// A well-known object, its GUID written in any mix of ASCII upper and
/// lower case, is titled `alias (symbolic name)` from its entry of
/// `well_known_objects`.
pub proof fn lemma_well_known_object_title(object_uuid_str: Seq<char>, k: int)
    requires
        0 <= k < well_known_objects().len(),
        is_ascii_chars(object_uuid_str),
        ascii_uppercase(object_uuid_str) == well_known_objects()[k].0,
    ensures
        spec_title_with_names(spec_known_object_name(ascii_uppercase(object_uuid_str)), object_uuid_str)
            == well_known_objects()[k].2 + " ("@ + well_known_objects()[k].1 + ")"@,
{
    lemma_well_known_objects_any_case(object_uuid_str, k);
    lemma_well_known_object_names();
}

/// An object whose GUID text is not well known is titled by that text.
pub proof fn lemma_unlisted_object_title(object_uuid_str: Seq<char>)
    requires
        is_ascii_chars(object_uuid_str),
        forall|k: int|
            0 <= k < well_known_objects().len() ==> #[trigger] well_known_objects()[k].0 != ascii_uppercase(
                object_uuid_str,
            ),
    ensures
        spec_title_with_names(spec_known_object_name(ascii_uppercase(object_uuid_str)), object_uuid_str)
            == object_uuid_str,
{
    let u = ascii_uppercase(object_uuid_str);
    assert(well_known_objects()[0].0 != u);
    assert(well_known_objects()[1].0 != u);
    assert(well_known_objects()[2].0 != u);
    assert(well_known_objects()[3].0 != u);
    assert(well_known_objects()[4].0 != u);
    assert(well_known_objects()[5].0 != u);
    assert(well_known_objects()[6].0 != u);
    assert(well_known_objects()[7].0 != u);
    assert(well_known_objects()[8].0 != u);
    assert(well_known_objects()[9].0 != u);
    assert(well_known_objects()[10].0 != u);
    assert(well_known_objects()[11].0 != u);
    assert(well_known_objects()[12].0 != u);
    assert(well_known_objects()[13].0 != u);
    assert(well_known_objects()[14].0 != u);
    assert(well_known_objects()[15].0 != u);
    assert(well_known_objects()[16].0 != u);
    assert(well_known_objects()[17].0 != u);
    assert(well_known_objects()[18].0 != u);
}

} // verus!
