//! Elements of BCD objects. An element is a registry key named by its type
//! code in hexadecimal, with a value named `Element` that holds its data.
//!
//! The type code packs three fields: the class in its top four bits, the
//! format in the next four, and the element id in the low 24 bits.

use vstd::prelude::*;

use crate::bytes::{read_u64_le, spec_u64_le};
use crate::device::{spec_device, Device, SpecDevice};
use crate::guid::{braced_text, lemma_braced_is_ascii, parse_guid, spec_braced, uuid_parse, Guid};
use crate::names::{
    class_word,
    element_class_words,
    element_format_words,
    lemma_element_class_words_table,
    lemma_element_format_words_table,
    lemma_well_known_element_names,
    lemma_well_known_object_names,
    well_known_objects,
    well_known_element_types,
    format_word,
    known_element_name,
    known_object_name,
    spec_class_word,
    spec_format_word,
    spec_known_element_name,
    spec_known_object_name,
};
use crate::text::{
    ascii_uppercase,
    decimal_string,
    is_ascii_chars,
    parse_hex_u32,
    spec_decimal,
    spec_parse_hex_u32,
    to_uppercase,
    unicode_uppercase,
};

verus! {

/// An element of a BCD object.
pub struct Element {
    pub id: u32,
    pub parent: u32,
    pub class: ElementClass,
    pub format: ElementFormat,
}

/// The class of an element.
#[derive(Clone, Copy, Debug, PartialEq, Eq, Structural)]
pub enum ElementClass {
    Application,
    Inherit,
    Device,
    Unknown(u32),
}

/// The data of an element, by its format.
#[derive(Debug)]
pub enum ElementFormat {
    Device(Device),
    String(String),
    Guid(Guid),
    GuidList(Vec<Guid>),
    Integer(u64),
    Boolean(bool),
    IntegerList,
    Unknown(u32, Vec<u8>),
}

/// What the registry holds for the `Element` value of an element key, as
/// the hive's accessors read it; `None` where an accessor fails.
pub struct ElementValue {
    /// The raw bytes of the value.
    pub data: Option<Vec<u8>>,
    /// The value read as a single string.
    pub string: Option<String>,
    /// The value read as a list of strings.
    pub multi_string: Option<Vec<String>>,
}

/// The model of an element's data.
pub ghost enum SpecElementFormat {
    Device(SpecDevice),
    String(Seq<char>),
    Guid(Seq<u8>),
    GuidList(Seq<Seq<u8>>),
    Integer(u64),
    Boolean(bool),
    IntegerList,
    Unknown(u32, Seq<u8>),
}

/// The model of an element.
pub ghost struct SpecElement {
    pub id: u32,
    pub parent: u32,
    pub class: ElementClass,
    pub format: SpecElementFormat,
}

/// The bytes of each GUID in `v`.
pub open spec fn guids_view(v: Seq<Guid>) -> Seq<Seq<u8>> {
    Seq::new(v.len(), |i: int| v[i].bytes@)
}

impl View for ElementFormat {
    type V = SpecElementFormat;

    open spec fn view(&self) -> SpecElementFormat {
        match self {
            ElementFormat::Device(d) => SpecElementFormat::Device(d@),
            ElementFormat::String(s) => SpecElementFormat::String(s@),
            ElementFormat::Guid(g) => SpecElementFormat::Guid(g.bytes@),
            ElementFormat::GuidList(v) => SpecElementFormat::GuidList(guids_view(v@)),
            ElementFormat::Integer(n) => SpecElementFormat::Integer(*n),
            ElementFormat::Boolean(b) => SpecElementFormat::Boolean(*b),
            ElementFormat::IntegerList => SpecElementFormat::IntegerList,
            ElementFormat::Unknown(f, v) => SpecElementFormat::Unknown(*f, v@),
        }
    }
}

impl View for Element {
    type V = SpecElement;

    open spec fn view(&self) -> SpecElement {
        SpecElement { id: self.id, parent: self.parent, class: self.class, format: self.format@ }
    }
}

// ----------------------------------------------------------------------
// Type codes
// ----------------------------------------------------------------------

/// The element id: the low 24 bits of the type code.
pub open spec fn element_id(element_type: u32) -> u32 {
    element_type % 0x100_0000
}

/// The class code: the top four bits of the type code.
pub open spec fn element_class_code(element_type: u32) -> u32 {
    element_type / 0x1000_0000
}

/// The format code: bits 24 to 27 of the type code.
pub open spec fn element_format_code(element_type: u32) -> u32 {
    (element_type / 0x100_0000) % 16
}

proof fn lemma_type_fields(t: u32)
    ensures
        t & 0x00FF_FFFF == element_id(t),
        (t & 0xF000_0000) >> 28 == element_class_code(t),
        (t & 0x0F00_0000) >> 24 == element_format_code(t),
{
    assert(t & 0x00FF_FFFF == t % 0x100_0000) by (bit_vector);
    assert((t & 0xF000_0000) >> 28 == t / 0x1000_0000) by (bit_vector);
    assert((t & 0x0F00_0000) >> 24 == (t / 0x100_0000) % 16) by (bit_vector);
}

// ----------------------------------------------------------------------
// The model
// ----------------------------------------------------------------------

/// The data that an element of format code `format` holds in `value`, or
/// `None` where the value does not hold it.
pub open spec fn spec_element_format(format: u32, value: ElementValue) -> Option<SpecElementFormat> {
    if format == 1 {
        match value.data {
            Some(d) => match spec_device(d@) {
                Some(dev) => Some(SpecElementFormat::Device(dev)),
                None => None,
            },
            None => None,
        }
    } else if format == 2 {
        match value.string {
            Some(s) => Some(SpecElementFormat::String(s@)),
            None => None,
        }
    } else if format == 3 {
        match value.string {
            Some(s) => match uuid_parse(s@) {
                Some(b) => Some(SpecElementFormat::Guid(b)),
                None => None,
            },
            None => None,
        }
    } else if format == 4 {
        match value.multi_string {
            Some(ms) => if forall|i: int| 0 <= i < ms@.len() ==> #[trigger] uuid_parse(ms@[i]@) is Some {
                Some(
                    SpecElementFormat::GuidList(
                        Seq::new(ms@.len(), |i: int| uuid_parse(ms@[i]@).unwrap()),
                    ),
                )
            } else {
                None
            },
            None => None,
        }
    } else if format == 5 {
        match value.data {
            Some(d) => if d@.len() >= 8 {
                Some(SpecElementFormat::Integer(spec_u64_le(d@, 0)))
            } else {
                None
            },
            None => None,
        }
    } else if format == 6 {
        match value.data {
            Some(d) => if d@.len() >= 1 {
                Some(SpecElementFormat::Boolean(d@[0] != 0))
            } else {
                None
            },
            None => None,
        }
    } else {
        Some(SpecElementFormat::Unknown(format, Seq::empty()))
    }
}

/// The element that a key named `name`, with `value` as its `Element`
/// value, holds inside an object of type `object_type`; `None` where the
/// object type is zero, the name is not a hexadecimal `u32`, the value is
/// missing, or the value does not hold what the format code says.
pub open spec fn spec_element(name: Seq<char>, value: Option<ElementValue>, object_type: u32) -> Option<SpecElement> {
    if object_type == 0 {
        None
    } else {
        match spec_parse_hex_u32(name) {
            None => None,
            Some(t) => match value {
                None => None,
                Some(v) => match spec_element_format(element_format_code(t), v) {
                    None => None,
                    Some(f) => Some(
                        SpecElement {
                            id: element_id(t),
                            parent: object_type,
                            class: ElementClass::Unknown(element_class_code(t)),
                            format: f,
                        },
                    ),
                },
            },
        }
    }
}

/// The line that describes an element type: its well-known name, or else
/// its class, format and id, as in `Application (integer) - 194`.
pub open spec fn spec_element_header(element_type: u32) -> Seq<char> {
    if spec_known_element_name(element_type).len() > 0 {
        spec_known_element_name(element_type)
    } else {
        spec_class_word(element_class_code(element_type) as int) + " ("@ + spec_format_word(
            element_format_code(element_type) as int,
        ) + ") - "@ + spec_decimal(element_id(element_type) as nat)
    }
}

/// How a pair of names reads: the alias alone, the symbolic name alone
/// when there is no alias, or `alias (symbolic name)`.
pub open spec fn spec_name_to_str(symbolic: Seq<char>, alias: Seq<char>) -> Seq<char> {
    if alias.len() == 0 {
        symbolic
    } else if symbolic.len() == 0 {
        alias
    } else {
        alias + " ("@ + symbolic + ")"@
    }
}

// ----------------------------------------------------------------------
// Laws
// ----------------------------------------------------------------------

/// The fields of an element recompose its type code: the class code, the
/// format code and the id are its top four bits, the next four and the low
/// 24; the element belongs to the object type it was read under.
pub proof fn lemma_element_fields_recompose(name: Seq<char>, value: Option<ElementValue>, object_type: u32)
    requires
        spec_element(name, value, object_type) is Some,
    ensures
        ({
            let e = spec_element(name, value, object_type).unwrap();
            let t = spec_parse_hex_u32(name).unwrap();
            &&& e.parent == object_type
            &&& e.class == ElementClass::Unknown(element_class_code(t))
            &&& element_class_code(t) < 16
            &&& element_format_code(t) < 16
            &&& e.id < 0x100_0000
            &&& element_class_code(t) * 0x1000_0000 + element_format_code(t) * 0x100_0000 + e.id
                == t
        }),
{
    let t = spec_parse_hex_u32(name).unwrap();
    assert(t / 0x1000_0000 * 0x1000_0000 + (t / 0x100_0000) % 16 * 0x100_0000 + t % 0x100_0000
        == t) by (nonlinear_arith);
}

/// The format of an element is chosen by bits 24 to 27 of its type code:
/// 1 device, 2 string, 3 GUID, 4 GUID list, 5 integer, 6 boolean; any other
/// code gives an unknown format that carries the code and no data.
pub proof fn lemma_format_follows_type_code(name: Seq<char>, value: Option<ElementValue>, object_type: u32)
    requires
        spec_element(name, value, object_type) is Some,
    ensures
        ({
            let f = (spec_parse_hex_u32(name).unwrap() / 16777216) % 16;
            let format = spec_element(name, value, object_type).unwrap().format;
            &&& (f == 1 <==> format is Device)
            &&& (f == 2 <==> format is String)
            &&& (f == 3 <==> format is Guid)
            &&& (f == 4 <==> format is GuidList)
            &&& (f == 5 <==> format is Integer)
            &&& (f == 6 <==> format is Boolean)
            &&& (f < 1 || f > 6) ==> format == SpecElementFormat::Unknown(f, Seq::empty())
        }),
{
}

/// A GUID-list element holds one GUID per string of the value, in the
/// order of the strings: its `i`-th GUID is what parsing the `i`-th string
/// gives.
pub proof fn lemma_guid_list_in_order(name: Seq<char>, value: Option<ElementValue>, object_type: u32)
    requires
        spec_element(name, value, object_type) matches Some(e) && e.format is GuidList,
    ensures
        ({
            let e = spec_element(name, value, object_type).unwrap();
            let ms = value.unwrap().multi_string.unwrap();
            &&& value.unwrap().multi_string is Some
            &&& e.format->GuidList_0.len() == ms@.len()
            &&& forall|i: int|
                0 <= i < ms@.len() ==> Some(#[trigger] e.format->GuidList_0[i]) == uuid_parse(
                    ms@[i]@,
                )
        }),
{
}

/// A GUID element holds what parsing its string gives; a string element
/// holds its string.
pub proof fn lemma_guid_and_string_elements(name: Seq<char>, value: Option<ElementValue>, object_type: u32)
    requires
        spec_element(name, value, object_type) is Some,
    ensures
        ({
            let e = spec_element(name, value, object_type).unwrap();
            &&& e.format is Guid ==> value.unwrap().string is Some && Some(e.format->Guid_0)
                == uuid_parse(value.unwrap().string.unwrap()@)
            &&& e.format is String ==> value.unwrap().string is Some && e.format->String_0
                == value.unwrap().string.unwrap()@
        }),
{
}

/// An integer element holds the first eight bytes of its data, read
/// little-endian; a boolean element is true exactly when its first byte is
/// not zero.
pub proof fn lemma_integer_and_boolean_elements(name: Seq<char>, value: Option<ElementValue>, object_type: u32)
    requires
        spec_element(name, value, object_type) is Some,
    ensures
        ({
            let e = spec_element(name, value, object_type).unwrap();
            let d = value.unwrap().data.unwrap()@;
            &&& e.format is Integer ==> value.unwrap().data is Some && d.len() >= 8
                && e.format->Integer_0 as int == d[0] + 256 * d[1] + 65536 * d[2] + 16777216 * d[3]
                + 4294967296 * (d[4] + 256 * d[5] + 65536 * d[6] + 16777216 * d[7])
            &&& e.format is Boolean ==> value.unwrap().data is Some && d.len() >= 1
                && e.format->Boolean_0 == (d[0] != 0)
        }),
{
}

/// A device element holds exactly the device that reading its data as a
/// device element gives.
pub proof fn lemma_device_element(name: Seq<char>, value: Option<ElementValue>, object_type: u32)
    requires
        spec_element(name, value, object_type) matches Some(e) && e.format is Device,
    ensures
        value.unwrap().data is Some,
        Some(spec_element(name, value, object_type).unwrap().format->Device_0) == spec_device(
            value.unwrap().data.unwrap()@,
        ),
{
}

/// A well-known element type is described by its `bcdedit` name.
pub proof fn lemma_well_known_element_headers()
    ensures
        forall|k: int|
            0 <= k < well_known_element_types().len() ==> spec_element_header(
                #[trigger] well_known_element_types()[k].0,
            ) == well_known_element_types()[k].1,
{
    lemma_well_known_element_names();
}

/// Any other element type is described by its class word, its format word
/// in brackets and its id in decimal, as in `Application (integer) - 153`.
pub proof fn lemma_composed_element_header(element_type: u32, i: int, j: int)
    requires
        forall|k: int|
            0 <= k < well_known_element_types().len() ==> #[trigger] well_known_element_types()[k].0
                != element_type,
        0 <= i < element_class_words().len(),
        0 <= j < element_format_words().len(),
        element_type / 0x1000_0000 == element_class_words()[i].0,
        (element_type / 0x100_0000) % 16 == element_format_words()[j].0,
    ensures
        spec_element_header(element_type) == element_class_words()[i].1 + " ("@
            + element_format_words()[j].1 + ") - "@ + spec_decimal((element_type % 0x100_0000) as nat),
{
    assert(well_known_element_types()[0].0 != element_type);
    assert(well_known_element_types()[1].0 != element_type);
    assert(well_known_element_types()[2].0 != element_type);
    assert(well_known_element_types()[3].0 != element_type);
    assert(well_known_element_types()[4].0 != element_type);
    assert(well_known_element_types()[5].0 != element_type);
    assert(well_known_element_types()[6].0 != element_type);
    assert(well_known_element_types()[7].0 != element_type);
    assert(well_known_element_types()[8].0 != element_type);
    assert(well_known_element_types()[9].0 != element_type);
    assert(well_known_element_types()[10].0 != element_type);
    assert(well_known_element_types()[11].0 != element_type);
    assert(well_known_element_types()[12].0 != element_type);
    assert(well_known_element_types()[13].0 != element_type);
    assert(well_known_element_types()[14].0 != element_type);
    assert(well_known_element_types()[15].0 != element_type);
    assert(well_known_element_types()[16].0 != element_type);
    assert(well_known_element_types()[17].0 != element_type);
    lemma_element_class_words_table();
    lemma_element_format_words_table();
    assert(spec_class_word(element_class_words()[i].0) == element_class_words()[i].1);
    assert(spec_format_word(element_format_words()[j].0) == element_format_words()[j].1);
}

/// A well-known GUID, written in any mix of ASCII upper and lower case,
/// gets its own symbolic name and alias from `well_known_objects`.
pub proof fn lemma_well_known_objects_any_case(object_uuid_str: Seq<char>, k: int)
    requires
        0 <= k < well_known_objects().len(),
        is_ascii_chars(object_uuid_str),
        ascii_uppercase(object_uuid_str) == well_known_objects()[k].0,
    ensures
        spec_known_object_name(ascii_uppercase(object_uuid_str)) == (
            well_known_objects()[k].1,
            well_known_objects()[k].2,
        ),
{
    lemma_well_known_object_names();
}

/// How a pair of names reads: with no alias, the symbolic name; with no
/// symbolic name, the alias; with both, the alias followed by the symbolic
/// name in brackets.
pub proof fn lemma_name_to_str_cases(symbolic: Seq<char>, alias: Seq<char>)
    ensures
        alias.len() == 0 ==> spec_name_to_str(symbolic, alias) == symbolic,
        symbolic.len() == 0 ==> spec_name_to_str(symbolic, alias) == alias,
        symbolic.len() > 0 && alias.len() > 0 ==> spec_name_to_str(symbolic, alias) == alias + seq![
            ' ',
            '(',
        ] + symbolic + seq![')'],
{
    reveal_strlit(" (");
    reveal_strlit(")");
    assert(" ("@ =~= seq![' ', '(']);
    assert(")"@ =~= seq![')']);
}

/// Every element type has a non-empty description.
pub proof fn lemma_element_header_not_empty(element_type: u32)
    ensures
        spec_element_header(element_type).len() > 0,
{
    reveal_strlit(" (");
}

/// Looking up the names of an object ignores the case of its GUID text:
/// two texts with the same upper-case form get the same names.
pub proof fn lemma_object_names_ignore_case(a: Seq<char>, b: Seq<char>)
    requires
        unicode_uppercase(a) == unicode_uppercase(b),
    ensures
        spec_known_object_name(unicode_uppercase(a)) == spec_known_object_name(unicode_uppercase(b)),
{
}

// ----------------------------------------------------------------------
// Reading
// ----------------------------------------------------------------------

fn guid_list_readable(ms: &Vec<String>) -> (r: bool)
    ensures
        r == forall|i: int| 0 <= i < ms@.len() ==> #[trigger] uuid_parse(ms@[i]@) is Some,
{
    let n = ms.len();
    let mut i: usize = 0;
    while i < n
        invariant
            i <= n,
            n == ms@.len(),
            forall|j: int| 0 <= j < i ==> #[trigger] uuid_parse(ms@[j]@) is Some,
        decreases n - i,
    {
        if parse_guid(ms[i].as_str()).is_none() {
            return false;
        }
        i = i + 1;
    }
    true
}

fn read_guid_list(ms: &Vec<String>) -> (r: Vec<Guid>)
    requires
        forall|i: int| 0 <= i < ms@.len() ==> #[trigger] uuid_parse(ms@[i]@) is Some,
    ensures
        guids_view(r@) == Seq::new(ms@.len(), |i: int| uuid_parse(ms@[i]@).unwrap()),
{
    let n = ms.len();
    let mut r: Vec<Guid> = Vec::new();
    let mut i: usize = 0;
    while i < n
        invariant
            i <= n,
            n == ms@.len(),
            r@.len() == i,
            forall|j: int| 0 <= j < ms@.len() ==> #[trigger] uuid_parse(ms@[j]@) is Some,
            forall|j: int| 0 <= j < i ==> Some(#[trigger] r@[j].bytes@) == uuid_parse(ms@[j]@),
        decreases n - i,
    {
        let g = parse_guid(ms[i].as_str()).unwrap();
        r.push(g);
        i = i + 1;
    }
    assert(guids_view(r@) =~= Seq::new(ms@.len(), |i: int| uuid_parse(ms@[i]@).unwrap()));
    r
}

impl Element {
    /// Whether `new` can read an element from these parts: the object type
    /// is not zero, the name is a hexadecimal type code, and the value holds
    /// data of the format that the code gives.
    pub fn accepts(element_name: &str, value: &Option<ElementValue>, object_type: u32) -> (r: bool)
        ensures
            r == spec_element(element_name@, *value, object_type) is Some,
    {
        if object_type == 0 {
            return false;
        }
        let element_type = match parse_hex_u32(element_name) {
            Some(t) => t,
            None => {
                return false;
            },
        };
        let value = match value {
            Some(v) => v,
            None => {
                return false;
            },
        };
        proof {
            lemma_type_fields(element_type);
        }
        let format = (element_type & 0x0F00_0000) >> 24;
        if format == 1 {
            match &value.data {
                Some(d) => Device::try_new(d).is_some(),
                None => false,
            }
        } else if format == 2 {
            value.string.is_some()
        } else if format == 3 {
            match &value.string {
                Some(s) => parse_guid(s.as_str()).is_some(),
                None => false,
            }
        } else if format == 4 {
            match &value.multi_string {
                Some(ms) => guid_list_readable(ms),
                None => false,
            }
        } else if format == 5 {
            match &value.data {
                Some(d) => d.len() >= 8,
                None => false,
            }
        } else if format == 6 {
            match &value.data {
                Some(d) => d.len() >= 1,
                None => false,
            }
        } else {
            true
        }
    }

    /// Reads an element from these parts, or `None` where `accepts` says no.
    pub fn try_new(element_name: &str, value: Option<ElementValue>, object_type: u32) -> (r: Option<Element>)
        ensures
            match r {
                Some(e) => spec_element(element_name@, value, object_type) == Some(e@),
                None => spec_element(element_name@, value, object_type) is None,
            },
    {
        if Self::accepts(element_name, &value, object_type) {
            Some(Self::new(element_name, value, object_type))
        } else {
            None
        }
    }

    /// Reads the element that a key named `element_name` holds, with
    /// `value` as its `Element` value, inside an object of type
    /// `object_type` (see `accepts`).
    pub fn new(element_name: &str, value: Option<ElementValue>, object_type: u32) -> (r: Self)
        requires
            spec_element(element_name@, value, object_type) is Some,
        ensures
            spec_element(element_name@, value, object_type) == Some(r@),
    {
        let element_type = parse_hex_u32(element_name).unwrap();
        let ghost old_value = value;
        let value = value.unwrap();
        proof {
            lemma_type_fields(element_type);
        }
        let format_code = (element_type & 0x0F00_0000) >> 24;
        let format = if format_code == 1 {
            let raw = value.data.unwrap();
            ElementFormat::Device(Device::new(&raw))
        } else if format_code == 2 {
            ElementFormat::String(value.string.unwrap())
        } else if format_code == 3 {
            let s = value.string.unwrap();
            ElementFormat::Guid(parse_guid(s.as_str()).unwrap())
        } else if format_code == 4 {
            let ms = value.multi_string.unwrap();
            ElementFormat::GuidList(read_guid_list(&ms))
        } else if format_code == 5 {
            let raw = value.data.unwrap();
            ElementFormat::Integer(read_u64_le(raw.as_slice(), 0))
        } else if format_code == 6 {
            let raw = value.data.unwrap();
            ElementFormat::Boolean(raw[0] != 0)
        } else {
            ElementFormat::Unknown(format_code, Vec::new())
        };
        let r = Element {
            id: element_type & 0x00FF_FFFF,
            parent: object_type,
            class: ElementClass::Unknown((element_type & 0xF000_0000) >> 28),
            format,
        };
        assert(spec_element_format(element_format_code(element_type), old_value.unwrap()) == Some(
            r.format@,
        ));
        r
    }

    /// Describes an element type (see `spec_element_header`). The object
    /// type must not be zero.
    pub fn element_header(element_type: u32, object_type: u32) -> (r: String)
        requires
            object_type != 0,
        ensures
            r@ == spec_element_header(element_type),
    {
        let matched = known_element_name(element_type);
        if !matched.is_empty() {
            return String::from_str(matched);
        }
        proof {
            lemma_type_fields(element_type);
        }
        let mut output = class_word((element_type & 0xF000_0000) >> 28);
        output.append(" (");
        output.append(format_word((element_type & 0x0F00_0000) >> 24).as_str());
        output.append(") - ");
        output.append(decimal_string(element_type & 0x00FF_FFFF).as_str());
        output
    }

    /// Joins the symbolic name and the alias of an object (see
    /// `spec_name_to_str`).
    pub fn name_to_str(name: (String, String)) -> (r: String)
        ensures
            r@ == spec_name_to_str(name.0@, name.1@),
    {
        if name.1.as_str().is_empty() {
            return name.0;
        }
        if name.0.as_str().is_empty() {
            return name.1;
        }
        let mut out = name.1;
        out.append(" (");
        out.append(name.0.as_str());
        out.append(")");
        out
    }

    /// The names of the object with GUID `uuid` (see `object_uuid_to_name`).
    pub fn uuid_to_name(uuid: Guid) -> (r: (String, String))
        ensures
            (r.0@, r.1@) == spec_known_object_name(unicode_uppercase(spec_braced(uuid.bytes@))),
            (r.0@, r.1@) == spec_known_object_name(ascii_uppercase(spec_braced(uuid.bytes@))),
    {
        proof {
            lemma_braced_is_ascii(uuid.bytes@);
        }
        Self::object_uuid_to_name(&braced_text(uuid))
    }

    /// The names of the object whose GUID text is `object_uuid_str`, in
    /// any case (see `spec_known_object_name`).
    pub fn object_uuid_to_name(object_uuid_str: &String) -> (r: (String, String))
        ensures
            (r.0@, r.1@) == spec_known_object_name(unicode_uppercase(object_uuid_str@)),
            is_ascii_chars(object_uuid_str@) ==> (r.0@, r.1@) == spec_known_object_name(
                ascii_uppercase(object_uuid_str@),
            ),
    {
        let upper = to_uppercase(object_uuid_str.as_str());
        known_object_name(upper.as_str())
    }
}

} // verus!
