//! The table of informational strings: the fields of a font's metadata by their
//! canonical names, each with the font engine's identifier for the string and, where
//! fonts can be filtered by the field, the identifier of that property. The table is
//! fixed and holds its fields in the order of their names.

use crate::text::{lemma_text_lt_at, lemma_text_lt_transitive, same_text, text_lt};
use vstd::prelude::*;

verus! {

/// One field of the table.
#[derive(Clone, Copy, Debug, PartialEq, Eq)]
pub struct InfoField {
    /// The place of the field in the table.
    pub index: usize,
    /// The engine's identifier of the informational string.
    pub string_id: i32,
    /// The engine's identifier of the property to filter by; zero where there is none.
    pub property_id: i32,
}

/// The table: each field's name, the identifier of its informational string, and
/// the identifier of the property by which fonts are filtered for it, which is zero
/// where there is none.
pub open spec fn spec_table() -> Seq<(Seq<char>, int, int)> {
    seq![
        ("copyright"@, 1, 0),
        ("description"@, 7, 0),
        ("design_script_language_tag"@, 20, 7),
        ("designer"@, 5, 0),
        ("designer_url"@, 6, 0),
        ("full_name"@, 16, 4),
        ("license_description"@, 9, 0),
        ("license_info_url"@, 10, 0),
        ("manufacturer"@, 4, 0),
        ("postscript_cid_name"@, 18, 0),
        ("postscript_name"@, 17, 6),
        ("preferred_family_names"@, 13, 2),
        ("preferred_subfamily_names"@, 14, 1),
        ("sample_text"@, 15, 0),
        ("supported_script_language_tag"@, 21, 8),
        ("trademark"@, 3, 0),
        ("typographic_family_names"@, 13, 2),
        ("typographic_subfamily_names"@, 14, 0),
        ("vendor_url"@, 8, 0),
        ("versions"@, 2, 0),
        ("weight_stretch_style_family_name"@, 19, 1),
        ("win32_family_names"@, 11, 5),
        ("win32_subfamily_names"@, 12, 0),
        ("wss_family_name"@, 19, 0),
    ]
}

/// The number of fields.
pub open spec fn spec_field_count() -> int {
    24
}

/// The identifier that says that fonts cannot be filtered by a field.
pub open spec fn spec_no_property() -> int {
    0
}

/// The name of the field at a place of the table; the empty name beyond its end.
pub open spec fn spec_field_name(index: int) -> Seq<char> {
    if 0 <= index < spec_field_count() {
        spec_table()[index].0
    } else {
        ""@
    }
}

/// The identifier of the informational string of the field at a place of the table;
/// zero beyond its end.
pub open spec fn spec_field_string_id(index: int) -> int {
    if 0 <= index < spec_field_count() {
        spec_table()[index].1
    } else {
        0
    }
}

/// The identifier of the property by which fonts are filtered for the field at a
/// place of the table; zero beyond its end.
pub open spec fn spec_field_property_id(index: int) -> int {
    if 0 <= index < spec_field_count() {
        spec_table()[index].2
    } else {
        0
    }
}

/// The field at a place of the table.
pub open spec fn spec_field(index: int) -> InfoField {
    InfoField {
        index: index as usize,
        string_id: spec_field_string_id(index) as i32,
        property_id: spec_field_property_id(index) as i32,
    }
}

/// The place of the field with a given name: none where the table has no such field.
pub open spec fn spec_find_field(name: Seq<char>) -> Option<int> {
    if exists|index: int| 0 <= index < spec_field_count() && spec_field_name(index) == name {
        Some(choose|index: int| 0 <= index < spec_field_count() && spec_field_name(index) == name)
    } else {
        None
    }
}

/// The number of fields.
pub fn field_count() -> (r: usize)
    ensures
        r == spec_field_count(),
{
    24
}

/// The name of the field at a place of the table; the empty name beyond its end.
pub fn field_name(index: usize) -> (r: &'static str)
    ensures
        r@ == spec_field_name(index as int),
{
    proof {
        reveal_strlit("");
    }
    match index {
        0 => "copyright",
        1 => "description",
        2 => "design_script_language_tag",
        3 => "designer",
        4 => "designer_url",
        5 => "full_name",
        6 => "license_description",
        7 => "license_info_url",
        8 => "manufacturer",
        9 => "postscript_cid_name",
        10 => "postscript_name",
        11 => "preferred_family_names",
        12 => "preferred_subfamily_names",
        13 => "sample_text",
        14 => "supported_script_language_tag",
        15 => "trademark",
        16 => "typographic_family_names",
        17 => "typographic_subfamily_names",
        18 => "vendor_url",
        19 => "versions",
        20 => "weight_stretch_style_family_name",
        21 => "win32_family_names",
        22 => "win32_subfamily_names",
        23 => "wss_family_name",
        _ => "",
    }
}

/// The identifier of the informational string of the field at a place of the table.
pub fn field_string_id(index: usize) -> (r: i32)
    ensures
        r == spec_field_string_id(index as int),
{
    match index {
        0 => 1,
        1 => 7,
        2 => 20,
        3 => 5,
        4 => 6,
        5 => 16,
        6 => 9,
        7 => 10,
        8 => 4,
        9 => 18,
        10 => 17,
        11 => 13,
        12 => 14,
        13 => 15,
        14 => 21,
        15 => 3,
        16 => 13,
        17 => 14,
        18 => 8,
        19 => 2,
        20 => 19,
        21 => 11,
        22 => 12,
        23 => 19,
        _ => 0,
    }
}

/// The identifier of the property by which fonts are filtered for the field at a place
/// of the table.
pub fn field_property_id(index: usize) -> (r: i32)
    ensures
        r == spec_field_property_id(index as int),
{
    match index {
        0 => 0,
        1 => 0,
        2 => 7,
        3 => 0,
        4 => 0,
        5 => 4,
        6 => 0,
        7 => 0,
        8 => 0,
        9 => 0,
        10 => 6,
        11 => 2,
        12 => 1,
        13 => 0,
        14 => 8,
        15 => 0,
        16 => 2,
        17 => 0,
        18 => 0,
        19 => 0,
        20 => 1,
        21 => 5,
        22 => 0,
        23 => 0,
        _ => 0,
    }
}

/// Each field's name comes before that of the next field.
proof fn lemma_next_field_name_is_greater(index: int)
    requires
        0 <= index < spec_field_count() - 1,
    ensures
        text_lt(spec_field_name(index), spec_field_name(index + 1)),
{
    if index == 0 {
        reveal_strlit("copyright");
        reveal_strlit("description");
        lemma_text_lt_at("copyright"@, "description"@, 0);
    } else if index == 1 {
        reveal_strlit("description");
        reveal_strlit("design_script_language_tag");
        lemma_text_lt_at("description"@, "design_script_language_tag"@, 3);
    } else if index == 2 {
        reveal_strlit("design_script_language_tag");
        reveal_strlit("designer");
        lemma_text_lt_at("design_script_language_tag"@, "designer"@, 6);
    } else if index == 3 {
        reveal_strlit("designer");
        reveal_strlit("designer_url");
        lemma_text_lt_at("designer"@, "designer_url"@, 8);
    } else if index == 4 {
        reveal_strlit("designer_url");
        reveal_strlit("full_name");
        lemma_text_lt_at("designer_url"@, "full_name"@, 0);
    } else if index == 5 {
        reveal_strlit("full_name");
        reveal_strlit("license_description");
        lemma_text_lt_at("full_name"@, "license_description"@, 0);
    } else if index == 6 {
        reveal_strlit("license_description");
        reveal_strlit("license_info_url");
        lemma_text_lt_at("license_description"@, "license_info_url"@, 8);
    } else if index == 7 {
        reveal_strlit("license_info_url");
        reveal_strlit("manufacturer");
        lemma_text_lt_at("license_info_url"@, "manufacturer"@, 0);
    } else if index == 8 {
        reveal_strlit("manufacturer");
        reveal_strlit("postscript_cid_name");
        lemma_text_lt_at("manufacturer"@, "postscript_cid_name"@, 0);
    } else if index == 9 {
        reveal_strlit("postscript_cid_name");
        reveal_strlit("postscript_name");
        lemma_text_lt_at("postscript_cid_name"@, "postscript_name"@, 11);
    } else if index == 10 {
        reveal_strlit("postscript_name");
        reveal_strlit("preferred_family_names");
        lemma_text_lt_at("postscript_name"@, "preferred_family_names"@, 1);
    } else if index == 11 {
        reveal_strlit("preferred_family_names");
        reveal_strlit("preferred_subfamily_names");
        lemma_text_lt_at("preferred_family_names"@, "preferred_subfamily_names"@, 10);
    } else if index == 12 {
        reveal_strlit("preferred_subfamily_names");
        reveal_strlit("sample_text");
        lemma_text_lt_at("preferred_subfamily_names"@, "sample_text"@, 0);
    } else if index == 13 {
        reveal_strlit("sample_text");
        reveal_strlit("supported_script_language_tag");
        lemma_text_lt_at("sample_text"@, "supported_script_language_tag"@, 1);
    } else if index == 14 {
        reveal_strlit("supported_script_language_tag");
        reveal_strlit("trademark");
        lemma_text_lt_at("supported_script_language_tag"@, "trademark"@, 0);
    } else if index == 15 {
        reveal_strlit("trademark");
        reveal_strlit("typographic_family_names");
        lemma_text_lt_at("trademark"@, "typographic_family_names"@, 1);
    } else if index == 16 {
        reveal_strlit("typographic_family_names");
        reveal_strlit("typographic_subfamily_names");
        lemma_text_lt_at("typographic_family_names"@, "typographic_subfamily_names"@, 12);
    } else if index == 17 {
        reveal_strlit("typographic_subfamily_names");
        reveal_strlit("vendor_url");
        lemma_text_lt_at("typographic_subfamily_names"@, "vendor_url"@, 0);
    } else if index == 18 {
        reveal_strlit("vendor_url");
        reveal_strlit("versions");
        lemma_text_lt_at("vendor_url"@, "versions"@, 2);
    } else if index == 19 {
        reveal_strlit("versions");
        reveal_strlit("weight_stretch_style_family_name");
        lemma_text_lt_at("versions"@, "weight_stretch_style_family_name"@, 0);
    } else if index == 20 {
        reveal_strlit("weight_stretch_style_family_name");
        reveal_strlit("win32_family_names");
        lemma_text_lt_at("weight_stretch_style_family_name"@, "win32_family_names"@, 1);
    } else if index == 21 {
        reveal_strlit("win32_family_names");
        reveal_strlit("win32_subfamily_names");
        lemma_text_lt_at("win32_family_names"@, "win32_subfamily_names"@, 6);
    } else {
        reveal_strlit("win32_subfamily_names");
        reveal_strlit("wss_family_name");
        lemma_text_lt_at("win32_subfamily_names"@, "wss_family_name"@, 1);
    }
}

/// The names of the table stand in strictly increasing order.
pub proof fn lemma_field_names_increase(first: int, second: int)
    requires
        0 <= first < second < spec_field_count(),
    ensures
        text_lt(spec_field_name(first), spec_field_name(second)),
    decreases second - first,
{
    lemma_next_field_name_is_greater(second - 1);
    if first < second - 1 {
        lemma_field_names_increase(first, second - 1);
        lemma_text_lt_transitive(
            spec_field_name(first),
            spec_field_name(second - 1),
            spec_field_name(second),
        );
    }
}

/// No two fields share a name.
pub proof fn lemma_field_names_differ(first: int, second: int)
    requires
        0 <= first < spec_field_count(),
        0 <= second < spec_field_count(),
        first != second,
    ensures
        spec_field_name(first) != spec_field_name(second),
{
    if first < second {
        lemma_field_names_increase(first, second);
        crate::text::lemma_text_lt_irreflexive(spec_field_name(first));
    } else {
        lemma_field_names_increase(second, first);
        crate::text::lemma_text_lt_irreflexive(spec_field_name(second));
    }
}

/// The place of the field with a given name.
pub fn find_field(name: &str) -> (r: Option<usize>)
    ensures
        match r {
            Some(index) => index < spec_field_count() && spec_field_name(index as int) == name@,
            None => forall|index: int|
                0 <= index < spec_field_count() ==> spec_field_name(index) != name@,
        },
        r.is_some() == spec_find_field(name@).is_some(),
        r matches Some(index) ==> spec_find_field(name@) == Some(index as int),
{
    let mut index: usize = 0;
    while index < field_count()
        invariant
            index <= spec_field_count(),
            forall|earlier: int| 0 <= earlier < index ==> spec_field_name(earlier) != name@,
        decreases spec_field_count() - index,
    {
        if same_text(field_name(index), name) {
            proof {
                let chosen = choose|other: int|
                    0 <= other < spec_field_count() && spec_field_name(other) == name@;
                if chosen != index {
                    lemma_field_names_differ(chosen, index as int);
                }
            }
            return Some(index);
        }
        index += 1;
    }
    None
}

/// The field with a given name: none where the table has no such field.
pub fn lookup(name: &str) -> (r: Option<InfoField>)
    ensures
        r == match spec_find_field(name@) {
            Some(index) => Some(spec_field(index)),
            None => None,
        },
{
    match find_field(name) {
        Some(index) => Some(
            InfoField {
                index,
                string_id: field_string_id(index),
                property_id: field_property_id(index),
            },
        ),
        None => None,
    }
}

} // verus!
