//! The search over all installed fonts by the strings of their metadata.

use crate::errors::{ArgumentFault, NativeFailure, WindowsFontError};
use crate::fields::{lookup, spec_field_property_id, spec_find_field, spec_no_property};
use crate::variant::{result_list, FontVariant};
use vstd::prelude::*;

verus! {

/// One condition that is handed to the font engine: the property to filter by, and
/// the text that it has to hold.
#[derive(Debug, PartialEq, Eq)]
pub struct FontProperty {
    pub property_id: i32,
    pub value: String,
}

/// The conditions for the first `upto` filters. The first filter that names a field
/// which the table does not hold, or one that fonts cannot be filtered by, fails the
/// whole.
pub open spec fn spec_conditions(filters: Seq<(String, String)>, upto: int) -> Result<
    Seq<FontProperty>,
    WindowsFontError,
>
    decreases upto,
{
    if upto <= 0 {
        Ok(Seq::empty())
    } else {
        match spec_conditions(filters, upto - 1) {
            Err(error) => Err(error),
            Ok(conditions) => {
                let (name, value) = filters[upto - 1];
                match spec_find_field(name@) {
                    None => Err(
                        WindowsFontError::InvalidArgument(ArgumentFault::UnknownProperty(name)),
                    ),
                    Some(index) => if spec_field_property_id(index) == spec_no_property() {
                        Err(
                            WindowsFontError::InvalidArgument(
                                ArgumentFault::UnfilterableProperty(name),
                            ),
                        )
                    } else {
                        Ok(
                            conditions.push(
                                FontProperty {
                                    property_id: spec_field_property_id(index) as i32,
                                    value,
                                },
                            ),
                        )
                    },
                }
            },
        }
    }
}

/// The conditions for a set of filters; a search without filters is refused.
pub open spec fn spec_property_filters(filters: Option<Seq<(String, String)>>) -> Result<
    Seq<FontProperty>,
    WindowsFontError,
> {
    match filters {
        None => Err(WindowsFontError::InvalidArgument(ArgumentFault::NoFilters)),
        Some(filters) => spec_conditions(filters, filters.len() as int),
    }
}

/// The variants of the first `upto` fonts that the engine found; the first font that
/// it failed to hand out fails the whole.
pub open spec fn spec_collect(found: Seq<Result<FontVariant, NativeFailure>>, upto: int) -> Result<
    Seq<FontVariant>,
    WindowsFontError,
>
    decreases upto,
{
    if upto <= 0 {
        Ok(Seq::empty())
    } else {
        match spec_collect(found, upto - 1) {
            Err(error) => Err(error),
            Ok(variants) => match found[upto - 1] {
                Ok(variant) => Ok(variants.push(variant)),
                Err(failure) => Err(WindowsFontError::WindowsErr(failure)),
            },
        }
    }
}

/// The result of a search: the refusal of the filters, where they are refused, and
/// else the fonts that the engine found, in its order.
pub open spec fn spec_matching_variants(
    filters: Option<Seq<(String, String)>>,
    found: Seq<Result<FontVariant, NativeFailure>>,
) -> Result<Seq<FontVariant>, WindowsFontError> {
    match spec_property_filters(filters) {
        Err(error) => Err(error),
        Ok(_) => spec_collect(found, found.len() as int),
    }
}

/// Once a filter has been refused, no later filter mends it.
pub proof fn lemma_conditions_stay_failed(filters: Seq<(String, String)>, failed: int, upto: int)
    requires
        0 <= failed <= upto,
        spec_conditions(filters, failed) is Err,
    ensures
        spec_conditions(filters, upto) == spec_conditions(filters, failed),
    decreases upto - failed,
{
    if failed < upto {
        lemma_conditions_stay_failed(filters, failed, upto - 1);
    }
}

/// Once a font has failed the list, no later font mends it.
pub proof fn lemma_collect_stays_failed(
    found: Seq<Result<FontVariant, NativeFailure>>,
    failed: int,
    upto: int,
)
    requires
        0 <= failed <= upto,
        spec_collect(found, failed) is Err,
    ensures
        spec_collect(found, upto) == spec_collect(found, failed),
    decreases upto - failed,
{
    if failed < upto {
        lemma_collect_stays_failed(found, failed, upto - 1);
    }
}

/// The filters as sequences.
pub open spec fn option_list(filters: Option<&Vec<(String, String)>>) -> Option<
    Seq<(String, String)>,
> {
    match filters {
        Some(filters) => Some(filters@),
        None => None,
    }
}

/// The conditions to hand to the engine for a set of filters, each a field's name and
/// the text to look for, in the order of the filters.
pub fn property_filters(filters: Option<&Vec<(String, String)>>) -> (r: Result<
    Vec<FontProperty>,
    WindowsFontError,
>)
    ensures
        result_list(r) == spec_property_filters(option_list(filters)),
{
    let list = match filters {
        Some(list) => list,
        None => {
            return Err(WindowsFontError::InvalidArgument(ArgumentFault::NoFilters));
        },
    };
    let mut conditions: Vec<FontProperty> = Vec::new();
    let mut i: usize = 0;
    while i < list.len()
        invariant
            i <= list@.len(),
            filters == Some(list),
            spec_conditions(list@, i as int) == Ok::<Seq<FontProperty>, WindowsFontError>(
                conditions@,
            ),
        decreases list@.len() - i,
    {
        let name = &list[i].0;
        let value = &list[i].1;
        match lookup(name.as_str()) {
            None => {
                proof {
                    lemma_conditions_stay_failed(list@, i as int + 1, list@.len() as int);
                }
                return Err(
                    WindowsFontError::InvalidArgument(ArgumentFault::UnknownProperty(name.clone())),
                );
            },
            Some(field) => {
                if field.property_id == 0 {
                    proof {
                        lemma_conditions_stay_failed(list@, i as int + 1, list@.len() as int);
                    }
                    return Err(
                        WindowsFontError::InvalidArgument(
                            ArgumentFault::UnfilterableProperty(name.clone()),
                        ),
                    );
                }
                conditions.push(
                    FontProperty { property_id: field.property_id, value: value.clone() },
                );
            },
        }
        i += 1;
    }
    Ok(conditions)
}

/// The fonts that the engine found, as variants, in its order.
pub fn collect_variants(found: Vec<Result<FontVariant, NativeFailure>>) -> (r: Result<
    Vec<FontVariant>,
    WindowsFontError,
>)
    ensures
        result_list(r) == spec_collect(found@, found@.len() as int),
{
    let mut variants: Vec<FontVariant> = Vec::new();
    for item in it: found
        invariant
            it.seq() == found@,
            spec_collect(found@, it.index() as int) == Ok::<Seq<FontVariant>, WindowsFontError>(
                variants@,
            ),
    {
        match item {
            Ok(variant) => {
                variants.push(variant);
            },
            Err(failure) => {
                proof {
                    lemma_collect_stays_failed(found@, it.index() as int + 1, found@.len() as int);
                }
                return Err(WindowsFontError::WindowsErr(failure));
            },
        }
    }
    Ok(variants)
}

/// The variants of all installed fonts that meet a set of filters, given the fonts
/// that the engine found for the conditions, each with the family that it was found to
/// belong to.
pub fn get_matching_variants(
    filters: Option<&Vec<(String, String)>>,
    found: Vec<Result<FontVariant, NativeFailure>>,
) -> (r: Result<Vec<FontVariant>, WindowsFontError>)
    ensures
        result_list(r) == spec_matching_variants(option_list(filters), found@),
{
    match property_filters(filters) {
        Err(error) => {
            return Err(error);
        },
        Ok(_) => {},
    }
    collect_variants(found)
}

} // verus!
