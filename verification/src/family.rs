//! A font family: its name, its faces by index, and the faces that the font engine
//! ranks for a request.

use crate::errors::{
    rich_compare, spec_rich_compare, ArgumentFault, Comparison, Feature, NativeFailure, WindowsFontError,
};
use crate::locale::{spec_best_index, LocalizedStrings};
use crate::matching::{Capability, MatchRequest};
use crate::variant::{result_list, FontFace, FontVariant};
use std::rc::Rc;
use vstd::prelude::*;

verus! {

/// What the font engine reported of one family: the table of its names, or why there
/// is none, and the number of its faces.
#[derive(Debug, PartialEq, Eq)]
pub struct FontFamily {
    pub names: Result<LocalizedStrings, NativeFailure>,
    pub font_count: u32,
}

/// `Rc::clone` of the standard library: one more handle to the same family. The
/// contract claims that the new handle leads to the value that the old one leads to.
#[verifier::external_body]
fn share(family: &Rc<FontFamily>) -> (r: Rc<FontFamily>)
    ensures
        r == *family,
{
    Rc::clone(family)
}

/// The index of a face counted from the start: an index below zero counts from the
/// end.
pub open spec fn spec_resolved_index(index: int, count: int) -> int {
    if index < 0 {
        index + count
    } else {
        index
    }
}

/// The variants of the first `upto` ranked faces, in their order; the first face that
/// the engine failed to hand out fails the whole.
pub open spec fn spec_wrap_faces(
    family: Rc<FontFamily>,
    ranked: Seq<Result<FontFace, NativeFailure>>,
    upto: int,
) -> Result<Seq<FontVariant>, WindowsFontError>
    decreases upto,
{
    if upto <= 0 {
        Ok(Seq::empty())
    } else {
        match spec_wrap_faces(family, ranked, upto - 1) {
            Err(error) => Err(error),
            Ok(variants) => match ranked[upto - 1] {
                Ok(face) => Ok(variants.push(FontVariant { family, face })),
                Err(failure) => Err(WindowsFontError::WindowsErr(failure)),
            },
        }
    }
}

/// Once a face has failed the list, no later face mends it.
pub proof fn lemma_wrap_stays_failed(
    family: Rc<FontFamily>,
    ranked: Seq<Result<FontFace, NativeFailure>>,
    failed: int,
    upto: int,
)
    requires
        0 <= failed <= upto,
        spec_wrap_faces(family, ranked, failed) is Err,
    ensures
        spec_wrap_faces(family, ranked, upto) == spec_wrap_faces(family, ranked, failed),
    decreases upto - failed,
{
    if failed < upto {
        lemma_wrap_stays_failed(family, ranked, failed, upto - 1);
    }
}

/// A list of variants that came about without failure holds one variant for each
/// ranked face, at the face's place.
pub proof fn lemma_wrap_keeps_order(
    family: Rc<FontFamily>,
    ranked: Seq<Result<FontFace, NativeFailure>>,
    upto: int,
)
    requires
        0 <= upto <= ranked.len(),
        spec_wrap_faces(family, ranked, upto) is Ok,
    ensures
        spec_wrap_faces(family, ranked, upto)->Ok_0.len() == upto,
        forall|i: int|
            0 <= i < upto ==> {
                &&& ranked[i] is Ok
                &&& #[trigger] spec_wrap_faces(family, ranked, upto)->Ok_0[i] == (FontVariant {
                    family,
                    face: ranked[i]->Ok_0,
                })
            },
    decreases upto,
{
    if upto > 0 {
        lemma_wrap_keeps_order(family, ranked, upto - 1);
    }
}

impl FontFamily {
    /// The name of the family for a user of the given locale.
    pub open spec fn spec_name(self, locale: Seq<char>) -> Result<String, WindowsFontError> {
        match self.names {
            Ok(table) => Ok(table@[spec_best_index(table@, locale)].text),
            Err(failure) => Err(WindowsFontError::WindowsErr(failure)),
        }
    }

    /// Whether two families count as equal: both have a name, and the names are the
    /// same. A family whose name cannot be had equals none, not even itself.
    pub open spec fn spec_equals(self, other: FontFamily, locale: Seq<char>) -> bool {
        &&& self.spec_name(locale) matches Ok(name)
        &&& other.spec_name(locale) matches Ok(other_name)
        &&& name@ == other_name@
    }

    /// The place of a face in the family, for an index that may count from the end.
    pub open spec fn spec_variant_index(self, index: int) -> Result<int, WindowsFontError> {
        let resolved = spec_resolved_index(index, self.font_count as int);
        if 0 <= resolved < self.font_count {
            Ok(resolved)
        } else {
            Err(WindowsFontError::IndexOutOfRange(resolved as i64))
        }
    }

    /// The variant at an index, given what the engine handed out for the index's
    /// place. A face that the engine does not hand out is out of range as well.
    pub open spec fn spec_get(
        family: Rc<FontFamily>,
        index: int,
        fetched: Result<FontFace, NativeFailure>,
    ) -> Result<FontVariant, WindowsFontError> {
        match family.spec_variant_index(index) {
            Err(error) => Err(error),
            Ok(place) => match fetched {
                Ok(face) => Ok(FontVariant { family, face }),
                Err(_) => Err(WindowsFontError::IndexOutOfRange(place as i64)),
            },
        }
    }

    /// The best match for a request, given the first face of the engine's ranking.
    pub open spec fn spec_best_variant(
        family: Rc<FontFamily>,
        request: MatchRequest,
        capability: Capability,
        first: Option<Result<FontFace, NativeFailure>>,
    ) -> Result<FontVariant, WindowsFontError> {
        match request.spec_query(capability) {
            Err(error) => Err(error),
            Ok(_) => match first {
                None => Err(WindowsFontError::NoVariantsFound),
                Some(Ok(face)) => Ok(FontVariant { family, face }),
                Some(Err(failure)) => Err(WindowsFontError::WindowsErr(failure)),
            },
        }
    }

    /// All matches for a request, given the engine's ranking, in its order.
    pub open spec fn spec_matching_variants(
        family: Rc<FontFamily>,
        request: MatchRequest,
        capability: Capability,
        ranked: Seq<Result<FontFace, NativeFailure>>,
    ) -> Result<Seq<FontVariant>, WindowsFontError> {
        match request.spec_query(capability) {
            Err(error) => Err(error),
            Ok(_) => spec_wrap_faces(family, ranked, ranked.len() as int),
        }
    }

    /// A family as the engine reported it.
    pub fn new(names: Result<LocalizedStrings, NativeFailure>, font_count: u32) -> (r: FontFamily)
        ensures
            r == (FontFamily { names, font_count }),
    {
        FontFamily { names, font_count }
    }

    /// The name of the family for a user of the given locale.
    pub fn name(&self, locale: &str) -> (r: Result<String, WindowsFontError>)
        ensures
            r == self.spec_name(locale@),
    {
        match &self.names {
            Ok(table) => Ok(table.get_best_name(locale)),
            Err(failure) => Err(WindowsFontError::WindowsErr(failure.clone())),
        }
    }

    /// The number of faces.
    pub fn count(&self) -> (r: usize)
        ensures
            r == self.font_count,
    {
        self.font_count as usize
    }

    /// Whether two families count as equal for a user of the given locale.
    pub fn equals(&self, other: &FontFamily, locale: &str) -> (r: bool)
        ensures
            r == self.spec_equals(*other, locale@),
    {
        let name = match self.name(locale) {
            Ok(name) => name,
            Err(_) => {
                return false;
            },
        };
        let other_name = match other.name(locale) {
            Ok(name) => name,
            Err(_) => {
                return false;
            },
        };
        name == other_name
    }

    /// The answer to a comparison with another family; none where the comparison is
    /// not one that families answer.
    pub fn rich_compare(&self, other: &FontFamily, comparison: Comparison, locale: &str) -> (r:
        Option<bool>)
        ensures
            r == spec_rich_compare(self.spec_equals(*other, locale@), comparison),
    {
        rich_compare(self.equals(other, locale), comparison)
    }

    /// The place of the face with an index that may count from the end.
    pub fn variant_index(&self, index: i32) -> (r: Result<u32, WindowsFontError>)
        ensures
            match r {
                Ok(place) => self.spec_variant_index(index as int) == Ok::<int, WindowsFontError>(
                    place as int,
                ),
                Err(error) => self.spec_variant_index(index as int) == Err::<int, WindowsFontError>(
                    error,
                ),
            },
    {
        let count: i64 = self.font_count as i64;
        let resolved: i64 = if index < 0 {
            index as i64 + count
        } else {
            index as i64
        };
        if 0 <= resolved && resolved < count {
            Ok(resolved as u32)
        } else {
            Err(WindowsFontError::IndexOutOfRange(resolved))
        }
    }

    /// The variant at an index, given what the engine handed out for the index's
    /// place; for an index out of range the engine need not have been asked, and what
    /// is given for it is not looked at.
    pub fn get(family: &Rc<FontFamily>, index: i32, fetched: Result<FontFace, NativeFailure>) -> (r:
        Result<FontVariant, WindowsFontError>)
        ensures
            r == FontFamily::spec_get(*family, index as int, fetched),
    {
        let place = match family.variant_index(index) {
            Ok(place) => place,
            Err(error) => {
                return Err(error);
            },
        };
        match fetched {
            Ok(face) => Ok(FontVariant { family: share(family), face }),
            Err(_) => Err(WindowsFontError::IndexOutOfRange(place as i64)),
        }
    }

    /// How many faces of a ranking are to be fetched from the engine: all of them for
    /// the list of matches, and for the best match the first only.
    pub fn faces_to_fetch(ranked: u32, best_only: bool) -> (r: u32)
        ensures
            r == if best_only && ranked > 1 {
                1
            } else {
                ranked as int
            },
    {
        if best_only && ranked > 1 {
            1
        } else {
            ranked
        }
    }

    /// The best match for a request: the first face of the engine's ranking. Only that
    /// face is taken; `first` is none where the engine ranked no face.
    pub fn get_best_variant(
        family: &Rc<FontFamily>,
        request: &MatchRequest,
        capability: Capability,
        first: Option<Result<FontFace, NativeFailure>>,
    ) -> (r: Result<FontVariant, WindowsFontError>)
        ensures
            r == FontFamily::spec_best_variant(*family, *request, capability, first),
    {
        match request.query(capability) {
            Err(error) => {
                return Err(error);
            },
            Ok(_) => {},
        }
        match first {
            None => Err(WindowsFontError::NoVariantsFound),
            Some(Ok(face)) => Ok(FontVariant { family: share(family), face }),
            Some(Err(failure)) => Err(WindowsFontError::WindowsErr(failure)),
        }
    }

    /// All matches for a request: the faces of the engine's ranking, in its order.
    pub fn get_matching_variants(
        family: &Rc<FontFamily>,
        request: &MatchRequest,
        capability: Capability,
        ranked: Vec<Result<FontFace, NativeFailure>>,
    ) -> (r: Result<Vec<FontVariant>, WindowsFontError>)
        ensures
            result_list(r) == FontFamily::spec_matching_variants(
                *family,
                *request,
                capability,
                ranked@,
            ),
    {
        match request.query(capability) {
            Err(error) => {
                return Err(error);
            },
            Ok(_) => {},
        }
        wrap_faces(family, ranked)
    }

    /// An index below zero names the face that many places before the end: the last
    /// face for minus one. Both indices lead to the same result.
    pub proof fn lemma_negative_index_counts_from_end(
        family: Rc<FontFamily>,
        back: int,
        fetched: Result<FontFace, NativeFailure>,
    )
        requires
            1 <= back <= family.font_count,
        ensures
            family.spec_variant_index(-back) == Ok::<int, WindowsFontError>(
                family.font_count - back,
            ),
            family.spec_variant_index(-back) == family.spec_variant_index(
                family.font_count - back,
            ),
            FontFamily::spec_get(family, -back, fetched) == FontFamily::spec_get(
                family,
                family.font_count - back,
                fetched,
            ),
    {
    }

    /// Where there are matches at all, the best match is the first of them.
    pub proof fn lemma_best_variant_is_first_match(
        family: Rc<FontFamily>,
        request: MatchRequest,
        capability: Capability,
        ranked: Seq<Result<FontFace, NativeFailure>>,
    )
        requires
            FontFamily::spec_matching_variants(family, request, capability, ranked) matches Ok(
                variants,
            ) && variants.len() > 0,
        ensures
            ranked.len() > 0,
            FontFamily::spec_best_variant(family, request, capability, Some(ranked[0])) == Ok::<
                FontVariant,
                WindowsFontError,
            >(FontFamily::spec_matching_variants(family, request, capability, ranked)->Ok_0[0]),
    {
        if ranked.len() > 0 {
            lemma_wrap_keeps_order(family, ranked, ranked.len() as int);
        }
    }

    /// A request with a style and an axis gets no variant, best or other, whatever
    /// the engine can do and whatever it would rank.
    pub proof fn lemma_style_with_axis_is_refused(
        family: Rc<FontFamily>,
        request: MatchRequest,
        capability: Capability,
        ranked: Seq<Result<FontFace, NativeFailure>>,
        first: Option<Result<FontFace, NativeFailure>>,
    )
        requires
            request.style is Some,
            request.spec_names_axis(),
        ensures
            FontFamily::spec_matching_variants(family, request, capability, ranked) == Err::<
                Seq<FontVariant>,
                WindowsFontError,
            >(WindowsFontError::InvalidArgument(ArgumentFault::StyleWithAxes)),
            FontFamily::spec_best_variant(family, request, capability, first) == Err::<
                FontVariant,
                WindowsFontError,
            >(WindowsFontError::InvalidArgument(ArgumentFault::StyleWithAxes)),
    {
    }

    /// Where the engine cannot match by axes, a request that names an axis, and no
    /// style, gets no variant for want of the feature, whatever the engine would rank.
    pub proof fn lemma_axis_without_capability_is_unavailable(
        family: Rc<FontFamily>,
        request: MatchRequest,
        ranked: Seq<Result<FontFace, NativeFailure>>,
        first: Option<Result<FontFace, NativeFailure>>,
    )
        requires
            request.style is None,
            request.spec_names_axis(),
        ensures
            FontFamily::spec_matching_variants(
                family,
                request,
                Capability::LegacyCapable,
                ranked,
            ) == Err::<Seq<FontVariant>, WindowsFontError>(
                WindowsFontError::Windows10Needed(Feature::AxisMatching),
            ),
            FontFamily::spec_best_variant(family, request, Capability::LegacyCapable, first)
                == Err::<FontVariant, WindowsFontError>(
                WindowsFontError::Windows10Needed(Feature::AxisMatching),
            ),
    {
    }

    /// The name of a family depends on nothing but the family and the locale: asked
    /// twice, with the locale that the process remembers, it is the same name twice.
    pub proof fn lemma_name_is_stable(
        self,
        first_locale: Seq<char>,
        second_locale: Seq<char>,
        first: Result<String, WindowsFontError>,
        second: Result<String, WindowsFontError>,
    )
        requires
            first_locale == second_locale,
            first == self.spec_name(first_locale),
            second == self.spec_name(second_locale),
        ensures
            first == second,
    {
    }
}

/// The variants of the ranked faces, in their order.
pub fn wrap_faces(family: &Rc<FontFamily>, ranked: Vec<Result<FontFace, NativeFailure>>) -> (r:
    Result<Vec<FontVariant>, WindowsFontError>)
    ensures
        result_list(r) == spec_wrap_faces(*family, ranked@, ranked@.len() as int),
{
    let mut variants: Vec<FontVariant> = Vec::new();
    for item in it: ranked
        invariant
            it.seq() == ranked@,
            spec_wrap_faces(*family, ranked@, it.index() as int) == Ok::<
                Seq<FontVariant>,
                WindowsFontError,
            >(variants@),
    {
        match item {
            Ok(face) => {
                variants.push(FontVariant { family: share(family), face });
            },
            Err(failure) => {
                proof {
                    lemma_wrap_stays_failed(
                        *family,
                        ranked@,
                        it.index() as int + 1,
                        ranked@.len() as int,
                    );
                }
                return Err(WindowsFontError::WindowsErr(failure));
            },
        }
    }
    Ok(variants)
}

} // verus!
