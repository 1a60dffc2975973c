//! The matching protocol: what a caller may ask for, which of the font engine's two
//! ways of matching answers it, and what exactly is handed to the engine.

use crate::enums::{Style, Weight};
use crate::errors::{ArgumentFault, Feature, WindowsFontError};
use crate::scalar::{nearest_bits, truncated, Scalar};
use vstd::prelude::*;

verus! {

/// A weight as a caller gives it: a number, or one of the named weights.
#[derive(Clone, Copy, Debug, PartialEq, Eq)]
pub enum FloatOrWeight {
    Float(Scalar),
    Enum(Weight),
}

impl FloatOrWeight {
    /// The weight as a number: a named weight stands for its code.
    pub open spec fn spec_scalar(self) -> Scalar {
        match self {
            FloatOrWeight::Float(value) => value,
            FloatOrWeight::Enum(weight) => Scalar { bits: nearest_bits(weight.spec_code()) as u32 },
        }
    }

    /// The weight as a number.
    pub fn scalar(&self) -> (r: Scalar)
        ensures
            r == self.spec_scalar(),
    {
        match self {
            FloatOrWeight::Float(value) => *value,
            FloatOrWeight::Enum(weight) => Scalar::from_i32(weight.code()),
        }
    }
}

/// What a caller asks of a family. Every part may be left out.
#[derive(Clone, Copy, Debug, PartialEq, Eq)]
pub struct MatchRequest {
    pub weight: Option<FloatOrWeight>,
    pub style: Option<Style>,
    pub width: Option<Scalar>,
    pub slant: Option<Scalar>,
    pub optical_size: Option<Scalar>,
    pub italic: Option<bool>,
}

/// What the font engine on this system can do for a family.
#[derive(Clone, Copy, Debug, PartialEq, Eq)]
pub enum Capability {
    /// Matching by weight, stretch and style only.
    LegacyCapable,
    /// Matching by the axes of variable fonts as well.
    ModernCapable,
}

/// An axis of a variable font.
#[allow(non_camel_case_types)]
#[derive(Clone, Copy, Debug, PartialEq, Eq)]
pub enum AxisTag {
    WEIGHT,
    WIDTH,
    SLANT,
    OPTICAL_SIZE,
    ITALIC,
}

/// The number that four letters make as a tag: the first letter in the lowest byte.
pub open spec fn spec_tag_of(a: char, b: char, c: char, d: char) -> int {
    (a as int) + (b as int) * 0x100 + (c as int) * 0x1_0000 + (d as int) * 0x100_0000
}

impl AxisTag {
    /// The engine's code for each axis: the tag of four letters that OpenType gives it.
    pub open spec fn spec_code(self) -> int {
        match self {
            AxisTag::WEIGHT => spec_tag_of('w', 'g', 'h', 't'),
            AxisTag::WIDTH => spec_tag_of('w', 'd', 't', 'h'),
            AxisTag::SLANT => spec_tag_of('s', 'l', 'n', 't'),
            AxisTag::OPTICAL_SIZE => spec_tag_of('o', 'p', 's', 'z'),
            AxisTag::ITALIC => spec_tag_of('i', 't', 'a', 'l'),
        }
    }

    /// The engine's code for this axis.
    pub fn code(&self) -> (r: u32)
        ensures
            r == self.spec_code(),
    {
        match self {
            AxisTag::WEIGHT => 0x7468_6777,
            AxisTag::WIDTH => 0x6874_6477,
            AxisTag::SLANT => 0x746e_6c73,
            AxisTag::OPTICAL_SIZE => 0x7a73_706f,
            AxisTag::ITALIC => 0x6c61_7469,
        }
    }
}

/// The value asked for on one axis.
#[derive(Clone, Copy, Debug, PartialEq, Eq)]
pub struct AxisValue {
    pub tag: AxisTag,
    pub value: Scalar,
}

/// What is handed to the font engine.
#[derive(Debug, PartialEq, Eq)]
pub enum MatchQuery {
    /// The older way: the codes of a weight, a stretch and a style.
    Legacy { weight: i32, stretch: i32, style: i32 },
    /// The newer way: a value for each axis that the caller named, and for no other.
    Modern { axes: Vec<AxisValue> },
}

/// A query with its list of axis values as a sequence.
pub enum QueryModel {
    Legacy { weight: int, stretch: int, style: int },
    Modern { axes: Seq<AxisValue> },
}

impl View for MatchQuery {
    type V = QueryModel;

    open spec fn view(&self) -> QueryModel {
        match *self {
            MatchQuery::Legacy { weight, stretch, style } => QueryModel::Legacy {
                weight: weight as int,
                stretch: stretch as int,
                style: style as int,
            },
            MatchQuery::Modern { axes } => QueryModel::Modern { axes: axes@ },
        }
    }
}

/// A query in place of an error, with its list as a sequence.
pub open spec fn result_query(query: Result<MatchQuery, WindowsFontError>) -> Result<
    QueryModel,
    WindowsFontError,
> {
    match query {
        Ok(query) => Ok(query@),
        Err(error) => Err(error),
    }
}

/// The weight that the older way of matching falls back on.
pub open spec fn spec_default_weight() -> int {
    400
}

/// The stretch that the older way of matching always asks for: normal.
pub open spec fn spec_normal_stretch() -> int {
    5
}

/// The entry of one axis in the list: none where the caller left the axis out.
pub open spec fn spec_axis_entry(tag: AxisTag, value: Option<Scalar>) -> Seq<AxisValue> {
    match value {
        Some(value) => seq![AxisValue { tag, value }],
        None => Seq::empty(),
    }
}

/// The number that stands for the italic switch: one for on, zero for off.
pub open spec fn spec_italic_value(italic: Option<bool>) -> Option<Scalar> {
    match italic {
        Some(on) => Some(
            if on {
                Scalar::spec_one()
            } else {
                Scalar::spec_zero()
            },
        ),
        None => None,
    }
}

/// The list of axis values for the newer way: weight, width, slant, optical size and
/// italic in this order, each only where the caller gave it.
pub open spec fn spec_axes(
    weight: Option<Scalar>,
    width: Option<Scalar>,
    slant: Option<Scalar>,
    optical_size: Option<Scalar>,
    italic: Option<bool>,
) -> Seq<AxisValue> {
    spec_axis_entry(AxisTag::WEIGHT, weight) + spec_axis_entry(AxisTag::WIDTH, width)
        + spec_axis_entry(AxisTag::SLANT, slant) + spec_axis_entry(
        AxisTag::OPTICAL_SIZE,
        optical_size,
    ) + spec_axis_entry(AxisTag::ITALIC, spec_italic_value(italic))
}

/// The query of the older way: the weight rounded toward zero, or the default weight;
/// the normal stretch; the style, or the normal style.
pub open spec fn spec_legacy_query(weight: Option<Scalar>, style: Option<Style>) -> QueryModel {
    QueryModel::Legacy {
        weight: match weight {
            Some(value) => truncated(value.bits),
            None => spec_default_weight(),
        },
        stretch: spec_normal_stretch(),
        style: match style {
            Some(style) => style.spec_code(),
            None => Style::NORMAL.spec_code(),
        },
    }
}

/// The query of the newer way, which only a capable engine answers.
pub open spec fn spec_modern_query(
    capability: Capability,
    weight: Option<Scalar>,
    width: Option<Scalar>,
    slant: Option<Scalar>,
    optical_size: Option<Scalar>,
    italic: Option<bool>,
) -> Result<QueryModel, WindowsFontError> {
    match capability {
        Capability::LegacyCapable => Err(WindowsFontError::Windows10Needed(Feature::AxisMatching)),
        Capability::ModernCapable => Ok(
            QueryModel::Modern { axes: spec_axes(weight, width, slant, optical_size, italic) },
        ),
    }
}

impl MatchRequest {
    /// The weight as a number, where one was given.
    pub open spec fn spec_weight(self) -> Option<Scalar> {
        match self.weight {
            Some(weight) => Some(weight.spec_scalar()),
            None => None,
        }
    }

    /// Whether the request names an axis that only the newer way of matching knows.
    pub open spec fn spec_names_axis(self) -> bool {
        self.width is Some || self.slant is Some || self.optical_size is Some || self.italic is Some
    }

    /// What the request leads to. A style together with an axis is refused before the
    /// engine is asked anything. A request with a style, or without any axis, goes the
    /// older way; every other goes the newer way.
    pub open spec fn spec_query(self, capability: Capability) -> Result<
        QueryModel,
        WindowsFontError,
    > {
        if self.style is Some && self.spec_names_axis() {
            Err(WindowsFontError::InvalidArgument(ArgumentFault::StyleWithAxes))
        } else if self.style is Some || !self.spec_names_axis() {
            Ok(spec_legacy_query(self.spec_weight(), self.style))
        } else {
            spec_modern_query(
                capability,
                self.spec_weight(),
                self.width,
                self.slant,
                self.optical_size,
                self.italic,
            )
        }
    }

    /// A request that leaves everything out.
    pub fn new() -> (r: MatchRequest)
        ensures
            r == (MatchRequest {
                weight: None,
                style: None,
                width: None,
                slant: None,
                optical_size: None,
                italic: None,
            }),
    {
        MatchRequest {
            weight: None,
            style: None,
            width: None,
            slant: None,
            optical_size: None,
            italic: None,
        }
    }

    /// Whether the request names an axis that only the newer way of matching knows.
    pub fn names_axis(&self) -> (r: bool)
        ensures
            r == self.spec_names_axis(),
    {
        self.width.is_some() || self.slant.is_some() || self.optical_size.is_some()
            || self.italic.is_some()
    }

    /// What is to be asked of the engine for this request, or why nothing is.
    pub fn query(&self, capability: Capability) -> (r: Result<MatchQuery, WindowsFontError>)
        ensures
            result_query(r) == self.spec_query(capability),
    {
        let weight: Option<Scalar> = match &self.weight {
            Some(weight) => Some(weight.scalar()),
            None => None,
        };
        if self.style.is_some() {
            if self.names_axis() {
                return Err(WindowsFontError::InvalidArgument(ArgumentFault::StyleWithAxes));
            }
            Ok(legacy_query(weight, self.style))
        } else if !self.names_axis() {
            Ok(legacy_query(weight, self.style))
        } else {
            modern_query(
                capability,
                weight,
                self.width,
                self.slant,
                self.optical_size,
                self.italic,
            )
        }
    }

    /// A style together with an axis is refused, whatever else the request holds and
    /// whatever the engine can do, and nothing is asked of the engine.
    pub proof fn lemma_style_excludes_axes(self, capability: Capability)
        requires
            self.style is Some,
            self.spec_names_axis(),
        ensures
            self.spec_query(capability) == Err::<QueryModel, WindowsFontError>(
                WindowsFontError::InvalidArgument(ArgumentFault::StyleWithAxes),
            ),
    {
    }

    /// Where the engine cannot match by axes, a request that names an axis, and no
    /// style, fails for want of the feature, and not as a failure of the engine.
    pub proof fn lemma_axes_need_capability(self)
        requires
            self.spec_names_axis(),
            self.style is None,
        ensures
            self.spec_query(Capability::LegacyCapable) == Err::<QueryModel, WindowsFontError>(
                WindowsFontError::Windows10Needed(Feature::AxisMatching),
            ),
    {
    }
}

/// The query of the older way of matching.
pub fn legacy_query(weight: Option<Scalar>, style: Option<Style>) -> (r: MatchQuery)
    ensures
        r@ == spec_legacy_query(weight, style),
{
    let weight: i32 = match weight {
        Some(value) => value.to_i32(),
        None => 400,
    };
    let style: i32 = match style {
        Some(style) => style.code(),
        None => Style::NORMAL.code(),
    };
    MatchQuery::Legacy { weight, stretch: 5, style }
}

/// The query of the newer way of matching, where the engine is capable of it.
pub fn modern_query(
    capability: Capability,
    weight: Option<Scalar>,
    width: Option<Scalar>,
    slant: Option<Scalar>,
    optical_size: Option<Scalar>,
    italic: Option<bool>,
) -> (r: Result<MatchQuery, WindowsFontError>)
    ensures
        result_query(r) == spec_modern_query(capability, weight, width, slant, optical_size, italic),
{
    match capability {
        Capability::LegacyCapable => {
            return Err(WindowsFontError::Windows10Needed(Feature::AxisMatching));
        },
        Capability::ModernCapable => {},
    }
    let mut conditions: Vec<AxisValue> = Vec::new();
    if let Some(value) = weight {
        conditions.push(AxisValue { tag: AxisTag::WEIGHT, value });
    }
    assert(conditions@ =~= spec_axis_entry(AxisTag::WEIGHT, weight));
    if let Some(value) = width {
        conditions.push(AxisValue { tag: AxisTag::WIDTH, value });
    }
    assert(conditions@ =~= spec_axis_entry(AxisTag::WEIGHT, weight) + spec_axis_entry(
        AxisTag::WIDTH,
        width,
    ));
    if let Some(value) = slant {
        conditions.push(AxisValue { tag: AxisTag::SLANT, value });
    }
    assert(conditions@ =~= spec_axis_entry(AxisTag::WEIGHT, weight) + spec_axis_entry(
        AxisTag::WIDTH,
        width,
    ) + spec_axis_entry(AxisTag::SLANT, slant));
    if let Some(value) = optical_size {
        conditions.push(AxisValue { tag: AxisTag::OPTICAL_SIZE, value });
    }
    assert(conditions@ =~= spec_axis_entry(AxisTag::WEIGHT, weight) + spec_axis_entry(
        AxisTag::WIDTH,
        width,
    ) + spec_axis_entry(AxisTag::SLANT, slant) + spec_axis_entry(
        AxisTag::OPTICAL_SIZE,
        optical_size,
    ));
    if let Some(on) = italic {
        let value = if on {
            Scalar::one()
        } else {
            Scalar::zero()
        };
        conditions.push(AxisValue { tag: AxisTag::ITALIC, value });
    }
    assert(conditions@ =~= spec_axes(weight, width, slant, optical_size, italic));
    Ok(MatchQuery::Modern { axes: conditions })
}

} // verus!
