//! Enumeration of installed font families, locale-aware names, and the protocol by which
//! faces are matched against requested weights, styles and axes. The font engine itself
//! stays outside: what it reports comes in as plain values, and what has to be asked of
//! it goes out as plain values.

pub mod collection;
pub mod enums;
pub mod errors;
pub mod family;
pub mod fields;
pub mod information;
pub mod locale;
pub mod matching;
pub mod scalar;
pub mod search;
pub mod text;
pub mod variant;

pub use collection::{FontCollection, NameSearch};
pub use enums::{Style, Weight};
pub use errors::{
    ArgumentFault, Comparison, Feature, HostException, IntOrStr, NativeFailure, WindowsFontError,
};
pub use family::FontFamily;
pub use information::{InfoReply, InfoString, InformationDict, InformationIter};
pub use locale::{LocaleCache, LocalizedString, LocalizedStrings};
pub use matching::{AxisTag, AxisValue, Capability, FloatOrWeight, MatchQuery, MatchRequest};
pub use scalar::Scalar;
pub use search::{get_matching_variants, FontProperty};
pub use variant::{FileReply, FilesReply, FontFace, FontVariant, NamesReply};
