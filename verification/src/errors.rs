//! The failures that the library reports, and the host exception each one is raised as.

use vstd::prelude::*;

verus! {

/// What the font engine said when one of its calls failed: its status code and its
/// description of the failure.
#[derive(Debug, PartialEq, Eq)]
pub struct NativeFailure {
    pub code: i32,
    pub message: String,
}

impl Clone for NativeFailure {
    fn clone(&self) -> (r: Self)
        ensures
            r == *self,
    {
        NativeFailure { code: self.code, message: self.message.clone() }
    }
}

/// A key of a keyed lookup: a name, or a number.
#[derive(Debug, PartialEq, Eq)]
pub enum IntOrStr {
    Str(String),
    Int(isize),
}

impl Clone for IntOrStr {
    fn clone(&self) -> (r: Self)
        ensures
            r == *self,
    {
        match self {
            IntOrStr::Str(s) => IntOrStr::Str(s.clone()),
            IntOrStr::Int(i) => IntOrStr::Int(*i),
        }
    }
}

/// What is wrong with a combination of arguments.
#[derive(Debug, PartialEq, Eq)]
pub enum ArgumentFault {
    /// `style` was given together with `width`, `slant`, `optical_size` or `italic`.
    StyleWithAxes,
    /// A search over all fonts was asked for without any filter.
    NoFilters,
    /// A filter names a field that the table of informational strings does not hold.
    UnknownProperty(String),
    /// A filter names a field that fonts cannot be filtered by.
    UnfilterableProperty(String),
}

/// A feature that only later versions of the font engine offer.
#[derive(Clone, Copy, Debug, PartialEq, Eq)]
pub enum Feature {
    /// Matching by the axes of variable fonts.
    AxisMatching,
    /// The names of a single face.
    FaceNames,
}

/// A comparison that the host language asks an object to make.
#[derive(Clone, Copy, Debug, PartialEq, Eq)]
pub enum Comparison {
    Lt,
    Le,
    Eq,
    Ne,
    Gt,
    Ge,
}

/// The answer to a comparison: only equality and inequality are answered, from
/// whether the two objects count as equal.
pub open spec fn spec_rich_compare(equal: bool, comparison: Comparison) -> Option<bool> {
    match comparison {
        Comparison::Eq => Some(equal),
        Comparison::Ne => Some(!equal),
        _ => None,
    }
}

/// The answer to a comparison of two objects, from whether they count as equal; none
/// where the comparison is one that is not answered.
pub fn rich_compare(equal: bool, comparison: Comparison) -> (r: Option<bool>)
    ensures
        r == spec_rich_compare(equal, comparison),
{
    match comparison {
        Comparison::Eq => Some(equal),
        Comparison::Ne => Some(!equal),
        _ => None,
    }
}

/// The exception of the host language that an error is raised as.
#[derive(Clone, Copy, Debug, PartialEq, Eq)]
pub enum HostException {
    OsError,
    RuntimeError,
    KeyError,
    IndexError,
    ValueError,
    TypeError,
}

/// Every way in which an operation of this library fails.
#[derive(Debug, PartialEq, Eq)]
pub enum WindowsFontError {
    /// A call into the font engine failed.
    WindowsErr(NativeFailure),
    /// The operation needs a feature that this version of the engine lacks.
    Windows10Needed(Feature),
    /// No family has that name, or the font has no such informational string.
    KeyNotFound(IntOrStr),
    /// The index lies outside the collection or family.
    IndexOutOfRange(i64),
    /// The arguments contradict each other or name an unusable field.
    InvalidArgument(ArgumentFault),
    /// A face that is not backed by exactly one file was asked for its file name;
    /// the payload is the number of its files.
    AmbiguousResult(usize),
    /// The engine ranked no face for the request.
    NoVariantsFound,
    /// Something that is set up once could not be set up: the user's locale, or the
    /// loader of local files.
    ResourceInitFailure(NativeFailure),
}

impl WindowsFontError {
    /// The host exception for each error.
    pub open spec fn spec_exception(self) -> HostException {
        match self {
            WindowsFontError::WindowsErr(_) => HostException::OsError,
            WindowsFontError::Windows10Needed(_) => HostException::RuntimeError,
            WindowsFontError::KeyNotFound(_) => HostException::KeyError,
            WindowsFontError::IndexOutOfRange(_) => HostException::IndexError,
            WindowsFontError::InvalidArgument(ArgumentFault::StyleWithAxes) => HostException::ValueError,
            WindowsFontError::InvalidArgument(_) => HostException::TypeError,
            WindowsFontError::AmbiguousResult(_) => HostException::RuntimeError,
            WindowsFontError::NoVariantsFound => HostException::RuntimeError,
            WindowsFontError::ResourceInitFailure(_) => HostException::RuntimeError,
        }
    }

    /// The exception of the host language that this error is raised as.
    pub fn exception(&self) -> (r: HostException)
        ensures
            r == self.spec_exception(),
    {
        match self {
            WindowsFontError::WindowsErr(_) => HostException::OsError,
            WindowsFontError::Windows10Needed(_) => HostException::RuntimeError,
            WindowsFontError::KeyNotFound(_) => HostException::KeyError,
            WindowsFontError::IndexOutOfRange(_) => HostException::IndexError,
            WindowsFontError::InvalidArgument(fault) => match fault {
                ArgumentFault::StyleWithAxes => HostException::ValueError,
                _ => HostException::TypeError,
            },
            WindowsFontError::AmbiguousResult(_) => HostException::RuntimeError,
            WindowsFontError::NoVariantsFound => HostException::RuntimeError,
            WindowsFontError::ResourceInitFailure(_) => HostException::RuntimeError,
        }
    }

    /// The text of each error. A failure of the engine carries the engine's own
    /// description; a missing name is followed by the words " doesn't exist".
    pub open spec fn spec_message(self) -> Seq<char> {
        match self {
            WindowsFontError::WindowsErr(failure) => failure.message@,
            WindowsFontError::Windows10Needed(_) =>
                "Use of this function requires Windows 10 Build 20348 or above"@,
            WindowsFontError::KeyNotFound(IntOrStr::Str(name)) => name@ + " doesn't exist"@,
            WindowsFontError::KeyNotFound(IntOrStr::Int(_)) => "the identifier doesn't exist"@,
            WindowsFontError::IndexOutOfRange(_) => "index out of range"@,
            WindowsFontError::InvalidArgument(ArgumentFault::StyleWithAxes) =>
                "cannot pass `style` and any of `width`, `slant`, `optical_size`, `italic` at the same time"@,
            WindowsFontError::InvalidArgument(ArgumentFault::NoFilters) =>
                "no filter conditions passed"@,
            WindowsFontError::InvalidArgument(ArgumentFault::UnknownProperty(name)) => name@
                + " isn't a known font property name"@,
            WindowsFontError::InvalidArgument(ArgumentFault::UnfilterableProperty(name)) => name@
                + " doesn't have a mapping to font property id"@,
            WindowsFontError::AmbiguousResult(_) =>
                "FontVariant had more than one name, please use .files()"@,
            WindowsFontError::NoVariantsFound => "No variants found"@,
            WindowsFontError::ResourceInitFailure(failure) => failure.message@,
        }
    }

    /// The text of this error, for display.
    pub fn message(&self) -> (r: String)
        ensures
            r@ == self.spec_message(),
    {
        match self {
            WindowsFontError::WindowsErr(failure) => failure.message.clone(),
            WindowsFontError::Windows10Needed(_) => String::from_str(
                "Use of this function requires Windows 10 Build 20348 or above",
            ),
            WindowsFontError::KeyNotFound(key) => match key {
                IntOrStr::Str(name) => name.clone().concat(" doesn't exist"),
                IntOrStr::Int(_) => String::from_str("the identifier doesn't exist"),
            },
            WindowsFontError::IndexOutOfRange(_) => String::from_str("index out of range"),
            WindowsFontError::InvalidArgument(fault) => match fault {
                ArgumentFault::StyleWithAxes => String::from_str(
                    "cannot pass `style` and any of `width`, `slant`, `optical_size`, `italic` at the same time",
                ),
                ArgumentFault::NoFilters => String::from_str("no filter conditions passed"),
                ArgumentFault::UnknownProperty(name) => name.clone().concat(
                    " isn't a known font property name",
                ),
                ArgumentFault::UnfilterableProperty(name) => name.clone().concat(
                    " doesn't have a mapping to font property id",
                ),
            },
            WindowsFontError::AmbiguousResult(_) => String::from_str(
                "FontVariant had more than one name, please use .files()",
            ),
            WindowsFontError::NoVariantsFound => String::from_str("No variants found"),
            WindowsFontError::ResourceInitFailure(failure) => failure.message.clone(),
        }
    }
}

} // verus!
