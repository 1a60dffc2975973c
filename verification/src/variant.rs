//! A font variant: one face of a family, with what the font engine reported of it.

use crate::enums::{Style, Weight};
use crate::errors::{
    rich_compare, spec_rich_compare, Comparison, Feature, NativeFailure, WindowsFontError,
};
use crate::family::FontFamily;
use crate::information::InformationDict;
use crate::locale::{spec_best_index, LocalizedStrings};
use std::rc::Rc;
use vstd::prelude::*;

verus! {

/// What the font engine answered when asked for the names of a face.
#[derive(Debug, PartialEq, Eq)]
pub enum NamesReply {
    /// This version of the engine does not tell the names of a single face.
    Unavailable,
    /// The names, by locale.
    Table(LocalizedStrings),
    /// The call failed.
    Failed(NativeFailure),
}

/// One entry of the list of files that back a face.
#[derive(Debug, PartialEq, Eq)]
pub enum FileReply {
    /// The engine left the entry empty.
    Missing,
    /// The path that the loader of local files resolved the file's key to.
    Path(String),
    /// The engine did not hand out the file's key.
    Failed(NativeFailure),
}

/// What came of asking for the files that back a face.
#[derive(Debug, PartialEq, Eq)]
pub enum FilesReply {
    /// The loader of local files, which resolves keys to paths, could not be set up on
    /// this thread.
    LoaderUnavailable(NativeFailure),
    /// The engine did not list the files.
    Failed(NativeFailure),
    /// The files, in the engine's order.
    Listed(Vec<FileReply>),
}

/// What the font engine reported of one face.
#[derive(Debug, PartialEq, Eq)]
pub struct FontFace {
    /// The engine's code of the weight.
    pub weight: i32,
    /// The engine's code of the style.
    pub style: i32,
    /// The names of the face.
    pub names: NamesReply,
    /// The files that back the face, or why there is no list of them.
    pub files: FilesReply,
    /// The informational strings of the face.
    pub information: InformationDict,
}

/// One face of a family. It holds on to its family; a family holds no variant.
#[derive(Debug, PartialEq, Eq)]
pub struct FontVariant {
    pub family: Rc<FontFamily>,
    pub face: FontFace,
}

/// A list in place of an error, as a sequence.
pub open spec fn result_list<T>(list: Result<Vec<T>, WindowsFontError>) -> Result<
    Seq<T>,
    WindowsFontError,
> {
    match list {
        Ok(list) => Ok(list@),
        Err(error) => Err(error),
    }
}

/// The paths of the first `upto` entries of a list of files: empty entries are passed
/// over, and the first entry whose key the engine withheld fails the whole.
pub open spec fn spec_paths(files: Seq<FileReply>, upto: int) -> Result<
    Seq<String>,
    WindowsFontError,
>
    decreases upto,
{
    if upto <= 0 {
        Ok(Seq::empty())
    } else {
        match spec_paths(files, upto - 1) {
            Err(error) => Err(error),
            Ok(paths) => match files[upto - 1] {
                FileReply::Missing => Ok(paths),
                FileReply::Path(path) => Ok(paths.push(path)),
                FileReply::Failed(failure) => Err(WindowsFontError::WindowsErr(failure)),
            },
        }
    }
}

impl FontFace {
    /// The paths of the files that back the face, in the engine's order.
    pub open spec fn spec_files(self) -> Result<Seq<String>, WindowsFontError> {
        match self.files {
            FilesReply::LoaderUnavailable(failure) => Err(
                WindowsFontError::ResourceInitFailure(failure),
            ),
            FilesReply::Failed(failure) => Err(WindowsFontError::WindowsErr(failure)),
            FilesReply::Listed(files) => spec_paths(files@, files@.len() as int),
        }
    }

    /// The path of the one file that backs the face. A face with no file or with
    /// several has no such path.
    pub open spec fn spec_filename(self) -> Result<String, WindowsFontError> {
        match self.spec_files() {
            Err(error) => Err(error),
            Ok(paths) => if paths.len() == 1 {
                Ok(paths[0])
            } else {
                Err(WindowsFontError::AmbiguousResult(paths.len() as usize))
            },
        }
    }

    /// The name of the face for a user of the given locale.
    pub open spec fn spec_name(self, locale: Seq<char>) -> Result<String, WindowsFontError> {
        match self.names {
            NamesReply::Unavailable => Err(WindowsFontError::Windows10Needed(Feature::FaceNames)),
            NamesReply::Table(table) => Ok(table@[spec_best_index(table@, locale)].text),
            NamesReply::Failed(failure) => Err(WindowsFontError::WindowsErr(failure)),
        }
    }
}

impl FontVariant {
    /// Whether two variants count as equal: their weights are the same, their styles
    /// differ, and their families are equal. No variant equals itself.
    pub open spec fn spec_equals(self, other: FontVariant, locale: Seq<char>) -> bool {
        &&& self.face.weight == other.face.weight
        &&& self.face.style != other.face.style
        &&& self.family.spec_equals(*other.family, locale)
    }

    /// A variant of the family with the reported face.
    pub fn new(family: Rc<FontFamily>, face: FontFace) -> (r: FontVariant)
        ensures
            r == (FontVariant { family, face }),
    {
        FontVariant { family, face }
    }

    /// The style of the face. A code without a name is kept as it is.
    pub fn style(&self) -> (r: Style)
        ensures
            r == Style::spec_from_code(self.face.style as int),
            r.spec_code() == self.face.style,
    {
        Style::from_code(self.face.style)
    }

    /// The weight of the face. A code without a name is kept as it is.
    pub fn weight(&self) -> (r: Weight)
        ensures
            r == Weight::spec_from_code(self.face.weight as int),
            r.spec_code() == self.face.weight,
    {
        Weight::from_code(self.face.weight)
    }

    /// The name of the face for a user of the given locale.
    pub fn name(&self, locale: &str) -> (r: Result<String, WindowsFontError>)
        ensures
            r == self.face.spec_name(locale@),
    {
        match &self.face.names {
            NamesReply::Unavailable => Err(WindowsFontError::Windows10Needed(Feature::FaceNames)),
            NamesReply::Table(table) => Ok(table.get_best_name(locale)),
            NamesReply::Failed(failure) => Err(WindowsFontError::WindowsErr(failure.clone())),
        }
    }

    /// The paths of the files that back the face, in the engine's order.
    pub fn files(&self) -> (r: Result<Vec<String>, WindowsFontError>)
        ensures
            result_list(r) == self.face.spec_files(),
    {
        let files = match &self.face.files {
            FilesReply::Listed(files) => files,
            FilesReply::LoaderUnavailable(failure) => {
                return Err(WindowsFontError::ResourceInitFailure(failure.clone()));
            },
            FilesReply::Failed(failure) => {
                return Err(WindowsFontError::WindowsErr(failure.clone()));
            },
        };
        let mut filenames: Vec<String> = Vec::new();
        let mut i: usize = 0;
        while i < files.len()
            invariant
                i <= files@.len(),
                self.face.files == FilesReply::Listed(*files),
                spec_paths(files@, i as int) == Ok::<Seq<String>, WindowsFontError>(filenames@),
            decreases files@.len() - i,
        {
            match &files[i] {
                FileReply::Missing => {},
                FileReply::Path(path) => {
                    filenames.push(path.clone());
                },
                FileReply::Failed(failure) => {
                    proof {
                        lemma_paths_stay_failed(files@, i as int + 1, files@.len() as int);
                    }
                    return Err(WindowsFontError::WindowsErr(failure.clone()));
                },
            }
            i += 1;
        }
        Ok(filenames)
    }

    /// The path of the one file that backs the face.
    pub fn filename(&self) -> (r: Result<String, WindowsFontError>)
        ensures
            r == self.face.spec_filename(),
    {
        let names = match self.files() {
            Ok(names) => names,
            Err(error) => {
                return Err(error);
            },
        };
        if names.len() != 1 {
            Err(WindowsFontError::AmbiguousResult(names.len()))
        } else {
            Ok(names[0].clone())
        }
    }

    /// The informational strings of the face.
    pub fn information(&self) -> (r: &InformationDict)
        ensures
            *r == self.face.information,
    {
        &self.face.information
    }

    /// The family that the variant belongs to.
    pub fn family(&self) -> (r: &FontFamily)
        ensures
            *r == *self.family,
    {
        &self.family
    }

    /// Whether two variants count as equal for a user of the given locale.
    pub fn equals(&self, other: &FontVariant, locale: &str) -> (r: bool)
        ensures
            r == self.spec_equals(*other, locale@),
    {
        if self.face.weight != other.face.weight || self.face.style == other.face.style {
            return false;
        }
        self.family.equals(&other.family, locale)
    }

    /// The answer to a comparison with another variant; none where the comparison is
    /// not one that variants answer.
    pub fn rich_compare(&self, other: &FontVariant, comparison: Comparison, locale: &str) -> (r:
        Option<bool>)
        ensures
            r == spec_rich_compare(self.spec_equals(*other, locale@), comparison),
    {
        rich_compare(self.equals(other, locale), comparison)
    }

    /// With exactly one file the file name is the first of the files; with none or
    /// with several there is no file name and the failure says how many there are.
    pub proof fn lemma_filename_is_the_only_file(self)
        ensures
            self.face.spec_files() matches Ok(paths) ==> {
                if paths.len() == 1 {
                    self.face.spec_filename() == Ok::<String, WindowsFontError>(paths[0])
                } else {
                    self.face.spec_filename() == Err::<String, WindowsFontError>(
                        WindowsFontError::AmbiguousResult(paths.len() as usize),
                    )
                }
            },
            self.face.spec_files() matches Err(error) ==> self.face.spec_filename() == Err::<
                String,
                WindowsFontError,
            >(error),
    {
    }

    /// No variant equals itself: equality asks for styles that differ.
    pub proof fn lemma_equals_is_irreflexive(self, locale: Seq<char>)
        ensures
            !self.spec_equals(self, locale),
    {
    }
}

/// Once an entry has failed the list, no later entry mends it.
pub proof fn lemma_paths_stay_failed(files: Seq<FileReply>, failed: int, upto: int)
    requires
        0 <= failed <= upto,
        spec_paths(files, failed) is Err,
    ensures
        spec_paths(files, upto) == spec_paths(files, failed),
    decreases upto - failed,
{
    if failed < upto {
        lemma_paths_stay_failed(files, failed, upto - 1);
    }
}

} // verus!
