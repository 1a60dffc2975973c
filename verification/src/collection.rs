//! The font collection: the catalog of installed families, by index and by name.

use crate::errors::{IntOrStr, NativeFailure, WindowsFontError};
use crate::family::FontFamily;
use vstd::prelude::*;

verus! {

/// What the font engine answered when asked for the place of a family by its name.
#[derive(Clone, Copy, Debug, PartialEq, Eq)]
pub struct NameSearch {
    /// Whether the catalog holds a family of that name.
    pub exists: bool,
    /// The place of the family; without meaning where there is none.
    pub index: u32,
}

/// The catalog of installed families, as far as this library reads it: the number of
/// families that the engine reported.
#[derive(Clone, Copy, Debug, PartialEq, Eq)]
pub struct FontCollection {
    pub family_count: u32,
}

impl FontCollection {
    /// The catalog, from what the engine answered when asked for it.
    pub open spec fn spec_new(reply: Result<u32, NativeFailure>) -> Result<
        FontCollection,
        WindowsFontError,
    > {
        match reply {
            Ok(family_count) => Ok(FontCollection { family_count }),
            Err(failure) => Err(WindowsFontError::WindowsErr(failure)),
        }
    }

    /// The place of the family with an index: the index itself where it lies below the
    /// number of families and not below zero.
    pub open spec fn spec_index_for_position(self, index: int) -> Result<int, WindowsFontError> {
        if 0 <= index < self.family_count {
            Ok(index)
        } else {
            Err(WindowsFontError::IndexOutOfRange(index as i64))
        }
    }

    /// The place of the family with a name, given the engine's answer to the search
    /// for it. A failed search is the engine's failure; a name that the engine does
    /// not know is a missing key; a place beyond the catalog is out of range.
    pub open spec fn spec_index_for_name(
        self,
        name: String,
        search: Result<NameSearch, NativeFailure>,
    ) -> Result<int, WindowsFontError> {
        match search {
            Err(failure) => Err(WindowsFontError::WindowsErr(failure)),
            Ok(found) => if !found.exists {
                Err(WindowsFontError::KeyNotFound(IntOrStr::Str(name)))
            } else if found.index >= self.family_count {
                Err(WindowsFontError::IndexOutOfRange(found.index as i64))
            } else {
                Ok(found.index as int)
            },
        }
    }

    /// The family at a place, from what the engine answered when asked for it.
    pub open spec fn spec_family(fetched: Result<FontFamily, NativeFailure>) -> Result<
        FontFamily,
        WindowsFontError,
    > {
        match fetched {
            Ok(family) => Ok(family),
            Err(failure) => Err(WindowsFontError::WindowsErr(failure)),
        }
    }

    /// The catalog, from what the engine answered when asked for it: the number of
    /// its families, or the failure.
    pub fn new(reply: Result<u32, NativeFailure>) -> (r: Result<FontCollection, WindowsFontError>)
        ensures
            r == FontCollection::spec_new(reply),
    {
        match reply {
            Ok(family_count) => Ok(FontCollection { family_count }),
            Err(failure) => Err(WindowsFontError::WindowsErr(failure)),
        }
    }

    /// The number of families.
    pub fn count(&self) -> (r: usize)
        ensures
            r == self.family_count,
    {
        self.family_count as usize
    }

    /// The place of the family with an index.
    pub fn index_for_position(&self, index: isize) -> (r: Result<u32, WindowsFontError>)
        ensures
            match r {
                Ok(place) => self.spec_index_for_position(index as int) == Ok::<
                    int,
                    WindowsFontError,
                >(place as int),
                Err(error) => self.spec_index_for_position(index as int) == Err::<
                    int,
                    WindowsFontError,
                >(error),
            },
            0 <= index < self.family_count ==> r == Ok::<u32, WindowsFontError>(index as u32),
    {
        let wide: i64 = index as i64;
        if 0 <= wide && wide < self.family_count as i64 {
            Ok(wide as u32)
        } else {
            Err(WindowsFontError::IndexOutOfRange(wide))
        }
    }

    /// The place of the family with a name, given the engine's answer to the search
    /// for it.
    pub fn index_for_name(&self, name: &String, search: Result<NameSearch, NativeFailure>) -> (r:
        Result<u32, WindowsFontError>)
        ensures
            match r {
                Ok(place) => self.spec_index_for_name(*name, search) == Ok::<int, WindowsFontError>(
                    place as int,
                ),
                Err(error) => self.spec_index_for_name(*name, search) == Err::<
                    int,
                    WindowsFontError,
                >(error),
            },
    {
        match search {
            Err(failure) => Err(WindowsFontError::WindowsErr(failure)),
            Ok(found) => {
                if !found.exists {
                    Err(WindowsFontError::KeyNotFound(IntOrStr::Str(name.clone())))
                } else if found.index >= self.family_count {
                    Err(WindowsFontError::IndexOutOfRange(found.index as i64))
                } else {
                    Ok(found.index)
                }
            },
        }
    }

    /// The place of the family with a key: an index, or a name with the engine's
    /// answer to the search for it. The answer is not looked at for an index.
    pub fn family_index(&self, key: &IntOrStr, search: Result<NameSearch, NativeFailure>) -> (r:
        Result<u32, WindowsFontError>)
        ensures
            match r {
                Ok(place) => self.spec_family_index(*key, search) == Ok::<int, WindowsFontError>(
                    place as int,
                ),
                Err(error) => self.spec_family_index(*key, search) == Err::<int, WindowsFontError>(
                    error,
                ),
            },
    {
        match key {
            IntOrStr::Str(name) => self.index_for_name(name, search),
            IntOrStr::Int(index) => self.index_for_position(*index),
        }
    }

    /// The place of the family with a key.
    pub open spec fn spec_family_index(
        self,
        key: IntOrStr,
        search: Result<NameSearch, NativeFailure>,
    ) -> Result<int, WindowsFontError> {
        match key {
            IntOrStr::Str(name) => self.spec_index_for_name(name, search),
            IntOrStr::Int(index) => self.spec_index_for_position(index as int),
        }
    }

    /// The family at a place, from what the engine answered when asked for it.
    pub fn family(fetched: Result<FontFamily, NativeFailure>) -> (r: Result<
        FontFamily,
        WindowsFontError,
    >)
        ensures
            r == FontCollection::spec_family(fetched),
    {
        match fetched {
            Ok(family) => Ok(family),
            Err(failure) => Err(WindowsFontError::WindowsErr(failure)),
        }
    }

    /// The family for a key, given the engine's answer to the search for a name and
    /// what it handed out for the key's place.
    pub open spec fn spec_get(
        self,
        key: IntOrStr,
        search: Result<NameSearch, NativeFailure>,
        fetched: Result<FontFamily, NativeFailure>,
    ) -> Result<FontFamily, WindowsFontError> {
        match self.spec_family_index(key, search) {
            Err(error) => Err(error),
            Ok(_) => FontCollection::spec_family(fetched),
        }
    }

    /// The family for a key: an index, or a name. For a key without a place the engine
    /// need not have been asked for a family, and what is given for it is not looked
    /// at.
    pub fn get(
        &self,
        key: &IntOrStr,
        search: Result<NameSearch, NativeFailure>,
        fetched: Result<FontFamily, NativeFailure>,
    ) -> (r: Result<FontFamily, WindowsFontError>)
        ensures
            r == self.spec_get(*key, search, fetched),
    {
        match self.family_index(key, search) {
            Err(error) => Err(error),
            Ok(_) => FontCollection::family(fetched),
        }
    }

    /// Every index from zero up to the number of families leads to a place, and to
    /// itself; and to the family at that place, where the engine hands it out.
    pub proof fn lemma_every_index_in_range_is_found(
        self,
        index: isize,
        search: Result<NameSearch, NativeFailure>,
        family: FontFamily,
    )
        requires
            0 <= index < self.family_count,
        ensures
            self.spec_index_for_position(index as int) == Ok::<int, WindowsFontError>(
                index as int,
            ),
            self.spec_get(IntOrStr::Int(index), search, Ok(family)) == Ok::<
                FontFamily,
                WindowsFontError,
            >(family),
    {
    }
}

} // verus!
