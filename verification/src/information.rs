//! The informational strings of one face as a read-only dictionary: the fields of the
//! table that the face has, by name or by the font engine's identifier. A field that
//! the face lacks is not there at all.

use crate::errors::{IntOrStr, NativeFailure, WindowsFontError};
use crate::fields::{
    field_count, field_name, field_string_id, find_field, lemma_field_names_increase,
    spec_field_count, spec_field_name, spec_field_string_id, spec_find_field,
};
use crate::locale::{spec_best_index, LocalizedStrings};
use crate::text::{sort_texts, spec_texts_sorted, text_lt, texts_of};
use vstd::prelude::*;

verus! {

/// What the font engine answered when asked for one informational string of a face.
#[derive(Debug, PartialEq, Eq)]
pub enum InfoReply {
    /// The face has the string, in these locales.
    Present(LocalizedStrings),
    /// The face has no such string.
    Absent,
    /// The call failed.
    Failed(NativeFailure),
}

impl InfoReply {
    /// The answer, from what the call returned: whether it succeeded, whether the
    /// face has the string, and the table that came with it.
    pub open spec fn spec_from_reply(
        reply: Result<(bool, Option<LocalizedStrings>), NativeFailure>,
    ) -> InfoReply {
        match reply {
            Err(failure) => InfoReply::Failed(failure),
            Ok((true, Some(table))) => InfoReply::Present(table),
            Ok(_) => InfoReply::Absent,
        }
    }

    /// The answer, from what the call returned. A string that is said to exist but
    /// comes without a table counts as absent.
    pub fn from_reply(reply: Result<(bool, Option<LocalizedStrings>), NativeFailure>) -> (r:
        InfoReply)
        ensures
            r == InfoReply::spec_from_reply(reply),
    {
        match reply {
            Err(failure) => InfoReply::Failed(failure),
            Ok((exists, strings)) => {
                if exists {
                    match strings {
                        Some(table) => InfoReply::Present(table),
                        None => InfoReply::Absent,
                    }
                } else {
                    InfoReply::Absent
                }
            },
        }
    }
}

/// The engine's answer for one identifier.
#[derive(Debug, PartialEq, Eq)]
pub struct InfoString {
    pub id: i32,
    pub reply: InfoReply,
}

/// The informational strings of one face. Of two answers for one identifier the
/// earlier counts; an identifier without an answer is a string that the face lacks.
#[derive(Debug, PartialEq, Eq)]
pub struct InformationDict {
    pub strings: Vec<InfoString>,
}

/// Walks the fields of a dictionary in the order of the table.
#[derive(Debug)]
pub struct InformationIter {
    dict: InformationDict,
    position: usize,
}

/// The place of the first answer for an identifier at or after `start`.
pub open spec fn spec_record_from(strings: Seq<InfoString>, id: int, start: int) -> Option<int>
    decreases strings.len() - start,
{
    if start < 0 || start >= strings.len() {
        None
    } else if strings[start].id == id {
        Some(start)
    } else {
        spec_record_from(strings, id, start + 1)
    }
}

/// The engine's answer for an identifier.
pub open spec fn spec_reply(strings: Seq<InfoString>, id: int) -> InfoReply {
    match spec_record_from(strings, id, 0) {
        Some(place) => strings[place].reply,
        None => InfoReply::Absent,
    }
}

/// Whether the face has the field at a place of the table. A failed call counts as a
/// field that is not there.
pub open spec fn spec_visible(strings: Seq<InfoString>, index: int) -> bool {
    spec_reply(strings, spec_field_string_id(index)) is Present
}

/// The places of the table below `upto` whose fields the face has, in rising order.
pub open spec fn spec_visible_fields(strings: Seq<InfoString>, upto: int) -> Seq<int>
    decreases upto,
{
    if upto <= 0 {
        Seq::empty()
    } else if spec_visible(strings, upto - 1) {
        spec_visible_fields(strings, upto - 1).push(upto - 1)
    } else {
        spec_visible_fields(strings, upto - 1)
    }
}

/// The places of all the fields that the face has.
pub open spec fn spec_fields(strings: Seq<InfoString>) -> Seq<int> {
    spec_visible_fields(strings, spec_field_count())
}

/// The names of the fields that the face has, in the order of the table, which is
/// the order of the names.
pub open spec fn spec_keys(strings: Seq<InfoString>) -> Seq<Seq<char>> {
    spec_fields(strings).map_values(|index: int| spec_field_name(index))
}

/// The string of a field that is shown to a user of the given locale.
pub open spec fn spec_value(strings: Seq<InfoString>, index: int, locale: Seq<char>) -> String
    recommends
        spec_visible(strings, index),
{
    let table = spec_reply(strings, spec_field_string_id(index))->Present_0;
    table@[spec_best_index(table@, locale)].text
}

/// The strings of the fields that the face has, in the order of the table.
pub open spec fn spec_values(strings: Seq<InfoString>, locale: Seq<char>) -> Seq<Seq<char>> {
    spec_fields(strings).map_values(|index: int| spec_value(strings, index, locale)@)
}

/// The identifier that a key stands for: that of the field with the key's name, or the
/// key's number where the engine's identifiers reach that far.
pub open spec fn spec_key_id(key: IntOrStr) -> Option<int> {
    match key {
        IntOrStr::Str(name) => match spec_find_field(name@) {
            Some(index) => Some(spec_field_string_id(index)),
            None => None,
        },
        IntOrStr::Int(id) => if i32::MIN <= id <= i32::MAX {
            Some(id as int)
        } else {
            None
        },
    }
}

/// Whether a key is in the dictionary: the name of a field that the face has, or the
/// identifier of one.
pub open spec fn spec_contains(strings: Seq<InfoString>, key: IntOrStr) -> bool {
    match key {
        IntOrStr::Str(name) => exists|index: int|
            0 <= index < spec_field_count() && spec_field_name(index) == name@ && spec_visible(
                strings,
                index,
            ),
        IntOrStr::Int(id) => exists|index: int|
            0 <= index < spec_field_count() && spec_field_string_id(index) == id && spec_visible(
                strings,
                index,
            ),
    }
}

/// What a keyed access gives. An unknown name and a string that the face lacks are
/// both a missing key; a failed call is the engine's failure.
pub open spec fn spec_get(strings: Seq<InfoString>, key: IntOrStr, locale: Seq<char>) -> Result<
    String,
    WindowsFontError,
> {
    match spec_key_id(key) {
        None => Err(WindowsFontError::KeyNotFound(key)),
        Some(id) => match spec_reply(strings, id) {
            InfoReply::Present(table) => Ok(table@[spec_best_index(table@, locale)].text),
            InfoReply::Absent => Err(WindowsFontError::KeyNotFound(key)),
            InfoReply::Failed(failure) => Err(WindowsFontError::WindowsErr(failure)),
        },
    }
}

/// The places of the table at or after `from` whose fields the face has, in rising
/// order.
pub open spec fn spec_fields_from(strings: Seq<InfoString>, from: int) -> Seq<int>
    decreases spec_field_count() - from,
{
    if from < 0 || from >= spec_field_count() {
        Seq::empty()
    } else if spec_visible(strings, from) {
        seq![from] + spec_fields_from(strings, from + 1)
    } else {
        spec_fields_from(strings, from + 1)
    }
}

/// The fields below a place and the fields from that place on are all the fields.
pub proof fn lemma_fields_split(strings: Seq<InfoString>, at: int)
    requires
        0 <= at <= spec_field_count(),
    ensures
        spec_visible_fields(strings, at) + spec_fields_from(strings, at) == spec_fields(strings),
    decreases spec_field_count() - at,
{
    if at < spec_field_count() {
        lemma_fields_split(strings, at + 1);
        assert(spec_visible_fields(strings, at) + spec_fields_from(strings, at)
            =~= spec_visible_fields(strings, at + 1) + spec_fields_from(strings, at + 1));
    } else {
        assert(spec_visible_fields(strings, at) + spec_fields_from(strings, at)
            =~= spec_visible_fields(strings, at));
    }
}

/// The places below `upto` whose fields the face has all lie below `upto`, and rise.
pub proof fn lemma_visible_fields(strings: Seq<InfoString>, upto: int)
    requires
        0 <= upto <= spec_field_count(),
    ensures
        spec_visible_fields(strings, upto).len() <= upto,
        forall|i: int|
            0 <= i < spec_visible_fields(strings, upto).len() ==> {
                &&& 0 <= #[trigger] spec_visible_fields(strings, upto)[i] < upto
                &&& spec_visible(strings, spec_visible_fields(strings, upto)[i])
            },
        forall|i: int, j: int|
            0 <= i < j < spec_visible_fields(strings, upto).len() ==> #[trigger] spec_visible_fields(
                strings,
                upto,
            )[i] < #[trigger] spec_visible_fields(strings, upto)[j],
        forall|index: int|
            0 <= index < upto && spec_visible(strings, index) ==> spec_visible_fields(
                strings,
                upto,
            ).contains(index),
    decreases upto,
{
    if upto > 0 {
        lemma_visible_fields(strings, upto - 1);
        let shorter = spec_visible_fields(strings, upto - 1);
        let longer = spec_visible_fields(strings, upto);
        assert forall|index: int| 0 <= index < upto && spec_visible(strings, index) implies longer.contains(
            index,
        ) by {
            if index < upto - 1 {
                let place = choose|place: int| 0 <= place < shorter.len() && shorter[place] == index;
                assert(longer[place] == index);
            } else {
                assert(longer[longer.len() - 1] == index);
            }
        }
    }
}

/// The keys come in strictly increasing order, so that none occurs twice, and every
/// one of them is in the dictionary.
pub proof fn lemma_keys_sorted_and_contained(strings: Seq<InfoString>)
    ensures
        forall|i: int, j: int|
            0 <= i < j < spec_keys(strings).len() ==> text_lt(
                #[trigger] spec_keys(strings)[i],
                #[trigger] spec_keys(strings)[j],
            ),
        forall|i: int, j: int|
            0 <= i < j < spec_keys(strings).len() ==> #[trigger] spec_keys(strings)[i]
                != #[trigger] spec_keys(strings)[j],
        forall|i: int, name: String|
            0 <= i < spec_keys(strings).len() && name@ == #[trigger] spec_keys(strings)[i]
                ==> #[trigger] spec_contains(strings, IntOrStr::Str(name)),
{
    let fields = spec_fields(strings);
    let keys = spec_keys(strings);
    lemma_visible_fields(strings, spec_field_count());
    assert forall|i: int, j: int| 0 <= i < j < keys.len() implies text_lt(
        #[trigger] keys[i],
        #[trigger] keys[j],
    ) && keys[i] != keys[j] by {
        assert(fields[i] < fields[j]);
        lemma_field_names_increase(fields[i], fields[j]);
        crate::text::lemma_text_lt_irreflexive(keys[i]);
    }
    assert forall|i: int, name: String|
        0 <= i < keys.len() && name@ == #[trigger] keys[i] implies #[trigger] spec_contains(
        strings,
        IntOrStr::Str(name),
    ) by {
        let index = fields[i];
        assert(0 <= index < spec_field_count() && spec_field_name(index) == name@ && spec_visible(
            strings,
            index,
        ));
    }
}

impl InformationDict {
    /// The place of the first answer for an identifier.
    fn find_record(&self, id: i32) -> (r: Option<usize>)
        ensures
            match r {
                Some(place) => spec_record_from(self.strings@, id as int, 0) == Some(place as int)
                    && place < self.strings@.len(),
                None => spec_record_from(self.strings@, id as int, 0) is None,
            },
    {
        let mut place: usize = 0;
        while place < self.strings.len()
            invariant
                place <= self.strings@.len(),
                spec_record_from(self.strings@, id as int, 0) == spec_record_from(
                    self.strings@,
                    id as int,
                    place as int,
                ),
            decreases self.strings@.len() - place,
        {
            if self.strings[place].id == id {
                return Some(place);
            }
            place += 1;
        }
        None
    }

    /// Whether the face has the string with an identifier.
    fn has_string(&self, id: i32) -> (r: bool)
        ensures
            r == (spec_reply(self.strings@, id as int) is Present),
    {
        match self.find_record(id) {
            Some(place) => match &self.strings[place].reply {
                InfoReply::Present(_) => true,
                _ => false,
            },
            None => false,
        }
    }

    /// Whether the face has the field at a place of the table.
    pub fn is_visible(&self, index: usize) -> (r: bool)
        ensures
            r == spec_visible(self.strings@, index as int),
    {
        self.has_string(field_string_id(index))
    }

    /// The number of fields that the face has.
    pub fn len(&self) -> (r: usize)
        ensures
            r == spec_fields(self.strings@).len(),
    {
        let mut count: usize = 0;
        let mut index: usize = 0;
        while index < field_count()
            invariant
                index <= spec_field_count(),
                count == spec_visible_fields(self.strings@, index as int).len(),
                count <= index,
            decreases spec_field_count() - index,
        {
            if self.is_visible(index) {
                count += 1;
            }
            index += 1;
        }
        count
    }

    /// Whether a key is in the dictionary.
    pub fn contains(&self, key: &IntOrStr) -> (r: bool)
        ensures
            r == spec_contains(self.strings@, *key),
    {
        match key {
            IntOrStr::Str(name) => match find_field(name.as_str()) {
                Some(index) => {
                    let visible = self.is_visible(index);
                    proof {
                        if visible {
                            assert(0 <= index < spec_field_count() && spec_field_name(index as int)
                                == name@ && spec_visible(self.strings@, index as int));
                        } else {
                            assert forall|other: int|
                                0 <= other < spec_field_count() && spec_field_name(other)
                                    == name@ implies !spec_visible(self.strings@, other) by {
                                if other != index {
                                    crate::fields::lemma_field_names_differ(other, index as int);
                                }
                            }
                        }
                    }
                    visible
                },
                None => false,
            },
            IntOrStr::Int(id) => {
                let id: isize = *id;
                if id < -0x8000_0000 || id > 0x7fff_ffff {
                    assert forall|index: int| 0 <= index < spec_field_count() implies spec_field_string_id(
                        index,
                    ) != id by {}
                    return false;
                }
                let wanted: i32 = id as i32;
                let mut index: usize = 0;
                while index < field_count()
                    invariant
                        index <= spec_field_count(),
                        wanted == id,
                        *key == IntOrStr::Int(id),
                        forall|earlier: int|
                            0 <= earlier < index ==> !(spec_field_string_id(earlier) == id
                                && spec_visible(self.strings@, earlier)),
                    decreases spec_field_count() - index,
                {
                    if field_string_id(index) == wanted && self.is_visible(index) {
                        assert(0 <= index < spec_field_count() && spec_field_string_id(index as int)
                            == id && spec_visible(self.strings@, index as int));
                        return true;
                    }
                    index += 1;
                }
                false
            },
        }
    }

    /// The names of the fields that the face has, in lexicographic order.
    pub fn keys(&self) -> (r: Vec<String>)
        ensures
            texts_of(r@) == spec_keys(self.strings@),
    {
        let mut names: Vec<String> = Vec::new();
        let mut index: usize = 0;
        while index < field_count()
            invariant
                index <= spec_field_count(),
                texts_of(names@) == spec_visible_fields(self.strings@, index as int).map_values(
                    |index: int| spec_field_name(index),
                ),
            decreases spec_field_count() - index,
        {
            if self.is_visible(index) {
                let ghost before = texts_of(names@);
                names.push(String::from_str(field_name(index)));
                assert(texts_of(names@) =~= before.push(spec_field_name(index as int)));
            }
            index += 1;
            assert(texts_of(names@) =~= spec_visible_fields(self.strings@, index as int).map_values(
                |index: int| spec_field_name(index),
            ));
        }
        names
    }

    /// The string of the field at a place of the table, for a user of the given locale;
    /// none where the face lacks the field.
    pub fn value_at(&self, index: usize, locale: &str) -> (r: Option<String>)
        ensures
            r == if spec_visible(self.strings@, index as int) {
                Some(spec_value(self.strings@, index as int, locale@))
            } else {
                None
            },
    {
        match self.find_record(field_string_id(index)) {
            Some(place) => match &self.strings[place].reply {
                InfoReply::Present(table) => Some(table.get_best_name(locale)),
                _ => None,
            },
            None => None,
        }
    }

    /// The fields that the face has, each with its name and its string for a user of
    /// the given locale, in the lexicographic order of the names.
    pub fn items(&self, locale: &str) -> (r: Vec<(String, String)>)
        ensures
            r@.len() == spec_fields(self.strings@).len(),
            forall|i: int|
                0 <= i < r@.len() ==> {
                    &&& (#[trigger] r@[i]).0@ == spec_field_name(spec_fields(self.strings@)[i])
                    &&& r@[i].1 == spec_value(self.strings@, spec_fields(self.strings@)[i], locale@)
                },
    {
        let mut pairs: Vec<(String, String)> = Vec::new();
        let mut index: usize = 0;
        while index < field_count()
            invariant
                index <= spec_field_count(),
                pairs@.len() == spec_visible_fields(self.strings@, index as int).len(),
                forall|i: int|
                    0 <= i < pairs@.len() ==> {
                        &&& (#[trigger] pairs@[i]).0@ == spec_field_name(
                            spec_visible_fields(self.strings@, index as int)[i],
                        )
                        &&& pairs@[i].1 == spec_value(
                            self.strings@,
                            spec_visible_fields(self.strings@, index as int)[i],
                            locale@,
                        )
                    },
            decreases spec_field_count() - index,
        {
            if let Some(value) = self.value_at(index, locale) {
                pairs.push((String::from_str(field_name(index)), value));
            }
            index += 1;
        }
        pairs
    }

    /// The strings of the fields that the face has, for a user of the given locale, in
    /// lexicographic order: each string as often as fields hold it.
    pub fn values(&self, locale: &str) -> (r: Vec<String>)
        ensures
            spec_texts_sorted(texts_of(r@)),
            texts_of(r@).to_multiset() == spec_values(self.strings@, locale@).to_multiset(),
    {
        let mut found: Vec<String> = Vec::new();
        let mut index: usize = 0;
        while index < field_count()
            invariant
                index <= spec_field_count(),
                texts_of(found@) == spec_visible_fields(self.strings@, index as int).map_values(
                    |index: int| spec_value(self.strings@, index, locale@)@,
                ),
            decreases spec_field_count() - index,
        {
            if let Some(value) = self.value_at(index, locale) {
                let ghost before = texts_of(found@);
                found.push(value);
                assert(texts_of(found@) =~= before.push(
                    spec_value(self.strings@, index as int, locale@)@,
                ));
            }
            index += 1;
            assert(texts_of(found@) =~= spec_visible_fields(self.strings@, index as int).map_values(
                |index: int| spec_value(self.strings@, index, locale@)@,
            ));
        }
        sort_texts(found)
    }

    /// The identifier that a key stands for.
    pub fn key_id(key: &IntOrStr) -> (r: Option<i32>)
        ensures
            match r {
                Some(id) => spec_key_id(*key) == Some(id as int),
                None => spec_key_id(*key) is None,
            },
    {
        match key {
            IntOrStr::Str(name) => match find_field(name.as_str()) {
                Some(index) => Some(field_string_id(index)),
                None => None,
            },
            IntOrStr::Int(id) => {
                let id: isize = *id;
                if id < -0x8000_0000 || id > 0x7fff_ffff {
                    None
                } else {
                    Some(id as i32)
                }
            },
        }
    }

    /// The string for a key, for a user of the given locale.
    pub fn get(&self, key: &IntOrStr, locale: &str) -> (r: Result<String, WindowsFontError>)
        ensures
            r == spec_get(self.strings@, *key, locale@),
    {
        let id = match InformationDict::key_id(key) {
            Some(id) => id,
            None => {
                return Err(WindowsFontError::KeyNotFound(key.clone()));
            },
        };
        match self.find_record(id) {
            Some(place) => match &self.strings[place].reply {
                InfoReply::Present(table) => Ok(table.get_best_name(locale)),
                InfoReply::Absent => Err(WindowsFontError::KeyNotFound(key.clone())),
                InfoReply::Failed(failure) => Err(WindowsFontError::WindowsErr(failure.clone())),
            },
            None => Err(WindowsFontError::KeyNotFound(key.clone())),
        }
    }

    /// A walk over the names of the fields that the face has.
    pub fn iter(self) -> (r: InformationIter)
        ensures
            r.spec_dict() == self,
            r.spec_remaining() == spec_keys(self.strings@),
    {
        InformationIter::new(self)
    }
}

impl InformationIter {
    /// The dictionary that is walked.
    pub closed spec fn spec_dict(&self) -> InformationDict {
        self.dict
    }

    /// The names that the walk has still to give, in their order.
    pub closed spec fn spec_remaining(&self) -> Seq<Seq<char>> {
        spec_fields_from(self.dict.strings@, self.position as int).map_values(
            |index: int| spec_field_name(index),
        )
    }

    /// A walk over the names of the fields that the face has: all the keys, in their
    /// order.
    pub fn new(dict: InformationDict) -> (r: InformationIter)
        ensures
            r.spec_dict() == dict,
            r.spec_remaining() == spec_keys(dict.strings@),
    {
        proof {
            lemma_fields_split(dict.strings@, 0);
            assert(spec_visible_fields(dict.strings@, 0) + spec_fields_from(dict.strings@, 0)
                =~= spec_fields_from(dict.strings@, 0));
        }
        InformationIter { dict, position: 0 }
    }

    /// The next name; none once all have been given, and none ever after.
    pub fn next(&mut self) -> (r: Option<&'static str>)
        ensures
            final(self).spec_dict() == old(self).spec_dict(),
            match r {
                Some(name) => old(self).spec_remaining() == seq![name@]
                    + final(self).spec_remaining(),
                None => old(self).spec_remaining().len() == 0 && final(self).spec_remaining().len()
                    == 0,
            },
    {
        while self.position < field_count()
            invariant
                self.dict == old(self).dict,
                spec_fields_from(old(self).dict.strings@, old(self).position as int)
                    == spec_fields_from(self.dict.strings@, self.position as int),
            decreases spec_field_count() - self.position,
        {
            let index = self.position;
            self.position = self.position + 1;
            if self.dict.is_visible(index) {
                proof {
                    let rest = spec_fields_from(self.dict.strings@, self.position as int);
                    assert((seq![index as int] + rest).map_values(
                        |index: int| spec_field_name(index),
                    ) =~= seq![spec_field_name(index as int)] + rest.map_values(
                        |index: int| spec_field_name(index),
                    ));
                }
                return Some(field_name(index));
            }
        }
        None
    }
}

} // verus!
