//! The locale resolver: which string of a table of localized strings is shown to the
//! user, and how the user's locale is read from what the system reports.

use crate::errors::{NativeFailure, WindowsFontError};
use crate::text::{
    option_text, result_text, same_ignoring_case, spec_same_ignoring_case, spec_text_from_buffer,
    text_from_buffer,
};
use vstd::prelude::*;

verus! {

/// One string of a table, with the name of the locale it is written for.
#[derive(Debug, PartialEq, Eq)]
pub struct LocalizedString {
    pub locale: String,
    pub text: String,
}

/// A table of strings that say the same thing for different locales, in the order in
/// which the font engine holds them. It is never empty.
#[derive(Debug, PartialEq, Eq)]
pub struct LocalizedStrings {
    entries: Vec<LocalizedString>,
}

impl View for LocalizedStrings {
    type V = Seq<LocalizedString>;

    closed spec fn view(&self) -> Seq<LocalizedString> {
        self.entries@
    }
}

/// The locale that is looked for where the user's own is missing.
pub open spec fn spec_fallback_locale() -> Seq<char> {
    "en-us"@
}

/// The locale that stands for the user's where the system reports an empty name.
pub open spec fn spec_default_user_locale() -> Seq<char> {
    "en-US"@
}

/// The first place at or after `start` whose locale has the given name, the case of
/// ASCII letters set aside.
pub open spec fn spec_find_locale_from(
    entries: Seq<LocalizedString>,
    name: Seq<char>,
    start: int,
) -> Option<int>
    decreases entries.len() - start,
{
    if start < 0 || start >= entries.len() {
        None
    } else if spec_same_ignoring_case(entries[start].locale@, name) {
        Some(start)
    } else {
        spec_find_locale_from(entries, name, start + 1)
    }
}

/// The first place whose locale has the given name.
pub open spec fn spec_find_locale(entries: Seq<LocalizedString>, name: Seq<char>) -> Option<int> {
    spec_find_locale_from(entries, name, 0)
}

/// The place of the string to show: that of the preferred locale; where the table has
/// none, that of the fallback locale; where it has neither, the first.
pub open spec fn spec_best_index(entries: Seq<LocalizedString>, preferred: Seq<char>) -> int {
    match spec_find_locale(entries, preferred) {
        Some(index) => index,
        None => match spec_find_locale(entries, spec_fallback_locale()) {
            Some(index) => index,
            None => 0,
        },
    }
}

/// What a search from `start` finds is the first match at or after `start`.
pub proof fn lemma_find_locale_from(entries: Seq<LocalizedString>, name: Seq<char>, start: int)
    requires
        0 <= start,
    ensures
        match spec_find_locale_from(entries, name, start) {
            Some(index) => {
                &&& start <= index < entries.len()
                &&& spec_same_ignoring_case(entries[index].locale@, name)
                &&& forall|j: int|
                    start <= j < index ==> !spec_same_ignoring_case(
                        (#[trigger] entries[j]).locale@,
                        name,
                    )
            },
            None => forall|j: int|
                start <= j < entries.len() ==> !spec_same_ignoring_case(
                    (#[trigger] entries[j]).locale@,
                    name,
                ),
        },
    decreases entries.len() - start,
{
    if start < entries.len() && !spec_same_ignoring_case(entries[start].locale@, name) {
        lemma_find_locale_from(entries, name, start + 1);
    }
}

/// The place of the string to show lies inside a table that is not empty.
pub proof fn lemma_best_index_in_table(entries: Seq<LocalizedString>, preferred: Seq<char>)
    requires
        entries.len() > 0,
    ensures
        0 <= spec_best_index(entries, preferred) < entries.len(),
{
    lemma_find_locale_from(entries, preferred, 0);
    lemma_find_locale_from(entries, spec_fallback_locale(), 0);
}

impl LocalizedStrings {
    #[verifier::type_invariant]
    spec fn populated(&self) -> bool {
        self.entries@.len() > 0
    }

    /// A table of the given strings; none where there is no string at all.
    pub fn new(entries: Vec<LocalizedString>) -> (r: Option<LocalizedStrings>)
        ensures
            r is Some == (entries@.len() > 0),
            r matches Some(table) ==> table@ == entries@,
    {
        if entries.len() == 0 {
            None
        } else {
            Some(LocalizedStrings { entries })
        }
    }

    /// The number of strings.
    pub fn count(&self) -> (r: usize)
        ensures
            r == self@.len(),
            r > 0,
    {
        proof {
            use_type_invariant(self);
        }
        self.entries.len()
    }

    /// The first place whose locale has the given name, the case of ASCII letters set
    /// aside.
    pub fn find_locale(&self, name: &str) -> (r: Option<usize>)
        ensures
            match r {
                Some(index) => spec_find_locale(self@, name@) == Some(index as int),
                None => spec_find_locale(self@, name@) is None,
            },
    {
        let mut i: usize = 0;
        while i < self.entries.len()
            invariant
                i <= self.entries@.len(),
                spec_find_locale(self@, name@) == spec_find_locale_from(self@, name@, i as int),
            decreases self.entries@.len() - i,
        {
            if same_ignoring_case(self.entries[i].locale.as_str(), name) {
                return Some(i);
            }
            i += 1;
        }
        None
    }

    /// The place of the string to show to a user of the preferred locale.
    pub fn best_index(&self, preferred: &str) -> (r: usize)
        ensures
            r == spec_best_index(self@, preferred@),
            r < self@.len(),
    {
        proof {
            use_type_invariant(self);
            lemma_best_index_in_table(self@, preferred@);
        }
        match self.find_locale(preferred) {
            Some(index) => index,
            None => match self.find_locale("en-us") {
                Some(index) => index,
                None => 0,
            },
        }
    }

    /// The string to show to a user of the preferred locale.
    pub fn get_best_name(&self, preferred: &str) -> (r: String)
        ensures
            0 <= spec_best_index(self@, preferred@) < self@.len(),
            r == self@[spec_best_index(self@, preferred@)].text,
    {
        let index = self.best_index(preferred);
        self.entries[index].text.clone()
    }
}

/// The user's locale, from the length that the system reported and the text that the
/// first `len - 1` code units of its buffer decode to. A length of zero or less is the
/// system's failure, with the error it left behind; a length of one is an empty name,
/// for which the default stands; a buffer that cannot be read is a failure as well.
pub open spec fn spec_user_locale(
    len: i32,
    decoded: Option<Seq<char>>,
    last_error: NativeFailure,
) -> Result<Seq<char>, WindowsFontError> {
    if len <= 0 {
        Err(WindowsFontError::ResourceInitFailure(last_error))
    } else if len == 1 {
        Ok(spec_default_user_locale())
    } else {
        match decoded {
            Some(text) => Ok(text),
            None => Err(WindowsFontError::ResourceInitFailure(last_error)),
        }
    }
}

/// The user's locale, given what the buffer of the system's reply decodes to.
pub fn user_locale_from_text(len: i32, decoded: Option<String>, last_error: NativeFailure) -> (r:
    Result<String, WindowsFontError>)
    ensures
        result_text(r) == spec_user_locale(len, option_text(decoded), last_error),
{
    if len <= 0 {
        Err(WindowsFontError::ResourceInitFailure(last_error))
    } else if len == 1 {
        Ok(String::from_str("en-US"))
    } else {
        match decoded {
            Some(text) => Ok(text),
            None => Err(WindowsFontError::ResourceInitFailure(last_error)),
        }
    }
}

/// The user's locale, from the system's reply: the length it reported, terminator
/// included, the buffer it filled, and the error it left behind.
pub fn user_locale_from_reply(len: i32, buffer: &Vec<u16>, last_error: NativeFailure) -> (r: Result<
    String,
    WindowsFontError,
>)
    ensures
        result_text(r) == spec_user_locale(
            len,
            spec_text_from_buffer(buffer@, len - 1),
            last_error,
        ),
{
    if len <= 1 {
        user_locale_from_text(len, None, last_error)
    } else {
        let decoded = text_from_buffer(buffer, (len - 1) as usize);
        user_locale_from_text(len, decoded, last_error)
    }
}

/// The user's locale as the process remembers it: empty until it has been read, and
/// from then on unchanged.
#[derive(Debug)]
pub struct LocaleCache {
    resolved: Option<String>,
}

impl View for LocaleCache {
    type V = Option<Seq<char>>;

    closed spec fn view(&self) -> Option<Seq<char>> {
        option_text(self.resolved)
    }
}

impl LocaleCache {
    /// A cache that holds nothing yet.
    pub fn new() -> (r: LocaleCache)
        ensures
            r@ is None,
    {
        LocaleCache { resolved: None }
    }

    /// Whether the system still has to be asked.
    pub fn is_empty(&self) -> (r: bool)
        ensures
            r == (self@ is None),
    {
        self.resolved.is_none()
    }

    /// The remembered locale.
    pub fn get(&self) -> (r: Option<String>)
        ensures
            option_text(r) == self@,
    {
        match &self.resolved {
            Some(locale) => Some(locale.clone()),
            None => None,
        }
    }

    /// Takes the system's reply. A cache that already holds a locale keeps it, whatever
    /// the reply says; an empty one holds the reply's locale afterwards, or stays empty
    /// and reports the failure.
    pub fn fill(&mut self, len: i32, buffer: &Vec<u16>, last_error: NativeFailure) -> (r: Result<
        (),
        WindowsFontError,
    >)
        ensures
            old(self)@ is Some ==> final(self)@ == old(self)@ && r is Ok,
            old(self)@ is None ==> match spec_user_locale(
                len,
                spec_text_from_buffer(buffer@, len - 1),
                last_error,
            ) {
                Ok(locale) => final(self)@ == Some(locale) && r is Ok,
                Err(error) => final(self)@ is None && r == Err::<(), WindowsFontError>(error),
            },
    {
        if self.resolved.is_some() {
            return Ok(());
        }
        match user_locale_from_reply(len, buffer, last_error) {
            Ok(locale) => {
                self.resolved = Some(locale);
                Ok(())
            },
            Err(error) => Err(error),
        }
    }
}

} // verus!
