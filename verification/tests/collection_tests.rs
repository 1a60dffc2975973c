use windows_fonts::{
    FontCollection, FontFamily, HostException, IntOrStr, LocalizedString, LocalizedStrings,
    NameSearch, NativeFailure, WindowsFontError,
};

fn failure() -> NativeFailure {
    NativeFailure { code: -2147467259, message: "Unspecified error".to_string() }
}

fn family(name: &str, font_count: u32) -> FontFamily {
    let names = LocalizedStrings::new(vec![LocalizedString {
        locale: "en-us".to_string(),
        text: name.to_string(),
    }])
    .unwrap();
    FontFamily::new(Ok(names), font_count)
}

#[test]
fn construction() {
    assert_eq!(FontCollection::new(Ok(3)), Ok(FontCollection { family_count: 3 }));
    assert_eq!(FontCollection::new(Err(failure())), Err(WindowsFontError::WindowsErr(failure())));
    assert_eq!(FontCollection::new(Ok(3)).unwrap().count(), 3);
    assert_eq!(FontCollection::new(Ok(0)).unwrap().count(), 0);
}

#[test]
fn every_index_below_the_count_is_found() {
    let collection = FontCollection { family_count: 40 };
    let mut index: isize = 0;
    while index < 40 {
        assert_eq!(collection.index_for_position(index), Ok(index as u32));
        let fetched = collection
            .get(&IntOrStr::Int(index), Err(failure()), Ok(family("Some Family", 4)))
            .unwrap();
        assert!(!fetched.name("en-US").unwrap().is_empty());
        index += 1;
    }
}

#[test]
fn an_index_beyond_the_count_is_out_of_range() {
    let collection = FontCollection { family_count: 40 };
    assert_eq!(collection.index_for_position(40), Err(WindowsFontError::IndexOutOfRange(40)));
    assert_eq!(collection.index_for_position(-1), Err(WindowsFontError::IndexOutOfRange(-1)));
    assert_eq!(
        collection.index_for_position(isize::MAX),
        Err(WindowsFontError::IndexOutOfRange(isize::MAX as i64))
    );
    let empty = FontCollection { family_count: 0 };
    assert_eq!(empty.index_for_position(0), Err(WindowsFontError::IndexOutOfRange(0)));
    assert_eq!(
        collection.index_for_position(40).unwrap_err().exception(),
        HostException::IndexError
    );
}

#[test]
fn an_unknown_family_is_not_found() {
    let collection = FontCollection { family_count: 40 };
    let name = "NonexistentFamilyXYZ123".to_string();
    let result = collection.index_for_name(&name, Ok(NameSearch { exists: false, index: u32::MAX }));
    assert_eq!(result, Err(WindowsFontError::KeyNotFound(IntOrStr::Str(name.clone()))));
    assert_eq!(result.unwrap_err().exception(), HostException::KeyError);
    let result = collection.family_index(
        &IntOrStr::Str(name.clone()),
        Ok(NameSearch { exists: false, index: 0 }),
    );
    assert_eq!(result, Err(WindowsFontError::KeyNotFound(IntOrStr::Str(name))));
}

#[test]
fn a_known_family_is_found_at_its_place() {
    let collection = FontCollection { family_count: 40 };
    let name = "Arial".to_string();
    assert_eq!(collection.index_for_name(&name, Ok(NameSearch { exists: true, index: 7 })), Ok(7));
    assert_eq!(
        collection.index_for_name(&name, Ok(NameSearch { exists: true, index: 40 })),
        Err(WindowsFontError::IndexOutOfRange(40))
    );
    assert_eq!(
        collection.index_for_name(&name, Err(failure())),
        Err(WindowsFontError::WindowsErr(failure()))
    );
    assert_eq!(
        collection.index_for_name(&name, Err(failure())).unwrap_err().exception(),
        HostException::OsError
    );
}

#[test]
fn a_key_is_an_index_or_a_name() {
    let collection = FontCollection { family_count: 40 };
    assert_eq!(collection.family_index(&IntOrStr::Int(39), Err(failure())), Ok(39));
    assert_eq!(
        collection.family_index(&IntOrStr::Int(39), Ok(NameSearch { exists: true, index: 2 })),
        Ok(39)
    );
    assert_eq!(
        collection.family_index(
            &IntOrStr::Str("Arial".to_string()),
            Ok(NameSearch { exists: true, index: 2 })
        ),
        Ok(2)
    );
}

#[test]
fn the_family_for_a_key() {
    let collection = FontCollection { family_count: 40 };
    let arial = IntOrStr::Str("Arial".to_string());
    assert_eq!(
        collection.get(&arial, Ok(NameSearch { exists: true, index: 3 }), Ok(family("Arial", 4))),
        Ok(family("Arial", 4))
    );
    assert_eq!(
        collection.get(&arial, Ok(NameSearch { exists: false, index: 3 }), Ok(family("Arial", 4))),
        Err(WindowsFontError::KeyNotFound(IntOrStr::Str("Arial".to_string())))
    );
    assert_eq!(
        collection.get(&arial, Ok(NameSearch { exists: true, index: 3 }), Err(failure())),
        Err(WindowsFontError::WindowsErr(failure()))
    );
    assert_eq!(
        collection.get(&IntOrStr::Int(40), Err(failure()), Ok(family("Arial", 4))),
        Err(WindowsFontError::IndexOutOfRange(40))
    );
}

#[test]
fn the_family_at_a_place() {
    assert_eq!(FontCollection::family(Ok(family("Arial", 4))), Ok(family("Arial", 4)));
    assert_eq!(FontCollection::family(Err(failure())), Err(WindowsFontError::WindowsErr(failure())));
}
