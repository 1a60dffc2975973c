use std::rc::Rc;
use windows_fonts::fields::{field_count, field_name, field_property_id, field_string_id, lookup};
use windows_fonts::search::{collect_variants, property_filters};
use windows_fonts::{
    get_matching_variants, ArgumentFault, FilesReply, FontFace, FontFamily, FontProperty, FontVariant,
    HostException, InfoReply, InfoString, InformationDict, InformationIter, IntOrStr,
    LocalizedString, LocalizedStrings, NamesReply, NativeFailure, WindowsFontError,
};

fn failure() -> NativeFailure {
    NativeFailure { code: -2147467259, message: "Unspecified error".to_string() }
}

fn names(entries: &[(&str, &str)]) -> LocalizedStrings {
    let mut list: Vec<LocalizedString> = Vec::new();
    for (locale, text) in entries {
        list.push(LocalizedString { locale: locale.to_string(), text: text.to_string() });
    }
    LocalizedStrings::new(list).unwrap()
}

fn present(id: i32, text: &str) -> InfoString {
    InfoString { id, reply: InfoReply::Present(names(&[("en-us", text)])) }
}

fn sample() -> InformationDict {
    InformationDict {
        strings: vec![
            present(16, "Arial Bold"),
            present(1, "(c) The Foundry"),
            InfoString { id: 4, reply: InfoReply::Absent },
            InfoString { id: 5, reply: InfoReply::Failed(failure()) },
            InfoString {
                id: 13,
                reply: InfoReply::Present(names(&[("de-de", "Arial (de)"), ("en-us", "Arial")])),
            },
            present(19, "Arial"),
            present(1, "shadowed"),
            present(99, "beyond the table"),
        ],
    }
}

fn text(value: &str) -> IntOrStr {
    IntOrStr::Str(value.to_string())
}

#[test]
fn the_table_of_fields() {
    assert_eq!(field_count(), 24);
    let expected: [(&str, i32, i32); 24] = [
        ("copyright", 1, 0),
        ("description", 7, 0),
        ("design_script_language_tag", 20, 7),
        ("designer", 5, 0),
        ("designer_url", 6, 0),
        ("full_name", 16, 4),
        ("license_description", 9, 0),
        ("license_info_url", 10, 0),
        ("manufacturer", 4, 0),
        ("postscript_cid_name", 18, 0),
        ("postscript_name", 17, 6),
        ("preferred_family_names", 13, 2),
        ("preferred_subfamily_names", 14, 1),
        ("sample_text", 15, 0),
        ("supported_script_language_tag", 21, 8),
        ("trademark", 3, 0),
        ("typographic_family_names", 13, 2),
        ("typographic_subfamily_names", 14, 0),
        ("vendor_url", 8, 0),
        ("versions", 2, 0),
        ("weight_stretch_style_family_name", 19, 1),
        ("win32_family_names", 11, 5),
        ("win32_subfamily_names", 12, 0),
        ("wss_family_name", 19, 0),
    ];
    let mut index: usize = 0;
    while index < 24 {
        let (name, string_id, property_id) = expected[index];
        assert_eq!(field_name(index), name);
        assert_eq!(field_string_id(index), string_id);
        assert_eq!(field_property_id(index), property_id);
        let field = lookup(name).unwrap();
        assert_eq!(field.index, index);
        assert_eq!(field.string_id, string_id);
        assert_eq!(field.property_id, property_id);
        if index > 0 {
            assert!(field_name(index - 1) < field_name(index));
        }
        index += 1;
    }
    assert_eq!(lookup("Copyright"), None);
    assert_eq!(lookup(""), None);
    assert_eq!(lookup("copyrigh"), None);
}

#[test]
fn keys_are_sorted_and_without_repeats_and_in_the_dict() {
    let dict = sample();
    let keys = dict.keys();
    assert_eq!(
        keys,
        vec![
            "copyright",
            "full_name",
            "preferred_family_names",
            "typographic_family_names",
            "weight_stretch_style_family_name",
            "wss_family_name",
        ]
    );
    let mut i: usize = 1;
    while i < keys.len() {
        assert!(keys[i - 1] < keys[i]);
        i += 1;
    }
    for key in keys.iter() {
        assert!(dict.contains(&IntOrStr::Str(key.clone())));
    }
    assert_eq!(dict.len(), keys.len());
    assert_eq!(dict.len(), 6);
}

#[test]
fn an_empty_dict() {
    let dict = InformationDict { strings: Vec::new() };
    assert_eq!(dict.len(), 0);
    assert_eq!(dict.keys(), Vec::<String>::new());
    assert_eq!(dict.values("en-US"), Vec::<String>::new());
    assert_eq!(dict.items("en-US"), Vec::<(String, String)>::new());
    assert!(!dict.contains(&text("copyright")));
    assert_eq!(dict.get(&text("copyright"), "en-US"), Err(WindowsFontError::KeyNotFound(text("copyright"))));
    assert_eq!(dict.iter().next(), None);
    assert_eq!(InformationIter::new(InformationDict { strings: Vec::new() }).next(), None);
}

#[test]
fn what_a_dict_contains() {
    let dict = sample();
    assert!(dict.contains(&text("copyright")));
    assert!(dict.contains(&text("wss_family_name")));
    assert!(!dict.contains(&text("manufacturer")));
    assert!(!dict.contains(&text("designer")));
    assert!(!dict.contains(&text("versions")));
    assert!(!dict.contains(&text("no_such_field")));
    assert!(dict.contains(&IntOrStr::Int(1)));
    assert!(dict.contains(&IntOrStr::Int(13)));
    assert!(dict.contains(&IntOrStr::Int(19)));
    assert!(!dict.contains(&IntOrStr::Int(4)));
    assert!(!dict.contains(&IntOrStr::Int(5)));
    assert!(!dict.contains(&IntOrStr::Int(2)));
    assert!(!dict.contains(&IntOrStr::Int(99)));
    assert!(!dict.contains(&IntOrStr::Int(0)));
    assert!(!dict.contains(&IntOrStr::Int(-1)));
    assert!(!dict.contains(&IntOrStr::Int(isize::MAX)));
    assert!(!dict.contains(&IntOrStr::Int(isize::MIN)));
    assert!(dict.is_visible(0));
    assert!(!dict.is_visible(1));
    assert!(!dict.is_visible(24));
}

#[test]
fn values_and_items_are_sorted() {
    let dict = sample();
    assert_eq!(
        dict.values("en-US"),
        vec!["(c) The Foundry", "Arial", "Arial", "Arial", "Arial", "Arial Bold"]
    );
    assert_eq!(
        dict.values("de-DE"),
        vec!["(c) The Foundry", "Arial", "Arial", "Arial (de)", "Arial (de)", "Arial Bold"]
    );
    let items = dict.items("de-DE");
    let expected: Vec<(String, String)> = vec![
        ("copyright", "(c) The Foundry"),
        ("full_name", "Arial Bold"),
        ("preferred_family_names", "Arial (de)"),
        ("typographic_family_names", "Arial (de)"),
        ("weight_stretch_style_family_name", "Arial"),
        ("wss_family_name", "Arial"),
    ]
    .iter()
    .map(|(key, value)| (key.to_string(), value.to_string()))
    .collect();
    assert_eq!(items, expected);
    let mut sorted = items.clone();
    sorted.sort();
    assert_eq!(items, sorted);
    assert_eq!(dict.value_at(0, "en-US"), Some("(c) The Foundry".to_string()));
    assert_eq!(dict.value_at(1, "en-US"), None);
    assert_eq!(dict.value_at(3, "en-US"), None);
}

#[test]
fn keyed_access() {
    let dict = sample();
    assert_eq!(dict.get(&text("full_name"), "en-US"), Ok("Arial Bold".to_string()));
    assert_eq!(dict.get(&text("copyright"), "en-US"), Ok("(c) The Foundry".to_string()));
    assert_eq!(dict.get(&text("typographic_family_names"), "de-DE"), Ok("Arial (de)".to_string()));
    assert_eq!(dict.get(&IntOrStr::Int(13), "en-US"), Ok("Arial".to_string()));
    assert_eq!(dict.get(&IntOrStr::Int(99), "en-US"), Ok("beyond the table".to_string()));
    assert_eq!(
        dict.get(&text("manufacturer"), "en-US"),
        Err(WindowsFontError::KeyNotFound(text("manufacturer")))
    );
    assert_eq!(
        dict.get(&text("versions"), "en-US"),
        Err(WindowsFontError::KeyNotFound(text("versions")))
    );
    assert_eq!(
        dict.get(&text("no_such_field"), "en-US"),
        Err(WindowsFontError::KeyNotFound(text("no_such_field")))
    );
    assert_eq!(dict.get(&text("designer"), "en-US"), Err(WindowsFontError::WindowsErr(failure())));
    assert_eq!(dict.get(&IntOrStr::Int(5), "en-US"), Err(WindowsFontError::WindowsErr(failure())));
    assert_eq!(
        dict.get(&IntOrStr::Int(2), "en-US"),
        Err(WindowsFontError::KeyNotFound(IntOrStr::Int(2)))
    );
    assert_eq!(
        dict.get(&IntOrStr::Int(isize::MAX), "en-US"),
        Err(WindowsFontError::KeyNotFound(IntOrStr::Int(isize::MAX)))
    );
    assert_eq!(
        dict.get(&text("versions"), "en-US").unwrap_err().exception(),
        HostException::KeyError
    );
    assert_eq!(InformationDict::key_id(&text("full_name")), Some(16));
    assert_eq!(InformationDict::key_id(&text("nothing")), None);
    assert_eq!(InformationDict::key_id(&IntOrStr::Int(-7)), Some(-7));
}

#[test]
fn walking_a_dict() {
    let dict = sample();
    let mut walk = InformationIter::new(sample());
    let mut seen: Vec<String> = Vec::new();
    loop {
        match walk.next() {
            Some(name) => seen.push(name.to_string()),
            None => break,
        }
    }
    assert_eq!(seen, dict.keys());
    assert_eq!(walk.next(), None);
    assert_eq!(walk.next(), None);
    let mut other = sample().iter();
    assert_eq!(other.next(), Some("copyright"));
    assert_eq!(other.next(), Some("full_name"));
}

#[test]
fn replies_for_informational_strings() {
    assert_eq!(InfoReply::from_reply(Err(failure())), InfoReply::Failed(failure()));
    assert_eq!(InfoReply::from_reply(Ok((false, None))), InfoReply::Absent);
    assert_eq!(InfoReply::from_reply(Ok((true, None))), InfoReply::Absent);
    assert_eq!(
        InfoReply::from_reply(Ok((false, Some(names(&[("en-us", "x")]))))),
        InfoReply::Absent
    );
    assert_eq!(
        InfoReply::from_reply(Ok((true, Some(names(&[("en-us", "x")]))))),
        InfoReply::Present(names(&[("en-us", "x")]))
    );
}

fn pairs(list: &[(&str, &str)]) -> Vec<(String, String)> {
    list.iter().map(|(name, value)| (name.to_string(), value.to_string())).collect()
}

fn variant(name: &str, weight: i32) -> FontVariant {
    let family = Rc::new(FontFamily::new(Ok(names(&[("en-us", name)])), 1));
    FontVariant::new(
        family,
        FontFace {
            weight,
            style: 0,
            names: NamesReply::Unavailable,
            files: FilesReply::Listed(Vec::new()),
            information: InformationDict { strings: Vec::new() },
        },
    )
}

#[test]
fn filters_become_conditions() {
    let filters = pairs(&[("full_name", "Arial Bold"), ("win32_family_names", "Arial")]);
    assert_eq!(
        property_filters(Some(&filters)),
        Ok(vec![
            FontProperty { property_id: 4, value: "Arial Bold".to_string() },
            FontProperty { property_id: 5, value: "Arial".to_string() },
        ])
    );
    let all = pairs(&[
        ("design_script_language_tag", "a"),
        ("postscript_name", "b"),
        ("preferred_family_names", "c"),
        ("preferred_subfamily_names", "d"),
        ("supported_script_language_tag", "e"),
        ("typographic_family_names", "f"),
        ("weight_stretch_style_family_name", "g"),
    ]);
    let ids: Vec<i32> =
        property_filters(Some(&all)).unwrap().iter().map(|condition| condition.property_id).collect();
    assert_eq!(ids, vec![7, 6, 2, 1, 8, 2, 1]);
    assert_eq!(property_filters(Some(&Vec::new())), Ok(Vec::new()));
}

#[test]
fn filters_that_are_refused() {
    assert_eq!(
        property_filters(None),
        Err(WindowsFontError::InvalidArgument(ArgumentFault::NoFilters))
    );
    let unfilterable = pairs(&[("full_name", "Arial"), ("copyright", "x"), ("nonsense", "y")]);
    assert_eq!(
        property_filters(Some(&unfilterable)),
        Err(WindowsFontError::InvalidArgument(ArgumentFault::UnfilterableProperty(
            "copyright".to_string()
        )))
    );
    let unknown = pairs(&[("full_name", "Arial"), ("nonsense", "y"), ("copyright", "x")]);
    assert_eq!(
        property_filters(Some(&unknown)),
        Err(WindowsFontError::InvalidArgument(ArgumentFault::UnknownProperty("nonsense".to_string())))
    );
    assert_eq!(
        property_filters(Some(&unknown)).unwrap_err().exception(),
        HostException::TypeError
    );
    assert_eq!(property_filters(None).unwrap_err().exception(), HostException::TypeError);
}

#[test]
fn a_search_over_all_fonts() {
    let filters = pairs(&[("full_name", "Arial Bold")]);
    assert_eq!(
        get_matching_variants(Some(&filters), vec![Ok(variant("Arial", 700)), Ok(variant("Arial", 400))]),
        Ok(vec![variant("Arial", 700), variant("Arial", 400)])
    );
    assert_eq!(get_matching_variants(Some(&filters), Vec::new()), Ok(Vec::new()));
    assert_eq!(
        get_matching_variants(
            Some(&filters),
            vec![Ok(variant("Arial", 700)), Err(failure()), Ok(variant("Arial", 400))]
        ),
        Err(WindowsFontError::WindowsErr(failure()))
    );
    assert_eq!(
        get_matching_variants(None, vec![Ok(variant("Arial", 700))]),
        Err(WindowsFontError::InvalidArgument(ArgumentFault::NoFilters))
    );
    let refused = pairs(&[("versions", "1")]);
    assert_eq!(
        get_matching_variants(Some(&refused), vec![Ok(variant("Arial", 700))]),
        Err(WindowsFontError::InvalidArgument(ArgumentFault::UnfilterableProperty(
            "versions".to_string()
        )))
    );
    assert_eq!(collect_variants(vec![Ok(variant("A", 1))]), Ok(vec![variant("A", 1)]));
}

#[test]
fn messages_and_exceptions() {
    let cases: Vec<(WindowsFontError, &str, HostException)> = vec![
        (WindowsFontError::WindowsErr(failure()), "Unspecified error", HostException::OsError),
        (
            WindowsFontError::Windows10Needed(windows_fonts::Feature::AxisMatching),
            "Use of this function requires Windows 10 Build 20348 or above",
            HostException::RuntimeError,
        ),
        (
            WindowsFontError::KeyNotFound(text("Comic Sans")),
            "Comic Sans doesn't exist",
            HostException::KeyError,
        ),
        (
            WindowsFontError::KeyNotFound(IntOrStr::Int(3)),
            "the identifier doesn't exist",
            HostException::KeyError,
        ),
        (WindowsFontError::IndexOutOfRange(9), "index out of range", HostException::IndexError),
        (
            WindowsFontError::InvalidArgument(ArgumentFault::StyleWithAxes),
            "cannot pass `style` and any of `width`, `slant`, `optical_size`, `italic` at the same time",
            HostException::ValueError,
        ),
        (
            WindowsFontError::InvalidArgument(ArgumentFault::NoFilters),
            "no filter conditions passed",
            HostException::TypeError,
        ),
        (
            WindowsFontError::InvalidArgument(ArgumentFault::UnknownProperty("x".to_string())),
            "x isn't a known font property name",
            HostException::TypeError,
        ),
        (
            WindowsFontError::InvalidArgument(ArgumentFault::UnfilterableProperty("y".to_string())),
            "y doesn't have a mapping to font property id",
            HostException::TypeError,
        ),
        (
            WindowsFontError::AmbiguousResult(2),
            "FontVariant had more than one name, please use .files()",
            HostException::RuntimeError,
        ),
        (WindowsFontError::NoVariantsFound, "No variants found", HostException::RuntimeError),
        (
            WindowsFontError::ResourceInitFailure(failure()),
            "Unspecified error",
            HostException::RuntimeError,
        ),
    ];
    for (error, message, exception) in cases {
        assert_eq!(error.message(), message);
        assert_eq!(error.exception(), exception);
    }
    assert_eq!(failure().clone(), failure());
    assert_eq!(text("a").clone(), text("a"));
}
