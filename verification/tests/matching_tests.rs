use windows_fonts::matching::{legacy_query, modern_query};
use windows_fonts::{
    ArgumentFault, AxisTag, AxisValue, Capability, Feature, FloatOrWeight, HostException,
    MatchQuery, MatchRequest, Scalar, Style, Weight, WindowsFontError,
};

fn number(value: f32) -> Scalar {
    Scalar::from_bits(value.to_bits())
}

#[test]
fn axis_tags_are_the_opentype_tags() {
    assert_eq!(AxisTag::WEIGHT.code(), u32::from_le_bytes(*b"wght"));
    assert_eq!(AxisTag::WIDTH.code(), u32::from_le_bytes(*b"wdth"));
    assert_eq!(AxisTag::SLANT.code(), u32::from_le_bytes(*b"slnt"));
    assert_eq!(AxisTag::OPTICAL_SIZE.code(), u32::from_le_bytes(*b"opsz"));
    assert_eq!(AxisTag::ITALIC.code(), u32::from_le_bytes(*b"ital"));
    assert_eq!(AxisTag::WEIGHT.code(), 1952999287);
    assert_eq!(AxisTag::ITALIC.code(), 1818326121);
}

#[test]
fn empty_request_goes_the_older_way_with_defaults() {
    let request = MatchRequest::new();
    assert_eq!(
        request.query(Capability::LegacyCapable),
        Ok(MatchQuery::Legacy { weight: 400, stretch: 5, style: 0 })
    );
    assert_eq!(
        request.query(Capability::ModernCapable),
        Ok(MatchQuery::Legacy { weight: 400, stretch: 5, style: 0 })
    );
}

#[test]
fn weight_and_style_go_the_older_way() {
    let mut request = MatchRequest::new();
    request.weight = Some(FloatOrWeight::Float(number(400.0)));
    request.style = Some(Style::NORMAL);
    assert_eq!(
        request.query(Capability::ModernCapable),
        Ok(MatchQuery::Legacy { weight: 400, stretch: 5, style: 0 })
    );
    request.weight = Some(FloatOrWeight::Enum(Weight::BOLD));
    request.style = Some(Style::ITALIC);
    assert_eq!(
        request.query(Capability::LegacyCapable),
        Ok(MatchQuery::Legacy { weight: 700, stretch: 5, style: 2 })
    );
    request.weight = Some(FloatOrWeight::Float(number(650.75)));
    request.style = Some(Style::OBLIQUE);
    assert_eq!(
        request.query(Capability::LegacyCapable),
        Ok(MatchQuery::Legacy { weight: 650, stretch: 5, style: 1 })
    );
}

#[test]
fn weight_alone_goes_the_older_way() {
    let mut request = MatchRequest::new();
    request.weight = Some(FloatOrWeight::Enum(Weight::SEMI_LIGHT));
    assert_eq!(
        request.query(Capability::ModernCapable),
        Ok(MatchQuery::Legacy { weight: 350, stretch: 5, style: 0 })
    );
}

#[test]
fn style_with_width_is_refused() {
    let mut request = MatchRequest::new();
    request.style = Some(Style::NORMAL);
    request.width = Some(number(100.0));
    let expected = Err(WindowsFontError::InvalidArgument(ArgumentFault::StyleWithAxes));
    assert_eq!(request.query(Capability::LegacyCapable), expected);
    assert_eq!(request.query(Capability::ModernCapable), expected);
    let error = request.query(Capability::ModernCapable).unwrap_err();
    assert_eq!(error.exception(), HostException::ValueError);
}

#[test]
fn style_with_any_axis_is_refused() {
    let mut with_slant = MatchRequest::new();
    with_slant.style = Some(Style::ITALIC);
    with_slant.slant = Some(number(-12.0));
    let mut with_size = MatchRequest::new();
    with_size.style = Some(Style::ITALIC);
    with_size.optical_size = Some(number(12.0));
    let mut with_italic = MatchRequest::new();
    with_italic.style = Some(Style::ITALIC);
    with_italic.italic = Some(false);
    for request in [with_slant, with_size, with_italic] {
        assert_eq!(
            request.query(Capability::ModernCapable),
            Err(WindowsFontError::InvalidArgument(ArgumentFault::StyleWithAxes))
        );
    }
}

#[test]
fn axes_need_a_capable_engine() {
    let mut request = MatchRequest::new();
    request.width = Some(number(100.0));
    let error = request.query(Capability::LegacyCapable).unwrap_err();
    assert_eq!(error, WindowsFontError::Windows10Needed(Feature::AxisMatching));
    assert_ne!(error.exception(), HostException::OsError);
    let mut request = MatchRequest::new();
    request.italic = Some(true);
    request.weight = Some(FloatOrWeight::Enum(Weight::BOLD));
    assert_eq!(
        request.query(Capability::LegacyCapable),
        Err(WindowsFontError::Windows10Needed(Feature::AxisMatching))
    );
}

#[test]
fn axes_are_listed_in_order_and_only_where_given() {
    let mut request = MatchRequest::new();
    request.weight = Some(FloatOrWeight::Enum(Weight::BOLD));
    request.width = Some(number(87.5));
    request.slant = Some(number(-9.0));
    request.optical_size = Some(number(14.0));
    request.italic = Some(true);
    assert_eq!(
        request.query(Capability::ModernCapable),
        Ok(MatchQuery::Modern {
            axes: vec![
                AxisValue { tag: AxisTag::WEIGHT, value: number(700.0) },
                AxisValue { tag: AxisTag::WIDTH, value: number(87.5) },
                AxisValue { tag: AxisTag::SLANT, value: number(-9.0) },
                AxisValue { tag: AxisTag::OPTICAL_SIZE, value: number(14.0) },
                AxisValue { tag: AxisTag::ITALIC, value: number(1.0) },
            ]
        })
    );
    let mut request = MatchRequest::new();
    request.italic = Some(false);
    assert_eq!(
        request.query(Capability::ModernCapable),
        Ok(MatchQuery::Modern { axes: vec![AxisValue { tag: AxisTag::ITALIC, value: number(0.0) }] })
    );
    let mut request = MatchRequest::new();
    request.weight = Some(FloatOrWeight::Float(number(432.5)));
    request.optical_size = Some(number(9.0));
    assert_eq!(
        request.query(Capability::ModernCapable),
        Ok(MatchQuery::Modern {
            axes: vec![
                AxisValue { tag: AxisTag::WEIGHT, value: number(432.5) },
                AxisValue { tag: AxisTag::OPTICAL_SIZE, value: number(9.0) },
            ]
        })
    );
}

#[test]
fn the_two_ways_on_their_own() {
    assert_eq!(legacy_query(None, None), MatchQuery::Legacy { weight: 400, stretch: 5, style: 0 });
    assert_eq!(
        legacy_query(Some(number(950.0)), Some(Style::OTHER(7))),
        MatchQuery::Legacy { weight: 950, stretch: 5, style: 7 }
    );
    assert_eq!(
        modern_query(Capability::ModernCapable, None, None, None, None, None),
        Ok(MatchQuery::Modern { axes: vec![] })
    );
    assert_eq!(
        modern_query(Capability::LegacyCapable, None, None, None, None, None),
        Err(WindowsFontError::Windows10Needed(Feature::AxisMatching))
    );
}

#[test]
fn named_weights_are_their_codes_as_numbers() {
    let names = [
        (Weight::THIN, 100.0f32),
        (Weight::EXTRA_LIGHT, 200.0),
        (Weight::LIGHT, 300.0),
        (Weight::SEMI_LIGHT, 350.0),
        (Weight::NORMAL, 400.0),
        (Weight::MEDIUM, 500.0),
        (Weight::SEMI_BOLD, 600.0),
        (Weight::BOLD, 700.0),
        (Weight::EXTRA_BOLD, 800.0),
        (Weight::BLACK, 900.0),
        (Weight::EXTRA_BLACK, 950.0),
        (Weight::OTHER(1), 1.0),
    ];
    for (weight, value) in names {
        assert_eq!(FloatOrWeight::Enum(weight).scalar(), number(value));
        assert_eq!(Weight::from_code(value as i32), weight);
        assert_eq!(weight.code(), value as i32);
    }
    assert_eq!(FloatOrWeight::Float(number(12.5)).scalar(), number(12.5));
}

#[test]
fn styles_and_their_codes() {
    assert_eq!(Style::NORMAL.code(), 0);
    assert_eq!(Style::OBLIQUE.code(), 1);
    assert_eq!(Style::ITALIC.code(), 2);
    assert_eq!(Style::from_code(0), Style::NORMAL);
    assert_eq!(Style::from_code(1), Style::OBLIQUE);
    assert_eq!(Style::from_code(2), Style::ITALIC);
    assert_eq!(Style::from_code(3), Style::OTHER(3));
    assert_eq!(Style::from_code(-1).code(), -1);
    assert_eq!(Weight::from_code(401), Weight::OTHER(401));
    assert_eq!(Weight::from_code(401).code(), 401);
}
