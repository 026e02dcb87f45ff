use vjoy_bridge::types::Axis;
use vjoy_bridge::util::{axis_from_lower, map_axis};

#[test]
fn every_canonical_name_resolves() {
    let names = [
        ("x", Axis::X, 1),
        ("y", Axis::Y, 2),
        ("z", Axis::Z, 3),
        ("rx", Axis::Rx, 4),
        ("ry", Axis::Ry, 5),
        ("rz", Axis::Rz, 6),
        ("slider", Axis::Slider, 7),
        ("dialslider", Axis::DialSlider, 8),
        ("wheel", Axis::Wheel, 9),
        ("accel", Axis::Accel, 10),
        ("brake", Axis::Brake, 11),
        ("clutch", Axis::Clutch, 12),
        ("steering", Axis::Steering, 13),
        ("aileron", Axis::Aileron, 14),
        ("rudder", Axis::Rudder, 15),
        ("throttle", Axis::Throttle, 16),
    ];
    for (name, axis, id) in names {
        assert_eq!(map_axis(name), Some(axis));
        assert_eq!(axis.id(), id);
    }
}

#[test]
fn letter_case_is_ignored() {
    assert_eq!(map_axis("X"), Some(Axis::X));
    assert_eq!(map_axis("RX"), Some(Axis::Rx));
    assert_eq!(map_axis("rZ"), Some(Axis::Rz));
    assert_eq!(map_axis("DialSlider"), Some(Axis::DialSlider));
    assert_eq!(map_axis("THROTTLE"), Some(Axis::Throttle));
    assert_eq!(map_axis("sTeErInG"), map_axis("steering"));
}

#[test]
fn unknown_names_resolve_to_nothing() {
    assert_eq!(map_axis(""), None);
    assert_eq!(map_axis("w"), None);
    assert_eq!(map_axis("xx"), None);
    assert_eq!(map_axis("slide"), None);
    assert_eq!(map_axis("sliders"), None);
    assert_eq!(map_axis(" x"), None);
    assert_eq!(map_axis("dial slider"), None);
    assert_eq!(map_axis("ẋ"), None);
    assert_eq!(map_axis("brakë"), None);
}

#[test]
fn canonical_name_chars_spell_the_name() {
    assert_eq!(Axis::DialSlider.name_chars(), "dialslider".chars().collect::<Vec<char>>());
    assert_eq!(Axis::Throttle.name_chars(), "throttle".chars().collect::<Vec<char>>());
    assert_eq!(Axis::Rx.name_chars(), vec!['r', 'x']);
}

#[test]
fn unicode_lowercasing_applies() {
    assert_eq!(map_axis("BRA\u{212A}E"), Some(Axis::Brake));
    assert_eq!(map_axis("BRA\u{212A}E").map(|a| a.id()), Some(11));
}

#[test]
fn lower_case_lookup_is_exact() {
    assert_eq!(axis_from_lower("brake"), Some(Axis::Brake));
    assert_eq!(axis_from_lower("dialslider"), Some(Axis::DialSlider));
    assert_eq!(axis_from_lower("x"), Some(Axis::X));
    assert_eq!(axis_from_lower("X"), None);
    assert_eq!(axis_from_lower("Brake"), None);
    assert_eq!(axis_from_lower("bra\u{212A}e"), None);
    assert_eq!(axis_from_lower(""), None);
    assert_eq!(axis_from_lower("brakes"), None);
}
