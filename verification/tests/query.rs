use xresources::{get_xrm_resource, query_xrdb, ResourceDb, Rgba, Slant, Spacing, Weight, XDisplayError, Xft};

#[test]
fn absent_pair_returns_none_not_error() {
    let mut db = ResourceDb::empty();
    db.put("xterm", "foreground", "red");
    assert_eq!(get_xrm_resource(&db, "xterm", "background"), None);
    assert_eq!(get_xrm_resource(&db, "emacs", "foreground"), None);
    assert_eq!(query_xrdb(Some(&db), "xterm", "cursorColor"), None);
}

#[test]
fn round_trip_foreground() {
    let mut db = ResourceDb::empty();
    let written = "DarkSlateGray4 ";
    db.put("xterm", "foreground", written);
    let read = query_xrdb(Some(&db), "xterm", "foreground");
    assert_eq!(read, Some(String::from(written)));
}

#[test]
fn newer_value_shadows_older() {
    let mut db = ResourceDb::empty();
    db.put("xterm", "foreground", "red");
    db.put("xterm", "foreground", "blue");
    assert_eq!(get_xrm_resource(&db, "xterm", "foreground"), Some(String::from("blue")));
}

#[test]
fn put_leaves_other_keys_alone() {
    let mut db = ResourceDb::empty();
    db.put("xterm", "foreground", "red");
    db.put("xterm", "background", "black");
    assert_eq!(get_xrm_resource(&db, "xterm", "foreground"), Some(String::from("red")));
}

#[test]
fn missing_display_returns_none() {
    assert_eq!(query_xrdb(None, "xterm", "foreground"), None);
}

#[test]
fn display_error_is_a_plain_value() {
    let e = XDisplayError;
    let copy = e;
    println!("{:?} {:?}", e, copy);
}

#[test]
fn dpi_set_to_96() {
    let mut db = ResourceDb::empty();
    db.put("Xft", "dpi", "96");
    let xft = Xft::new(Some(&db));
    assert_eq!(xft.dpi, Some(96));
}

#[test]
fn dpi_non_numeric_is_absent() {
    let mut db = ResourceDb::empty();
    db.put("Xft", "dpi", "high");
    let xft = Xft::new(Some(&db));
    assert_eq!(xft.dpi, None);
}

#[test]
fn dpi_missing_key_is_absent() {
    let db = ResourceDb::empty();
    assert_eq!(Xft::new(Some(&db)).dpi, None);
    assert_eq!(Xft::new(None).dpi, None);
}

#[test]
fn parse_i32_matches_std_parse() {
    let cases = [
        "96", "0", "-1", "+5", "007", "2147483647", "2147483648", "-2147483648", "-2147483649",
        "99999999999999999999999999", "-99999999999999999999999999", "", "+", "-", " 96", "96 ",
        "9 6", "1e3", "0x10", "12a", "a12", "--5", "+-5", "high", "١٢", "−5", "4294967296",
    ];
    for s in cases {
        assert_eq!(
            xresources::xft::parse_i32(s),
            s.parse::<i32>().ok(),
            "disagreement on {:?}",
            s
        );
    }
}

#[test]
fn font_properties_are_plain_values() {
    let w = Weight::Demibold;
    let s = Slant::Oblique;
    let p = Spacing::Charcell;
    let r = Rgba::Vbgr;
    println!("{:?} {:?} {:?} {:?}", w, s, p, r);
}
