use xresources::{Colors, ResourceDb};

fn sample_db() -> ResourceDb {
    let mut db = ResourceDb::empty();
    db.put("xterm", "foreground", "#ffffff");
    db.put("xterm", "background", "#000000");
    db.put("xterm", "cursorColor", "#aabbcc");
    db.put("xterm", "color0", "#101010");
    db.put("xterm", "color15", "#f5f5f5");
    db
}

#[test]
fn xterm_colors() {
    let db = sample_db();
    let xterm = Colors::new("xterm", Some(&db));
    // for debugging
    println!("{:?}", xterm);
    assert!(xterm.is_some());
}

#[test]
fn empty_resource_string_yields_no_snapshot() {
    // No resource-manager string at all: the whole snapshot is absent,
    // not a snapshot of all-absent fields.
    let palette = Colors::new("xterm", None);
    assert!(palette.is_none());
}

#[test]
fn only_foreground_set() {
    let mut db = ResourceDb::empty();
    db.put("xterm", "foreground", "red");
    let palette = Colors::new("xterm", Some(&db)).unwrap();
    assert_eq!(palette.fg, Some(String::from("red")));
    assert_eq!(palette.bg, None);
    assert_eq!(palette.cursor, None);
    for slot in palette.colors.iter() {
        assert_eq!(*slot, None);
    }
}

#[test]
fn empty_database_yields_all_absent_fields() {
    let db = ResourceDb::empty();
    let palette = Colors::new("xterm", Some(&db)).unwrap();
    assert_eq!(palette.fg, None);
    assert_eq!(palette.bg, None);
    assert_eq!(palette.cursor, None);
    for slot in palette.colors.iter() {
        assert_eq!(*slot, None);
    }
}

#[test]
fn every_palette_index_is_read() {
    // Indices are set sparsely; each one set is found, each other absent,
    // so no index short-circuits the ones after it.
    let mut db = ResourceDb::empty();
    for i in [0usize, 7, 10, 15] {
        db.put("xterm", &format!("color{}", i), &format!("value{}", i));
    }
    let palette = Colors::new("xterm", Some(&db)).unwrap();
    for i in 0..16usize {
        if i == 0 || i == 7 || i == 10 || i == 15 {
            assert_eq!(palette.colors[i], Some(format!("value{}", i)));
        } else {
            assert_eq!(palette.colors[i], None);
        }
    }
}

#[test]
fn color_keys_have_exact_decimal_form() {
    for i in 0..16usize {
        let key = xresources::colors::color_key(i);
        assert_eq!(key, format!("color{}", i));
    }
}

#[test]
fn read_palette_twice_is_identical() {
    let db = sample_db();
    let first = Colors::new("xterm", Some(&db));
    let second = Colors::new("xterm", Some(&db));
    assert_eq!(format!("{:?}", first), format!("{:?}", second));
}

#[test]
fn palette_ignores_other_classes() {
    let mut db = ResourceDb::empty();
    db.put("urxvt", "foreground", "green");
    let palette = Colors::new("xterm", Some(&db)).unwrap();
    assert_eq!(palette.fg, None);
}
