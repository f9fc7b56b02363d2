use vstd::prelude::*;

use crate::x11api::{ResourceDb, get_xrm_resource, lookup_spec, opt_view};

verus! {

/// The colours found in a resource-manager database snapshot.
#[derive(Clone, Debug, Default)]
pub struct Colors {
    /// Foreground colour: matches the "foreground" key.
    pub fg: Option<String>,
    /// Background colour: matches the "background" key.
    pub bg: Option<String>,
    /// Cursor colour: matches the "cursorColor" key.
    pub cursor: Option<String>,
    /// Colours 0 to 15: match the "color{}" keys, where {} is a number from 0 to 15 inclusive.
    pub colors: [Option<String>; 16],
}

impl View for Colors {
    type V = (Option<Seq<char>>, Option<Seq<char>>, Option<Seq<char>>, Seq<Option<Seq<char>>>);

    open spec fn view(&self) -> Self::V {
        (
            opt_view(self.fg),
            opt_view(self.bg),
            opt_view(self.cursor),
            self.colors@.map_values(|o: Option<String>| opt_view(o)),
        )
    }
}

/// The decimal digit character for a value from 0 to 9.
pub open spec fn digit_char(d: int) -> char {
    if d == 0 {
        '0'
    } else if d == 1 {
        '1'
    } else if d == 2 {
        '2'
    } else if d == 3 {
        '3'
    } else if d == 4 {
        '4'
    } else if d == 5 {
        '5'
    } else if d == 6 {
        '6'
    } else if d == 7 {
        '7'
    } else if d == 8 {
        '8'
    } else {
        '9'
    }
}

/// The name component of the i-th palette key: the word "color" followed by
/// the decimal digits of i, without padding.
pub open spec fn color_key_spec(i: int) -> Seq<char> {
    if i < 10 {
        seq!['c', 'o', 'l', 'o', 'r'].push(digit_char(i))
    } else {
        seq!['c', 'o', 'l', 'o', 'r'].push('1').push(digit_char(i - 10))
    }
}

/// Build the name of the i-th palette key, in the exact form "color{i}".
pub fn color_key(i: usize) -> (s: String)
    requires
        i < 16,
    ensures
        s@ == color_key_spec(i as int),
{
    let s: &str = match i {
        0 => "color0",
        1 => "color1",
        2 => "color2",
        3 => "color3",
        4 => "color4",
        5 => "color5",
        6 => "color6",
        7 => "color7",
        8 => "color8",
        9 => "color9",
        10 => "color10",
        11 => "color11",
        12 => "color12",
        13 => "color13",
        14 => "color14",
        _ => "color15",
    };
    proof {
        reveal_strlit("color0");
        reveal_strlit("color1");
        reveal_strlit("color2");
        reveal_strlit("color3");
        reveal_strlit("color4");
        reveal_strlit("color5");
        reveal_strlit("color6");
        reveal_strlit("color7");
        reveal_strlit("color8");
        reveal_strlit("color9");
        reveal_strlit("color10");
        reveal_strlit("color11");
        reveal_strlit("color12");
        reveal_strlit("color13");
        reveal_strlit("color14");
        reveal_strlit("color15");
        assert(s@ =~= color_key_spec(i as int));
    }
    s.to_owned()
}

/// The palette a snapshot holds for a class: one lookup for "foreground",
/// "background" and "cursorColor" each, and one for every key "color0"
/// through "color15"; each component is the value of that lookup.
pub open spec fn palette_spec(
    db: Seq<(Seq<char>, Seq<char>, Seq<char>)>,
    class: Seq<char>,
) -> (Option<Seq<char>>, Option<Seq<char>>, Option<Seq<char>>, Seq<Option<Seq<char>>>) {
    (
        lookup_spec(db, class, "foreground"@),
        lookup_spec(db, class, "background"@),
        lookup_spec(db, class, "cursorColor"@),
        Seq::new(16, |i: int| lookup_spec(db, class, color_key_spec(i))),
    )
}

/// Clone an optional owned string.
fn clone_opt(o: &Option<String>) -> (r: Option<String>)
    ensures
        r == *o,
{
    match o {
        None => None,
        Some(s) => Some(s.clone()),
    }
}

impl Colors {
    /// Fill a palette record from one database snapshot: every key is looked
    /// up against the same snapshot, and every index from 0 to 15 is
    /// attempted whether or not earlier keys were found.
    pub fn from_database(db: &ResourceDb, class: &str) -> (r: Colors)
        ensures
            r@ == palette_spec(db@, class@),
    {
        let fg = get_xrm_resource(db, class, "foreground");
        let bg = get_xrm_resource(db, class, "background");
        let cursor = get_xrm_resource(db, class, "cursorColor");
        let mut found: Vec<Option<String>> = Vec::new();
        let mut i: usize = 0;
        while i < 16
            invariant
                i <= 16,
                found@.len() == i as int,
                forall|j: int|
                    0 <= j < i as int ==> opt_view(#[trigger] found@[j]) == lookup_spec(
                        db@,
                        class@,
                        color_key_spec(j),
                    ),
            decreases 16 - i,
        {
            let key = color_key(i);
            let value = get_xrm_resource(db, class, key.as_str());
            found.push(value);
            i = i + 1;
        }
        let r = Colors {
            fg,
            bg,
            cursor,
            colors: [
                clone_opt(&found[0]),
                clone_opt(&found[1]),
                clone_opt(&found[2]),
                clone_opt(&found[3]),
                clone_opt(&found[4]),
                clone_opt(&found[5]),
                clone_opt(&found[6]),
                clone_opt(&found[7]),
                clone_opt(&found[8]),
                clone_opt(&found[9]),
                clone_opt(&found[10]),
                clone_opt(&found[11]),
                clone_opt(&found[12]),
                clone_opt(&found[13]),
                clone_opt(&found[14]),
                clone_opt(&found[15]),
            ],
        };
        proof {
            assert(r@.3 =~= palette_spec(db@, class@).3);
        }
        r
    }

    /// Read the palette for a class through a display's resource-manager
    /// snapshot. A display without a snapshot yields no record at all; with
    /// a snapshot, the record holds the value of each key's lookup, absent
    /// keys appearing as absent fields.
    pub fn new(class: &str, display: Option<&ResourceDb>) -> (r: Option<Colors>)
        ensures
            match display {
                None => r is None,
                Some(db) => r matches Some(c) && c@ == palette_spec(db@, class@),
            },
    {
        match display {
            None => None,
            Some(db) => Some(Colors::from_database(db, class)),
        }
    }
}

/// Reading the palette twice against an unchanged database snapshot yields
/// identical results.
pub proof fn lemma_read_palette_idempotent(
    db: Seq<(Seq<char>, Seq<char>, Seq<char>)>,
    class: Seq<char>,
    r1: (Option<Seq<char>>, Option<Seq<char>>, Option<Seq<char>>, Seq<Option<Seq<char>>>),
    r2: (Option<Seq<char>>, Option<Seq<char>>, Option<Seq<char>>, Seq<Option<Seq<char>>>),
)
    requires
        r1 == palette_spec(db, class),
        r2 == palette_spec(db, class),
    ensures
        r1 == r2,
{
}

} // verus!
