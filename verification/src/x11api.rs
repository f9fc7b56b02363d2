use vstd::prelude::*;

verus! {

/// Error returned when no connection to a display server can be established.
///
/// The connection itself is an operating-system resource and is acquired by
/// unverified code around this library; that code reports a failure to the
/// caller with this value, exactly once, and never retries silently.
#[derive(Copy, Clone, Debug)]
pub struct XDisplayError;

/// One entry of a resource-manager database snapshot: a class component,
/// a name component, and the associated string value.
#[derive(Clone, Debug)]
pub struct ResourceEntry {
    pub class: String,
    pub name: String,
    pub value: String,
}

impl View for ResourceEntry {
    type V = (Seq<char>, Seq<char>, Seq<char>);

    open spec fn view(&self) -> Self::V {
        (self.class@, self.name@, self.value@)
    }
}

/// A snapshot of the resource-manager database: the class/name-keyed string
/// store that a display server holds on behalf of its clients.
///
/// Entries are kept newest first; a lookup returns the first entry whose
/// class and name components both match, so writing a key again shadows the
/// older value, as a later line of a resource file shadows an earlier one.
#[derive(Clone, Debug, Default)]
pub struct ResourceDb {
    pub entries: Vec<ResourceEntry>,
}

impl View for ResourceDb {
    type V = Seq<(Seq<char>, Seq<char>, Seq<char>)>;

    open spec fn view(&self) -> Self::V {
        self.entries@.map_values(|e: ResourceEntry| e@)
    }
}

/// The value a lookup of `class`/`name` finds in the snapshot `db`:
/// the value of the first matching entry, or `None` when no entry matches.
pub open spec fn lookup_spec(
    db: Seq<(Seq<char>, Seq<char>, Seq<char>)>,
    class: Seq<char>,
    name: Seq<char>,
) -> Option<Seq<char>>
    decreases db.len(),
{
    if db.len() == 0 {
        None
    } else if db[0].0 == class && db[0].1 == name {
        Some(db[0].2)
    } else {
        lookup_spec(db.drop_first(), class, name)
    }
}

/// The snapshot that results from writing `value` under `class`/`name`:
/// the new entry stands first and shadows any older entry with the same key.
pub open spec fn put_spec(
    db: Seq<(Seq<char>, Seq<char>, Seq<char>)>,
    class: Seq<char>,
    name: Seq<char>,
    value: Seq<char>,
) -> Seq<(Seq<char>, Seq<char>, Seq<char>)> {
    seq![(class, name, value)] + db
}

/// The view of an optional owned string.
pub open spec fn opt_view(o: Option<String>) -> Option<Seq<char>> {
    match o {
        None => None,
        Some(s) => Some(s@),
    }
}

impl ResourceDb {
    /// An empty snapshot: no key is configured.
    pub fn empty() -> (r: ResourceDb)
        ensures
            r@ == Seq::<(Seq<char>, Seq<char>, Seq<char>)>::empty(),
    {
        let r = ResourceDb { entries: Vec::new() };
        proof {
            assert(r@ =~= Seq::<(Seq<char>, Seq<char>, Seq<char>)>::empty());
        }
        r
    }

    /// Write `value` under the `class`/`name` pair, shadowing any older value.
    pub fn put(&mut self, class: &str, name: &str, value: &str)
        ensures
            final(self)@ == put_spec(old(self)@, class@, name@, value@),
    {
        let entry = ResourceEntry {
            class: class.to_owned(),
            name: name.to_owned(),
            value: value.to_owned(),
        };
        self.entries.insert(0, entry);
        proof {
            assert(self@ =~= put_spec(old(self)@, class@, name@, value@));
        }
    }
}

/// Return the value for the class/name pair from the database snapshot, if
/// any entry matches; the returned string is an owned copy, so it stays valid
/// however long the snapshot itself lives.
pub fn get_xrm_resource(db: &ResourceDb, class: &str, name: &str) -> (r: Option<String>)
    ensures
        opt_view(r) == lookup_spec(db@, class@, name@),
{
    let class_key: String = class.to_owned();
    let name_key: String = name.to_owned();
    let n = db.entries.len();
    let mut i: usize = 0;
    proof {
        assert(db@.skip(0) =~= db@);
    }
    while i < n
        invariant
            i <= n,
            n == db.entries.len(),
            class_key@ == class@,
            name_key@ == name@,
            lookup_spec(db@, class@, name@) == lookup_spec(db@.skip(i as int), class@, name@),
        decreases n - i,
    {
        let entry = &db.entries[i];
        proof {
            assert(db@.skip(i as int)[0] == db@[i as int]);
        }
        if entry.class == class_key && entry.name == name_key {
            return Some(entry.value.clone());
        }
        proof {
            assert(db@.skip(i as int).drop_first() =~= db@.skip(i as int + 1));
        }
        i = i + 1;
    }
    proof {
        assert(db@.skip(n as int) =~= Seq::<(Seq<char>, Seq<char>, Seq<char>)>::empty());
    }
    None
}

/// Return the value for the class/name pair through a display's
/// resource-manager snapshot. A display that offers no resource-manager
/// string, or one whose string does not parse into a database, carries no
/// snapshot at all; every such case collapses to `None`, never to an error.
pub fn query_xrdb(display: Option<&ResourceDb>, class: &str, name: &str) -> (r: Option<String>)
    ensures
        match display {
            None => r is None,
            Some(db) => opt_view(r) == lookup_spec(db@, class@, name@),
        },
{
    match display {
        None => None,
        Some(db) => get_xrm_resource(db, class, name),
    }
}

/// A lookup of a class/name pair finds nothing exactly when no entry of the
/// snapshot carries that pair; there is no other outcome, in particular no
/// error.
pub proof fn lemma_lookup_absent(
    db: Seq<(Seq<char>, Seq<char>, Seq<char>)>,
    class: Seq<char>,
    name: Seq<char>,
)
    ensures
        lookup_spec(db, class, name) is None <==> (forall|k: int|
            0 <= k < db.len() ==> !((#[trigger] db[k]).0 == class && db[k].1 == name)),
    decreases db.len(),
{
    if db.len() == 0 {
    } else if db[0].0 == class && db[0].1 == name {
    } else {
        lemma_lookup_absent(db.drop_first(), class, name);
        assert(forall|k: int| 1 <= k < db.len() ==> #[trigger] db[k] == db.drop_first()[k - 1]);
    }
}

/// A value written under a class/name pair is returned by a lookup of that
/// pair exactly as it was written: no transformation, trimming or encoding
/// change.
pub proof fn lemma_round_trip(
    db: Seq<(Seq<char>, Seq<char>, Seq<char>)>,
    class: Seq<char>,
    name: Seq<char>,
    value: Seq<char>,
)
    ensures
        lookup_spec(put_spec(db, class, name, value), class, name) == Some(value),
{
    assert(put_spec(db, class, name, value)[0] == (class, name, value));
}

/// Writing one key leaves the value a lookup finds under every other key
/// unchanged.
pub proof fn lemma_put_other_keys(
    db: Seq<(Seq<char>, Seq<char>, Seq<char>)>,
    class: Seq<char>,
    name: Seq<char>,
    value: Seq<char>,
    class2: Seq<char>,
    name2: Seq<char>,
)
    requires
        class2 != class || name2 != name,
    ensures
        lookup_spec(put_spec(db, class, name, value), class2, name2) == lookup_spec(
            db,
            class2,
            name2,
        ),
{
    assert(put_spec(db, class, name, value).drop_first() =~= db);
}

} // verus!
