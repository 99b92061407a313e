use vstd::prelude::*;

verus! {

/// The mathematical content of one stored credential, keyed elsewhere by its
/// name: the category, the username and the password, in that order.
pub type Fields = (Seq<char>, Seq<char>, Seq<char>);

/// The mathematical content of the whole store: every credential, keyed by
/// its globally unique name.
pub type Db = Map<Seq<char>, Fields>;

/// The content of a store that holds no credentials at all.
pub open spec fn empty_db() -> Db {
    Map::empty()
}

pub open spec fn field_category(f: Fields) -> Seq<char> {
    f.0
}

pub open spec fn field_username(f: Fields) -> Seq<char> {
    f.1
}

pub open spec fn field_password(f: Fields) -> Seq<char> {
    f.2
}

/// Lexicographic order on strings by character code point. This is the order
/// in which the store enumerates rows: byte order on UTF-8 text, which agrees
/// with code-point order.
pub open spec fn lex_le(a: Seq<char>, b: Seq<char>) -> bool
    decreases a.len(),
{
    if a.len() == 0 {
        true
    } else if b.len() == 0 {
        false
    } else if (a[0] as u32) < (b[0] as u32) {
        true
    } else if (b[0] as u32) < (a[0] as u32) {
        false
    } else {
        lex_le(a.skip(1), b.skip(1))
    }
}

/// One row of a listing: a category and the name of a credential in it.
pub struct EntryV {
    pub category: Seq<char>,
    pub name: Seq<char>,
}

/// Listing order: ascending by category, and by name within one category.
pub open spec fn entry_le(a: EntryV, b: EntryV) -> bool {
    &&& lex_le(a.category, b.category)
    &&& (a.category == b.category ==> lex_le(a.name, b.name))
}

pub open spec fn sorted_entries(v: Seq<EntryV>) -> bool {
    forall|i: int, j: int| 0 <= i <= j < v.len() ==> entry_le(v[i], v[j])
}

/// `None` asks for every credential; `Some(c)` for exactly those whose
/// category equals `c` (so an empty-string filter selects the credentials
/// that have no category).
pub open spec fn match_filter(filter: Option<Seq<char>>, category: Seq<char>) -> bool {
    match filter {
        Some(c) => category == c,
        None => true,
    }
}

/// An entry belongs in a listing of `db` under `filter` when the store holds
/// a credential of that name, in that category, and the filter admits it.
pub open spec fn in_listing(db: Db, filter: Option<Seq<char>>, e: EntryV) -> bool {
    &&& db.contains_key(e.name)
    &&& field_category(db[e.name]) == e.category
    &&& match_filter(filter, e.category)
}

/// What a listing of `db` under `filter` is: sound (every entry is a stored,
/// admitted credential), complete (every admitted credential appears),
/// duplicate-free, and sorted by category and then name.
pub open spec fn listing_of(db: Db, filter: Option<Seq<char>>, v: Seq<EntryV>) -> bool {
    &&& forall|i: int| 0 <= i < v.len() ==> #[trigger] in_listing(db, filter, v[i])
    &&& forall|n: Seq<char>|
        #[trigger] db.contains_key(n) && match_filter(filter, field_category(db[n]))
            ==> exists|i: int| 0 <= i < v.len() && v[i].name == n
    &&& forall|i: int, j: int| 0 <= i < j < v.len() ==> v[i].name != v[j].name
    &&& sorted_entries(v)
}

/// One line of the rendered listing: a category header, or the name of one
/// credential indented under the current header.
pub enum LineV {
    Header(Seq<char>),
    Name(Seq<char>),
}

/// The rendered form of a listing: a header line opens each run of entries
/// whose category differs from the one before it, and every entry contributes
/// its name. `prev` is the category the previous row carried; the very first
/// row is compared against the empty string, so a leading run of uncategorized
/// entries opens with no header at all.
pub open spec fn listing_lines(v: Seq<EntryV>, prev: Seq<char>) -> Seq<LineV>
    decreases v.len(),
{
    if v.len() == 0 {
        Seq::<LineV>::empty()
    } else {
        let e = v[0];
        let rest = listing_lines(v.skip(1), e.category);
        if e.category == prev {
            seq![LineV::Name(e.name)] + rest
        } else {
            seq![LineV::Header(e.category), LineV::Name(e.name)] + rest
        }
    }
}

/// The names carried by the `Name` lines of a rendered listing, in order.
pub open spec fn rendered_names(l: Seq<LineV>) -> Seq<Seq<char>>
    decreases l.len(),
{
    if l.len() == 0 {
        Seq::<Seq<char>>::empty()
    } else {
        let rest = rendered_names(l.skip(1));
        match l[0] {
            LineV::Name(n) => seq![n] + rest,
            LineV::Header(_) => rest,
        }
    }
}

/// Law: rendering loses no credential and invents none: the `Name` lines of
/// a rendered listing carry exactly the names of the listed entries, in the
/// listing's order, whatever headers stand between them.
pub proof fn lemma_rendering_preserves_names(v: Seq<EntryV>, prev: Seq<char>)
    ensures
        rendered_names(listing_lines(v, prev)) == v.map_values(|e: EntryV| e.name),
    decreases v.len(),
{
    if v.len() == 0 {
        assert(rendered_names(listing_lines(v, prev)) =~= v.map_values(|e: EntryV| e.name));
    } else {
        let e = v[0];
        let rest = listing_lines(v.skip(1), e.category);
        lemma_rendering_preserves_names(v.skip(1), e.category);
        let l2 = seq![LineV::Name(e.name)] + rest;
        assert(l2[0] == LineV::Name(e.name));
        assert(l2.skip(1) =~= rest);
        assert(rendered_names(l2) == seq![e.name] + rendered_names(rest));
        if e.category == prev {
            assert(listing_lines(v, prev) == l2);
        } else {
            let l1 = seq![LineV::Header(e.category), LineV::Name(e.name)] + rest;
            assert(listing_lines(v, prev) == l1);
            assert(l1[0] == LineV::Header(e.category));
            assert(l1.skip(1) =~= l2);
            assert(rendered_names(l1) == rendered_names(l2));
        }
        assert(seq![e.name] + v.skip(1).map_values(|x: EntryV| x.name) =~= v.map_values(
            |x: EntryV| x.name,
        ));
    }
}

/// Law: no name is present in a store that holds no credentials, and a name
/// is present immediately after a credential under it is inserted.
pub proof fn lemma_presence_tracks_insertion(db: Db, n: Seq<char>, f: Fields)
    ensures
        !empty_db().contains_key(n),
        db.insert(n, f).contains_key(n),
{
}

/// Law: after a credential named `n` is inserted, the store holds under `n`
/// exactly the fields that were supplied, and every other name is bound as
/// it was before. In particular a second insertion under `n` cannot succeed
/// (the store's insert succeeds only for an absent name), and the one
/// record under `n` is the first one.
pub proof fn lemma_insert_round_trip(db: Db, n: Seq<char>, f: Fields)
    ensures
        db.insert(n, f).contains_key(n),
        db.insert(n, f)[n] == f,
        forall|m: Seq<char>|
            m != n ==> (#[trigger] db.insert(n, f).contains_key(m) == db.contains_key(m)),
        forall|m: Seq<char>|
            m != n && db.contains_key(m) ==> #[trigger] db.insert(n, f)[m] == db[m],
{
}

/// Law: a listing holds every credential its filter admits at exactly one
/// position.
pub proof fn lemma_listing_exactly_once(
    db: Db,
    filter: Option<Seq<char>>,
    v: Seq<EntryV>,
    n: Seq<char>,
)
    requires
        listing_of(db, filter, v),
        db.contains_key(n),
        match_filter(filter, field_category(db[n])),
    ensures
        exists|i: int| 0 <= i < v.len() && v[i].name == n,
        forall|i: int, j: int|
            0 <= i < v.len() && 0 <= j < v.len() && #[trigger] v[i].name == n
                && #[trigger] v[j].name == n ==> i == j,
{
    assert forall|i: int, j: int|
        0 <= i < v.len() && 0 <= j < v.len() && #[trigger] v[i].name == n
            && #[trigger] v[j].name == n implies i == j by {
        if i < j {
            assert(v[i].name != v[j].name);
        } else if j < i {
            assert(v[j].name != v[i].name);
        }
    }
}

} // verus!
