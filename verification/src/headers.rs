//! HTTP headers: a multimap from case-insensitive names to ordered values.
//!
//! The storage is `http::HeaderMap`. Its behaviour is described by the
//! contracts of the private functions at the end of this file; everything
//! else in the crate is proved against those contracts.

use crate::text::views;
use http::HeaderMap;
use http::HeaderName;
use http::HeaderValue;
use vstd::prelude::*;

verus! {

/// Why a header could not be stored.
#[derive(Clone, Copy, Debug, PartialEq, Eq, Structural)]
pub enum HeaderError {
    /// The name is empty, too long, or holds a byte that is not a token character.
    InvalidName,
    /// The value holds a control byte other than a tab.
    InvalidValue,
    /// The map refused to grow.
    TooManyHeaders,
}

/// The mathematical content of a header collection: each canonical (lower
/// case) name that is present, with its values in insertion order.
pub type HeaderEntries = Map<Seq<char>, Seq<Seq<u8>>>;

/// Longest header name that can be stored, in bytes.
pub const MAX_NAME_LEN: usize = 65535;

/// The characters a header name may hold.
pub open spec fn is_token_char(c: char) -> bool {
    ||| 'a' <= c <= 'z'
    ||| 'A' <= c <= 'Z'
    ||| '0' <= c <= '9'
    ||| c == '!'
    ||| c == '#'
    ||| c == '$'
    ||| c == '%'
    ||| c == '&'
    ||| c == '\''
    ||| c == '*'
    ||| c == '+'
    ||| c == '-'
    ||| c == '.'
    ||| c == '^'
    ||| c == '_'
    ||| c == '`'
    ||| c == '|'
    ||| c == '~'
}

/// A name that can be stored: one to `MAX_NAME_LEN` token characters.
pub open spec fn valid_name(name: Seq<char>) -> bool {
    &&& 1 <= name.len() <= MAX_NAME_LEN
    &&& forall|i: int| 0 <= i < name.len() ==> is_token_char(#[trigger] name[i])
}

/// ASCII lower case of one character.
pub open spec fn lower_char(c: char) -> char {
    if 'A' <= c <= 'Z' {
        ((c as u32) + 32) as char
    } else {
        c
    }
}

/// The form under which a name is stored and found: ASCII lower case.
pub open spec fn canonical_name(name: Seq<char>) -> Seq<char> {
    Seq::new(name.len(), |i: int| lower_char(name[i]))
}

/// A byte that a header value may hold.
pub open spec fn is_value_byte(b: u8) -> bool {
    (b >= 32 && b != 127) || b == 9
}

/// A value that can be stored.
pub open spec fn valid_value(value: Seq<u8>) -> bool {
    forall|i: int| 0 <= i < value.len() ==> is_value_byte(#[trigger] value[i])
}

/// The number of names below which a collection never refuses another
/// header. The map refuses a header only where it would have to grow past
/// its largest size, and with fewer names than this it never has to.
pub const HEADROOM: usize = 6000;

/// Whether a collection with these entries takes another header for
/// certain, even after `more` names have been added to it.
pub open spec fn room_for(entries: HeaderEntries, more: nat) -> bool {
    entries.dom().finite() && entries.dom().len() + more < HEADROOM
}

/// Whether a collection with these entries takes another header for
/// certain.
pub open spec fn has_room(entries: HeaderEntries) -> bool {
    room_for(entries, 0)
}

/// Whether every pair is a header name with a header value.
pub open spec fn valid_pairs(pairs: Seq<(Seq<char>, Seq<u8>)>) -> bool {
    forall|i: int|
        0 <= i < pairs.len() ==> valid_name((#[trigger] pairs[i]).0) && valid_value(pairs[i].1)
}

/// The content of a collection without headers.
pub open spec fn no_entries() -> HeaderEntries {
    Map::empty()
}

/// The values stored under `name`, empty when the name is absent.
pub open spec fn values_of(entries: HeaderEntries, name: Seq<char>) -> Seq<Seq<u8>> {
    if valid_name(name) && entries.contains_key(canonical_name(name)) {
        entries[canonical_name(name)]
    } else {
        Seq::empty()
    }
}

/// Whether `name` is present.
pub open spec fn has_name(entries: HeaderEntries, name: Seq<char>) -> bool {
    valid_name(name) && entries.contains_key(canonical_name(name))
}

/// The names of a list, as a sequence.
pub open spec fn name_views(names: Seq<String>) -> Seq<Seq<char>> {
    Seq::new(names.len(), |i: int| names[i]@)
}

/// A list that holds every name of a collection once has as many items as
/// the collection has names, and these are finitely many.
pub proof fn lemma_names_count(entries: HeaderEntries, names: Seq<String>)
    requires
        forall|i: int| 0 <= i < names.len() ==> entries.contains_key(#[trigger] names[i]@),
        forall|n: Seq<char>| #[trigger]
            entries.contains_key(n) ==> exists|i: int| 0 <= i < names.len() && names[i]@ == n,
        forall|i: int, j: int|
            0 <= i < j < names.len() ==> (#[trigger] names[i])@ != (#[trigger] names[j])@,
    ensures
        entries.dom().finite(),
        entries.dom().len() == names.len(),
{
    let listed = name_views(names);
    assert(listed.no_duplicates()) by {
        assert forall|i: int, j: int|
            0 <= i < listed.len() && 0 <= j < listed.len() && i != j implies listed[i]
            != listed[j] by {
            if i < j {
                assert(names[i]@ != names[j]@);
            } else {
                assert(names[j]@ != names[i]@);
            }
        }
    }
    assert(entries.dom() =~= listed.to_set()) by {
        assert forall|n: Seq<char>| entries.dom().contains(n) implies listed.to_set().contains(
            n,
        ) by {
            let i = choose|i: int| 0 <= i < names.len() && names[i]@ == n;
            assert(listed[i] == n);
        }
        assert forall|n: Seq<char>| listed.to_set().contains(n) implies entries.dom().contains(
            n,
        ) by {
            let i = choose|i: int| 0 <= i < listed.len() && listed[i] == n;
            assert(entries.contains_key(names[i]@));
        }
    }
    vstd::seq_lib::seq_to_set_is_finite(listed);
    listed.unique_seq_to_set();
}

/// A collection of HTTP headers.
#[derive(Debug)]
pub struct Headers {
    map: HeaderMap,
}

impl View for Headers {
    type V = HeaderEntries;

    closed spec fn view(&self) -> HeaderEntries {
        header_entries(self.map)
    }
}

impl Headers {
    /// An empty collection.
    pub fn new() -> (headers: Self)
        ensures
            headers@ == no_entries(),
    {
        Headers { map: map_new() }
    }

    /// The first value stored under `name`.
    pub fn get(&self, name: &str) -> (value: Option<Vec<u8>>)
        ensures
            value is Some <==> has_name(self@, name@),
            value matches Some(v) ==> self@[canonical_name(name@)].len() > 0 && v@
                == self@[canonical_name(name@)][0] && valid_value(v@),
    {
        map_get(&self.map, name)
    }

    /// Every value stored under `name`, oldest first.
    pub fn get_all(&self, name: &str) -> (values: Vec<Vec<u8>>)
        ensures
            views(values@) == values_of(self@, name@),
            has_name(self@, name@) ==> values.len() > 0,
            forall|i: int| 0 <= i < values.len() ==> valid_value(#[trigger] values[i]@),
    {
        map_get_all(&self.map, name)
    }

    /// Whether a value is stored under `name`.
    pub fn contains(&self, name: &str) -> (present: bool)
        ensures
            present == has_name(self@, name@),
    {
        map_contains(&self.map, name)
    }

    /// Stores `value` as the only value of `name`, and hands back the first
    /// value that was there before.
    pub fn insert(&mut self, name: &str, value: &[u8]) -> (previous: Result<Option<Vec<u8>>, HeaderError>)
        ensures
            !valid_name(name@) ==> previous matches Err(HeaderError::InvalidName),
            valid_name(name@) && !valid_value(value@) ==> previous matches Err(HeaderError::InvalidValue),
            valid_name(name@) && valid_value(value@) ==> (previous is Ok || previous matches Err(HeaderError::TooManyHeaders)),
            valid_name(name@) && valid_value(value@) && has_room(old(self)@) ==> previous is Ok,
            previous is Err ==> final(self)@ == old(self)@,
            previous matches Ok(p) ==> {
                &&& final(self)@ == old(self)@.insert(canonical_name(name@), seq![value@])
                &&& p is Some <==> has_name(old(self)@, name@)
                &&& p matches Some(v) ==> old(self)@[canonical_name(name@)].len() > 0 && v@ == old(
                    self,
                )@[canonical_name(name@)][0]
            },
    {
        map_insert(&mut self.map, name, value)
    }

    /// Adds `value` after the values already stored under `name`.
    pub fn append(&mut self, name: &str, value: &[u8]) -> (outcome: Result<(), HeaderError>)
        ensures
            !valid_name(name@) ==> outcome matches Err(HeaderError::InvalidName),
            valid_name(name@) && !valid_value(value@) ==> outcome matches Err(HeaderError::InvalidValue),
            valid_name(name@) && valid_value(value@) ==> (outcome is Ok || outcome matches Err(HeaderError::TooManyHeaders)),
            valid_name(name@) && valid_value(value@) && has_room(old(self)@) ==> outcome is Ok,
            outcome is Err ==> final(self)@ == old(self)@,
            outcome is Ok ==> final(self)@ == old(self)@.insert(
                canonical_name(name@),
                values_of(old(self)@, name@).push(value@),
            ),
    {
        map_append(&mut self.map, name, value)
    }

    /// Removes every value of `name`, and hands back the first of them.
    pub fn remove(&mut self, name: &str) -> (removed: Option<Vec<u8>>)
        ensures
            removed is Some <==> has_name(old(self)@, name@),
            removed matches Some(v) ==> old(self)@[canonical_name(name@)].len() > 0 && v@ == old(
                self,
            )@[canonical_name(name@)][0],
            has_name(old(self)@, name@) ==> final(self)@ == old(self)@.remove(
                canonical_name(name@),
            ),
            !has_name(old(self)@, name@) ==> final(self)@ == old(self)@,
    {
        map_remove(&mut self.map, name)
    }

    /// The names that are present, each once, in canonical form.
    pub fn names(&self) -> (names: Vec<String>)
        ensures
            forall|i: int|
                0 <= i < names.len() ==> self@.contains_key(#[trigger] names[i]@) && valid_name(
                    names[i]@,
                ) && canonical_name(names[i]@) == names[i]@,
            forall|n: Seq<char>| #[trigger]
                self@.contains_key(n) ==> exists|i: int| 0 <= i < names.len() && names[i]@ == n,
            forall|i: int, j: int|
                0 <= i < j < names.len() ==> (#[trigger] names[i])@ != (#[trigger] names[j])@,
            self@.dom().finite() && names.len() == self@.dom().len(),
    {
        let names = map_names(&self.map);
        proof {
            lemma_names_count(self@, names@);
        }
        names
    }

    /// A copy with the same content.
    pub fn duplicate(&self) -> (copy: Self)
        ensures
            copy@ == self@,
    {
        Headers { map: map_clone(&self.map) }
    }
}

impl Clone for Headers {
    fn clone(&self) -> (copy: Self)
        ensures
            copy@ == self@,
    {
        self.duplicate()
    }
}

/// The content of a list of name and value pairs.
pub open spec fn pair_views(pairs: Seq<(String, Vec<u8>)>) -> Seq<(Seq<char>, Seq<u8>)> {
    Seq::new(pairs.len(), |i: int| (pairs[i].0@, pairs[i].1@))
}

/// The headers that come of adding the given pairs of a name and a value,
/// one after the other, to an empty collection.
pub open spec fn entries_of(pairs: Seq<(Seq<char>, Seq<u8>)>) -> HeaderEntries
    decreases pairs.len(),
{
    if pairs.len() == 0 {
        Map::empty()
    } else {
        let before = entries_of(pairs.drop_last());
        before.insert(
            canonical_name(pairs.last().0),
            values_of(before, pairs.last().0).push(pairs.last().1),
        )
    }
}

/// The headers that come of a list of pairs have finitely many names, and
/// among them are the names that come of any first part of the list.
pub proof fn lemma_entries_prefix(pairs: Seq<(Seq<char>, Seq<u8>)>, upto: int)
    requires
        0 <= upto <= pairs.len(),
    ensures
        entries_of(pairs).dom().finite(),
        entries_of(pairs.subrange(0, upto)).dom().subset_of(entries_of(pairs).dom()),
    decreases pairs.len(),
{
    if upto == pairs.len() {
        assert(pairs.subrange(0, upto) =~= pairs);
        if pairs.len() > 0 {
            lemma_entries_prefix(pairs.drop_last(), 0);
        }
    } else {
        lemma_entries_prefix(pairs.drop_last(), upto);
        assert(pairs.subrange(0, upto) =~= pairs.drop_last().subrange(0, upto));
    }
}

/// The part of `entries` under the first `upto` of `names`.
pub open spec fn only(entries: HeaderEntries, names: Seq<String>, upto: int) -> HeaderEntries {
    Map::new(
        |n: Seq<char>| entries.contains_key(n) && exists|k: int| 0 <= k < upto && names[k]@ == n,
        |n: Seq<char>| entries[n],
    )
}

/// `entries`, with the values under the first `upto` of `names` replaced by
/// those that `update` has under these names.
pub open spec fn updated(
    entries: HeaderEntries,
    update: HeaderEntries,
    names: Seq<String>,
    upto: int,
) -> HeaderEntries {
    entries.union_prefer_right(only(update, names, upto))
}

/// `base` and `extra` together: under every name the values that `base`
/// has for it, followed by those that `extra` has.
pub open spec fn joined(base: HeaderEntries, extra: HeaderEntries) -> HeaderEntries {
    Map::new(
        |n: Seq<char>| base.contains_key(n) || extra.contains_key(n),
        |n: Seq<char>|
            (if base.contains_key(n) {
                base[n]
            } else {
                Seq::empty()
            }) + (if extra.contains_key(n) {
                extra[n]
            } else {
                Seq::empty()
            }),
    )
}

impl Headers {
    /// Every header as a pair of its name and one value: the values of one
    /// name in their order, the names in an order that the collection
    /// chooses.
    pub fn iter(&self) -> (pairs: Vec<(String, Vec<u8>)>)
        ensures
            entries_of(pair_views(pairs@)) == self@,
            valid_pairs(pair_views(pairs@)),
    {
        let names = self.names();
        let mut pairs: Vec<(String, Vec<u8>)> = Vec::new();
        let mut i: usize = 0;
        while i < names.len()
            invariant
                i <= names.len(),
                forall|k: int|
                    0 <= k < names.len() ==> self@.contains_key(#[trigger] names[k]@)
                        && valid_name(names[k]@) && canonical_name(names[k]@) == names[k]@,
                forall|a: int, b: int|
                    0 <= a < b < names.len() ==> (#[trigger] names[a])@ != (#[trigger] names[b])@,
                entries_of(pair_views(pairs@)) == only(self@, names@, i as int),
                valid_pairs(pair_views(pairs@)),
            decreases names.len() - i,
        {
            let name = &names[i];
            let values = self.get_all(name.as_str());
            let ghost base = only(self@, names@, i as int);
            let mut j: usize = 0;
            while j < values.len()
                invariant
                    j <= values.len(),
                    valid_name(name@),
                    canonical_name(name@) == name@,
                    !base.contains_key(name@),
                    forall|k: int| 0 <= k < values.len() ==> valid_value(#[trigger] values[k]@),
                    valid_pairs(pair_views(pairs@)),
                    j == 0 ==> entries_of(pair_views(pairs@)) == base,
                    j > 0 ==> entries_of(pair_views(pairs@)) == base.insert(
                        name@,
                        views(values@).subrange(0, j as int),
                    ),
                decreases values.len() - j,
            {
                let ghost before = pair_views(pairs@);
                pairs.push((name.clone(), values[j].clone()));
                proof {
                    let after = pair_views(pairs@);
                    assert(after.drop_last() =~= before);
                    assert forall|k: int| 0 <= k < after.len() implies valid_name(
                        (#[trigger] after[k]).0,
                    ) && valid_value(after[k].1) by {
                        if k < before.len() {
                            assert(after[k] == before[k]);
                        }
                    }
                    let so_far = views(values@).subrange(0, j as int);
                    let more = views(values@).subrange(0, j + 1);
                    assert(more =~= so_far.push(values@[j as int]@));
                    if j == 0 {
                        assert(so_far =~= Seq::<Seq<u8>>::empty());
                    }
                }
                j += 1;
            }
            proof {
                assert(views(values@).subrange(0, values.len() as int) =~= views(values@));
            }
            i += 1;
        }
        pairs
    }

    /// Adds the values of every name that `extra` holds after the values
    /// that this collection has for it. Where the collection cannot be
    /// written, it is left as it was.
    pub fn extend(&mut self, extra: &Headers) -> (outcome: Result<(), HeaderError>)
        ensures
            outcome is Ok ==> final(self)@ == joined(old(self)@, extra@),
            outcome is Err ==> final(self)@ == old(self)@,
            extra@ == no_entries() ==> outcome is Ok,
            room_for(old(self)@, extra@.dom().len()) ==> outcome is Ok,
            outcome is Ok && old(self)@.dom().finite() ==> final(self)@.dom().finite()
                && final(self)@.dom().len() <= old(self)@.dom().len() + extra@.dom().len(),
    {
        let names = extra.names();
        let mut staged = self.duplicate();
        let mut i: usize = 0;
        while i < names.len()
            invariant
                i <= names.len(),
                *self == *old(self),
                names.len() == extra@.dom().len(),
                self@.dom().finite() ==> staged@.dom().finite() && staged@.dom().len()
                    <= self@.dom().len() + i,
                forall|k: int|
                    0 <= k < names.len() ==> extra@.contains_key(#[trigger] names[k]@)
                        && valid_name(names[k]@) && canonical_name(names[k]@) == names[k]@,
                forall|a: int, b: int|
                    0 <= a < b < names.len() ==> (#[trigger] names[a])@ != (#[trigger] names[b])@,
                staged@ == joined(self@, only(extra@, names@, i as int)),
            decreases names.len() - i,
        {
            let name = &names[i];
            let values = extra.get_all(name.as_str());
            let ghost pre = staged@;
            let mut j: usize = 0;
            while j < values.len()
                invariant
                    j <= values.len(),
                    *self == *old(self),
                    valid_name(name@),
                    canonical_name(name@) == name@,
                    extra@.contains_key(name@),
                    i < names.len(),
                    names.len() == extra@.dom().len(),
                    forall|k: int| 0 <= k < values.len() ==> valid_value(#[trigger] values[k]@),
                    self@.dom().finite() ==> pre.dom().finite() && pre.dom().len()
                        <= self@.dom().len() + i,
                    j == 0 ==> staged@ == pre,
                    j > 0 ==> staged@ == pre.insert(
                        name@,
                        values_of(pre, name@) + views(values@).subrange(0, j as int),
                    ),
                decreases values.len() - j,
            {
                match staged.append(name.as_str(), values[j].as_slice()) {
                    Ok(_) => {},
                    Err(e) => {
                        return Err(e);
                    },
                }
                proof {
                    let so_far = views(values@).subrange(0, j as int);
                    let more = views(values@).subrange(0, j + 1);
                    assert(more =~= so_far.push(values@[j as int]@));
                    if j == 0 {
                        assert(values_of(pre, name@).push(values@[j as int]@) =~= values_of(
                            pre,
                            name@,
                        ) + more);
                    }
                }
                j += 1;
            }
            proof {
                assert(views(values@).subrange(0, values.len() as int) =~= views(values@));
                let next = joined(self@, only(extra@, names@, i + 1));
                let now = pre.insert(name@, values_of(pre, name@) + extra@[name@]);
                assert(now =~= next);
            }
            i += 1;
        }
        *self = staged;
        Ok(())
    }

    /// Replaces the values of every name that `update` holds by the values
    /// that `update` has for it. Where the collection cannot be written, it
    /// is left as it was.
    pub fn update(&mut self, update: &Headers) -> (outcome: Result<(), HeaderError>)
        ensures
            outcome is Ok ==> final(self)@ == old(self)@.union_prefer_right(update@),
            outcome is Err ==> final(self)@ == old(self)@,
            update@ == no_entries() ==> outcome is Ok,
            room_for(old(self)@, update@.dom().len()) ==> outcome is Ok,
            outcome is Ok && old(self)@.dom().finite() ==> final(self)@.dom().finite()
                && final(self)@.dom().len() <= old(self)@.dom().len() + update@.dom().len(),
    {
        let names = update.names();
        let mut staged = self.duplicate();
        let mut i: usize = 0;
        while i < names.len()
            invariant
                i <= names.len(),
                *self == *old(self),
                names.len() == update@.dom().len(),
                self@.dom().finite() ==> staged@.dom().finite() && staged@.dom().len()
                    <= self@.dom().len() + i,
                forall|k: int|
                    0 <= k < names.len() ==> update@.contains_key(#[trigger] names[k]@)
                        && valid_name(names[k]@) && canonical_name(names[k]@) == names[k]@,
                forall|n: Seq<char>| #[trigger]
                    update@.contains_key(n) ==> exists|k: int|
                        0 <= k < names.len() && names[k]@ == n,
                staged@ == updated(self@, update@, names@, i as int),
            decreases names.len() - i,
        {
            let name = &names[i];
            let values = update.get_all(name.as_str());
            let ghost base = staged@;
            match staged.insert(name.as_str(), values[0].as_slice()) {
                Ok(_) => {},
                Err(e) => {
                    return Err(e);
                },
            }
            assert(staged@ == base.insert(name@, views(values@).subrange(0, 1))) by {
                assert(views(values@).subrange(0, 1) =~= seq![values@[0]@]);
            }
            let mut j: usize = 1;
            while j < values.len()
                invariant
                    1 <= j <= values.len(),
                    *self == *old(self),
                    update@.contains_key(names[i as int]@),
                    i < names.len(),
                    names.len() == update@.dom().len(),
                    forall|k: int| 0 <= k < values.len() ==> valid_value(#[trigger] values[k]@),
                    self@.dom().finite() ==> base.dom().finite() && base.dom().len()
                        <= self@.dom().len() + i,
                    valid_name(name@),
                    canonical_name(name@) == name@,
                    staged@ == base.insert(name@, views(values@).subrange(0, j as int)),
                decreases values.len() - j,
            {
                match staged.append(name.as_str(), values[j].as_slice()) {
                    Ok(_) => {},
                    Err(e) => {
                        return Err(e);
                    },
                }
                proof {
                    let so_far = views(values@).subrange(0, j as int);
                    let more = views(values@).subrange(0, j + 1);
                    assert(more =~= so_far.push(values@[j as int]@));
                }
                j += 1;
            }
            proof {
                assert(views(values@).subrange(0, values.len() as int) =~= views(values@));
                let next = updated(self@, update@, names@, i + 1);
                assert(base.insert(name@, update@[name@]) =~= next);
            }
            i += 1;
        }
        *self = staged;
        Ok(())
    }
}


/// `http::HeaderMap`, of which the verifier sees nothing but what the
/// functions below say.
#[verifier::external_type_specification]
#[verifier::external_body]
#[verifier::reject_recursive_types(T)]
pub struct ExHeaderMap<T>(HeaderMap<T>);

/// `http::HeaderValue`, which the map holds and which never leaves the
/// functions below.
#[verifier::external_type_specification]
#[verifier::external_body]
pub struct ExHeaderValue(HeaderValue);

/// What an `http::HeaderMap` holds: for each name that has at least one
/// value, the values in the order in which they were added. Names are in the
/// lower-case form in which the map keeps them.
pub uninterp spec fn header_entries(map: HeaderMap<HeaderValue>) -> HeaderEntries;

/// `HeaderMap::new`: a map without entries.
#[verifier::external_body]
fn map_new() -> (created: HeaderMap<HeaderValue>)
    ensures
        header_entries(created) == no_entries(),
{
    HeaderMap::new()
}

/// `HeaderMap::clone`: a map with the same entries.
#[verifier::external_body]
fn map_clone(map: &HeaderMap<HeaderValue>) -> (copy: HeaderMap<HeaderValue>)
    ensures
        header_entries(copy) == header_entries(*map),
{
    map.clone()
}

/// `HeaderMap::get` with a string key: the first value of the name, found
/// without regard to ASCII case; nothing for a name that is absent or that
/// is no header name at all. The map keeps values as `HeaderValue`, which
/// holds only bytes that a header value may hold.
#[verifier::external_body]
fn map_get(map: &HeaderMap<HeaderValue>, name: &str) -> (value: Option<Vec<u8>>)
    ensures
        value is Some <==> has_name(header_entries(*map), name@),
        value matches Some(v) ==> header_entries(*map)[canonical_name(name@)].len() > 0 && v@
            == header_entries(*map)[canonical_name(name@)][0] && valid_value(v@),
{
    map.get(name).map(|v| v.as_bytes().to_vec())
}

/// `HeaderMap::get_all` with a string key: all values of the name, in the
/// order in which they were added; at least one for a name that is present.
/// Each is a `HeaderValue`, which holds only bytes that a header value may
/// hold.
#[verifier::external_body]
fn map_get_all(map: &HeaderMap<HeaderValue>, name: &str) -> (values: Vec<Vec<u8>>)
    ensures
        views(values@) == values_of(header_entries(*map), name@),
        has_name(header_entries(*map), name@) ==> values.len() > 0,
        forall|i: int| 0 <= i < values.len() ==> valid_value(#[trigger] values[i]@),
{
    map.get_all(name).iter().map(|v| v.as_bytes().to_vec()).collect()
}

/// `HeaderMap::contains_key` with a string key.
#[verifier::external_body]
fn map_contains(map: &HeaderMap<HeaderValue>, name: &str) -> (present: bool)
    ensures
        present == has_name(header_entries(*map), name@),
{
    map.contains_key(name)
}

/// `HeaderMap::try_insert`, after `HeaderName::from_bytes` and
/// `HeaderValue::from_bytes` have accepted the name and the value. The name
/// is stored in lower case; the new value replaces all earlier ones; the
/// first earlier value is handed back. The map may refuse to grow, and is
/// then left as it was. It refuses only where its table, which has at most
/// 32768 slots, would have to double, or where it holds 32768 names; its
/// table doubles when three quarters of it are in use, or, where too many
/// names collide, when a fifth of it is. With fewer than 6554 names neither
/// can ask for more than 32768 slots, so that below `HEADROOM` names the map
/// does not refuse.
#[verifier::external_body]
fn map_insert(map: &mut HeaderMap<HeaderValue>, name: &str, value: &[u8]) -> (previous: Result<Option<Vec<u8>>, HeaderError>)
    ensures
        !valid_name(name@) ==> previous matches Err(HeaderError::InvalidName),
        valid_name(name@) && !valid_value(value@) ==> previous matches Err(HeaderError::InvalidValue),
        valid_name(name@) && valid_value(value@) ==> (previous is Ok || previous matches Err(HeaderError::TooManyHeaders)),
        valid_name(name@) && valid_value(value@) && has_room(header_entries(*old(map)))
            ==> previous is Ok,
        previous is Err ==> header_entries(*final(map)) == header_entries(*old(map)),
        previous matches Ok(p) ==> {
            &&& header_entries(*final(map)) == header_entries(*old(map)).insert(
                canonical_name(name@),
                seq![value@],
            )
            &&& p is Some <==> has_name(header_entries(*old(map)), name@)
            &&& p matches Some(v) ==> header_entries(*old(map))[canonical_name(name@)].len() > 0
                && v@ == header_entries(*old(map))[canonical_name(name@)][0]
        },
{
    let Ok(key) = HeaderName::from_bytes(name.as_bytes()) else {
        return Err(HeaderError::InvalidName);
    };
    let Ok(val) = HeaderValue::from_bytes(value) else {
        return Err(HeaderError::InvalidValue);
    };
    match map.try_insert(key, val) {
        Ok(previous) => Ok(previous.map(|v| v.as_bytes().to_vec())),
        Err(_) => Err(HeaderError::TooManyHeaders),
    }
}

/// `HeaderMap::try_append`, after `HeaderName::from_bytes` and
/// `HeaderValue::from_bytes` have accepted the name and the value. The new
/// value comes after the values that the name already has. The map may
/// refuse to grow, and is then left as it was; as for `try_insert`, it does
/// not refuse while it holds fewer than `HEADROOM` names.
#[verifier::external_body]
fn map_append(map: &mut HeaderMap<HeaderValue>, name: &str, value: &[u8]) -> (outcome: Result<(), HeaderError>)
    ensures
        !valid_name(name@) ==> outcome matches Err(HeaderError::InvalidName),
        valid_name(name@) && !valid_value(value@) ==> outcome matches Err(HeaderError::InvalidValue),
        valid_name(name@) && valid_value(value@) ==> (outcome is Ok || outcome matches Err(HeaderError::TooManyHeaders)),
        valid_name(name@) && valid_value(value@) && has_room(header_entries(*old(map)))
            ==> outcome is Ok,
        outcome is Err ==> header_entries(*final(map)) == header_entries(*old(map)),
        outcome is Ok ==> header_entries(*final(map)) == header_entries(*old(map)).insert(
            canonical_name(name@),
            values_of(header_entries(*old(map)), name@).push(value@),
        ),
{
    let Ok(key) = HeaderName::from_bytes(name.as_bytes()) else {
        return Err(HeaderError::InvalidName);
    };
    let Ok(val) = HeaderValue::from_bytes(value) else {
        return Err(HeaderError::InvalidValue);
    };
    match map.try_append(key, val) {
        Ok(_) => Ok(()),
        Err(_) => Err(HeaderError::TooManyHeaders),
    }
}

/// `HeaderMap::remove` with a string key: all values of the name leave the
/// map, and the first of them is handed back.
#[verifier::external_body]
fn map_remove(map: &mut HeaderMap<HeaderValue>, name: &str) -> (removed: Option<Vec<u8>>)
    ensures
        removed is Some <==> has_name(header_entries(*old(map)), name@),
        removed matches Some(v) ==> header_entries(*old(map))[canonical_name(name@)].len() > 0
            && v@ == header_entries(*old(map))[canonical_name(name@)][0],
        has_name(header_entries(*old(map)), name@) ==> header_entries(*final(map))
            == header_entries(*old(map)).remove(canonical_name(name@)),
        !has_name(header_entries(*old(map)), name@) ==> header_entries(*final(map))
            == header_entries(*old(map)),
{
    map.remove(name).map(|v| v.as_bytes().to_vec())
}

/// `HeaderMap::keys`: every name that is present, once, in an order that
/// the map chooses. The map keeps names as `HeaderName`, which holds only
/// valid names, in lower case.
#[verifier::external_body]
fn map_names(map: &HeaderMap<HeaderValue>) -> (names: Vec<String>)
    ensures
        forall|i: int|
            0 <= i < names.len() ==> header_entries(*map).contains_key(#[trigger] names[i]@)
                && valid_name(names[i]@) && canonical_name(names[i]@) == names[i]@,
        forall|n: Seq<char>| #[trigger]
            header_entries(*map).contains_key(n) ==> exists|i: int|
                0 <= i < names.len() && names[i]@ == n,
        forall|i: int, j: int|
            0 <= i < j < names.len() ==> (#[trigger] names[i])@ != (#[trigger] names[j])@,
{
    map.keys().map(|k| k.as_str().to_string()).collect()
}

} // verus!
