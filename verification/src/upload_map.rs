use vstd::prelude::*;
use std::collections::HashMap;
use crate::error::{Failure, RequestError};
use crate::text::same_text;

verus! {

/// One entry of an upload map as plain values: the name of a file part and
/// the variable paths that its file goes to, in order.
pub type EntryView = (Seq<char>, Seq<Seq<char>>);

/// The texts of a list of strings.
pub open spec fn texts(list: Seq<String>) -> Seq<Seq<char>> {
    Seq::new(list.len(), |i: int| list[i]@)
}

/// The entries of a map as plain values.
pub open spec fn entry_views(entries: Seq<(String, Vec<String>)>) -> Seq<EntryView> {
    Seq::new(entries.len(), |i: int| (entries[i].0@, texts(entries[i].1@)))
}

/// No two entries share a name.
pub open spec fn distinct_keys(entries: Seq<EntryView>) -> bool {
    forall|i: int, j: int| 0 <= i < j < entries.len() ==> entries[i].0 != entries[j].0
}

/// Entry `i` carries the name `key`.
pub open spec fn keyed_at(entries: Seq<EntryView>, key: Seq<char>, i: int) -> bool {
    0 <= i < entries.len() && entries[i].0 == key
}

/// The mapping that a list of entries stands for: from each name to the
/// paths listed under it.
pub open spec fn as_map(entries: Seq<EntryView>) -> Map<Seq<char>, Seq<Seq<char>>> {
    Map::new(
        |key: Seq<char>| exists|i: int| keyed_at(entries, key, i),
        |key: Seq<char>| entries[choose|i: int| keyed_at(entries, key, i)].1,
    )
}

/// An entry of a list with distinct names is found under its name.
pub proof fn lemma_lookup(entries: Seq<EntryView>, i: int)
    requires
        distinct_keys(entries),
        0 <= i < entries.len(),
    ensures
        as_map(entries).contains_key(entries[i].0),
        as_map(entries)[entries[i].0] == entries[i].1,
{
    let key = entries[i].0;
    assert(keyed_at(entries, key, i));
    let found = choose|k: int| keyed_at(entries, key, k);
    assert(keyed_at(entries, key, found));
    if found < i {
        assert(entries[found].0 != entries[i].0);
    } else if i < found {
        assert(entries[i].0 != entries[found].0);
    }
}

/// Taking entry `i` out of a list with distinct names removes its name from
/// the mapping and leaves the other names as they were.
pub proof fn lemma_remove(entries: Seq<EntryView>, i: int)
    requires
        distinct_keys(entries),
        0 <= i < entries.len(),
    ensures
        distinct_keys(entries.remove(i)),
        as_map(entries.remove(i)) == as_map(entries).remove(entries[i].0),
{
    let rest = entries.remove(i);
    let gone = entries[i].0;
    assert forall|a: int, b: int| 0 <= a < b < rest.len() implies rest[a].0 != rest[b].0 by {
        let a0 = if a < i { a } else { a + 1 };
        let b0 = if b < i { b } else { b + 1 };
        assert(rest[a] == entries[a0]);
        assert(rest[b] == entries[b0]);
        assert(entries[a0].0 != entries[b0].0);
    }
    assert forall|key: Seq<char>| #[trigger] as_map(rest).contains_key(key) <==> as_map(
        entries,
    ).remove(gone).contains_key(key) by {
        if as_map(rest).contains_key(key) {
            let k = choose|k: int| keyed_at(rest, key, k);
            let k0 = if k < i { k } else { k + 1 };
            assert(rest[k] == entries[k0]);
            assert(keyed_at(entries, key, k0));
            if k0 < i {
                assert(entries[k0].0 != entries[i].0);
            } else {
                assert(entries[i].0 != entries[k0].0);
            }
        }
        if as_map(entries).remove(gone).contains_key(key) {
            let k0 = choose|k: int| keyed_at(entries, key, k);
            assert(k0 != i);
            let k = if k0 < i { k0 } else { k0 - 1 };
            assert(rest[k] == entries[k0]);
            assert(keyed_at(rest, key, k));
        }
    }
    assert forall|key: Seq<char>| #[trigger] as_map(rest).contains_key(key) implies as_map(rest)[key]
        == as_map(entries).remove(gone)[key] by {
        let k = choose|k: int| keyed_at(rest, key, k);
        let k0 = if k < i { k } else { k + 1 };
        assert(rest[k] == entries[k0]);
        lemma_lookup(rest, k);
        lemma_lookup(entries, k0);
    }
    assert(as_map(rest) =~= as_map(entries).remove(gone));
}

/// Adding an entry under a name that the list does not hold yet adds that
/// name to the mapping.
pub proof fn lemma_push(entries: Seq<EntryView>, entry: EntryView)
    requires
        distinct_keys(entries),
        !as_map(entries).contains_key(entry.0),
    ensures
        distinct_keys(entries.push(entry)),
        as_map(entries.push(entry)) == as_map(entries).insert(entry.0, entry.1),
{
    let more = entries.push(entry);
    assert forall|a: int, b: int| 0 <= a < b < more.len() implies more[a].0 != more[b].0 by {
        if b == entries.len() {
            if more[a].0 == entry.0 {
                assert(keyed_at(entries, entry.0, a));
            }
        }
    }
    assert forall|key: Seq<char>| #[trigger] as_map(more).contains_key(key) <==> as_map(
        entries,
    ).insert(entry.0, entry.1).contains_key(key) by {
        if as_map(more).contains_key(key) {
            let k = choose|k: int| keyed_at(more, key, k);
            if k < entries.len() {
                assert(keyed_at(entries, key, k));
            }
        }
        if as_map(entries).insert(entry.0, entry.1).contains_key(key) {
            if key == entry.0 {
                assert(keyed_at(more, key, entries.len() as int));
            } else {
                let k = choose|k: int| keyed_at(entries, key, k);
                assert(keyed_at(more, key, k));
            }
        }
    }
    assert forall|key: Seq<char>| #[trigger] as_map(more).contains_key(key) implies as_map(more)[key]
        == as_map(entries).insert(entry.0, entry.1)[key] by {
        let k = choose|k: int| keyed_at(more, key, k);
        lemma_lookup(more, k);
        if k < entries.len() {
            lemma_lookup(entries, k);
        }
    }
    assert(as_map(more) =~= as_map(entries).insert(entry.0, entry.1));
}

/// What the `map` part of an upload parses to with `serde_json`: a mapping
/// from names to lists of paths, or the message of the parser where the
/// bytes do not parse as one.
pub uninterp spec fn json_upload_map(data: Seq<u8>) -> Result<
    Map<Seq<char>, Seq<Seq<char>>>,
    Seq<char>,
>;

/// Trusted: `serde_json::from_slice` at the type `HashMap<String,
/// Vec<String>>`. Of a parsed map the entries are handed out as a list; of an
/// error the message is taken, by `<serde_json::Error as Display>`. The
/// contract names the outcome and says that the entries stand for the parsed
/// mapping, no name occurring twice. Of the order of the entries it says
/// nothing.
#[verifier::external_body]
fn read_upload_map(data: &[u8]) -> (parsed: Result<Vec<(String, Vec<String>)>, String>)
    ensures
        parsed matches Ok(entries) ==> distinct_keys(entry_views(entries@)) && json_upload_map(
            data@,
        ) is Ok && json_upload_map(data@)->Ok_0 == as_map(entry_views(entries@)),
        parsed matches Err(message) ==> json_upload_map(data@) is Err && json_upload_map(
            data@,
        )->Err_0 == message@,
{
    match serde_json::from_slice::<HashMap<String, Vec<String>>>(data) {
        Ok(map) => Ok(map.into_iter().collect()),
        Err(error) => Err(error.to_string()),
    }
}

/// What parsing an upload map gives: the mapping, or a parse error with the
/// parser's message.
pub open spec fn parsed_upload_map(data: Seq<u8>) -> Result<Map<Seq<char>, Seq<Seq<char>>>, Failure> {
    match json_upload_map(data) {
        Ok(mapping) => Ok(mapping),
        Err(message) => Err(Failure::ParseError(message)),
    }
}

/// The client's declaration of which file part goes to which variables: a
/// mapping from the name of a file part to the variable paths that its file
/// is substituted at.
///
/// The entries are kept in a list in which no name occurs twice. A
/// `HashMap<String, _>` would not do here: what vstd states of a hash map
/// holds only for keys with a key model, and `String` has none.
pub struct UploadMap {
    entries: Vec<(String, Vec<String>)>,
}

impl View for UploadMap {
    type V = Map<Seq<char>, Seq<Seq<char>>>;

    closed spec fn view(&self) -> Map<Seq<char>, Seq<Seq<char>>> {
        as_map(entry_views(self.entries@))
    }
}

impl UploadMap {
    #[verifier::type_invariant]
    spec fn names_are_distinct(&self) -> bool {
        distinct_keys(entry_views(self.entries@))
    }

    /// A map without entries.
    pub fn new() -> (map: UploadMap)
        ensures
            map@ == Map::<Seq<char>, Seq<Seq<char>>>::empty(),
    {
        let map = UploadMap { entries: Vec::new() };
        assert(map@ =~= Map::<Seq<char>, Seq<Seq<char>>>::empty());
        map
    }

    /// Parses the `map` part of an upload. Fails exactly where the bytes are
    /// not a JSON object of string lists, with a parse error that carries the
    /// message of the parser.
    pub fn parse(data: &[u8]) -> (parsed: Result<UploadMap, RequestError>)
        ensures
            match parsed_upload_map(data@) {
                Ok(mapping) => parsed matches Ok(map) && map@ == mapping,
                Err(failure) => parsed matches Err(error) && error@ == failure,
            },
    {
        match read_upload_map(data) {
            Ok(entries) => Ok(UploadMap { entries }),
            Err(message) => Err(RequestError::ParseError(message)),
        }
    }

    /// The place of the entry under `name`, if there is one.
    fn find(&self, name: &str) -> (place: Option<usize>)
        ensures
            match place {
                Some(i) => keyed_at(entry_views(self.entries@), name@, i as int),
                None => !self@.contains_key(name@),
            },
    {
        let mut i: usize = 0;
        while i < self.entries.len()
            invariant
                i <= self.entries.len(),
                forall|k: int| 0 <= k < i ==> !keyed_at(entry_views(self.entries@), name@, k),
            decreases self.entries.len() - i,
        {
            if same_text(self.entries[i].0.as_str(), name) {
                return Some(i);
            }
            i += 1;
        }
        None
    }

    /// Whether the map lists `name`.
    pub fn contains_key(&self, name: &str) -> (listed: bool)
        ensures
            listed == self@.contains_key(name@),
    {
        match self.find(name) {
            Some(i) => {
                proof {
                    use_type_invariant(self);
                    lemma_lookup(entry_views(self.entries@), i as int);
                }
                true
            },
            None => false,
        }
    }

    /// Whether the map lists nothing.
    pub fn is_empty(&self) -> (empty: bool)
        ensures
            empty == (self@ == Map::<Seq<char>, Seq<Seq<char>>>::empty()),
    {
        let empty = self.entries.len() == 0;
        proof {
            if empty {
                assert(self@ =~= Map::<Seq<char>, Seq<Seq<char>>>::empty());
            } else {
                use_type_invariant(self);
                lemma_lookup(entry_views(self.entries@), 0);
            }
        }
        empty
    }

    /// Takes the entry under `name` out of the map and hands out its paths;
    /// `None`, and the map unchanged, where the map does not list `name`.
    pub fn remove(&mut self, name: &str) -> (removed: Option<Vec<String>>)
        ensures
            match removed {
                Some(paths) => old(self)@.contains_key(name@) && texts(paths@) == old(self)@[name@]
                    && final(self)@ == old(self)@.remove(name@),
                None => !old(self)@.contains_key(name@) && final(self)@ == old(self)@,
            },
    {
        match self.find(name) {
            Some(i) => {
                proof {
                    use_type_invariant(&*self);
                    lemma_lookup(entry_views(self.entries@), i as int);
                    lemma_remove(entry_views(self.entries@), i as int);
                    assert(entry_views(self.entries@.remove(i as int)) =~= entry_views(
                        self.entries@,
                    ).remove(i as int));
                }
                let mut entries: Vec<(String, Vec<String>)> = Vec::new();
                std::mem::swap(&mut self.entries, &mut entries);
                let entry = entries.remove(i);
                std::mem::swap(&mut self.entries, &mut entries);
                Some(entry.1)
            },
            None => None,
        }
    }

    /// Lists `paths` under `name`, in place of what was listed under it.
    pub fn insert(&mut self, name: String, paths: Vec<String>)
        ensures
            final(self)@ == old(self)@.insert(name@, texts(paths@)),
    {
        let _ = self.remove(name.as_str());
        proof {
            use_type_invariant(&*self);
            lemma_push(entry_views(self.entries@), (name@, texts(paths@)));
            assert(entry_views(self.entries@.push((name, paths))) =~= entry_views(
                self.entries@,
            ).push((name@, texts(paths@))));
            assert(old(self)@.remove(name@).insert(name@, texts(paths@)) =~= old(self)@.insert(
                name@,
                texts(paths@),
            ));
        }
        let mut entries: Vec<(String, Vec<String>)> = Vec::new();
        std::mem::swap(&mut self.entries, &mut entries);
        entries.push((name, paths));
        std::mem::swap(&mut self.entries, &mut entries);
    }
}

} // verus!
