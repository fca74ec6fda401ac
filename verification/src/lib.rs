//! Evaluation of a security against a fixed set of investment analyzers:
//! the decisions of the orchestrator, of the streaming completion client and
//! of the answer extractor, stated as contracts and proved.

use vstd::prelude::*;
use vstd::hash_map::StringHashMap;
use vstd::string::*;
use crate::utils::text::{
    find_char,
    has_prefix,
    index_of,
    starts_with,
    string_views,
    to_lowercase,
    trim,
    trimmed,
    unicode_lowercase,
};

pub mod api;
pub mod cli;
pub mod data;
pub mod error;
pub mod evaluate;
pub mod financial;
pub mod json;
pub mod llm;
pub mod master;
pub mod utils;

verus! {

/// How many events may wait between the reader of a response and its
/// consumer.
pub const CHANNEL_BUFFER_DEFAULT: usize = 64;

/// Options, each written as a name, a colon and a value.
pub struct VecOptions<'a>(pub &'a [String]);

/// Whether `item` is the option `name`: in lower case it begins with the
/// name in lower case and a colon.
pub open spec fn names_option(item: Seq<char>, name: Seq<char>) -> bool {
    has_prefix(unicode_lowercase(item), unicode_lowercase(name) + ":"@)
}

/// The name of an option: what stands before its first colon. An item
/// without a colon is no option.
pub open spec fn option_name(item: Seq<char>) -> Option<Seq<char>> {
    let colon = index_of(item, ':', 0);
    if colon < item.len() {
        Some(item.subrange(0, colon))
    } else {
        None
    }
}

/// The value of an option: what stands behind its first colon, trimmed.
pub open spec fn option_value(item: Seq<char>) -> Option<Seq<char>> {
    let colon = index_of(item, ':', 0);
    if colon < item.len() {
        Some(trimmed(item.subrange(colon + 1, item.len() as int)))
    } else {
        None
    }
}

/// Index of the first of `items` from `from` on that is the option `name`,
/// or the number of items if none is.
pub open spec fn first_named(items: Seq<Seq<char>>, name: Seq<char>, from: int) -> int
    decreases items.len() - from,
{
    if from < 0 || from >= items.len() {
        items.len() as int
    } else if names_option(items[from], name) {
        from
    } else {
        first_named(items, name, from + 1)
    }
}

/// The value of the first of `items` that is the option `name`.
pub open spec fn named_value(items: Seq<Seq<char>>, name: Seq<char>) -> Option<Seq<char>> {
    let at = first_named(items, name, 0);
    if at < items.len() {
        option_value(items[at])
    } else {
        None
    }
}

/// The names and values of the options among `items`, in order.
pub open spec fn option_pairs(items: Seq<Seq<char>>) -> Seq<(Seq<char>, Seq<char>)>
    decreases items.len(),
{
    if items.len() == 0 {
        Seq::empty()
    } else {
        let rest = option_pairs(items.drop_last());
        match option_name(items.last()) {
            Some(name) => rest.push((name, option_value(items.last())->0)),
            None => rest,
        }
    }
}

/// The values of the options among `items` by name; of two options of one
/// name the later one.
pub open spec fn option_values(items: Seq<Seq<char>>) -> Map<Seq<char>, Seq<char>>
    decreases items.len(),
{
    if items.len() == 0 {
        Map::empty()
    } else {
        let rest = option_values(items.drop_last());
        match option_name(items.last()) {
            Some(name) => rest.insert(name, option_value(items.last())->0),
            None => rest,
        }
    }
}

/// The views of a list of names and values.
pub open spec fn pair_views(pairs: Seq<(String, String)>) -> Seq<(Seq<char>, Seq<char>)> {
    Seq::new(pairs.len(), |i: int| (pairs[i].0@, pairs[i].1@))
}

/// The texts that a map of strings holds.
pub open spec fn value_views(values: Map<Seq<char>, String>) -> Map<Seq<char>, Seq<char>> {
    Map::new(|k: Seq<char>| values.contains_key(k), |k: Seq<char>| values[k]@)
}

/// Whether `item` is the option `name`.
pub fn is_option(item: &str, name: &str) -> (b: bool)
    ensures
        b == names_option(item@, name@),
{
    let prefix = to_lowercase(name).concat(":");
    starts_with(to_lowercase(item).as_str(), prefix.as_str())
}

/// The name and the value of an option.
pub fn split_option(item: &str) -> (pair: Option<(String, String)>)
    ensures
        pair is Some <==> option_name(item@) is Some,
        pair matches Some(p) ==> p.0@ == option_name(item@)->0 && p.1@ == option_value(item@)->0,
{
    let colon = find_char(item, ':');
    let count = item.unicode_len();
    if colon < count {
        let name = item.substring_char(0, colon);
        let value = trim(item.substring_char(colon + 1, count));
        Some((name.to_owned(), value.to_owned()))
    } else {
        None
    }
}

impl VecOptions<'_> {
    /// The value of the first option called `name`, whatever the case of
    /// its letters.
    pub fn get(&self, name: &str) -> (value: Option<String>)
        ensures
            value is Some <==> named_value(string_views(self.0@), name@) is Some,
            value is Some ==> value->0@ == named_value(string_views(self.0@), name@)->0,
    {
        let ghost items = string_views(self.0@);
        let mut i: usize = 0;
        while i < self.0.len()
            invariant
                i <= self.0@.len(),
                items == string_views(self.0@),
                first_named(items, name@, 0) == first_named(items, name@, i as int),
            decreases self.0@.len() - i,
        {
            assert(items[i as int] == self.0@[i as int]@);
            if is_option(self.0[i].as_str(), name) {
                return match split_option(self.0[i].as_str()) {
                    Some(pair) => Some(pair.1),
                    None => None,
                };
            }
            i += 1;
        }
        None
    }

    /// The values of the options by name; of two options of one name the
    /// later one.
    pub fn into_map(self) -> (map: StringHashMap<String>)
        ensures
            value_views(map@) == option_values(string_views(self.0@)),
    {
        let ghost items = string_views(self.0@);
        let mut map: StringHashMap<String> = StringHashMap::new();
        let mut i: usize = 0;
        assert(items.take(0) =~= Seq::<Seq<char>>::empty());
        assert(value_views(map@) =~= option_values(items.take(0)));
        while i < self.0.len()
            invariant
                i <= self.0@.len(),
                items == string_views(self.0@),
                value_views(map@) == option_values(items.take(i as int)),
            decreases self.0@.len() - i,
        {
            assert(items[i as int] == self.0@[i as int]@);
            assert(items.take(i + 1).drop_last() =~= items.take(i as int));
            assert(items.take(i + 1).last() == items[i as int]);
            let ghost before = map@;
            match split_option(self.0[i].as_str()) {
                Some(pair) => {
                    let ghost value = pair.1;
                    map.insert(pair.0, pair.1);
                    assert(value_views(map@) =~= value_views(before).insert(
                        option_name(items[i as int])->0,
                        value@,
                    ));
                },
                None => {},
            }
            i += 1;
        }
        assert(items.take(i as int) =~= items);
        map
    }

    /// The names and values of the options, in order.
    pub fn into_tuples(self) -> (tuples: Vec<(String, String)>)
        ensures
            pair_views(tuples@) == option_pairs(string_views(self.0@)),
    {
        let ghost items = string_views(self.0@);
        let mut tuples: Vec<(String, String)> = Vec::new();
        let mut i: usize = 0;
        assert(items.take(0) =~= Seq::<Seq<char>>::empty());
        assert(pair_views(tuples@) =~= option_pairs(items.take(0)));
        while i < self.0.len()
            invariant
                i <= self.0@.len(),
                items == string_views(self.0@),
                pair_views(tuples@) == option_pairs(items.take(i as int)),
            decreases self.0@.len() - i,
        {
            assert(items[i as int] == self.0@[i as int]@);
            assert(items.take(i + 1).drop_last() =~= items.take(i as int));
            assert(items.take(i + 1).last() == items[i as int]);
            let ghost before = pair_views(tuples@);
            match split_option(self.0[i].as_str()) {
                Some(pair) => {
                    let ghost view = (pair.0@, pair.1@);
                    tuples.push(pair);
                    assert(pair_views(tuples@) =~= before.push(view));
                },
                None => {},
            }
            i += 1;
        }
        assert(items.take(i as int) =~= items);
        tuples
    }
}

} // verus!
