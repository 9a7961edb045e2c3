//! The runtime's settings: names with their values, both as text.
//!
//! Where the settings come from (files, the environment) is the caller's
//! business. This module holds them, knows the defaults, and reads a
//! value as the type that the caller asks for.

use std::str::FromStr;
use vstd::prelude::*;

verus! {

/// The value that the last entry named `name` gives, if there is one.
pub open spec fn last_value(entries: Seq<(String, String)>, name: Seq<char>) -> Option<Seq<char>>
    decreases entries.len(),
{
    if entries.len() == 0 {
        None
    } else if entries.last().0@ == name {
        Some(entries.last().1@)
    } else {
        last_value(entries.drop_last(), name)
    }
}

/// A set of settings. It is kept as a list in which a later entry
/// overrides an earlier one of the same name.
#[derive(Debug)]
pub struct Config {
    entries: Vec<(String, String)>,
}

impl View for Config {
    type V = Map<Seq<char>, Seq<char>>;

    closed spec fn view(&self) -> Map<Seq<char>, Seq<char>> {
        Map::new(
            |name: Seq<char>| last_value(self.entries@, name) is Some,
            |name: Seq<char>| last_value(self.entries@, name).unwrap(),
        )
    }
}

/// The settings that hold where nothing else is configured.
pub open spec fn default_settings() -> Map<Seq<char>, Seq<char>> {
    Map::empty().insert("buffer_size"@, "32768"@).insert("queue_size"@, "8192"@)
}

/// `str::parse`, for any type that can be read from text: `None` where the
/// type's parser refuses `value`. What the parser accepts is the type's
/// own business, so nothing is said of the value that comes back.
#[verifier::external_body]
fn parse_value<T: FromStr>(value: &str) -> (r: Option<T>) {
    value.parse().ok()
}

impl Config {
    /// Settings without any entry.
    pub fn new() -> (config: Config)
        ensures
            config@ == Map::<Seq<char>, Seq<char>>::empty(),
    {
        let config = Config { entries: Vec::new() };
        assert(config@ =~= Map::<Seq<char>, Seq<char>>::empty());
        config
    }

    /// Sets `name` to `value`, in place of what it was set to before.
    pub fn insert(&mut self, name: String, value: String)
        ensures
            final(self)@ == old(self)@.insert(name@, value@),
    {
        let ghost before = self.entries@;
        self.entries.push((name, value));
        proof {
            assert(self.entries@.drop_last() =~= before);
            assert(self@ =~= old(self)@.insert(name@, value@));
        }
    }

    /// The text that `name` is set to, if it is set.
    pub fn lookup(&self, name: &str) -> (r: Option<String>)
        ensures
            match r {
                Some(value) => self@.contains_key(name@) && value@ == self@[name@],
                None => !self@.contains_key(name@),
            },
    {
        let key = name.to_owned();
        let mut i: usize = self.entries.len();
        proof {
            assert(self.entries@.take(i as int) =~= self.entries@);
        }
        while i > 0
            invariant
                i <= self.entries.len(),
                key@ == name@,
                last_value(self.entries@, name@) == last_value(
                    self.entries@.take(i as int),
                    name@,
                ),
            decreases i,
        {
            i -= 1;
            proof {
                assert(self.entries@.take(i + 1).drop_last() =~= self.entries@.take(i as int));
            }
            if self.entries[i].0 == key {
                return Some(self.entries[i].1.clone());
            }
        }
        None
    }
}

/// The default settings: a buffer of 32768 bytes and a queue of 8192.
pub fn default_config() -> (config: Config)
    ensures
        config@ == default_settings(),
{
    let mut config = Config::new();
    config.insert("buffer_size".to_owned(), "32768".to_owned());
    config.insert("queue_size".to_owned(), "8192".to_owned());
    config
}

/// The setting `name` of `config`, read as a `T`: `None` where it is not
/// set or does not read as a `T`.
pub fn get<T: FromStr>(config: &Config, name: &str) -> (r: Option<T>)
    ensures
        !config@.contains_key(name@) ==> r is None,
{
    match config.lookup(name) {
        None => None,
        Some(value) => parse_value(value.as_str()),
    }
}

/// The setting `name` of `config`, read as a `T`, or `default` where it is
/// not set or does not read as a `T`.
pub fn get_or_default<T: FromStr>(config: &Config, name: &str, default: T) -> (r: T)
    ensures
        !config@.contains_key(name@) ==> r == default,
{
    value_or(get(config, name), default)
}

/// What `get_or_default` makes of what was read: the value that was read,
/// or `default` where nothing was.
pub fn value_or<T>(read: Option<T>, default: T) -> (r: T)
    ensures
        r == (match read {
            Some(value) => value,
            None => default,
        }),
{
    match read {
        Some(value) => value,
        None => default,
    }
}

} // verus!
