use vstd::prelude::*;

verus! {

/// A configuration value.
pub enum ConfigValue {
    Str(String),
    Integer(i64),
    Table(Vec<(String, ConfigValue)>),
    Other,
}

/// A read-only configuration view: settings keyed by their dotted path
/// (`output.gelf_extra`), in the order they were given.
pub struct Config {
    pub entries: Vec<(String, ConfigValue)>,
}

/// The value under `key` in `entries`: the first entry that carries that key.
pub open spec fn lookup_in(entries: Seq<(String, ConfigValue)>, key: Seq<char>) -> Option<
    ConfigValue,
>
    decreases entries.len(),
{
    if entries.len() == 0 {
        None
    } else if entries[0].0@ == key {
        Some(entries[0].1)
    } else {
        lookup_in(entries.skip(1), key)
    }
}

/// The value of an optional string setting: a string, or absent.
pub open spec fn str_or_absent(v: Option<ConfigValue>) -> bool {
    match v {
        None => true,
        Some(ConfigValue::Str(_)) => true,
        _ => false,
    }
}

impl Config {
    pub open spec fn spec_lookup(&self, key: Seq<char>) -> Option<ConfigValue> {
        lookup_in(self.entries@, key)
    }

    /// The setting under `key`, if any.
    pub fn lookup(&self, key: &str) -> (r: Option<&ConfigValue>)
        ensures
            r matches Some(v) ==> self.spec_lookup(key@) == Some(*v),
            r is None ==> self.spec_lookup(key@) is None,
    {
        let k = key.to_owned();
        let mut i: usize = 0;
        assert(self.entries@.skip(0) =~= self.entries@);
        while i < self.entries.len()
            invariant
                i <= self.entries@.len(),
                k@ == key@,
                lookup_in(self.entries@, key@) == lookup_in(self.entries@.skip(i as int), key@),
            decreases self.entries@.len() - i,
        {
            assert(self.entries@.skip(i as int).skip(1) =~= self.entries@.skip(i + 1));
            if self.entries[i].0 == k {
                return Some(&self.entries[i].1);
            }
            i = i + 1;
        }
        None
    }

    /// The string under `key`, or `default` when the key is absent.
    pub fn str_or(&self, key: &str, default: &str) -> (r: String)
        requires
            str_or_absent(self.spec_lookup(key@)),
        ensures
            r@ == match self.spec_lookup(key@) {
                Some(ConfigValue::Str(s)) => s@,
                _ => default@,
            },
    {
        match self.lookup(key) {
            Some(ConfigValue::Str(s)) => s.clone(),
            _ => default.to_owned(),
        }
    }
}

} // verus!
