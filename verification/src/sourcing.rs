//! Messages, which can be used as events or commands, and the envelope
//! that carries them together with arbitrary string metadata.

use vstd::prelude::*;

verus! {

/// A message is a named piece of data; the name identifies its type.
pub trait Message {
    /// Returns the message's type name.
    fn name(&self) -> &'static str;
}

/// The map described by a sequence of key/value entries, where a later
/// entry for a key shadows an earlier one.
pub closed spec fn entries_map(s: Seq<(String, String)>) -> Map<Seq<char>, Seq<char>>
    decreases s.len(),
{
    if s.len() == 0 {
        Map::empty()
    } else {
        entries_map(s.drop_last()).insert(s.last().0@, s.last().1@)
    }
}

/// Arbitrary metadata attached to a message: a map from string keys to
/// string values.
#[derive(Debug)]
pub struct Metadata {
    entries: Vec<(String, String)>,
}

impl View for Metadata {
    type V = Map<Seq<char>, Seq<char>>;

    closed spec fn view(&self) -> Map<Seq<char>, Seq<char>> {
        entries_map(self.entries@)
    }
}

impl Metadata {
    /// An empty metadata map.
    pub fn new() -> (r: Metadata)
        ensures
            r@ == Map::<Seq<char>, Seq<char>>::empty(),
    {
        let r = Metadata { entries: Vec::new() };
        proof {
            assert(r.entries@.len() == 0);
        }
        r
    }

    /// Sets `key` to `value`, replacing any earlier value for `key`.
    pub fn insert(&mut self, key: String, value: String)
        ensures
            final(self)@ == old(self)@.insert(key@, value@),
    {
        let ghost old_entries = self.entries@;
        let ghost k = key@;
        let ghost v = value@;
        self.entries.push((key, value));
        proof {
            assert(self.entries@.drop_last() =~= old_entries);
            assert(self.entries@.last().0@ == k);
            assert(self.entries@.last().1@ == v);
        }
    }

    /// Looks `key` up, returning the value of the latest entry for it.
    pub fn get(&self, key: &String) -> (r: Option<&String>)
        ensures
            match r {
                Some(v) => self@.contains_key(key@) && v@ == self@[key@],
                None => !self@.contains_key(key@),
            },
    {
        let mut j = self.entries.len();
        proof {
            assert(self.entries@.subrange(0, self.entries@.len() as int) =~= self.entries@);
        }
        while j > 0
            invariant
                j <= self.entries@.len(),
                entries_map(self.entries@).contains_key(key@) == entries_map(
                    self.entries@.subrange(0, j as int),
                ).contains_key(key@),
                entries_map(self.entries@).contains_key(key@) ==> entries_map(
                    self.entries@.subrange(0, j as int),
                )[key@] == entries_map(self.entries@)[key@],
            decreases j,
        {
            j = j - 1;
            proof {
                assert(self.entries@.subrange(0, j + 1).drop_last() =~= self.entries@.subrange(
                    0,
                    j as int,
                ));
                assert(self.entries@.subrange(0, j + 1).last() == self.entries@[j as int]);
                assert(entries_map(self.entries@.subrange(0, j + 1)) == entries_map(
                    self.entries@.subrange(0, j as int),
                ).insert(self.entries@[j as int].0@, self.entries@[j as int].1@));
            }
            if self.entries[j].0 == *key {
                return Some(&self.entries[j].1);
            }
        }
        proof {
            assert(self.entries@.subrange(0, 0) =~= Seq::<(String, String)>::empty());
        }
        None
    }
}

impl Default for Metadata {
    /// Same as [`Metadata::new`]: the empty map.
    fn default() -> (r: Metadata)
        ensures
            r@ == Map::<Seq<char>, Seq<char>>::empty(),
    {
        Metadata::new()
    }
}

/// An envelope wraps a [`Message`] together with its [`Metadata`].
#[derive(Debug)]
pub struct Envelope<M> where M: Message {
    /// The message itself.
    pub message: M,
    /// Associated metadata.
    pub meta: Metadata,
}

impl<M> Envelope<M> where M: Message {
    /// Sets the given `key` to the given `value` in [`Self::meta`]. The
    /// message itself is untouched, so any notion of equality that looks at
    /// the message alone is unaffected.
    #[must_use]
    pub fn with_metadata(self, key: String, value: String) -> (r: Self)
        ensures
            r.message == self.message,
            r.meta@ == self.meta@.insert(key@, value@),
    {
        let mut e = self;
        e.meta.insert(key, value);
        e
    }
}

impl<M> From<M> for Envelope<M> where M: Message {
    /// Wraps a bare message with empty metadata.
    fn from(message: M) -> (r: Self) {
        Envelope { message, meta: Metadata::new() }
    }
}

impl<M> vstd::std_specs::convert::FromSpecImpl<M> for Envelope<M> where M: Message {
    open spec fn obeys_from_spec() -> bool {
        false
    }

    open spec fn from_spec(message: M) -> Self {
        choose|e: Envelope<M>| e.message == message
    }
}

} // verus!
