//! The render context: the substitutions that a caller supplies for one
//! traversal of a statement.

use vstd::prelude::*;
use vstd::hash_map::StringHashMap;

verus! {

/// What a render context is to the contracts: a map from an identifier's text
/// to the text that replaces it.
pub type Context = Map<Seq<char>, Seq<char>>;

/// A string-to-string mapping that the leaf identifier renderers consult.
/// An empty context leaves every identifier as it is.
pub struct RenderContext {
    entries: StringHashMap<String>,
}

impl View for RenderContext {
    type V = Context;

    closed spec fn view(&self) -> Context {
        self.entries@.map_values(|v: String| v@)
    }
}

impl RenderContext {
    /// A context without entries.
    pub fn new() -> (r: Self)
        ensures
            r@ == Map::<Seq<char>, Seq<char>>::empty(),
    {
        let r = RenderContext { entries: StringHashMap::new() };
        assert(r@ =~= Map::<Seq<char>, Seq<char>>::empty());
        r
    }

    /// Maps `key` to `value`; an earlier entry for `key` is replaced.
    pub fn insert(&mut self, key: String, value: String)
        ensures
            final(self)@ == old(self)@.insert(key@, value@),
    {
        self.entries.insert(key, value);
        assert(self@ =~= old(self)@.insert(key@, value@));
    }

    /// The replacement recorded for `key`, if there is one.
    pub fn get<'a>(&'a self, key: &str) -> (r: Option<&'a String>)
        ensures
            match r {
                Some(v) => self@.contains_key(key@) && v@ == self@[key@],
                None => !self@.contains_key(key@),
            },
    {
        self.entries.get(key)
    }

    /// Whether the context has no entry.
    pub fn is_empty(&self) -> (r: bool)
        ensures
            r == (self@ == Map::<Seq<char>, Seq<char>>::empty()),
    {
        let r = self.entries.is_empty();
        proof {
            if r {
                assert(self@ =~= Map::<Seq<char>, Seq<char>>::empty());
            } else {
                assert(self.entries@.dom() =~= self@.dom());
            }
        }
        r
    }
}
} // verus!
