//! The claims registry: which custom claims exist, and who may carry them.

use crate::entries::{entries_map, entry_pairs, lookup, put, remove_key, Entry};
use vstd::prelude::*;

verus! {

/// What the registry says of one claim key.
#[derive(Debug)]
pub struct ClaimDefinition {
    /// Declared type tag.
    pub claim_type: String,
    /// Enumerated allowed values, as JSON text, where the claim has them.
    pub items: Option<String>,
    pub description: String,
    pub default_allowed: bool,
    pub required: Option<bool>,
    pub sensitive: Option<bool>,
    pub admin_only: Option<bool>,
}

pub struct ClaimDefinitionView {
    pub claim_type: Seq<char>,
    pub items: Option<Seq<char>>,
    pub description: Seq<char>,
    pub default_allowed: bool,
    pub required: Option<bool>,
    pub sensitive: Option<bool>,
    pub admin_only: Option<bool>,
}

impl View for ClaimDefinition {
    type V = ClaimDefinitionView;

    open spec fn view(&self) -> ClaimDefinitionView {
        ClaimDefinitionView {
            claim_type: self.claim_type@,
            items: self.items.deep_view(),
            description: self.description@,
            default_allowed: self.default_allowed,
            required: self.required,
            sensitive: self.sensitive,
            admin_only: self.admin_only,
        }
    }
}

impl Clone for ClaimDefinition {
    fn clone(&self) -> (copy: Self)
        ensures
            copy@ == self@,
    {
        ClaimDefinition {
            claim_type: self.claim_type.clone(),
            items: self.items.clone(),
            description: self.description.clone(),
            default_allowed: self.default_allowed,
            required: self.required,
            sensitive: self.sensitive,
            admin_only: self.admin_only,
        }
    }
}

/// The policy document: a definition for every claim key that may be carried.
#[derive(Debug)]
pub struct ClaimsRegistry {
    pub claims: Vec<Entry<ClaimDefinition>>,
}

impl View for ClaimsRegistry {
    type V = Map<Seq<char>, ClaimDefinitionView>;

    open spec fn view(&self) -> Map<Seq<char>, ClaimDefinitionView> {
        entries_map(self.claims@)
    }
}

impl Clone for ClaimsRegistry {
    fn clone(&self) -> (copy: Self)
        ensures
            copy@ == self@,
    {
        let mut out: Vec<Entry<ClaimDefinition>> = Vec::new();
        let mut i: usize = 0;
        while i < self.claims.len()
            invariant
                i <= self.claims.len(),
                out.len() == i,
                forall|j: int|
                    0 <= j < i ==> out[j].key@ == self.claims[j].key@ && out[j].value@
                        == self.claims[j].value@,
            decreases self.claims.len() - i,
        {
            out.push(
                Entry { key: self.claims[i].key.clone(), value: self.claims[i].value.clone() },
            );
            i += 1;
        }
        assert(entry_pairs(out@) =~= entry_pairs(self.claims@));
        ClaimsRegistry { claims: out }
    }
}

impl ClaimsRegistry {
    /// A registry that knows no claim.
    pub fn new() -> (registry: ClaimsRegistry)
        ensures
            registry@ == Map::<Seq<char>, ClaimDefinitionView>::empty(),
    {
        ClaimsRegistry { claims: Vec::new() }
    }

    /// The definition of `key`, if the registry has one.
    pub fn get(&self, key: &str) -> (definition: Option<&ClaimDefinition>)
        ensures
            definition.is_some() == self@.dom().contains(key@),
            definition.is_some() ==> definition.unwrap()@ == self@[key@],
    {
        lookup(&self.claims, key)
    }

    pub fn contains_key(&self, key: &str) -> (known: bool)
        ensures
            known == self@.dom().contains(key@),
    {
        lookup(&self.claims, key).is_some()
    }

    /// Defines `key`, replacing what the registry said of it before.
    pub fn insert(&mut self, key: String, definition: ClaimDefinition)
        ensures
            final(self)@ == old(self)@.insert(key@, definition@),
    {
        put(&mut self.claims, key, definition);
    }

    /// Forgets `key`. Says whether the registry knew it.
    pub fn remove(&mut self, key: &str) -> (known: bool)
        ensures
            final(self)@ == old(self)@.remove(key@),
            known == old(self)@.dom().contains(key@),
    {
        remove_key(&mut self.claims, key)
    }
}

} // verus!
