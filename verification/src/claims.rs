//! The claims filter: which of a user's custom claims may leave the store.
//!
//! One rule decides, and it is applied wherever claims cross a boundary: when
//! a stored user is read in, and again when a token is made.

use crate::entries::{entries_map, lemma_entries_push, Entry};
use crate::models::{ClaimValue, ClaimValueView, User, UserView};
use crate::models::all_scope;
use crate::registry::{ClaimDefinition, ClaimDefinitionView, ClaimsRegistry};
use vstd::prelude::*;

verus! {

/// The rule. A claim may be carried if its definition allows it by default,
/// or the holder's admin scopes include `all`, or the definition reserves it
/// for admins and the holder has some admin scope.
pub open spec fn scopes_admit(admin: Seq<Seq<char>>, definition: ClaimDefinitionView) -> bool {
    definition.default_allowed || admin.contains(all_scope()) || (definition.admin_only == Some(
        true,
    ) && admin.len() > 0)
}

/// The rule, for a user.
pub open spec fn claim_visible(user: UserView, definition: ClaimDefinitionView) -> bool {
    scopes_admit(user.admin, definition)
}

/// The keys that may be carried: those the registry defines and whose
/// definition admits the holder.
pub open spec fn admitted_keys(
    admin: Seq<Seq<char>>,
    registry: Map<Seq<char>, ClaimDefinitionView>,
) -> Set<Seq<char>> {
    Set::new(|key: Seq<char>| registry.dom().contains(key) && scopes_admit(admin, registry[key]))
}

/// What is left of `claims` once every key that may not be carried is dropped.
pub open spec fn filtered_claims(
    claims: Map<Seq<char>, ClaimValueView>,
    admin: Seq<Seq<char>>,
    registry: Map<Seq<char>, ClaimDefinitionView>,
) -> Map<Seq<char>, ClaimValueView> {
    claims.restrict(admitted_keys(admin, registry))
}

/// The user with the claims filter applied and nothing else changed.
pub open spec fn with_filtered_claims(
    user: UserView,
    registry: Map<Seq<char>, ClaimDefinitionView>,
) -> UserView {
    UserView { claims: filtered_claims(user.claims, user.admin, registry), ..user }
}

/// Decides whether `user` may carry the claim that `definition` describes.
pub fn is_claim_visible(user: &User, claim_key: &str, definition: &ClaimDefinition) -> (visible:
    bool)
    ensures
        visible == claim_visible(user@, definition@),
{
    if definition.default_allowed {
        return true;
    }
    if user.has_all_scope() {
        return true;
    }
    match definition.admin_only {
        Some(true) => user.is_admin(),
        _ => false,
    }
}

/// The claims of `user` that the registry lets it carry. Keys the registry
/// does not know are dropped without an error.
pub fn filter_allowed_claims(user: &User, registry: &ClaimsRegistry) -> (kept: Vec<
    Entry<ClaimValue>,
>)
    ensures
        entries_map(kept@) == filtered_claims(user@.claims, user@.admin, registry@),
{
    let ghost admitted = admitted_keys(user@.admin, registry@);
    let mut kept: Vec<Entry<ClaimValue>> = Vec::new();
    let mut i: usize = 0;
    while i < user.claims.len()
        invariant
            i <= user.claims.len(),
            admitted == admitted_keys(user@.admin, registry@),
            entries_map(kept@) == entries_map(user.claims@.take(i as int)).restrict(admitted),
        decreases user.claims.len() - i,
    {
        let entry = &user.claims[i];
        let ghost seen = user.claims@.take(i as int);
        proof {
            assert(user.claims@.take(i + 1) =~= seen.push(*entry));
            lemma_entries_push(seen, *entry);
        }
        let allowed = match registry.get(entry.key.as_str()) {
            Some(definition) => is_claim_visible(user, entry.key.as_str(), definition),
            None => false,
        };
        if allowed {
            let copy = Entry { key: entry.key.clone(), value: entry.value.clone() };
            proof {
                lemma_entries_push(kept@, copy);
            }
            kept.push(copy);
        } else {
            assert(entries_map(seen).insert(entry.key@, entry.value@).restrict(admitted)
                =~= entries_map(seen).restrict(admitted));
        }
        i += 1;
    }
    assert(user.claims@.take(user.claims.len() as int) =~= user.claims@);
    kept
}

/// Strips from a user that was just read in every claim it may not carry.
pub fn validate_user_claims(user: &mut User, registry: &ClaimsRegistry)
    ensures
        final(user)@ == with_filtered_claims(old(user)@, registry@),
{
    let kept = filter_allowed_claims(user, registry);
    user.claims = kept;
}

/// A claim key that the registry does not define is never carried.
pub proof fn lemma_unknown_claim_dropped(
    claims: Map<Seq<char>, ClaimValueView>,
    admin: Seq<Seq<char>>,
    registry: Map<Seq<char>, ClaimDefinitionView>,
    key: Seq<char>,
)
    requires
        !registry.dom().contains(key),
    ensures
        !filtered_claims(claims, admin, registry).dom().contains(key),
{
}

/// A claim that is neither allowed by default nor reserved for admins is
/// carried by the holders of the scope `all`, and by nobody else.
pub proof fn lemma_unflagged_claim_needs_all_scope(user: UserView, definition: ClaimDefinitionView)
    requires
        !definition.default_allowed,
        definition.admin_only != Some(true),
    ensures
        claim_visible(user, definition) == user.has_all_scope(),
        !user.is_admin() ==> !claim_visible(user, definition),
{
}

/// The filter only drops: what it keeps, it keeps unchanged.
pub proof fn lemma_filter_keeps_values(
    claims: Map<Seq<char>, ClaimValueView>,
    admin: Seq<Seq<char>>,
    registry: Map<Seq<char>, ClaimDefinitionView>,
    key: Seq<char>,
)
    requires
        filtered_claims(claims, admin, registry).dom().contains(key),
    ensures
        claims.dom().contains(key),
        filtered_claims(claims, admin, registry)[key] == claims[key],
        registry.dom().contains(key),
        scopes_admit(admin, registry[key]),
{
}

/// Filtering twice against the same registry is filtering once.
pub proof fn lemma_filter_idempotent(
    claims: Map<Seq<char>, ClaimValueView>,
    admin: Seq<Seq<char>>,
    registry: Map<Seq<char>, ClaimDefinitionView>,
)
    ensures
        filtered_claims(filtered_claims(claims, admin, registry), admin, registry)
            == filtered_claims(claims, admin, registry),
{
}

/// A user all of whose claims may be carried passes the filter unchanged.
pub proof fn lemma_filter_fixes_valid_user(
    user: UserView,
    registry: Map<Seq<char>, ClaimDefinitionView>,
)
    requires
        forall|key: Seq<char>| #[trigger]
            user.claims.dom().contains(key) ==> registry.dom().contains(key) && claim_visible(
                user,
                registry[key],
            ),
    ensures
        with_filtered_claims(user, registry) == user,
{
    assert(filtered_claims(user.claims, user.admin, registry) =~= user.claims);
}

} // verus!
