//! The calls that the desktop shell makes into the vault: the same store that the bridge
//! serves, reached without a request.

use crate::convert::shown_items;
use crate::convert::shows_all;
use crate::convert::shows_listing;
use crate::convert::decodes_to;
use crate::convert::refusal;
use crate::convert::shows;
use crate::store::is_listing;
use crate::store::lookup;
use crate::store::VaultStore;
use crate::vault::VaultItem;
use crate::wire::VaultItemJson;
use vstd::prelude::*;

verus! {

/// The state that the desktop shell shares with the bridge: the vault.
pub struct AppState<S: VaultStore> {
    pub vault: S,
}

/// Whether `shown` shows what a lookup found.
pub open spec fn shows_found(shown: Option<VaultItemJson>, found: Option<VaultItem>) -> bool {
    match found {
        Some(item) => shown matches Some(json) && shows(json, item),
        None => shown is None,
    }
}

/// Stores the item that `item` describes under `key`. An item that cannot be decoded is
/// refused with its first fault, and an error of the store is handed on in words; either
/// way the vault stays as it was.
pub fn vault_set<S: VaultStore>(key: String, item: VaultItemJson, state: &mut AppState<S>) -> (r:
    Result<(), String>)
    ensures
        final(state).vault.dependable() == old(state).vault.dependable(),
        refusal(item) matches Some(why) ==> r is Err && r->Err_0@ == why,
        r is Err ==> final(state).vault.contents() == old(state).vault.contents(),
        r is Ok ==> final(state).vault.contents().dom().contains(key@) && decodes_to(
            item,
            final(state).vault.contents()[key@],
        ) && final(state).vault.contents() == old(state).vault.contents().insert(
            key@,
            final(state).vault.contents()[key@],
        ),
        refusal(item) is None && key@.len() == 0 ==> r is Err && "Invalid key: "@.is_prefix_of(
            r->Err_0@,
        ),
        refusal(item) is None && key@.len() > 0 && old(state).vault.dependable() ==> r is Ok,
{
    let vault_item: VaultItem = match VaultItem::try_from(item) {
        Ok(v) => v,
        Err(why) => {
            return Err(why);
        },
    };
    match state.vault.set(key, vault_item) {
        Ok(()) => Ok(()),
        Err(e) => Err(e.message()),
    }
}

/// The item stored under `key`, as the extension sees it.
pub fn vault_get<S: VaultStore>(key: String, state: &AppState<S>) -> (r: Result<
    Option<VaultItemJson>,
    String,
>)
    ensures
        r matches Ok(shown) ==> shows_found(shown, lookup(state.vault.contents(), key@)),
        state.vault.dependable() ==> r is Ok,
{
    match state.vault.get(key.as_str()) {
        Ok(found) => match found {
            Some(item) => Ok(Some(VaultItemJson::from(item))),
            None => Ok(None),
        },
        Err(e) => Err(e.message()),
    }
}

/// Every stored item, as the extension sees it, in no particular order.
pub fn vault_list<S: VaultStore>(state: &AppState<S>) -> (r: Result<Vec<VaultItemJson>, String>)
    ensures
        r matches Ok(shown) ==> shows_listing(shown@, state.vault.contents()),
        state.vault.dependable() ==> r is Ok,
{
    match state.vault.list() {
        Ok(items) => {
            let ghost listed = items@;
            let shown = shown_items(items);
            assert(is_listing(listed, state.vault.contents()));
            assert(shows_all(shown@, listed));
            Ok(shown)
        },
        Err(e) => Err(e.message()),
    }
}

/// Removes the item stored under `key`. A key that holds nothing is an error, in words.
pub fn vault_delete<S: VaultStore>(key: String, state: &mut AppState<S>) -> (r: Result<
    (),
    String,
>)
    ensures
        final(state).vault.dependable() == old(state).vault.dependable(),
        !old(state).vault.contents().dom().contains(key@) ==> r is Err,
        old(state).vault.dependable() && !old(state).vault.contents().dom().contains(key@)
            ==> "Item not found: "@.is_prefix_of(r->Err_0@),
        r is Ok ==> final(state).vault.contents() == old(state).vault.contents().remove(key@),
        r is Err ==> final(state).vault.contents() == old(state).vault.contents(),
        old(state).vault.dependable() && old(state).vault.contents().dom().contains(key@)
            ==> r is Ok,
{
    match state.vault.delete(key.as_str()) {
        Ok(()) => Ok(()),
        Err(e) => Err(e.message()),
    }
}

} // verus!
