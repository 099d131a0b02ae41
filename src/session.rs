//! Session state: the bearer credential and the symbol to contract-id cache.

use vstd::prelude::*;
use vstd::hash_map::StringHashMap;
use crate::text::{upper_of, uppercase};

verus! {

/// The credential and the contract cache of one executor. Cache keys are
/// always the upper-cased form of the symbol they were set under; entries
/// never expire.
pub struct SessionState {
    token: Option<String>,
    contracts: StringHashMap<i64>,
}

/// Every key of the cache is the upper-cased form of some symbol.
pub open spec fn keys_normalized(m: Map<Seq<char>, i64>) -> bool {
    forall|k: Seq<char>| #[trigger] m.contains_key(k) ==> exists|s: Seq<char>| upper_of(s) == k
}

/// The cached contract id of a symbol, looked up under its upper-cased form.
pub open spec fn cached_id(m: Map<Seq<char>, i64>, symbol: Seq<char>) -> Option<i64> {
    if m.contains_key(upper_of(symbol)) {
        Some(m[upper_of(symbol)])
    } else {
        None
    }
}

/// Caching an id under one spelling of a symbol and looking up another
/// spelling that upper-cases to the same text finds that id; a lookup of a
/// symbol that upper-cases differently is unaffected by the caching.
pub proof fn lemma_cache_normalized(
    before: Map<Seq<char>, i64>,
    set_symbol: Seq<char>,
    get_symbol: Seq<char>,
    contract_id: i64,
)
    ensures
        upper_of(set_symbol) == upper_of(get_symbol) ==> cached_id(
            before.insert(upper_of(set_symbol), contract_id),
            get_symbol,
        ) == Some(contract_id),
        upper_of(set_symbol) != upper_of(get_symbol) ==> cached_id(
            before.insert(upper_of(set_symbol), contract_id),
            get_symbol,
        ) == cached_id(before, get_symbol),
{
}

impl SessionState {
    pub closed spec fn token_view(&self) -> Option<Seq<char>> {
        match self.token {
            Some(t) => Some(t@),
            None => None,
        }
    }

    pub closed spec fn contracts_view(&self) -> Map<Seq<char>, i64> {
        self.contracts@
    }

    pub open spec fn wf(&self) -> bool {
        keys_normalized(self.contracts_view())
    }

    /// A session with no credential and an empty cache.
    pub fn new() -> (r: SessionState)
        ensures
            r.wf(),
            r.token_view() is None,
            r.contracts_view() == Map::<Seq<char>, i64>::empty(),
    {
        SessionState { token: None, contracts: StringHashMap::new() }
    }

    /// Replaces the credential.
    pub fn set_token(&mut self, token: String)
        requires
            old(self).wf(),
        ensures
            final(self).wf(),
            final(self).token_view() == Some(token@),
            final(self).contracts_view() == old(self).contracts_view(),
    {
        self.token = Some(token);
    }

    /// The current credential, if one has been set.
    pub fn get_token(&self) -> (r: Option<String>)
        ensures
            match r {
                Some(t) => self.token_view() == Some(t@),
                None => self.token_view() is None,
            },
    {
        match &self.token {
            Some(t) => Some(t.clone()),
            None => None,
        }
    }

    /// Caches `contract_id` under the upper-cased `symbol`, replacing any
    /// earlier entry there.
    pub fn set_contract_id(&mut self, symbol: &str, contract_id: i64)
        requires
            old(self).wf(),
        ensures
            final(self).wf(),
            final(self).contracts_view() == old(self).contracts_view().insert(
                upper_of(symbol@),
                contract_id,
            ),
            final(self).token_view() == old(self).token_view(),
    {
        let key = uppercase(symbol);
        self.contracts.insert(key, contract_id);
        assert forall|k: Seq<char>| #[trigger] self.contracts@.contains_key(k) implies exists|
            s: Seq<char>,
        | upper_of(s) == k by {
            if k == upper_of(symbol@) {
            } else {
                assert(old(self).contracts@.contains_key(k));
            }
        }
    }

    /// The contract id cached for the upper-cased `symbol`.
    pub fn get_contract_id(&self, symbol: &str) -> (r: Option<i64>)
        ensures
            r == cached_id(self.contracts_view(), symbol@),
    {
        let key = uppercase(symbol);
        match self.contracts.get(key.as_str()) {
            Some(id) => Some(*id),
            None => None,
        }
    }
}

} // verus!
