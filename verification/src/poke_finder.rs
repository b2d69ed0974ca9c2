//! The creature resolver: composite resolution with cache-aside semantics.
//!
//! A resolution consults the cache first; on a miss it merges the three
//! remote payloads into one record and writes the record back under two
//! keys, the decimal id and the lowercased species name. The species count
//! follows the same cache-aside shape against one well-known key.
//!
//! The remote payloads enter as arguments: the process edge performs the
//! fetches and hands their results in, so everything after the wire is
//! verified for every reply the remote could give.

use vstd::prelude::*;

verus! {

use std::rc::Rc;
use crate::cache::MemCache;
use crate::errors::ResolutionError;
use crate::pokeapi::CachedPokemon;
use crate::pokeapi::PokeAPIPokemon;
use crate::pokeapi::PokeAPIPokemonEvolutionChain;
use crate::pokeapi::PokeAPIPokemonSpecies;
use crate::pokeapi::merged_record;
use crate::pokeapi::share_record;
use crate::text::decimal_rep;
use crate::text::decimal_string;
use crate::text::evolution_chain_id;
use crate::text::lower_of;
use crate::text::lowercase;
use crate::text::split_by;

/// The three payloads a full resolution consumes, as the remote data source
/// serves them for one identifier.
pub struct RemotePayloads {
    pub pokemon: PokeAPIPokemon,
    pub species: PokeAPIPokemonSpecies,
    pub evolution_chain: PokeAPIPokemonEvolutionChain,
}

/// A creature cache populated by the writeback of `m` with record `rec`:
/// the record stands under its decimal id and its lowercased name.
pub open spec fn written_back(
    m: Map<Seq<char>, Rc<CachedPokemon>>,
    rec: Rc<CachedPokemon>,
) -> Map<Seq<char>, Rc<CachedPokemon>> {
    m.insert(decimal_rep(rec.id as nat), rec).insert(lower_of(rec.name@), rec)
}

/// Whether the evolution-chain locator of `species` carries a chain
/// identifier: its split on `'/'` has a second-to-last segment.
pub open spec fn chain_locator_well_formed(species: PokeAPIPokemonSpecies) -> bool {
    split_by(species.evolution_chain.url@, '/').len() >= 2
}

/// The chain identifier of a well-formed locator.
pub open spec fn chain_id_of(species: PokeAPIPokemonSpecies) -> Seq<char> {
    split_by(species.evolution_chain.url@, '/')[split_by(species.evolution_chain.url@, '/').len()
        - 2]
}

/// The resolver: a creature cache addressable by two keys per record, and a
/// species count under one well-known key. Both caches are pure performance
/// layers with no invalidation; remote data is treated as immutable.
pub struct PokeFinder {
    poke_cache: MemCache<Rc<CachedPokemon>>,
    count_cache: MemCache<u16>,
}

impl PokeFinder {
    /// The cached creature records, by cache key.
    pub closed spec fn pokes(&self) -> Map<Seq<char>, Rc<CachedPokemon>> {
        self.poke_cache@
    }

    /// The cached species count, if one was stored.
    pub closed spec fn count(&self) -> Option<u16> {
        if self.count_cache@.contains_key("pokemons_count"@) {
            Some(self.count_cache@["pokemons_count"@])
        } else {
            None
        }
    }

    /// A resolver with empty caches.
    pub fn new() -> (r: Self)
        ensures
            r.pokes() == Map::<Seq<char>, Rc<CachedPokemon>>::empty(),
            r.count() is None,
    {
        PokeFinder { poke_cache: MemCache::new(), count_cache: MemCache::new() }
    }

    /// The cached record under `identifier`, if any. A hit never touches
    /// the remote source.
    pub fn find_cached(&self, identifier: &String) -> (r: Option<Rc<CachedPokemon>>)
        ensures
            match r {
                Some(p) => self.pokes().contains_key(identifier@) && p
                    == self.pokes().index(identifier@),
                None => !self.pokes().contains_key(identifier@),
            },
    {
        match self.poke_cache.get(identifier) {
            Some(rc) => Some(share_record(rc)),
            None => None,
        }
    }

    /// The chain identifier named by the species' evolution-chain locator:
    /// the second-to-last segment of the locator split on `'/'`. A locator
    /// without one is a malformed remote payload.
    pub fn chain_request_id(species: &PokeAPIPokemonSpecies) -> (r: Result<String, ResolutionError>)
        ensures
            chain_locator_well_formed(*species) <==> r is Ok,
            r matches Ok(x) ==> x@ == chain_id_of(*species),
            r matches Err(e) ==> e == ResolutionError::DeserializationFailure,
    {
        match evolution_chain_id(species.evolution_chain.url.as_str()) {
            Some(x) => Ok(x),
            None => Err(ResolutionError::DeserializationFailure),
        }
    }

    /// Write `record` back under both of its keys: the decimal id and the
    /// lowercased species name. The count cache is untouched.
    pub fn store_poke(&mut self, record: Rc<CachedPokemon>)
        ensures
            final(self).pokes() == written_back(old(self).pokes(), record),
            final(self).count() == old(self).count(),
    {
        let id_key = decimal_string(record.id as u64);
        self.poke_cache.set(id_key, share_record(&record));
        let name_key = lowercase(&record.name);
        self.poke_cache.set(name_key, record);
    }

    /// Resolve `identifier` against the cache, with the remote's payloads
    /// supplied for the miss path. On a hit the cached record is returned
    /// unchanged and nothing is written; on a miss the payloads are merged,
    /// written back under both keys, and returned. The `bool` says whether
    /// the remote source was consulted. A malformed evolution-chain locator
    /// aborts the resolution with nothing written.
    pub fn find_poke(&mut self, identifier: &String, remote: RemotePayloads) -> (r: Result<
        (Rc<CachedPokemon>, bool),
        ResolutionError,
    >)
        ensures
            old(self).pokes().contains_key(identifier@) ==> (r matches Ok((p, fetched))
                && p == old(self).pokes()[identifier@] && !fetched && *final(self) == *old(self)),
            !old(self).pokes().contains_key(identifier@) && !chain_locator_well_formed(
                remote.species,
            ) ==> (r matches Err(e) && e == ResolutionError::DeserializationFailure && *final(self)
                == *old(self)),
            !old(self).pokes().contains_key(identifier@) && chain_locator_well_formed(
                remote.species,
            ) ==> (r matches Ok((p, fetched)) && *p == merged_record(
                remote.pokemon,
                remote.species,
                remote.evolution_chain,
            ) && fetched && final(self).pokes() == written_back(old(self).pokes(), p)
                && final(self).count() == old(self).count()),
    {
        match self.find_cached(identifier) {
            Some(p) => Ok((p, false)),
            None => {
                let RemotePayloads { pokemon, species, evolution_chain } = remote;
                match Self::chain_request_id(&species) {
                    Err(e) => Err(e),
                    Ok(_chain_id) => {
                        let rec = Rc::new(CachedPokemon::merge(pokemon, species, evolution_chain));
                        self.store_poke(share_record(&rec));
                        Ok((rec, true))
                    },
                }
            },
        }
    }

    /// The cached species count, if any. A hit never touches the remote
    /// source.
    pub fn cached_count(&self) -> (r: Option<u16>)
        ensures
            r == self.count(),
    {
        let key = String::from_str("pokemons_count");
        match self.count_cache.get(&key) {
            Some(n) => Some(*n),
            None => None,
        }
    }

    /// The species count, cache-aside: a hit returns the cached count with
    /// nothing written; a miss stores `remote_count` under the well-known
    /// key and returns it. The `bool` says whether the remote source was
    /// consulted.
    pub fn get_poke_count(&mut self, remote_count: u16) -> (r: (u16, bool))
        ensures
            old(self).count() matches Some(n) ==> r == (n, false) && *final(self) == *old(self),
            old(self).count() is None ==> r == (remote_count, true) && final(self).count()
                == Some(remote_count) && final(self).pokes() == old(self).pokes(),
    {
        match self.cached_count() {
            Some(n) => (n, false),
            None => {
                let key = String::from_str("pokemons_count");
                self.count_cache.set(key, remote_count);
                (remote_count, true)
            },
        }
    }
}

/// The request locator of a base creature record:
/// `{base}/pokemon/{identifier}`.
pub fn poke_url(base: &str, identifier: &str) -> (r: String)
    ensures
        r@ == base@ + "/pokemon/"@ + identifier@,
{
    let mut out = String::from_str(base);
    out.append("/pokemon/");
    out.append(identifier);
    out
}

/// The request locator of a species metadata record:
/// `{base}/pokemon-species/{identifier}`.
pub fn poke_species_url(base: &str, identifier: &str) -> (r: String)
    ensures
        r@ == base@ + "/pokemon-species/"@ + identifier@,
{
    let mut out = String::from_str(base);
    out.append("/pokemon-species/");
    out.append(identifier);
    out
}

/// The request locator of an evolution-chain record:
/// `{base}/evolution-chain/{identifier}`.
pub fn evolution_chain_url(base: &str, identifier: &str) -> (r: String)
    ensures
        r@ == base@ + "/evolution-chain/"@ + identifier@,
{
    let mut out = String::from_str(base);
    out.append("/evolution-chain/");
    out.append(identifier);
    out
}

/// The request locator of the species count resource:
/// `{base}/pokemon-species/`.
pub fn pokemons_count_url(base: &str) -> (r: String)
    ensures
        r@ == base@ + "/pokemon-species/"@,
{
    let mut out = String::from_str(base);
    out.append("/pokemon-species/");
    out
}

/// After a writeback of `rec`, both cache keys answer: the decimal id and
/// the lowercased name each map to the very record that was written.
pub proof fn lemma_dual_key_writeback(m: Map<Seq<char>, Rc<CachedPokemon>>, rec: Rc<CachedPokemon>)
    ensures
        written_back(m, rec).contains_key(decimal_rep(rec.id as nat)),
        written_back(m, rec)[decimal_rep(rec.id as nat)] == rec,
        written_back(m, rec).contains_key(lower_of(rec.name@)),
        written_back(m, rec)[lower_of(rec.name@)] == rec,
{
}

/// A resolution that answered for `identifier` leaves the cache answering
/// for `identifier`: when the returned record's keys include the identifier
/// (the remote replied for that identifier), a second resolution of the
/// same identifier hits the cache — by `find_poke`'s contract it returns
/// the value-identical record and consults the remote zero times.
pub proof fn lemma_cache_hit_idempotent(
    m: Map<Seq<char>, Rc<CachedPokemon>>,
    identifier: Seq<char>,
    rec: Rc<CachedPokemon>,
)
    requires
        identifier == decimal_rep(rec.id as nat) || identifier == lower_of(rec.name@),
    ensures
        written_back(m, rec).contains_key(identifier),
        written_back(m, rec)[identifier] == rec,
{
}

/// Once a count was stored, the well-known key answers: every later count
/// lookup takes the cached branch — by `get_poke_count`'s contract it
/// fetches nothing and writes nothing.
pub proof fn lemma_count_cache_aside(m: Map<Seq<char>, u16>, n: u16)
    ensures
        m.insert("pokemons_count"@, n).contains_key("pokemons_count"@),
        m.insert("pokemons_count"@, n)["pokemons_count"@] == n,
{
}

} // verus!
