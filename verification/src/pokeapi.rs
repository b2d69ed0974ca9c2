//! Payload shapes served by the remote creature data source, and the merged
//! record that the resolver caches.
//!
//! A `CachedPokemon` is assembled from three payloads: the base creature
//! record, its species metadata, and its evolution chain. It is immutable
//! once constructed and is only produced by [`CachedPokemon::merge`].

use vstd::prelude::*;

verus! {

use std::rc::Rc;

/// Relies on `Rc::clone` of std: the returned handle points at the same
/// allocation, so it carries the same value. A merged record is immutable
/// once constructed, so the resolver shares one record between its two cache
/// keys through such handles. vstd specifies `Rc::new` but not `Rc::clone`.
#[verifier::external_body]
pub(crate) fn share_record(v: &Rc<CachedPokemon>) -> (r: Rc<CachedPokemon>)
    ensures
        r == *v,
{
    Rc::clone(v)
}

/// A name/locator pair pointing at another remote resource.
#[derive(Debug, PartialEq, Eq)]
pub struct PokeAPIResource {
    pub name: String,
    pub url: String,
}

/// Base creature record.
#[derive(Debug, PartialEq, Eq)]
pub struct PokeAPIPokemon {
    pub height: u16,
    pub id: u16,
    pub is_default: bool,
    pub name: String,
    pub species: PokeAPIResource,
    pub sprites: PokeAPISprites,
    pub stats: Vec<PokeAPIStat>,
    pub types: Vec<PokeAPIType>,
    pub weight: u16,
}

/// One typing slot of a creature.
#[derive(Debug, PartialEq, Eq)]
pub struct PokeAPIType {
    pub slot: u8,
    pub kind: PokeAPIResource,
}

/// One named base stat of a creature.
#[derive(Debug, PartialEq, Eq)]
pub struct PokeAPIStat {
    pub base_stat: u16,
    pub effort: u16,
    pub stat: PokeAPIResource,
}

/// Sprite locators of a creature.
#[derive(Debug, PartialEq, Eq)]
pub struct PokeAPISprites {
    pub front_default: String,
    pub front_shiny: String,
    pub other: PokeAPISpritesOther,
}

/// Alternative artwork group.
#[derive(Debug, PartialEq, Eq)]
pub struct PokeAPISpritesOther {
    pub official_artwork: PokeAPISpritesOtherOfficialArtwork,
}

/// Official artwork sprite locators.
#[derive(Debug, PartialEq, Eq)]
pub struct PokeAPISpritesOtherOfficialArtwork {
    pub front_default: String,
    pub front_shiny: String,
}

/// Species metadata of a creature.
#[derive(Debug, PartialEq, Eq)]
pub struct PokeAPIPokemonSpecies {
    pub evolution_chain: PokeAPIEvolutionchain,
    pub evolves_from_species: Option<PokeAPIResource>,
    pub has_gender_differences: bool,
    pub hatch_counter: u16,
    pub id: u16,
    pub is_baby: bool,
    pub is_legendary: bool,
    pub is_mythical: bool,
    pub name: String,
}

/// Locator of the evolution-chain resource of a species.
#[derive(Debug, PartialEq, Eq)]
pub struct PokeAPIEvolutionchain {
    pub url: String,
}

/// Total number of species known to the remote source.
#[derive(Debug, PartialEq, Eq)]
pub struct PokeAPIPokemonSpeciesCount {
    pub count: u16,
}

/// Evolution-chain payload.
#[derive(Debug, PartialEq, Eq)]
pub struct PokeAPIPokemonEvolutionChain {
    pub chain: PokeAPIChain,
}

/// One node of the evolution tree.
#[derive(Debug, PartialEq, Eq)]
pub struct PokeAPIChain {
    pub evolves_to: Vec<PokeAPIChain>,
    pub species: PokeAPIResource,
}

impl Clone for PokeAPIResource {
    fn clone(&self) -> (r: Self)
        ensures
            r == *self,
    {
        PokeAPIResource { name: self.name.clone(), url: self.url.clone() }
    }
}

impl Clone for PokeAPIType {
    fn clone(&self) -> (r: Self)
        ensures
            r == *self,
    {
        PokeAPIType { slot: self.slot, kind: self.kind.clone() }
    }
}

impl Clone for PokeAPIStat {
    fn clone(&self) -> (r: Self)
        ensures
            r == *self,
    {
        PokeAPIStat { base_stat: self.base_stat, effort: self.effort, stat: self.stat.clone() }
    }
}

impl Clone for PokeAPISpritesOtherOfficialArtwork {
    fn clone(&self) -> (r: Self)
        ensures
            r == *self,
    {
        PokeAPISpritesOtherOfficialArtwork {
            front_default: self.front_default.clone(),
            front_shiny: self.front_shiny.clone(),
        }
    }
}

impl Clone for PokeAPISpritesOther {
    fn clone(&self) -> (r: Self)
        ensures
            r == *self,
    {
        PokeAPISpritesOther { official_artwork: self.official_artwork.clone() }
    }
}

impl Clone for PokeAPISprites {
    fn clone(&self) -> (r: Self)
        ensures
            r == *self,
    {
        PokeAPISprites {
            front_default: self.front_default.clone(),
            front_shiny: self.front_shiny.clone(),
            other: self.other.clone(),
        }
    }
}

/// The merged creature record the resolver caches: base record fields,
/// species-level flags and counters, and the evolution tree.
#[derive(Debug, PartialEq, Eq)]
pub struct CachedPokemon {
    pub height: u16,
    pub id: u16,
    pub is_default: bool,
    pub name: String,
    pub sprites: PokeAPISprites,
    pub stats: Vec<PokeAPIStat>,
    pub types: Vec<PokeAPIType>,
    pub weight: u16,
    pub evolves_from_species: Option<PokeAPIResource>,
    pub has_gender_differences: bool,
    pub hatch_counter: u16,
    pub is_baby: bool,
    pub is_legendary: bool,
    pub is_mythical: bool,
    pub evolves_to: Vec<PokeAPIChain>,
}

/// The record that merging the three payloads yields: base fields from the
/// creature, flags and counters from the species, and the evolution tree
/// from the chain payload.
pub open spec fn merged_record(
    pokemon: PokeAPIPokemon,
    species: PokeAPIPokemonSpecies,
    evolution_chain: PokeAPIPokemonEvolutionChain,
) -> CachedPokemon {
    CachedPokemon {
        height: pokemon.height,
        id: pokemon.id,
        is_default: pokemon.is_default,
        name: pokemon.name,
        sprites: pokemon.sprites,
        stats: pokemon.stats,
        types: pokemon.types,
        weight: pokemon.weight,
        evolves_from_species: species.evolves_from_species,
        has_gender_differences: species.has_gender_differences,
        hatch_counter: species.hatch_counter,
        is_baby: species.is_baby,
        is_legendary: species.is_legendary,
        is_mythical: species.is_mythical,
        evolves_to: evolution_chain.chain.evolves_to,
    }
}

impl CachedPokemon {
    /// Merge the creature, its species metadata and its evolution chain into
    /// one record: base fields come from the creature, flags and counters
    /// from the species, and the evolution tree from the chain payload.
    pub fn merge(
        pokemon: PokeAPIPokemon,
        species: PokeAPIPokemonSpecies,
        evolution_chain: PokeAPIPokemonEvolutionChain,
    ) -> (r: Self)
        ensures
            r == merged_record(pokemon, species, evolution_chain),
    {
        CachedPokemon {
            height: pokemon.height,
            id: pokemon.id,
            is_default: pokemon.is_default,
            name: pokemon.name,
            sprites: pokemon.sprites,
            stats: pokemon.stats,
            types: pokemon.types,
            weight: pokemon.weight,
            evolves_from_species: species.evolves_from_species,
            has_gender_differences: species.has_gender_differences,
            hatch_counter: species.hatch_counter,
            is_baby: species.is_baby,
            is_legendary: species.is_legendary,
            is_mythical: species.is_mythical,
            evolves_to: evolution_chain.chain.evolves_to,
        }
    }
}

} // verus!
