//! The cross-reference table: triples of (native identifier, territory,
//! canonical identifier), and the first-match-wins lookup the Mapping
//! Resolver performs over them.
//!
//! Loading and parsing the table from persistent storage is a collaborator
//! concern; this library receives the table already parsed.

use vstd::prelude::*;

verus! {

/// One cross-reference entry: the native identifier the operating system
/// uses, the territory the entry applies to (`"001"` for the world), and
/// the canonical IANA identifier they map to.
#[derive(Debug)]
pub struct MapZone {
    pub windows_id: String,
    pub iana_id: String,
    pub territory: String,
}

/// Whether an entry matches a lookup exactly: both the native identifier
/// and the territory are equal, case-sensitively.
pub open spec fn zone_matches(z: MapZone, target: Seq<char>, territory: Seq<char>) -> bool {
    z.windows_id@ == target && z.territory@ == territory
}

/// The canonical identifier of the first entry matching the lookup, in
/// table order, or nothing when no entry matches.
pub open spec fn find_zone(zones: Seq<MapZone>, target: Seq<char>, territory: Seq<char>) -> Option<
    Seq<char>,
> decreases zones.len() {
    if zones.len() == 0 {
        None
    } else if zone_matches(zones[0], target, territory) {
        Some(zones[0].iana_id@)
    } else {
        find_zone(zones.drop_first(), target, territory)
    }
}

/// Law: a lookup fails exactly when no entry of the table matches it; no
/// implicit fallback to another territory ever takes place.
pub proof fn lemma_find_zone_none_iff_no_match(
    zones: Seq<MapZone>,
    target: Seq<char>,
    territory: Seq<char>,
)
    ensures
        find_zone(zones, target, territory) is None <==> (forall|i: int|
            0 <= i < zones.len() ==> !zone_matches(#[trigger] zones[i], target, territory)),
    decreases zones.len(),
{
    if zones.len() > 0 {
        lemma_find_zone_none_iff_no_match(zones.drop_first(), target, territory);
        assert forall|i: int| 1 <= i < zones.len() implies zones.drop_first()[i - 1] == zones[i]
        by {}
    }
}

/// Law: in a table whose (native identifier, territory) pairs are unique,
/// looking up any entry's own pair yields exactly that entry's canonical
/// identifier.
pub proof fn lemma_find_zone_returns_table_entry(zones: Seq<MapZone>, i: int)
    requires
        0 <= i < zones.len(),
        forall|j: int, k: int|
            0 <= j < k < zones.len() ==> !((#[trigger] zones[j]).windows_id@ == (
            #[trigger] zones[k]).windows_id@ && zones[j].territory@ == zones[k].territory@),
    ensures
        find_zone(zones, zones[i].windows_id@, zones[i].territory@) == Some(zones[i].iana_id@),
    decreases zones.len(),
{
    if i == 0 {
        assert(zone_matches(zones[0], zones[0].windows_id@, zones[0].territory@));
    } else {
        assert(!zone_matches(zones[0], zones[i].windows_id@, zones[i].territory@));
        let rest = zones.drop_first();
        assert forall|j: int| 0 <= j < rest.len() implies #[trigger] rest[j] == zones[j + 1] by {}
        lemma_find_zone_returns_table_entry(rest, i - 1);
    }
}

} // verus!
