//! Collision layers, and the rule by which the player picks tools up.

use crate::places::{lists_marked, marked_places};
use vstd::prelude::*;

verus! {

/// The kinds of things that can touch each other.
#[derive(Clone, Copy, Debug, PartialEq, Eq, Structural)]
pub enum CollisionLayer {
    Environment,
    Characters,
    Tools,
}

impl CollisionLayer {
    /// The number that stands for the layer in a `CollisionConfig`: its place
    /// in the list of layers, counted from zero.
    pub open spec fn spec_bits(self) -> u32 {
        match self {
            CollisionLayer::Environment => 0,
            CollisionLayer::Characters => 1,
            CollisionLayer::Tools => 2,
        }
    }

    /// The number that stands for the layer in a `CollisionConfig`.
    pub fn bits(self) -> (bits: u32)
        ensures
            bits == self.spec_bits(),
    {
        match self {
            CollisionLayer::Environment => 0,
            CollisionLayer::Characters => 1,
            CollisionLayer::Tools => 2,
        }
    }
}

/// What a thing is (`layer`) and what it reacts to (`mask`), as bit sets.
#[derive(Clone, Copy, Debug, PartialEq, Eq, Structural)]
pub struct CollisionConfig {
    pub layer: u32,
    pub mask: u32,
}

impl CollisionConfig {
    /// The player's configuration: a character that reacts to the environment
    /// and to tools.
    pub open spec fn spec_player() -> CollisionConfig {
        CollisionConfig {
            layer: CollisionLayer::Characters.spec_bits(),
            mask: CollisionLayer::Environment.spec_bits() | CollisionLayer::Tools.spec_bits(),
        }
    }

    /// The configuration of a tool lying on the ground: it reacts to nothing.
    pub open spec fn spec_tool() -> CollisionConfig {
        CollisionConfig { layer: CollisionLayer::Tools.spec_bits(), mask: 0 }
    }

    /// The player's configuration.
    pub fn player() -> (config: CollisionConfig)
        ensures
            config == Self::spec_player(),
    {
        CollisionConfig {
            layer: CollisionLayer::Characters.bits(),
            mask: CollisionLayer::Environment.bits() | CollisionLayer::Tools.bits(),
        }
    }

    /// The configuration of a tool lying on the ground.
    pub fn tool() -> (config: CollisionConfig)
        ensures
            config == Self::spec_tool(),
    {
        CollisionConfig { layer: CollisionLayer::Tools.bits(), mask: 0 }
    }

    /// Whether a picker with this configuration takes a thing configured as
    /// `item`: the picker reacts to the item's layer, and the item is a tool.
    pub open spec fn takes(self, item: CollisionConfig) -> bool {
        item.layer & self.mask != 0 && item.layer & CollisionLayer::Tools.spec_bits() != 0
    }
}

/// Something the player might pick up.
#[derive(Clone, Copy, Debug, PartialEq, Eq, Structural)]
pub struct Candidate {
    /// Whether its box overlaps the player's.
    pub overlaps: bool,
    pub config: CollisionConfig,
}

impl Candidate {
    /// Whether `player` picks the candidate up.
    pub open spec fn picked_by(self, player: CollisionConfig) -> bool {
        self.overlaps && player.takes(self.config)
    }
}

/// Whether the player picks a thing up: it overlaps the player, the player
/// reacts to its layer, and it is a tool.
pub fn can_pick_up(overlaps: bool, item: &CollisionConfig, player: &CollisionConfig) -> (picked: bool)
    ensures
        picked == (Candidate { overlaps, config: *item }).picked_by(*player),
{
    overlaps && item.layer & player.mask != 0 && item.layer & CollisionLayer::Tools.bits() != 0
}

/// For each candidate in turn, whether `player` picks it up.
pub open spec fn pickup_marks(player: CollisionConfig, candidates: Seq<Candidate>) -> Seq<bool> {
    Seq::new(candidates.len(), |i: int| candidates[i].picked_by(player))
}

/// The places in `candidates` of the things the player picks up, in the order
/// in which they stand.
pub fn pickups(player: &CollisionConfig, candidates: &Vec<Candidate>) -> (picked: Vec<usize>)
    ensures
        lists_marked(picked@, pickup_marks(*player, candidates@)),
{
    let mut marks: Vec<bool> = Vec::new();
    let mut i: usize = 0;
    while i < candidates.len()
        invariant
            i <= candidates.len(),
            marks@ =~= pickup_marks(*player, candidates@).take(i as int),
        decreases candidates.len() - i,
    {
        let candidate = &candidates[i];
        marks.push(can_pick_up(candidate.overlaps, &candidate.config, player));
        i += 1;
    }
    assert(marks@ =~= pickup_marks(*player, candidates@));
    marked_places(&marks)
}

/// The player never picks itself up, whether or not boxes overlap.
pub proof fn player_not_picked(overlaps: bool)
    ensures
        !(Candidate { overlaps, config: CollisionConfig::spec_player() }).picked_by(
            CollisionConfig::spec_player(),
        ),
{
    assert(1u32 & (0u32 | 2u32) == 0) by (bit_vector);
}

/// The player picks a tool up exactly when their boxes overlap.
pub proof fn player_picks_touched_tool(overlaps: bool)
    ensures
        (Candidate { overlaps, config: CollisionConfig::spec_tool() }).picked_by(
            CollisionConfig::spec_player(),
        ) == overlaps,
{
    assert(2u32 & (0u32 | 2u32) != 0) by (bit_vector);
    assert(2u32 & 2u32 != 0) by (bit_vector);
}

/// Nobody picks up a thing that is on no layer but the environment's.
pub proof fn environment_not_picked(overlaps: bool, mask: u32, picker: CollisionConfig)
    ensures
        !(Candidate {
            overlaps,
            config: CollisionConfig { layer: CollisionLayer::Environment.spec_bits(), mask },
        }).picked_by(picker),
{
    let reacts = picker.mask;
    assert(0u32 & reacts == 0) by (bit_vector);
}

} // verus!
