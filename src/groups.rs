use vstd::prelude::*;

verus! {

/// Membership bit of the player and of every part absorbed into it.
pub const PLAYER: u32 = 0b0001;

/// Membership bit of a free doodad.
pub const DOODAD: u32 = 0b0010;

/// Membership bit of the level geometry.
pub const LEVEL: u32 = 0b0100;

/// Every category bit at once.
pub const ALL: u32 = 0b0111;

/// A membership / filter pair used for contact filtering between bodies.
#[derive(Clone, Copy, Debug, PartialEq, Eq, Structural)]
pub struct CollisionGroups {
    pub memberships: u32,
    pub filters: u32,
}

/// A membership / filter pair used to filter shape queries.
#[derive(Clone, Copy, Debug, PartialEq, Eq, Structural)]
pub struct InteractionGroups {
    pub memberships: u32,
    pub filter: u32,
}

/// Two pairs interact when each one's memberships meet the other's filter.
pub open spec fn pair_interacts(m1: u32, f1: u32, m2: u32, f2: u32) -> bool {
    (m1 & f2) != 0 && (m2 & f1) != 0
}

pub open spec fn collides(a: CollisionGroups, b: CollisionGroups) -> bool {
    pair_interacts(a.memberships, a.filters, b.memberships, b.filters)
}

pub open spec fn interacts(a: InteractionGroups, b: InteractionGroups) -> bool {
    pair_interacts(a.memberships, a.filter, b.memberships, b.filter)
}

impl CollisionGroups {
    pub open spec fn to_interaction_spec(self) -> InteractionGroups {
        InteractionGroups { memberships: self.memberships, filter: self.filters }
    }

    /// The same pair, as used by shape queries.
    pub fn to_interaction(self) -> (r: InteractionGroups)
        ensures
            r == self.to_interaction_spec(),
    {
        InteractionGroups { memberships: self.memberships, filter: self.filters }
    }

    /// Whether contacts between bodies in these two groups are generated.
    pub fn collides_with(&self, other: &CollisionGroups) -> (r: bool)
        ensures
            r == collides(*self, *other),
    {
        (self.memberships & other.filters) != 0 && (other.memberships & self.filters) != 0
    }
}

impl InteractionGroups {
    /// Whether a query with these groups reports a shape with the other ones.
    pub fn test(&self, other: &InteractionGroups) -> (r: bool)
        ensures
            r == interacts(*self, *other),
    {
        (self.memberships & other.filter) != 0 && (other.memberships & self.filter) != 0
    }
}

/// The category bits, and the membership / filter pair of each kind of body.
#[derive(Clone, Copy, Debug, PartialEq, Eq, Structural)]
pub struct Groups {
    pub bits: u32,
}

pub open spec fn player_groups() -> CollisionGroups {
    CollisionGroups { memberships: PLAYER, filters: LEVEL }
}

pub open spec fn player_interaction_groups() -> InteractionGroups {
    InteractionGroups { memberships: PLAYER | DOODAD, filter: DOODAD }
}

pub open spec fn doodad_groups() -> CollisionGroups {
    CollisionGroups { memberships: DOODAD, filters: DOODAD | LEVEL }
}

pub open spec fn level_groups() -> CollisionGroups {
    CollisionGroups { memberships: LEVEL, filters: ALL }
}

impl Groups {
    /// All category bits.
    pub fn all() -> (r: Groups)
        ensures
            r.bits == ALL,
            r.bits == PLAYER | DOODAD | LEVEL,
    {
        assert(PLAYER | DOODAD | LEVEL == ALL) by (bit_vector);
        Groups { bits: ALL }
    }

    pub fn bits(&self) -> (r: u32)
        ensures
            r == self.bits,
    {
        self.bits
    }

    /// The player collides with the level only.
    pub fn player() -> (r: CollisionGroups)
        ensures
            r == player_groups(),
    {
        CollisionGroups { memberships: PLAYER, filters: LEVEL }
    }

    /// The query groups of the combine action: they report doodads. The
    /// player's own bit is kept among the memberships, and the doodad bit is
    /// added so that free doodads report back.
    pub fn player_interaction() -> (r: InteractionGroups)
        ensures
            r == player_interaction_groups(),
    {
        InteractionGroups { memberships: PLAYER | DOODAD, filter: DOODAD }
    }

    /// Doodads collide with each other and with the level.
    pub fn doodad() -> (r: CollisionGroups)
        ensures
            r == doodad_groups(),
    {
        CollisionGroups { memberships: DOODAD, filters: DOODAD | LEVEL }
    }

    /// The level collides with everything.
    pub fn level() -> (r: CollisionGroups)
        ensures
            r == level_groups(),
    {
        let all = Groups::all();
        CollisionGroups { memberships: LEVEL, filters: all.bits() }
    }
}

/// Each kind of body belongs to exactly one category, the categories share no
/// bit, and contact filtering is symmetric where the game relies on it:
/// doodads touch doodads, doodads and the level touch each other both ways,
/// the player touches the level, a free doodad does not touch the player's
/// body, and the combine query reports free doodads.
pub proof fn lemma_groups_consistent()
    ensures
        PLAYER & DOODAD == 0,
        PLAYER & LEVEL == 0,
        DOODAD & LEVEL == 0,
        PLAYER != 0 && DOODAD != 0 && LEVEL != 0,
        player_groups().memberships == PLAYER,
        doodad_groups().memberships == DOODAD,
        level_groups().memberships == LEVEL,
        collides(doodad_groups(), doodad_groups()),
        collides(doodad_groups(), level_groups()),
        collides(level_groups(), doodad_groups()),
        collides(player_groups(), level_groups()),
        collides(level_groups(), player_groups()),
        !collides(player_groups(), doodad_groups()),
        !collides(doodad_groups(), player_groups()),
        interacts(player_interaction_groups(), doodad_groups().to_interaction_spec()),
        interacts(doodad_groups().to_interaction_spec(), player_interaction_groups()),
{
    assert(PLAYER & DOODAD == 0 && PLAYER & LEVEL == 0 && DOODAD & LEVEL == 0) by (bit_vector);
    assert((DOODAD & (DOODAD | LEVEL)) != 0) by (bit_vector);
    assert((DOODAD & ALL) != 0 && (LEVEL & (DOODAD | LEVEL)) != 0) by (bit_vector);
    assert((PLAYER & ALL) != 0 && (LEVEL & LEVEL) != 0) by (bit_vector);
    assert((PLAYER & (DOODAD | LEVEL)) == 0) by (bit_vector);
    assert(((PLAYER | DOODAD) & (DOODAD | LEVEL)) != 0) by (bit_vector);
    assert((DOODAD & DOODAD) != 0) by (bit_vector);
}

} // verus!
