//! Movement and grounding: per-frame input-to-velocity mapping.
//!
//! Horizontal velocity is substituted directly from the input axis each
//! frame. Vertical velocity is set to the jump speed only when the character
//! is grounded and the jump trigger fired this frame; otherwise it is left
//! untouched (the external physics integrator owns it the rest of the time).

use vstd::prelude::*;

use crate::components::{Ground, JumpState, Platform, Player, Vec2i};
use crate::constants::{EPSILON, JUMP_SPEED, PLAYER_SPEED, SCALE};

verus! {

/// Height of a platform's top surface, in hundredths of a world unit.
pub open spec fn platform_top(p: Platform) -> int {
    p.position.y + p.half_extents.y
}

/// Height of the character's bottom edge, in hundredths of a world unit.
pub open spec fn bottom_of(position: Vec2i, half_height: i32) -> int {
    position.y - half_height
}

/// A platform supports a character whose bottom edge is no lower than
/// `EPSILON` below the platform's top surface.
pub open spec fn supports(p: Platform, character_bottom: int) -> bool {
    character_bottom >= platform_top(p) - EPSILON * SCALE
}

/// Resolves a contact handle against the ground table: the platform of the
/// first entry carrying this id, if any.
pub open spec fn resolve_platform(ground: Seq<Ground>, id: u64) -> Option<Platform>
    decreases ground.len(),
{
    if ground.len() == 0 {
        None
    } else if ground[0].id == id {
        Some(ground[0].platform)
    } else {
        resolve_platform(ground.drop_first(), id)
    }
}

/// A contact counts as supporting iff it resolves to a platform that
/// supports the character; contacts that resolve to no platform never count.
pub open spec fn contact_supports(ground: Seq<Ground>, id: u64, character_bottom: int) -> bool {
    match resolve_platform(ground, id) {
        Some(p) => supports(p, character_bottom),
        None => false,
    }
}

/// Grounded iff at least one current contact is supporting.
pub open spec fn is_grounded(contacts: Seq<u64>, ground: Seq<Ground>, character_bottom: int) -> bool {
    exists|i: int|
        0 <= i < contacts.len() && #[trigger] contact_supports(ground, contacts[i], character_bottom)
}

/// Looks a contact handle up in the ground table, returning the geometry of
/// the first entry with this id.
pub fn lookup_platform(ground: &Vec<Ground>, id: u64) -> (r: Option<Platform>)
    ensures
        r == resolve_platform(ground@, id),
{
    let mut j: usize = 0;
    proof {
        assert(ground@.skip(0) =~= ground@);
    }
    while j < ground.len()
        invariant
            j <= ground@.len(),
            resolve_platform(ground@, id) == resolve_platform(ground@.skip(j as int), id),
        decreases ground@.len() - j,
    {
        proof {
            assert(ground@.skip(j as int)[0] == ground@[j as int]);
            assert(ground@.skip(j as int).drop_first() =~= ground@.skip(j as int + 1));
        }
        if ground[j].id == id {
            return Some(ground[j].platform);
        }
        j = j + 1;
    }
    proof {
        assert(ground@.skip(j as int) =~= Seq::<Ground>::empty());
    }
    None
}

/// The grounded predicate: scans the character's contacts for one that
/// resolves to a supporting platform.
pub fn grounded(player: &Player, ground: &Vec<Ground>) -> (g: bool)
    ensures
        g == is_grounded(
            player.contacts@,
            ground@,
            bottom_of(player.position, player.half_height),
        ),
{
    let bottom: i64 = player.position.y as i64 - player.half_height as i64;
    let ghost spec_bottom = bottom_of(player.position, player.half_height);
    let mut i: usize = 0;
    while i < player.contacts.len()
        invariant
            i <= player.contacts@.len(),
            bottom == spec_bottom,
            spec_bottom == bottom_of(player.position, player.half_height),
            forall|k: int|
                0 <= k < i ==> !#[trigger] contact_supports(ground@, player.contacts@[k], spec_bottom),
        decreases player.contacts@.len() - i,
    {
        let id = player.contacts[i];
        match lookup_platform(ground, id) {
            Some(p) => {
                let top: i64 = p.position.y as i64 + p.half_extents.y as i64;
                let tolerance: i64 = 100;
                proof {
                    assert(tolerance == EPSILON * SCALE);
                }
                if bottom >= top - tolerance {
                    proof {
                        assert(contact_supports(ground@, player.contacts@[i as int], spec_bottom));
                    }
                    return true;
                }
            },
            None => {},
        }
        i = i + 1;
    }
    false
}

/// Relation between the character before and after the input stage: position,
/// half-height and contacts are untouched; the horizontal velocity is the
/// input axis times the player speed; the vertical velocity is the jump
/// speed when grounded with the trigger fired, and untouched otherwise.
pub open spec fn player_input_applied(
    p0: Player,
    p1: Player,
    ground: Seq<Ground>,
    movement: Vec2i,
    jump: JumpState,
) -> bool {
    &&& p1.position == p0.position
    &&& p1.half_height == p0.half_height
    &&& p1.contacts@ == p0.contacts@
    &&& p1.velocity.x == movement.x * PLAYER_SPEED
    &&& p1.velocity.y == if is_grounded(
        p0.contacts@,
        ground,
        bottom_of(p0.position, p0.half_height),
    ) && jump == (JumpState::Fired) {
        (JUMP_SPEED * SCALE) as int
    } else {
        p0.velocity.y as int
    }
}

/// Movement & Grounding stage. A silent no-op when the character singleton,
/// the input source or the jump-state source is absent this frame.
pub fn apply_player_input(
    player: &mut Option<Player>,
    ground: &Vec<Ground>,
    movement: &Option<Vec2i>,
    jump: &Option<JumpState>,
)
    requires
        (*movement) matches Some(m) ==> -100 <= m.x <= 100 && -100 <= m.y <= 100,
    ensures
        match (*old(player), *movement, *jump) {
            (Some(p0), Some(m), Some(j)) => {
                &&& (*final(player)) matches Some(p1) && player_input_applied(p0, p1, ground@, m, j)
            },
            _ => *final(player) == *old(player),
        },
{
    let m: Vec2i;
    let j: JumpState;
    match (*movement, *jump) {
        (Some(mv), Some(js)) => {
            m = mv;
            j = js;
        },
        _ => {
            return ;
        },
    }
    match player {
        Some(p) => {
            let g = grounded(p, ground);
            p.velocity.x = m.x * PLAYER_SPEED;
            if g && j == (JumpState::Fired) {
                p.velocity.y = JUMP_SPEED * SCALE;
            }
        },
        None => {},
    }
}

/// Law of the jump rule: after the input stage, the vertical velocity is the
/// jump speed when the character was grounded and the trigger fired, and is
/// the previous vertical velocity otherwise — in particular it is never set
/// while airborne, whatever the trigger state.
pub proof fn lemma_jump_rule(
    p0: Player,
    p1: Player,
    ground: Seq<Ground>,
    movement: Vec2i,
    jump: JumpState,
)
    requires
        player_input_applied(p0, p1, ground, movement, jump),
    ensures
        is_grounded(p0.contacts@, ground, bottom_of(p0.position, p0.half_height)) && jump
            == (JumpState::Fired) ==> p1.velocity.y == JUMP_SPEED * SCALE,
        !(is_grounded(p0.contacts@, ground, bottom_of(p0.position, p0.half_height)) && jump
            == (JumpState::Fired)) ==> p1.velocity.y == p0.velocity.y,
{
}

/// Law of grounding: a contact that resolves to no platform never
/// contributes to the grounded determination.
pub proof fn lemma_unresolved_contact_ignored(
    contacts: Seq<u64>,
    ground: Seq<Ground>,
    character_bottom: int,
    id: u64,
)
    requires
        resolve_platform(ground, id) is None,
    ensures
        is_grounded(contacts.push(id), ground, character_bottom) == is_grounded(
            contacts,
            ground,
            character_bottom,
        ),
{
    let with = contacts.push(id);
    if is_grounded(with, ground, character_bottom) {
        let i = choose|i: int|
            0 <= i < with.len() && #[trigger] contact_supports(ground, with[i], character_bottom);
        assert(i < contacts.len()) by {
            if i == contacts.len() {
                assert(with[i] == id);
            }
        }
        assert(contact_supports(ground, contacts[i], character_bottom));
    }
    if is_grounded(contacts, ground, character_bottom) {
        let i = choose|i: int|
            0 <= i < contacts.len() && #[trigger] contact_supports(
                ground,
                contacts[i],
                character_bottom,
            );
        assert(contact_supports(ground, with[i], character_bottom));
    }
}

} // verus!
