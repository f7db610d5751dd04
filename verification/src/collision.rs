use vstd::prelude::*;

use crate::wall::WallType;

verus! {

/// What the player ran into.
#[derive(Clone, Copy, Debug, PartialEq, Eq, Structural)]
pub enum PlayerHit {
    Avoid,
    Goal,
}

/// The two entities of a collision that started, as far as the game cares: whether each is the
/// player, and the kind of wall each is, if it is a wall.
#[derive(Clone, Copy, Debug, PartialEq, Eq, Structural)]
pub struct Collision {
    pub first_is_player: bool,
    pub second_is_player: bool,
    pub first_wall: Option<WallType>,
    pub second_wall: Option<WallType>,
}

/// The wall the player ran into: the other entity of a collision that involves the player
/// (the first entity is taken to be the player when both are).
pub open spec fn target_wall(collision: Collision) -> Option<WallType> {
    if collision.first_is_player {
        collision.second_wall
    } else if collision.second_is_player {
        collision.first_wall
    } else {
        None
    }
}

/// What a collision means for the player: hitting a wall to avoid or the goal; a neutral wall,
/// any other entity or a collision without the player means nothing.
pub open spec fn spec_player_hit(collision: Collision) -> Option<PlayerHit> {
    match target_wall(collision) {
        Some(WallType::Avoid) => Some(PlayerHit::Avoid),
        Some(WallType::Goal) => Some(PlayerHit::Goal),
        _ => None,
    }
}

/// Classifies a collision that started.
pub fn check_player_hit(collision: Collision) -> (hit: Option<PlayerHit>)
    ensures
        hit == spec_player_hit(collision),
{
    let target = if collision.first_is_player {
        collision.second_wall
    } else if collision.second_is_player {
        collision.first_wall
    } else {
        return None;
    };
    match target {
        Some(WallType::Avoid) => Some(PlayerHit::Avoid),
        Some(WallType::Goal) => Some(PlayerHit::Goal),
        Some(WallType::Neutral) => None,
        None => None,
    }
}

/// How the game answers a hit.
#[derive(Clone, Copy, Debug, PartialEq, Eq, Structural)]
pub enum CollisionResponse {
    /// Send the player back to the level's start.
    ResetPlayer,
    /// Pause the game and show the level-complete overlay.
    CompleteLevel,
}

pub open spec fn response_to(hit: PlayerHit) -> CollisionResponse {
    match hit {
        PlayerHit::Avoid => CollisionResponse::ResetPlayer,
        PlayerHit::Goal => CollisionResponse::CompleteLevel,
    }
}

/// The responses to a frame's collisions, in order; collisions that mean nothing are skipped.
pub open spec fn collision_responses(collisions: Seq<Collision>) -> Seq<CollisionResponse>
    decreases collisions.len(),
{
    if collisions.len() == 0 {
        Seq::empty()
    } else {
        let before = collision_responses(collisions.drop_last());
        match spec_player_hit(collisions.last()) {
            Some(hit) => before.push(response_to(hit)),
            None => before,
        }
    }
}

/// Answers each collision that started this frame.
pub fn handle_player_collisions(collisions: &Vec<Collision>) -> (responses: Vec<CollisionResponse>)
    ensures
        responses@ == collision_responses(collisions@),
{
    let mut responses: Vec<CollisionResponse> = Vec::new();
    let n = collisions.len();
    let mut i: usize = 0;
    while i < n
        invariant
            n == collisions.len(),
            i <= n,
            responses@ == collision_responses(collisions@.take(i as int)),
        decreases n - i,
    {
        proof {
            assert(collisions@.take(i + 1).drop_last() == collisions@.take(i as int));
        }
        match check_player_hit(collisions[i]) {
            Some(PlayerHit::Avoid) => responses.push(CollisionResponse::ResetPlayer),
            Some(PlayerHit::Goal) => responses.push(CollisionResponse::CompleteLevel),
            None => {},
        }
        i += 1;
    }
    proof {
        assert(collisions@.take(n as int) == collisions@);
    }
    responses
}

/// The same collision with its two entities in the other order.
pub open spec fn swapped(collision: Collision) -> Collision {
    Collision {
        first_is_player: collision.second_is_player,
        second_is_player: collision.first_is_player,
        first_wall: collision.second_wall,
        second_wall: collision.first_wall,
    }
}

/// The order in which the physics engine reports the two entities does not matter, unless both
/// are players.
pub proof fn lemma_player_hit_symmetric(collision: Collision)
    requires
        !(collision.first_is_player && collision.second_is_player),
    ensures
        spec_player_hit(swapped(collision)) == spec_player_hit(collision),
{
}

/// A collision without the player, or with a neutral wall, means nothing.
pub proof fn lemma_harmless_collisions(collision: Collision)
    ensures
        !collision.first_is_player && !collision.second_is_player ==> spec_player_hit(collision) is None,
        target_wall(collision) == Some(WallType::Neutral) ==> spec_player_hit(collision) is None,
        target_wall(collision) is None ==> spec_player_hit(collision) is None,
{
}

/// Every collision of the frame is answered on its own, after the ones before it: running into
/// a wall to avoid adds a reset, reaching the goal adds a level completion, and anything else
/// adds nothing; a frame without collisions has no answer.
pub proof fn lemma_each_collision_answered(collisions: Seq<Collision>, collision: Collision)
    ensures
        collision_responses(Seq::empty()) == Seq::<CollisionResponse>::empty(),
        spec_player_hit(collision) == Some(PlayerHit::Avoid) ==> collision_responses(
            collisions.push(collision),
        ) == collision_responses(collisions).push(CollisionResponse::ResetPlayer),
        spec_player_hit(collision) == Some(PlayerHit::Goal) ==> collision_responses(
            collisions.push(collision),
        ) == collision_responses(collisions).push(CollisionResponse::CompleteLevel),
        spec_player_hit(collision) is None ==> collision_responses(collisions.push(collision))
            == collision_responses(collisions),
{
    assert(collisions.push(collision).drop_last() == collisions);
}

/// The player touching the goal or a wall to avoid, as the first or the second entity of a
/// collision, is a hit of that kind.
pub proof fn lemma_player_touches_wall(collision: Collision)
    ensures
        collision.first_is_player && collision.second_wall == Some(WallType::Goal)
            ==> spec_player_hit(collision) == Some(PlayerHit::Goal),
        collision.first_is_player && collision.second_wall == Some(WallType::Avoid)
            ==> spec_player_hit(collision) == Some(PlayerHit::Avoid),
        !collision.first_is_player && collision.second_is_player && collision.first_wall == Some(
            WallType::Goal,
        ) ==> spec_player_hit(collision) == Some(PlayerHit::Goal),
        !collision.first_is_player && collision.second_is_player && collision.first_wall == Some(
            WallType::Avoid,
        ) ==> spec_player_hit(collision) == Some(PlayerHit::Avoid),
{
}

/// The answers to two runs of collisions one after the other are the answers to the first run
/// followed by the answers to the second.
pub proof fn lemma_collision_runs(first: Seq<Collision>, second: Seq<Collision>)
    ensures
        collision_responses(first + second) == collision_responses(first) + collision_responses(
            second,
        ),
    decreases second.len(),
{
    if second.len() == 0 {
        assert(first + second == first);
        assert(collision_responses(first) + collision_responses(second) == collision_responses(first));
    } else {
        lemma_collision_runs(first, second.drop_last());
        assert((first + second).drop_last() == first + second.drop_last());
        assert((first + second).last() == second.last());
        let a = collision_responses(first);
        let b = collision_responses(second.drop_last());
        match spec_player_hit(second.last()) {
            Some(hit) => {
                assert((a + b).push(response_to(hit)) == a + b.push(response_to(hit)));
            },
            None => {},
        }
    }
}

} // verus!
