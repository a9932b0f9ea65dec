//! Index work on a population stored row by row in one flat buffer: reading
//! one member, and drawing a partner for a member.

use rand::rngs::ThreadRng;
use rand::Rng;
use vstd::prelude::*;
use vstd::slice::slice_subrange;

verus! {

#[verifier::external_type_specification]
#[verifier::external_body]
pub struct ExThreadRng(ThreadRng);

/// Draws an index below `upper` with `rand::Rng::gen_range(0..upper)` on the
/// thread-local generator. The call panics on an empty range, hence the
/// `requires`; the result is random, so the contract states only that it
/// lies in the range (`rand` documents the draw as uniform, which nothing
/// here states).
#[verifier::external_body]
fn random_index_below(rng: &mut ThreadRng, upper: usize) -> (i: usize)
    requires
        upper > 0,
    ensures
        i < upper,
{
    rng.gen_range(0..upper)
}

/// `d` is an outcome of one draw below `upper` on the generator behind
/// `rng`, made by passing `rng` itself to the draw.
pub closed spec fn drawn_below(before: ThreadRng, upper: usize, d: usize) -> bool {
    exists|r: &mut ThreadRng|
        mut_ref_current(r) == before && #[trigger] call_ensures(random_index_below, (r, upper), d)
}

/// The coordinates of member `pop_index` of a population of members of
/// `dimensions` coordinates each, stored one member after the other.
pub fn population_member<T>(population: &[T], dimensions: usize, pop_index: usize) -> (member: &[T])
    requires
        (pop_index + 1) * dimensions <= population@.len(),
    ensures
        member@ == population@.subrange(
            pop_index * dimensions,
            pop_index * dimensions + dimensions,
        ),
{
    let buffer_len = population.len();
    proof {
        assert((pop_index + 1) * dimensions == pop_index * dimensions + dimensions)
            by (nonlinear_arith);
        assert(pop_index * dimensions + dimensions <= buffer_len);
    }
    let start = pop_index * dimensions;
    slice_subrange(population, start, start + dimensions)
}

/// Draws a partner for member `member` among the other members of a
/// population of `population_size`: the partner is `partner_index(member, d)`
/// for the one draw `d` below `population_size - 1` made on `rng` as it stood
/// on entry. That map reaches each other member from exactly one draw
/// (`lemma_partner_determines_draw`), so every other member is equally
/// likely, as `rng` draws uniformly, and the member itself never comes out.
pub fn random_partner(rng: &mut ThreadRng, member: usize, population_size: usize) -> (partner: usize)
    requires
        member < population_size,
        population_size >= 2,
    ensures
        partner < population_size,
        partner != member,
        exists|d: usize|
            d < population_size - 1
            && drawn_below(*old(rng), (population_size - 1) as usize, d)
            && partner == partner_index(member as nat, d as nat),
{
    // Called through a function value, so that the draw is recorded as
    // an outcome of this very call (`drawn_below`).
    let draw_below = random_index_below;
    let draw = draw_below(rng, population_size - 1);
    assert(drawn_below(*old(rng), (population_size - 1) as usize, draw));
    let partner = partner_from_draw(member, draw);
    assert(partner == partner_index(member as nat, draw as nat));
    partner
}

/// Maps a draw from `0..population_size - 1` onto the members other than
/// `member`, one to one and in order: draws below `member` stand for
/// themselves, the others for the member after them.
pub fn partner_from_draw(member: usize, draw: usize) -> (partner: usize)
    requires
        draw < usize::MAX,
    ensures
        partner == if draw < member { draw } else { (draw + 1) as usize },
        partner != member,
{
    if draw < member {
        draw
    } else {
        draw + 1
    }
}

/// The map from draws to partners is one to one, so that a uniform draw
/// gives every partner the same chance, and it reaches every member other
/// than `member`.
pub proof fn lemma_partner_map_bijective(member: nat, population_size: nat)
    requires
        member < population_size,
    ensures
        forall|d1: nat, d2: nat|
            d1 < population_size - 1 && d2 < population_size - 1 && d1 != d2 ==> 
                #[trigger] partner_index(member, d1) != #[trigger] partner_index(member, d2),
        forall|q: nat|
            q < population_size && q != member ==> #[trigger] draw_index(member, q)
                < population_size - 1 && partner_index(member, draw_index(member, q)) == q,
        forall|d: nat|
            d < population_size - 1 ==> #[trigger] partner_index(member, d) < population_size
                && partner_index(member, d) != member,
{
}

/// Each member `q` other than `member` is the partner of exactly one draw
/// below `population_size - 1`, namely `draw_index(member, q)`; so a uniform
/// draw gives each of them the same chance.
pub proof fn lemma_partner_determines_draw(member: nat, population_size: nat, d: nat, q: nat)
    requires
        member < population_size,
        d < population_size - 1,
        q < population_size,
        q != member,
    ensures
        partner_index(member, d) == q <==> d == draw_index(member, q),
        draw_index(member, q) < population_size - 1,
{
}

/// The partner that a draw `draw` stands for, as `partner_from_draw`
/// computes it.
pub open spec fn partner_index(member: nat, draw: nat) -> nat {
    if draw < member {
        draw
    } else {
        draw + 1
    }
}

/// The draw that stands for partner `partner`: the inverse of
/// `partner_index`.
pub open spec fn draw_index(member: nat, partner: nat) -> nat {
    if partner < member {
        partner
    } else {
        (partner - 1) as nat
    }
}

} // verus!
