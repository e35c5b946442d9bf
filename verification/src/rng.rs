//! The shared pseudo-random sequence both peers must agree on.
//!
//! Exactly one peer is the RNG authority, a role fixed at match setup.  The
//! authority lets its game advance the shared generator natively and
//! transmits the drawn value in that tick's packet metadata; the other peer
//! overwrites its locally generated value with the transmitted one.  Only
//! results cross the wire, so neither side needs to replicate the other's
//! generator bit-for-bit, and the sequence consumed by tick `t` is a pure
//! function of the initial seed and `t`.

use vstd::prelude::*;

verus! {

/// Which side this peer plays in the shared-RNG scheme, decided once at
/// match setup (by connection-initiator identity) and passed in explicitly.
#[derive(Clone, Copy, Debug, PartialEq, Eq)]
pub enum Role {
    /// This peer's draws are ground truth and are transmitted.
    Authority,
    /// This peer adopts the authority's transmitted draws.
    Follower,
}

/// One step of the shared generator, a 32-bit linear congruential step.
pub open spec fn spec_rng_step(v: u32) -> u32 {
    ((v * 0x41C64E6D + 0x3039) % 0x1_0000_0000) as u32
}

/// The value drawn at tick `t` from initial seed `seed`: one draw per tick,
/// so this is a pure function of the seed and the tick alone.
pub open spec fn spec_draw_for_tick(seed: u32, t: nat) -> u32
    decreases t,
{
    if t == 0 {
        spec_rng_step(seed)
    } else {
        spec_rng_step(spec_draw_for_tick(seed, (t - 1) as nat))
    }
}

/// The shared generator state as one peer holds it.
#[derive(Clone, Copy, Debug, PartialEq, Eq)]
pub struct SharedRng {
    pub value: u32,
}

impl SharedRng {
    /// A generator at its initial seed, as transmitted once at match start.
    pub fn new(seed: u32) -> (r: SharedRng)
        ensures
            r.value == seed,
    {
        SharedRng { value: seed }
    }

    /// Advance by one draw and return the drawn value (the authority's
    /// per-tick move).  The drawn value and the new state coincide, so the
    /// transmitted draw fully determines the sender's state.
    pub fn draw(&mut self) -> (r: u32)
        ensures
            final(self).value == spec_rng_step(old(self).value),
            r == final(self).value,
    {
        let next: u32 = (((self.value as u64) * 0x41C64E6D + 0x3039) % 0x1_0000_0000) as u32;
        assert(next == spec_rng_step(self.value)) by {
            assert((self.value as u64) * 0x41C64E6D + 0x3039 == self.value * 0x41C64E6D + 0x3039);
        };
        self.value = next;
        next
    }

    /// Adopt the authority's transmitted draw, discarding whatever this side
    /// generated locally (the follower's per-tick move).
    pub fn overwrite(&mut self, d: u32)
        ensures
            final(self).value == d,
    {
        self.value = d;
    }
}

/// Run the authority side for `n` ticks from `seed`: returns the transmitted
/// draw of every tick and the final generator.  Every draw is the pure
/// function of the seed and the tick.
pub fn authority_run(seed: u32, n: usize) -> (r: (Vec<u32>, SharedRng))
    ensures
        r.0@.len() == n,
        forall|t: int| 0 <= t < n ==> r.0@[t] == spec_draw_for_tick(seed, t as nat),
        r.1.value == if n == 0 {
            seed
        } else {
            spec_draw_for_tick(seed, (n - 1) as nat)
        },
{
    let mut rng = SharedRng::new(seed);
    let mut draws: Vec<u32> = Vec::new();
    let mut t: usize = 0;
    while t < n
        invariant
            0 <= t <= n,
            draws@.len() == t,
            forall|i: int| 0 <= i < t ==> draws@[i] == spec_draw_for_tick(seed, i as nat),
            rng.value == if t == 0 {
                seed
            } else {
                spec_draw_for_tick(seed, (t - 1) as nat)
            },
        decreases n - t,
    {
        let d = rng.draw();
        assert(d == spec_draw_for_tick(seed, t as nat));
        draws.push(d);
        t = t + 1;
    }
    (draws, rng)
}

/// Run the follower side over the transmitted draws: returns the follower's
/// shared state after each tick.  Each state is exactly the draw it adopted.
pub fn follower_run(seed: u32, draws: &Vec<u32>) -> (r: Vec<u32>)
    ensures
        r@.len() == draws@.len(),
        forall|t: int| 0 <= t < draws@.len() ==> r@[t] == draws@[t],
{
    let mut rng = SharedRng::new(seed);
    let mut states: Vec<u32> = Vec::new();
    let mut t: usize = 0;
    while t < draws.len()
        invariant
            0 <= t <= draws@.len(),
            states@.len() == t,
            forall|i: int| 0 <= i < t ==> states@[i] == draws@[i],
        decreases draws@.len() - t,
    {
        rng.overwrite(draws[t]);
        states.push(rng.value);
        t = t + 1;
    }
    states
}

/// Shared-state equality: when the authority transmits
/// `spec_draw_for_tick(seed, t)` at each tick (which `authority_run`
/// guarantees) and the follower adopts each transmitted value (which
/// `follower_run` guarantees), the follower's shared RNG state after tick
/// `t` equals the authority's shared RNG state after tick `t`, for every
/// tick, with no further communication.
pub proof fn lemma_rng_shared_state_equal(
    seed: u32,
    auth_draws: Seq<u32>,
    foll_states: Seq<u32>,
)
    requires
        foll_states.len() == auth_draws.len(),
        forall|t: int| 0 <= t < auth_draws.len() ==> auth_draws[t] == spec_draw_for_tick(
            seed,
            t as nat,
        ),
        forall|t: int| 0 <= t < foll_states.len() ==> foll_states[t] == auth_draws[t],
    ensures
        forall|t: int| 0 <= t < auth_draws.len() ==> foll_states[t] == spec_draw_for_tick(
            seed,
            t as nat,
        ),
{
}

} // verus!
