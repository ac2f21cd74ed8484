//! The particle store: the live population of one particle system.

use vstd::prelude::*;

use crate::fixed::fp_ok;
use crate::particle::{particle_step_spec, particle_wf, Particle};
use crate::transform::{transform_ok, transform_point_spec, Transform};
use crate::vec3::{vec3_ok, Vec3};

verus! {

/// An axis-aligned bounding box.
#[derive(Clone, Copy, Debug, PartialEq, Eq, Structural)]
pub struct Aabb {
    /// Componentwise smallest corner.
    pub min: Vec3,
    /// Componentwise largest corner.
    pub max: Vec3,
}

/// The live particles of one particle system.
#[derive(Clone, Debug)]
pub struct ParticleSystem {
    /// When set, particle translations are stored in world coordinates;
    /// new particles are transformed once on insertion.
    pub world_space: bool,
    particles: Vec<Particle>,
}

/// Every stored particle satisfies its invariant.
pub open spec fn particles_wf(s: Seq<Particle>) -> bool {
    forall|i: int| 0 <= i < s.len() ==> particle_wf(#[trigger] s[i])
}

/// One integration pass over a sequence: step every particle by `dt`, in
/// order, and keep exactly those that still have lifetime left.
pub open spec fn integrate_spec(s: Seq<Particle>, dt: int) -> Seq<Particle>
    decreases s.len(),
{
    if s.len() == 0 {
        Seq::empty()
    } else {
        let init = integrate_spec(s.drop_last(), dt);
        let p = particle_step_spec(s.last(), dt);
        if p.lifetime > 0 {
            init.push(p)
        } else {
            init
        }
    }
}

/// Where a new particle lands in the store: transformed into world space
/// when the store keeps world coordinates, unchanged otherwise.
pub open spec fn placed_spec(p: Particle, world_space: bool, t: Transform) -> Particle {
    if world_space {
        Particle { translation: transform_point_spec(t, p.translation), ..p }
    } else {
        p
    }
}

/// After integration, every survivor is alive and well formed, and
/// survivors keep their relative order as a subsequence of the stepped
/// originals.
pub proof fn lemma_integrate_alive(s: Seq<Particle>, dt: int)
    requires
        particles_wf(s),
        0 <= dt,
        fp_ok(dt),
    ensures
        particles_wf(integrate_spec(s, dt)),
        forall|i: int|
            0 <= i < integrate_spec(s, dt).len() ==> #[trigger] integrate_spec(s, dt)[i].lifetime
                > 0,
        integrate_spec(s, dt).len() <= s.len(),
    decreases s.len(),
{
    if s.len() == 0 {
    } else {
        assert(particles_wf(s.drop_last())) by {
            assert(forall|i: int|
                0 <= i < s.drop_last().len() ==> #[trigger] s.drop_last()[i] == s[i]);
        }
        lemma_integrate_alive(s.drop_last(), dt);
        let init = integrate_spec(s.drop_last(), dt);
        let p = particle_step_spec(s.last(), dt);
        assert(particle_wf(s.last()));
        assert(particle_wf(p));
        if p.lifetime > 0 {
            assert(forall|i: int|
                0 <= i < init.push(p).len() ==> #[trigger] init.push(p)[i].lifetime > 0 && (
                particle_wf(init.push(p)[i])));
        }
    }
}

impl ParticleSystem {
    /// The stored particles, in order.
    pub closed spec fn particles_seq(self) -> Seq<Particle> {
        self.particles@
    }

    /// Whether translations are stored in world coordinates.
    pub closed spec fn is_world_space(self) -> bool {
        self.world_space
    }

    /// A store is well formed when all its particles are.
    pub open spec fn wf(self) -> bool {
        particles_wf(self.particles_seq())
    }

    /// An empty store keeping translations relative to the owner.
    pub fn new() -> (s: ParticleSystem)
        ensures
            s.wf(),
            !s.is_world_space(),
            s.particles_seq().len() == 0,
    {
        ParticleSystem { world_space: false, particles: Vec::new() }
    }

    /// An empty store keeping translations in world coordinates.
    pub fn world_space() -> (s: ParticleSystem)
        ensures
            s.wf(),
            s.is_world_space(),
            s.particles_seq().len() == 0,
    {
        ParticleSystem { world_space: true, particles: Vec::new() }
    }

    /// How many particles are live.
    pub fn len(&self) -> (n: usize)
        ensures
            n == self.particles_seq().len(),
    {
        self.particles.len()
    }

    /// Read access to the live particles.
    pub fn particles(&self) -> (v: &Vec<Particle>)
        ensures
            v@ == self.particles_seq(),
    {
        &self.particles
    }

    /// Whether translations are stored in world coordinates.
    pub fn in_world_space(&self) -> (b: bool)
        ensures
            b == self.is_world_space(),
    {
        self.world_space
    }

    /// Read access to one particle.
    pub fn get(&self, i: usize) -> (p: &Particle)
        requires
            i < self.particles_seq().len(),
        ensures
            *p == self.particles_seq()[i as int],
    {
        &self.particles[i]
    }

    /// Replaces one particle.
    pub fn set_particle(&mut self, i: usize, p: Particle)
        requires
            old(self).wf(),
            i < old(self).particles_seq().len(),
            particle_wf(p),
        ensures
            final(self).wf(),
            final(self).is_world_space() == old(self).is_world_space(),
            final(self).particles_seq() == old(self).particles_seq().update(i as int, p),
    {
        self.particles.set(i, p);
    }

    /// Steps every particle by `dt` and removes the expired, preserving
    /// the survivors' relative order.
    pub fn update(&mut self, dt: i64)
        requires
            old(self).wf(),
            0 <= dt,
            fp_ok(dt as int),
        ensures
            final(self).wf(),
            final(self).is_world_space() == old(self).is_world_space(),
            final(self).particles_seq() == integrate_spec(old(self).particles_seq(), dt as int),
            forall|i: int|
                0 <= i < final(self).particles_seq().len() ==> #[trigger] final(self).particles_seq()[i].lifetime > 0,
    {
        let ghost s = self.particles@;
        let n = self.particles.len();
        let mut out: Vec<Particle> = Vec::new();
        let mut i: usize = 0;
        while i < n
            invariant
                0 <= i <= n,
                n == s.len(),
                self.particles@ == s,
                particles_wf(s),
                0 <= dt,
                fp_ok(dt as int),
                out@ == integrate_spec(s.subrange(0, i as int), dt as int),
            decreases n - i,
        {
            let mut p = self.particles[i];
            proof {
                assert(particle_wf(s[i as int]));
            }
            p.step(dt);
            if p.lifetime > 0 {
                out.push(p);
            }
            proof {
                assert(s.subrange(0, i + 1).drop_last() =~= s.subrange(0, i as int));
                assert(s.subrange(0, i + 1).last() == s[i as int]);
            }
            i = i + 1;
        }
        proof {
            assert(s.subrange(0, n as int) =~= s);
            lemma_integrate_alive(s, dt as int);
        }
        self.particles = out;
    }

    /// Adds one particle, transforming it into world space first when the
    /// store keeps world coordinates.
    pub fn push(&mut self, particle: Particle, transform: &Transform)
        requires
            old(self).wf(),
            particle_wf(particle),
            transform_ok(*transform),
        ensures
            final(self).wf(),
            final(self).is_world_space() == old(self).is_world_space(),
            final(self).particles_seq() == old(self).particles_seq().push(
                placed_spec(particle, old(self).is_world_space(), *transform),
            ),
    {
        let p = if self.world_space {
            particle.transformed(transform)
        } else {
            particle
        };
        self.particles.push(p);
        proof {
            assert(forall|i: int|
                0 <= i < self.particles@.len() - 1 ==> #[trigger] self.particles@[i] == old(self).particles_seq()[i]);
        }
    }

    /// Adds many particles, each transformed as `push` would.
    pub fn extend(&mut self, particles: &Vec<Particle>, transform: &Transform)
        requires
            old(self).wf(),
            particles_wf(particles@),
            transform_ok(*transform),
        ensures
            final(self).wf(),
            final(self).is_world_space() == old(self).is_world_space(),
            final(self).particles_seq() == old(self).particles_seq() + particles@.map_values(
                |p: Particle| placed_spec(p, old(self).is_world_space(), *transform),
            ),
    {
        let n = particles.len();
        let mut i: usize = 0;
        while i < n
            invariant
                0 <= i <= n,
                n == particles@.len(),
                particles_wf(particles@),
                transform_ok(*transform),
                self.wf(),
                self.is_world_space() == old(self).is_world_space(),
                self.particles_seq() == old(self).particles_seq() + particles@.subrange(
                    0,
                    i as int,
                ).map_values(
                    |p: Particle| placed_spec(p, old(self).is_world_space(), *transform),
                ),
            decreases n - i,
        {
            let p = particles[i];
            self.push(p, transform);
            proof {
                let f = |p: Particle| placed_spec(p, old(self).is_world_space(), *transform);
                assert(particles@.subrange(0, i + 1).map_values(f) =~= particles@.subrange(
                    0,
                    i as int,
                ).map_values(f).push(f(particles@[i as int])));
                assert(self.particles_seq() =~= old(self).particles_seq() + particles@.subrange(
                    0,
                    i + 1,
                ).map_values(f));
            }
            i = i + 1;
        }
        proof {
            assert(particles@.subrange(0, n as int) =~= particles@);
        }
    }

    /// Keeps only the `max` newest particles, dropping the oldest first;
    /// a store at or under the cap is left unchanged.
    pub fn trim_oldest(&mut self, max: usize)
        requires
            old(self).wf(),
        ensures
            final(self).wf(),
            final(self).is_world_space() == old(self).is_world_space(),
            old(self).particles_seq().len() <= max ==> final(self).particles_seq() == old(self).particles_seq(),
            old(self).particles_seq().len() > max ==> final(self).particles_seq() == old(self).particles_seq().subrange(
                old(self).particles_seq().len() - max,
                old(self).particles_seq().len() as int,
            ),
    {
        let n = self.particles.len();
        if n <= max {
            return ;
        }
        let start = n - max;
        let mut out: Vec<Particle> = Vec::new();
        let mut i: usize = start;
        while i < n
            invariant
                start <= i <= n,
                n == self.particles@.len(),
                self.particles@ == old(self).particles_seq(),
                out@ == self.particles@.subrange(start as int, i as int),
            decreases n - i,
        {
            let p = self.particles[i];
            out.push(p);
            proof {
                assert(self.particles@.subrange(start as int, i + 1) =~= self.particles@.subrange(
                    start as int,
                    i as int,
                ).push(self.particles@[i as int]));
            }
            i = i + 1;
        }
        self.particles = out;
        proof {
            assert(self.particles@ =~= old(self).particles_seq().subrange(
                start as int,
                n as int,
            ));
        }
    }

    /// The componentwise bounds of all live translations, or `None` when
    /// the store is empty.
    pub fn compute_aabb(&self) -> (r: Option<Aabb>)
        requires
            self.wf(),
        ensures
            r is None <==> self.particles_seq().len() == 0,
            r matches Some(ab) ==> ({
                &&& vec3_ok(ab.min)
                &&& vec3_ok(ab.max)
                &&& forall|i: int|
                    0 <= i < self.particles_seq().len() ==> ({
                        let t = #[trigger] self.particles_seq()[i].translation;
                        ab.min.x <= t.x <= ab.max.x && ab.min.y <= t.y <= ab.max.y && ab.min.z
                            <= t.z <= ab.max.z
                    })
                &&& exists|i: int|
                    0 <= i < self.particles_seq().len() && #[trigger] self.particles_seq()[i].translation.x
                        == ab.min.x
                &&& exists|i: int|
                    0 <= i < self.particles_seq().len() && #[trigger] self.particles_seq()[i].translation.x
                        == ab.max.x
                &&& exists|i: int|
                    0 <= i < self.particles_seq().len() && #[trigger] self.particles_seq()[i].translation.y
                        == ab.min.y
                &&& exists|i: int|
                    0 <= i < self.particles_seq().len() && #[trigger] self.particles_seq()[i].translation.y
                        == ab.max.y
                &&& exists|i: int|
                    0 <= i < self.particles_seq().len() && #[trigger] self.particles_seq()[i].translation.z
                        == ab.min.z
                &&& exists|i: int|
                    0 <= i < self.particles_seq().len() && #[trigger] self.particles_seq()[i].translation.z
                        == ab.max.z
            }),
    {
        let n = self.particles.len();
        if n == 0 {
            return None;
        }
        let first = self.particles[0].translation;
        let mut ab = Aabb { min: first, max: first };
        let mut i: usize = 1;
        while i < n
            invariant
                1 <= i <= n,
                n == self.particles_seq().len(),
                self.wf(),
                vec3_ok(ab.min),
                vec3_ok(ab.max),
                forall|j: int|
                    0 <= j < i ==> ({
                        let t = #[trigger] self.particles_seq()[j].translation;
                        ab.min.x <= t.x <= ab.max.x && ab.min.y <= t.y <= ab.max.y && ab.min.z
                            <= t.z <= ab.max.z
                    }),
                exists|j: int|
                    0 <= j < i && #[trigger] self.particles_seq()[j].translation.x == ab.min.x,
                exists|j: int|
                    0 <= j < i && #[trigger] self.particles_seq()[j].translation.x == ab.max.x,
                exists|j: int|
                    0 <= j < i && #[trigger] self.particles_seq()[j].translation.y == ab.min.y,
                exists|j: int|
                    0 <= j < i && #[trigger] self.particles_seq()[j].translation.y == ab.max.y,
                exists|j: int|
                    0 <= j < i && #[trigger] self.particles_seq()[j].translation.z == ab.min.z,
                exists|j: int|
                    0 <= j < i && #[trigger] self.particles_seq()[j].translation.z == ab.max.z,
            decreases n - i,
        {
            let t = self.particles[i].translation;
            if t.x < ab.min.x {
                ab.min.x = t.x;
                proof {
                    assert(self.particles_seq()[i as int].translation.x == ab.min.x);
                }
            }
            if t.y < ab.min.y {
                ab.min.y = t.y;
                proof {
                    assert(self.particles_seq()[i as int].translation.y == ab.min.y);
                }
            }
            if t.z < ab.min.z {
                ab.min.z = t.z;
                proof {
                    assert(self.particles_seq()[i as int].translation.z == ab.min.z);
                }
            }
            if t.x > ab.max.x {
                ab.max.x = t.x;
                proof {
                    assert(self.particles_seq()[i as int].translation.x == ab.max.x);
                }
            }
            if t.y > ab.max.y {
                ab.max.y = t.y;
                proof {
                    assert(self.particles_seq()[i as int].translation.y == ab.max.y);
                }
            }
            if t.z > ab.max.z {
                ab.max.z = t.z;
                proof {
                    assert(self.particles_seq()[i as int].translation.z == ab.max.z);
                }
            }
            i = i + 1;
        }
        Some(ab)
    }
}

} // verus!
