//! Coupling descriptors and the per-frame view of the rigid-body world.
//!
//! The rigid-body engine and the GPU buffers live outside this crate. Each
//! frame the host samples the engine into plain values — bit patterns of the
//! 32-bit floats the GPU consumes — and the orchestrator assembles from them
//! the exact records to upload. The crate never interprets the bit patterns
//! arithmetically; it decides which values are uploaded, in which order, and
//! whether a body receives the frame's gravity contribution.

use vstd::prelude::*;

verus! {

/// Handle of a rigid body in the external physics engine's arena:
/// an index and a generation.
#[derive(Copy, Clone, PartialEq, Eq, Structural, Debug)]
pub struct BodyHandle {
    pub index: u32,
    pub generation: u32,
}

/// Handle of a collider in the external physics engine's arena.
#[derive(Copy, Clone, PartialEq, Eq, Structural, Debug)]
pub struct ColliderHandle {
    pub index: u32,
    pub generation: u32,
}

/// Direction of influence between a rigid body and the particle simulation.
///
/// Only one-way coupling (GPU consumes rigid-body state) is exercised by the
/// current step logic; the two-way variant is kept as the extension point
/// for feedback from particles back into body velocities.
#[derive(Copy, Clone, PartialEq, Eq, Structural, Debug)]
pub enum CouplingMode {
    OneWay,
    TwoWay,
}

/// One declared association between a rigid body and a collider of the
/// external physics world and the GPU particle simulation.
///
/// Produced once at scene setup and immutable for the session.
#[derive(Copy, Clone, PartialEq, Eq, Structural, Debug)]
pub struct CouplingEntry {
    pub body: BodyHandle,
    pub collider: ColliderHandle,
    pub mode: CouplingMode,
}

/// A three-component vector of 32-bit float bit patterns, carried through
/// uninterpreted. The host encodes engine values with `f32::to_bits` and
/// decodes upload records with `f32::from_bits`.
#[derive(Copy, Clone, PartialEq, Eq, Structural, Debug)]
pub struct V3Bits {
    pub x: u32,
    pub y: u32,
    pub z: u32,
}

/// A collider's world-space pose in the compact layout the GPU consumes
/// (isometry plus scale), as eight 32-bit words sampled by the host.
#[derive(Copy, Clone, PartialEq, Eq, Debug)]
pub struct PoseBits {
    pub words: [u32; 8],
}

/// Per-entry velocity record uploaded to the GPU velocity buffer.
#[derive(Copy, Clone, PartialEq, Eq, Structural, Debug)]
pub struct GpuVelocity {
    pub linear: V3Bits,
    pub angular: V3Bits,
}

/// One rigid body's state as sampled from the external engine for this
/// frame.
///
/// The gravity-adjusted linear velocity is sampled alongside the plain one:
/// the host computes `linvel + gravity * (dt_frame / num_substeps)` with the
/// engine's float arithmetic, and the orchestrator decides which of the two
/// a coupled body uploads — only dynamic bodies receive the adjusted value.
#[derive(Copy, Clone, PartialEq, Eq, Structural, Debug)]
pub struct BodySample {
    /// Linear velocity, as sampled.
    pub linvel: V3Bits,
    /// Linear velocity plus this frame's per-substep gravity contribution.
    pub linvel_with_gravity: V3Bits,
    /// Angular velocity, as sampled.
    pub angvel: V3Bits,
    /// True when the engine marks the body dynamic; static and kinematic
    /// bodies never receive a gravity contribution.
    pub is_dynamic: bool,
}

/// The per-frame view of the external rigid-body world: every body and
/// collider the host sampled, keyed by handle.
pub struct BodyWorld {
    pub bodies: Vec<(BodyHandle, BodySample)>,
    pub colliders: Vec<(ColliderHandle, PoseBits)>,
}

/// The simulation context the orchestrator reads: the coupling set fixed at
/// scene creation. The GPU particle buffers it accompanies stay with the
/// host.
pub struct PhysicsContext {
    pub coupling: Vec<CouplingEntry>,
}

/// First sample in `bodies` carrying handle `h`, if any.
pub open spec fn find_body_spec(bodies: Seq<(BodyHandle, BodySample)>, h: BodyHandle) -> Option<
    BodySample,
>
    decreases bodies.len(),
{
    if bodies.len() == 0 {
        None
    } else if bodies[0].0 == h {
        Some(bodies[0].1)
    } else {
        find_body_spec(bodies.skip(1), h)
    }
}

/// First pose in `colliders` carrying handle `h`, if any.
pub open spec fn find_collider_spec(
    colliders: Seq<(ColliderHandle, PoseBits)>,
    h: ColliderHandle,
) -> Option<PoseBits>
    decreases colliders.len(),
{
    if colliders.len() == 0 {
        None
    } else if colliders[0].0 == h {
        Some(colliders[0].1)
    } else {
        find_collider_spec(colliders.skip(1), h)
    }
}

impl BodyWorld {
    /// The body sample for handle `h`, if the host sampled one.
    pub fn find_body(&self, h: BodyHandle) -> (r: Option<BodySample>)
        ensures
            r == find_body_spec(self.bodies@, h),
    {
        let n = self.bodies.len();
        let mut i: usize = 0;
        proof {
            assert(self.bodies@.skip(0) =~= self.bodies@);
        }
        while i < n
            invariant
                i <= n,
                n == self.bodies@.len(),
                find_body_spec(self.bodies@, h) == find_body_spec(self.bodies@.skip(i as int), h),
            decreases n - i,
        {
            let (bh, sample) = self.bodies[i];
            proof {
                assert(self.bodies@.skip(i as int)[0] == self.bodies@[i as int]);
                assert(self.bodies@.skip(i as int).skip(1) =~= self.bodies@.skip(i as int + 1));
            }
            if bh == h {
                return Some(sample);
            }
            i = i + 1;
        }
        proof {
            assert(self.bodies@.skip(n as int).len() == 0);
        }
        None
    }

    /// The collider pose for handle `h`, if the host sampled one.
    pub fn find_collider(&self, h: ColliderHandle) -> (r: Option<PoseBits>)
        ensures
            r == find_collider_spec(self.colliders@, h),
    {
        let n = self.colliders.len();
        let mut i: usize = 0;
        proof {
            assert(self.colliders@.skip(0) =~= self.colliders@);
        }
        while i < n
            invariant
                i <= n,
                n == self.colliders@.len(),
                find_collider_spec(self.colliders@, h) == find_collider_spec(
                    self.colliders@.skip(i as int),
                    h,
                ),
            decreases n - i,
        {
            let (ch, pose) = self.colliders[i];
            proof {
                assert(self.colliders@.skip(i as int)[0] == self.colliders@[i as int]);
                assert(self.colliders@.skip(i as int).skip(1) =~= self.colliders@.skip(
                    i as int + 1,
                ));
            }
            if ch == h {
                return Some(pose);
            }
            i = i + 1;
        }
        proof {
            assert(self.colliders@.skip(n as int).len() == 0);
        }
        None
    }
}

} // verus!
