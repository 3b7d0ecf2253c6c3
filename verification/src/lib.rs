//! Verified core of a Spine skeleton widget: the blend table, the vertex
//! layout, the per-attachment texture cache and the per-frame draw plan.
//!
//! Floating-point scalars are carried as their IEEE-754 bit patterns, so that
//! every record handed to the GPU can be laid out and reasoned about exactly.

use vstd::prelude::*;
use crate::error::ContractViolation;

pub mod error;
pub mod renderer;

verus! {

/// Where the skeleton data comes from, and in which encoding.
#[derive(Clone, Copy, Debug, PartialEq, Eq)]
pub enum SkeletonKind<P> {
    Json(P),
    Binary(P),
}

impl<P> SkeletonKind<P> {
    /// The same kind, borrowing the path.
    pub fn as_ref(&self) -> (kind: SkeletonKind<&P>)
        ensures
            match *self {
                SkeletonKind::Json(path) => kind == SkeletonKind::Json(&path),
                SkeletonKind::Binary(path) => kind == SkeletonKind::Binary(&path),
            },
    {
        match self {
            SkeletonKind::Json(path) => SkeletonKind::Json(path),
            SkeletonKind::Binary(path) => SkeletonKind::Binary(path),
        }
    }
}

/// A side of a triangle, by its winding.
#[derive(Clone, Copy, Debug, PartialEq, Eq, Structural)]
pub enum Face {
    Front,
    Back,
}

/// The animation a widget plays, by position in the skeleton data or by
/// name.
#[derive(Clone, Debug, PartialEq, Eq)]
pub enum AnimationId {
    Index(usize),
    Name(String),
}

impl Default for AnimationId {
    /// The first animation of the skeleton.
    fn default() -> (id: Self)
        ensures
            id == AnimationId::Index(0),
    {
        AnimationId::Index(0)
    }
}

/// What a widget plays and which faces it culls.
#[derive(Clone, Debug, PartialEq, Eq)]
pub struct Animation {
    pub id: AnimationId,
    pub cull_mode: Option<Face>,
}

impl Default for Animation {
    /// The first animation of the skeleton, with nothing culled.
    fn default() -> (animation: Self)
        ensures
            animation.id == AnimationId::Index(0),
            animation.cull_mode == None::<Face>,
    {
        Animation { id: AnimationId::Index(0), cull_mode: None }
    }
}

/// An animation that the skeleton data does not have.
#[derive(Clone, Debug, PartialEq, Eq)]
pub struct NotFound {
    /// The identifier that was asked for.
    pub id: AnimationId,
}

/// `outcome` is the answer to a request for `id` among animations with the
/// given names: a position is found if it exists, a name at its first
/// occurrence, and what is not found is reported with the identifier asked
/// for.
pub open spec fn selects(
    outcome: Result<usize, NotFound>,
    id: AnimationId,
    names: Seq<String>,
) -> bool {
    match id {
        AnimationId::Index(index) => if index < names.len() {
            outcome == Ok::<usize, NotFound>(index)
        } else {
            outcome == Err::<usize, NotFound>(NotFound { id })
        },
        AnimationId::Name(name) => match outcome {
            Ok(found) => {
                &&& found < names.len()
                &&& names[found as int]@ == name@
                &&& forall|k: int| 0 <= k < found ==> names[k]@ != name@
            },
            Err(error) => {
                &&& error == NotFound { id }
                &&& forall|k: int| 0 <= k < names.len() ==> names[k]@ != name@
            },
        },
    }
}

/// Finds the animation to play among the animations of a skeleton, given
/// their names in the order of the skeleton data.
pub fn select_animation(id: &AnimationId, names: &Vec<String>) -> (outcome: Result<
    usize,
    NotFound,
>)
    ensures
        selects(outcome, *id, names@),
{
    match id {
        AnimationId::Index(index) => {
            if *index < names.len() {
                Ok(*index)
            } else {
                Err(NotFound { id: AnimationId::Index(*index) })
            }
        },
        AnimationId::Name(name) => {
            let mut k: usize = 0;
            while k < names.len()
                invariant
                    k <= names@.len(),
                    *id == AnimationId::Name(*name),
                    forall|j: int| 0 <= j < k ==> names@[j]@ != name@,
                decreases names@.len() - k,
            {
                if names[k] == *name {
                    return Ok(k);
                }
                k += 1;
            }
            Err(NotFound { id: AnimationId::Name(name.clone()) })
        },
    }
}

/// The axes across which a scene is mirrored.
#[derive(Clone, Copy, Debug, PartialEq, Eq, Structural)]
pub struct Reflect {
    pub x: bool,
    pub y: bool,
}

impl Reflect {
    /// No mirroring.
    pub fn empty() -> (flags: Reflect)
        ensures
            flags == (Reflect { x: false, y: false }),
    {
        Reflect { x: false, y: false }
    }

    /// Mirroring across the horizontal axis.
    pub fn x_axis() -> (flags: Reflect)
        ensures
            flags == (Reflect { x: true, y: false }),
    {
        Reflect { x: true, y: false }
    }

    /// Mirroring across the vertical axis.
    pub fn y_axis() -> (flags: Reflect)
        ensures
            flags == (Reflect { x: false, y: true }),
    {
        Reflect { x: false, y: true }
    }

    /// Every axis of `other` is one of `self`.
    pub open spec fn spec_contains(self, other: Reflect) -> bool {
        (other.x ==> self.x) && (other.y ==> self.y)
    }

    /// Whether every axis of `other` is one of `self`.
    pub fn contains(self, other: Reflect) -> (held: bool)
        ensures
            held == self.spec_contains(other),
    {
        (!other.x || self.x) && (!other.y || self.y)
    }

    /// The axes of either.
    pub fn union(self, other: Reflect) -> (flags: Reflect)
        ensures
            flags == (Reflect { x: self.x || other.x, y: self.y || other.y }),
    {
        Reflect { x: self.x || other.x, y: self.y || other.y }
    }

    /// Which bounds of the projection trade places: mirroring across the
    /// vertical axis swaps left and right, mirroring across the horizontal
    /// axis swaps bottom and top.
    pub fn swapped_bounds(self) -> (swaps: (bool, bool))
        ensures
            swaps.0 == self.spec_contains(Reflect { x: false, y: true }),
            swaps.1 == self.spec_contains(Reflect { x: true, y: false }),
    {
        (self.contains(Reflect::y_axis()), self.contains(Reflect::x_axis()))
    }
}

/// Bit pattern of the smallest step, in seconds, by which the animation is
/// advanced: the single-precision float nearest to 0.001.
pub const MIN_DELTA: u32 = 0x3A83_126F;

/// Bit pattern of positive infinity.
pub const POSITIVE_INFINITY: u32 = 0x7F80_0000;

/// The bit pattern is that of a float which is not a number.
pub open spec fn is_nan(bits: u32) -> bool {
    bits % 0x8000_0000 > POSITIVE_INFINITY
}

/// The bit pattern is that of a float whose sign is set: a negative number,
/// negative zero, or a signed not-a-number.
pub open spec fn is_negative(bits: u32) -> bool {
    bits >= 0x8000_0000
}

/// The delta time handed to the animation engine for a delta reported by the
/// host, both as bit patterns. Among the floats that are neither negative nor
/// not a number, a larger float has the larger bit pattern; so the deltas
/// that pass unchanged are those whose pattern lies between the smallest step
/// and infinity, and every other delta (zero, anything negative, anything
/// below the smallest step, anything that is not a number) becomes the
/// smallest step.
pub open spec fn floored_delta(bits: u32) -> u32 {
    if MIN_DELTA <= bits <= POSITIVE_INFINITY {
        bits
    } else {
        MIN_DELTA
    }
}

/// Floors the delta time reported by the host at the smallest step. Host
/// clocks may report zero, or less, on the first frame.
pub fn floor_delta(delta_bits: u32) -> (floored: u32)
    ensures
        floored == floored_delta(delta_bits),
{
    if delta_bits >= 0x8000_0000 {
        // Negative, or negative zero.
        MIN_DELTA
    } else if delta_bits > POSITIVE_INFINITY {
        // Not a number.
        MIN_DELTA
    } else if delta_bits < MIN_DELTA {
        MIN_DELTA
    } else {
        delta_bits
    }
}

/// The floored delta is a positive number of at least the smallest step,
/// whatever the host reported; zero and every negative delta give exactly the
/// smallest step; and a delta that is already floored stays as it is.
pub proof fn lemma_delta_is_floored(bits: u32)
    ensures
        !is_nan(floored_delta(bits)),
        !is_negative(floored_delta(bits)),
        floored_delta(bits) >= MIN_DELTA,
        bits == 0 || is_negative(bits) || is_nan(bits) ==> floored_delta(bits) == MIN_DELTA,
        !is_negative(bits) && !is_nan(bits) && bits >= MIN_DELTA ==> floored_delta(bits) == bits,
        floored_delta(floored_delta(bits)) == floored_delta(bits),
{
}

/// Whether a draw of one widget is in flight in the current render pass.
///
/// A draw begins when the widget hands its batches to the painter and ends
/// when the painter has consumed them. Until then the batches borrow what the
/// widget would change by being drawn again.
#[derive(Debug)]
pub struct DrawPass {
    in_flight: bool,
}

impl View for DrawPass {
    type V = bool;

    closed spec fn view(&self) -> bool {
        self.in_flight
    }
}

/// What a request to begin a draw comes to, and whether a draw is in flight
/// after it: a request made while a draw is in flight is a violation and
/// changes nothing.
pub open spec fn begun(in_flight: bool) -> (Result<(), ContractViolation>, bool) {
    if in_flight {
        (Err(ContractViolation::ReentrantDraw), true)
    } else {
        (Ok(()), true)
    }
}

impl DrawPass {
    /// A pass in which nothing has been drawn.
    pub fn new() -> (pass: DrawPass)
        ensures
            !pass@,
    {
        DrawPass { in_flight: false }
    }

    /// Begins a draw of the widget.
    pub fn begin(&mut self) -> (outcome: Result<(), ContractViolation>)
        ensures
            outcome == begun(old(self)@).0,
            final(self)@ == begun(old(self)@).1,
    {
        if self.in_flight {
            return Err(ContractViolation::ReentrantDraw);
        }
        self.in_flight = true;
        Ok(())
    }

    /// Ends the draw in flight, if there is one.
    pub fn finish(&mut self)
        ensures
            !final(self)@,
    {
        self.in_flight = false;
    }
}

/// A widget cannot be drawn twice in one render pass: whatever came before,
/// a second request that follows a first without the draw having ended in
/// between is refused, and stays refused until it has.
pub proof fn lemma_second_draw_is_refused(in_flight: bool)
    ensures
        begun(begun(in_flight).1).0 == Err::<(), ContractViolation>(
            ContractViolation::ReentrantDraw,
        ),
        begun(begun(in_flight).1).1 == begun(in_flight).1,
        begun(false).0 == Ok::<(), ContractViolation>(()),
{
}

} // verus!
