//! Misuse of the renderer that must stop a frame rather than corrupt it.

use vstd::prelude::*;

verus! {

/// A broken rule of use. None of these can be recovered from inside a frame:
/// the caller is expected to stop at once.
#[derive(Clone, Copy, Debug, PartialEq, Eq, Structural)]
pub enum ContractViolation {
    /// The same widget was drawn again while a draw of it was still in
    /// flight in the current render pass.
    ReentrantDraw,
    /// The renderer object of one mesh was asked for more than once.
    AttachmentBorrowedTwice,
    /// A batch refers to a texture slot that was never created or has been
    /// disposed.
    DisposedTexture,
}

} // verus!
