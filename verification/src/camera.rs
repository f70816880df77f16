//! A 2D orthographic camera: view/projection state, the derived 4x4
//! view-projection matrix, and the byte-exact image of the GPU uniform
//! buffer that mirrors it.
//!
//! The matrix is held as 16 `f32` bit patterns in column-major order, as the
//! GPU consumes it. Deriving the matrix from the camera fields (look-at,
//! orthographic projection, and the constant depth-range remap from [-1,1]
//! to [0,1]) is floating-point work owned by the rendering driver; the
//! camera stores the derived matrix and refreshes its GPU mirror
//! immediately, never deferring the upload.

use crate::buffer::Buffer;
use crate::encode::{le_bytes_of_u32s, lemma_le_bytes_of_u32s_len, u32s_to_le_bytes};
use crate::math::{Rect, Vec2Bits, Vec3Bits};
use crate::pass::{Cmd, RenderCommand, RenderPass};
use crate::math::{F32_ONE_BITS, F32_ZERO_BITS};
use vstd::prelude::*;

verus! {

/// Bit pattern of the `f32` value `0.5`.
pub const F32_HALF_BITS: u32 = 0x3F00_0000;

/// Bit pattern of the `f32` value `-0.5`.
pub const F32_NEG_HALF_BITS: u32 = 0xBF00_0000;

/// Bit pattern of the `f32` value `0.1`: the default near clip distance.
pub const F32_TENTH_BITS: u32 = 0x3DCC_CCCD;

/// Bit pattern of the `f32` value `100.0`: the default far clip distance.
pub const F32_HUNDRED_BITS: u32 = 0x42C8_0000;

/// The 4x4 identity matrix as `f32` bit patterns, column-major.
pub open spec fn identity_matrix_bits() -> Seq<u32> {
    seq![
        F32_ONE_BITS, F32_ZERO_BITS, F32_ZERO_BITS, F32_ZERO_BITS,
        F32_ZERO_BITS, F32_ONE_BITS, F32_ZERO_BITS, F32_ZERO_BITS,
        F32_ZERO_BITS, F32_ZERO_BITS, F32_ONE_BITS, F32_ZERO_BITS,
        F32_ZERO_BITS, F32_ZERO_BITS, F32_ZERO_BITS, F32_ONE_BITS,
    ]
}

/// The CPU mirror of the camera's GPU uniform: the view-projection matrix
/// as 16 `f32` bit patterns, column-major.
pub struct CameraUniform {
    view_proj: Vec<u32>,
}

impl CameraUniform {
    /// The matrix entries.
    pub closed spec fn spec_view_proj(self) -> Seq<u32> {
        self.view_proj@
    }

    /// A full 4x4 matrix has 16 entries.
    pub open spec fn wf(self) -> bool {
        self.spec_view_proj().len() == 16
    }

    /// The initial uniform: the identity matrix.
    pub fn new() -> (r: CameraUniform)
        ensures
            r.wf(),
            r.spec_view_proj() == identity_matrix_bits(),
    {
        let mut view_proj: Vec<u32> = Vec::new();
        let mut i: usize = 0;
        while i < 16
            invariant
                i <= 16,
                view_proj@ == identity_matrix_bits().take(i as int),
            decreases 16 - i,
        {
            let entry: u32 = if i == 0 || i == 5 || i == 10 || i == 15 {
                F32_ONE_BITS
            } else {
                F32_ZERO_BITS
            };
            view_proj.push(entry);
            proof {
                assert(view_proj@ =~= identity_matrix_bits().take(i + 1));
            }
            i = i + 1;
        }
        proof {
            assert(identity_matrix_bits().take(16) =~= identity_matrix_bits());
        }
        CameraUniform { view_proj }
    }
}

/// The camera: position, up vector, 2D view rectangle, near/far clip
/// distances, the derived view-projection matrix, and the byte image of the
/// GPU uniform buffer mirroring that matrix.
pub struct Camera {
    pos: Vec3Bits,
    up: Vec3Bits,
    rect: Rect,
    znear: u32,
    zfar: u32,
    uniform: CameraUniform,
    uniform_bytes: Vec<u8>,
}

impl Camera {
    /// The camera position.
    pub closed spec fn spec_pos(self) -> Vec3Bits {
        self.pos
    }

    /// The up vector.
    pub closed spec fn spec_up(self) -> Vec3Bits {
        self.up
    }

    /// The 2D view rectangle.
    pub closed spec fn spec_rect(self) -> Rect {
        self.rect
    }

    /// The near clip distance.
    pub closed spec fn spec_znear(self) -> u32 {
        self.znear
    }

    /// The far clip distance.
    pub closed spec fn spec_zfar(self) -> u32 {
        self.zfar
    }

    /// The view-projection matrix entries held in the CPU mirror.
    pub closed spec fn spec_view_proj(self) -> Seq<u32> {
        self.uniform.spec_view_proj()
    }

    /// The byte image of the GPU uniform buffer.
    pub closed spec fn spec_gpu_bytes(self) -> Seq<u8> {
        self.uniform_bytes@
    }

    /// The GPU uniform buffer content is always the byte-exact image of the
    /// current matrix: mutations re-upload before the next draw.
    pub open spec fn wf(self) -> bool {
        &&& self.spec_view_proj().len() == 16
        &&& self.spec_gpu_bytes() == le_bytes_of_u32s(self.spec_view_proj())
    }

    /// Creates the camera with its fixed default state: position at the
    /// origin, up vector +z, view rectangle from (-0.5,-0.5) to (0.5,0.5),
    /// near clip 0.1, far clip 100, and an identity matrix already uploaded
    /// to the uniform buffer (the transform is never left uninitialized).
    pub fn new() -> (r: Camera)
        ensures
            r.wf(),
            r.spec_pos() == (Vec3Bits { x: F32_ZERO_BITS, y: F32_ZERO_BITS, z: F32_ZERO_BITS }),
            r.spec_up() == (Vec3Bits { x: F32_ZERO_BITS, y: F32_ZERO_BITS, z: F32_ONE_BITS }),
            r.spec_rect() == (Rect {
                min: Vec2Bits { x: F32_NEG_HALF_BITS, y: F32_NEG_HALF_BITS },
                max: Vec2Bits { x: F32_HALF_BITS, y: F32_HALF_BITS },
            }),
            r.spec_znear() == F32_TENTH_BITS,
            r.spec_zfar() == F32_HUNDRED_BITS,
            r.spec_view_proj() == identity_matrix_bits(),
            r.spec_gpu_bytes() == le_bytes_of_u32s(identity_matrix_bits()),
    {
        let uniform = CameraUniform::new();
        let uniform_bytes = u32s_to_le_bytes(&uniform.view_proj);
        Camera {
            pos: Vec3Bits { x: F32_ZERO_BITS, y: F32_ZERO_BITS, z: F32_ZERO_BITS },
            up: Vec3Bits { x: F32_ZERO_BITS, y: F32_ZERO_BITS, z: F32_ONE_BITS },
            rect: Rect {
                min: Vec2Bits { x: F32_NEG_HALF_BITS, y: F32_NEG_HALF_BITS },
                max: Vec2Bits { x: F32_HALF_BITS, y: F32_HALF_BITS },
            },
            znear: F32_TENTH_BITS,
            zfar: F32_HUNDRED_BITS,
            uniform,
            uniform_bytes,
        }
    }

    /// Moves the camera to `pos` and installs the view-projection matrix the
    /// driver re-derived for that position (look-at from `pos` toward `pos`
    /// plus the fixed forward vector, orthographic over the view rectangle
    /// and clip distances, pre-multiplied by the depth-range remap). The
    /// matrix is stored in the CPU mirror and its byte image re-uploaded to
    /// the GPU immediately: the upload is never deferred. All other camera
    /// fields are unchanged.
    pub fn translate(&mut self, pos: Vec3Bits, view_proj: Vec<u32>)
        requires
            view_proj@.len() == 16,
        ensures
            final(self).wf(),
            final(self).spec_pos() == pos,
            final(self).spec_view_proj() == view_proj@,
            final(self).spec_gpu_bytes() == le_bytes_of_u32s(view_proj@),
            final(self).spec_up() == old(self).spec_up(),
            final(self).spec_rect() == old(self).spec_rect(),
            final(self).spec_znear() == old(self).spec_znear(),
            final(self).spec_zfar() == old(self).spec_zfar(),
    {
        self.pos = pos;
        self.uniform_bytes = u32s_to_le_bytes(&view_proj);
        self.uniform = CameraUniform { view_proj };
    }

    /// The uploaded uniform bytes: what a GPU read-back of the uniform
    /// buffer returns. Always 64 bytes: 16 entries of 4 bytes.
    pub fn gpu_bytes(&self) -> (r: &Vec<u8>)
        ensures
            r@ == self.spec_gpu_bytes(),
            self.wf() ==> r@.len() == 64,
    {
        proof {
            if self.wf() {
                lemma_le_bytes_of_u32s_len(self.spec_view_proj());
            }
        }
        &self.uniform_bytes
    }

    /// The current view-projection matrix entries.
    pub fn view_proj(&self) -> (r: &Vec<u32>)
        ensures
            r@ == self.spec_view_proj(),
    {
        &self.uniform.view_proj
    }

    /// The camera position.
    pub fn pos(&self) -> (r: Vec3Bits)
        ensures
            r == self.spec_pos(),
    {
        self.pos
    }

    /// The up vector.
    pub fn up(&self) -> (r: Vec3Bits)
        ensures
            r == self.spec_up(),
    {
        self.up
    }

    /// The view rectangle.
    pub fn rect(&self) -> (r: Rect)
        ensures
            r == self.spec_rect(),
    {
        self.rect
    }

    /// The near clip distance.
    pub fn znear(&self) -> (r: u32)
        ensures
            r == self.spec_znear(),
    {
        self.znear
    }

    /// The far clip distance.
    pub fn zfar(&self) -> (r: u32)
        ensures
            r == self.spec_zfar(),
    {
        self.zfar
    }
}

impl Buffer for Camera {
    /// The camera binds its uniform bind group at bind-group slot 1, the
    /// slot reserved for per-frame globals (slot 0 is per-primitive).
    open spec fn bind_cmds(self) -> Seq<Cmd> {
        seq![Cmd::SetBindGroup { slot: 1 }]
    }

    fn set_buffer(&mut self, render_pass: &mut RenderPass) {
        let ghost before = render_pass@;
        render_pass.record(RenderCommand::SetBindGroup { slot: 1 });
        proof {
            assert(render_pass@ =~= before + self.bind_cmds());
        }
    }
}

} // verus!
