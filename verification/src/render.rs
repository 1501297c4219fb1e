//! Scene shapes and their flattening into the GPU record stream.
//!
//! A [`Shape`] is a binary CSG tree of primitives and boolean operations.
//! [`ShapesGPU::add`] flattens one tree in preorder into fixed-size
//! [`ShapeGPU`] records; the opcode of a record determines its arity, so a
//! recursive-descent consumer can rebuild the tree from the flat stream
//! with no auxiliary lengths or pointers.
//!
//! Scalar payloads (positions, radii, normals) are carried as raw IEEE-754
//! bit patterns in `u32` fields: the flattening only ever copies them, so
//! nothing here depends on floating-point arithmetic, and the bit patterns
//! land in the GPU buffer unchanged.

use vstd::prelude::*;

verus! {

/// Width in pixels of the fixed compute-output resolution.
pub const WIDTH: u32 = 1280;

/// Height in pixels of the fixed compute-output resolution.
pub const HEIGHT: u32 = 720;

/// Capacity, in records, of the storage buffer backing the shape stream.
///
/// The buffer is allocated once at this size and never grown; submissions
/// that would push the flattened record count past it are refused up front.
pub const MAX_RECORDS: u64 = 256;

/// Opcode of a union node; two children follow in the stream.
pub const OP_UNION: u32 = 0;

/// Opcode of an intersection node; two children follow in the stream.
pub const OP_INTERSECTION: u32 = 1;

/// Opcode of a subtraction node; two children follow in the stream.
pub const OP_SUBTRACTION: u32 = 2;

/// Opcode of a sphere; a leaf record.
pub const OP_SPHERE: u32 = 6;

/// Opcode of an axis-aligned box; a leaf record.
pub const OP_BOX_EXACT: u32 = 7;

/// Opcode of a plane; a leaf record.
pub const OP_PLANE: u32 = 8;

/// A three-component vector, each lane the raw bit pattern of an `f32`.
#[derive(Clone, Copy, Debug, PartialEq, Eq, Structural)]
pub struct Vec3Bits {
    pub x: u32,
    pub y: u32,
    pub z: u32,
}

impl Vec3Bits {
    /// The all-zero vector (the bit pattern of `(0.0, 0.0, 0.0)`).
    pub open spec fn spec_zero() -> Vec3Bits {
        Vec3Bits { x: 0, y: 0, z: 0 }
    }

    /// Builds a vector from three `f32` bit patterns.
    pub fn new(x: u32, y: u32, z: u32) -> (v: Vec3Bits)
        ensures
            v == (Vec3Bits { x, y, z }),
    {
        Vec3Bits { x, y, z }
    }

    /// The all-zero vector.
    pub fn zero() -> (v: Vec3Bits)
        ensures
            v == Vec3Bits::spec_zero(),
    {
        Vec3Bits { x: 0, y: 0, z: 0 }
    }
}

/// A column-major 3x3 matrix of `f32` bit patterns.
#[derive(Clone, Copy, Debug, PartialEq, Eq, Structural)]
pub struct Mat3Bits {
    pub x_axis: Vec3Bits,
    pub y_axis: Vec3Bits,
    pub z_axis: Vec3Bits,
}

impl Mat3Bits {
    /// The identity matrix (`1.0` down the diagonal, `0.0` elsewhere).
    pub open spec fn spec_identity() -> Mat3Bits {
        Mat3Bits {
            x_axis: Vec3Bits { x: F32_ONE, y: 0, z: 0 },
            y_axis: Vec3Bits { x: 0, y: F32_ONE, z: 0 },
            z_axis: Vec3Bits { x: 0, y: 0, z: F32_ONE },
        }
    }

    /// The identity matrix.
    pub fn identity() -> (m: Mat3Bits)
        ensures
            m == Mat3Bits::spec_identity(),
    {
        Mat3Bits {
            x_axis: Vec3Bits { x: F32_ONE, y: 0, z: 0 },
            y_axis: Vec3Bits { x: 0, y: F32_ONE, z: 0 },
            z_axis: Vec3Bits { x: 0, y: 0, z: F32_ONE },
        }
    }
}

/// Bit pattern of `1.0f32`.
pub const F32_ONE: u32 = 0x3F80_0000;

/// A CSG tree node.
///
/// A composite node owns exactly two children; a primitive owns none.  The
/// tree is built fresh by the application each frame and discarded after
/// encoding.
#[derive(Debug)]
pub enum Shape {
    /// A sphere at `pos` with the given radius.
    Sphere { pos: Vec3Bits, radius: u32 },
    /// An axis-aligned box at `pos` with half-extents `b`.
    BoxExact { pos: Vec3Bits, b: Vec3Bits },
    /// A plane through `pos` with the given normal.
    Plane { pos: Vec3Bits, normal: Vec3Bits },
    /// The union of the two children.
    Union { shape1: Box<Shape>, shape2: Box<Shape> },
    /// The intersection of the two children.
    Intersection { shape1: Box<Shape>, shape2: Box<Shape> },
    /// The left child minus the right child.
    Subtraction { shape1: Box<Shape>, shape2: Box<Shape> },
}

impl Shape {
    /// True for the three leaf variants.
    pub open spec fn is_primitive(self) -> bool {
        match self {
            Shape::Sphere { .. } => true,
            Shape::BoxExact { .. } => true,
            Shape::Plane { .. } => true,
            Shape::Union { .. } => false,
            Shape::Intersection { .. } => false,
            Shape::Subtraction { .. } => false,
        }
    }
}

/// Number of nodes in a tree: one per primitive, one plus both subtree
/// counts per composite.  This is exactly the number of records the tree
/// flattens to.
pub open spec fn node_count(s: Shape) -> nat
    decreases s,
{
    match s {
        Shape::Union { shape1, shape2 } => 1 + node_count(*shape1) + node_count(*shape2),
        Shape::Intersection { shape1, shape2 } => 1 + node_count(*shape1) + node_count(*shape2),
        Shape::Subtraction { shape1, shape2 } => 1 + node_count(*shape1) + node_count(*shape2),
        Shape::Sphere { .. } => 1,
        Shape::BoxExact { .. } => 1,
        Shape::Plane { .. } => 1,
    }
}

/// Counts the records `shape` will flatten to, saturating at `u64::MAX`.
///
/// Saturation can only leave the result below the true count on trees too
/// large to ever fit the record buffer, so callers comparing against
/// [`MAX_RECORDS`] decide exactly as if the count were exact.
pub fn count_records(shape: &Shape) -> (n: u64)
    ensures
        n <= node_count(*shape),
        n < u64::MAX ==> n == node_count(*shape),
        n >= 1,
    decreases *shape,
{
    match shape {
        Shape::Union { shape1, shape2 } => {
            let a = count_records(shape1);
            let b = count_records(shape2);
            1u64.saturating_add(a).saturating_add(b)
        },
        Shape::Intersection { shape1, shape2 } => {
            let a = count_records(shape1);
            let b = count_records(shape2);
            1u64.saturating_add(a).saturating_add(b)
        },
        Shape::Subtraction { shape1, shape2 } => {
            let a = count_records(shape1);
            let b = count_records(shape2);
            1u64.saturating_add(a).saturating_add(b)
        },
        Shape::Sphere { .. } => 1,
        Shape::BoxExact { .. } => 1,
        Shape::Plane { .. } => 1,
    }
}

/// The opcode that the record for the root of `s` carries.
pub open spec fn spec_opcode(s: Shape) -> u32 {
    match s {
        Shape::Sphere { .. } => OP_SPHERE,
        Shape::BoxExact { .. } => OP_BOX_EXACT,
        Shape::Plane { .. } => OP_PLANE,
        Shape::Union { .. } => OP_UNION,
        Shape::Intersection { .. } => OP_INTERSECTION,
        Shape::Subtraction { .. } => OP_SUBTRACTION,
    }
}

/// True of the opcodes that stand for a leaf record (arity zero).
pub open spec fn is_primitive_opcode(id: u32) -> bool {
    id == OP_SPHERE || id == OP_BOX_EXACT || id == OP_PLANE
}

/// One fixed-size record of the flattened stream.
///
/// `id` is the opcode; the payload fields carry a primitive's data and are
/// zero for composites.  A sphere's radius goes into `f1`; a box's
/// half-extents and a plane's normal go into `v1`; `pos` is always copied.
#[derive(Clone, Copy, Debug, PartialEq, Eq, Structural)]
pub struct ShapeGPU {
    pub pos: Vec3Bits,
    pub id: u32,
    pub v1: Vec3Bits,
    pub f1: u32,
}

/// The record a composite node emits: its opcode with a zeroed payload.
pub open spec fn composite_record(id: u32) -> ShapeGPU {
    ShapeGPU { pos: Vec3Bits::spec_zero(), id, v1: Vec3Bits::spec_zero(), f1: 0 }
}

/// The preorder flattening of one tree: a composite emits its header
/// record, then the left subtree's stream, then the right's; a primitive
/// emits exactly one record carrying its payload.
pub open spec fn spec_record_stream(s: Shape) -> Seq<ShapeGPU>
    decreases s,
{
    match s {
        Shape::Sphere { pos, radius } => seq![
            ShapeGPU { pos, id: OP_SPHERE, v1: Vec3Bits::spec_zero(), f1: radius },
        ],
        Shape::BoxExact { pos, b } => seq![ShapeGPU { pos, id: OP_BOX_EXACT, v1: b, f1: 0 }],
        Shape::Plane { pos, normal } => seq![ShapeGPU { pos, id: OP_PLANE, v1: normal, f1: 0 }],
        Shape::Union { shape1, shape2 } => seq![composite_record(OP_UNION)]
            + spec_record_stream(*shape1) + spec_record_stream(*shape2),
        Shape::Intersection { shape1, shape2 } => seq![composite_record(OP_INTERSECTION)]
            + spec_record_stream(*shape1) + spec_record_stream(*shape2),
        Shape::Subtraction { shape1, shape2 } => seq![composite_record(OP_SUBTRACTION)]
            + spec_record_stream(*shape1) + spec_record_stream(*shape2),
    }
}

/// The streams of a list of roots, concatenated in submission order with no
/// wrapping record between them.
pub open spec fn spec_record_stream_all(roots: Seq<Shape>) -> Seq<ShapeGPU>
    decreases roots.len(),
{
    if roots.len() == 0 {
        Seq::empty()
    } else {
        spec_record_stream_all(roots.drop_last()) + spec_record_stream(roots.last())
    }
}

/// Total number of nodes over a list of roots.
pub open spec fn total_node_count(roots: Seq<Shape>) -> nat
    decreases roots.len(),
{
    if roots.len() == 0 {
        0
    } else {
        total_node_count(roots.drop_last()) + node_count(roots.last())
    }
}

/// A tree flattens to exactly one record per node.
pub proof fn lemma_stream_len(s: Shape)
    ensures
        spec_record_stream(s).len() == node_count(s),
    decreases s,
{
    match s {
        Shape::Union { shape1, shape2 } => {
            lemma_stream_len(*shape1);
            lemma_stream_len(*shape2);
        },
        Shape::Intersection { shape1, shape2 } => {
            lemma_stream_len(*shape1);
            lemma_stream_len(*shape2);
        },
        Shape::Subtraction { shape1, shape2 } => {
            lemma_stream_len(*shape1);
            lemma_stream_len(*shape2);
        },
        _ => {},
    }
}

/// A list of roots flattens to exactly its total node count of records.
pub proof fn lemma_stream_all_len(roots: Seq<Shape>)
    ensures
        spec_record_stream_all(roots).len() == total_node_count(roots),
    decreases roots.len(),
{
    if roots.len() > 0 {
        lemma_stream_all_len(roots.drop_last());
        lemma_stream_len(roots.last());
    }
}

/// Flattening preserves preorder at the root: the stream is non-empty and
/// its first record carries the root's own opcode, a leaf opcode exactly
/// when the root is a primitive.
pub proof fn lemma_stream_preorder_head(s: Shape)
    ensures
        spec_record_stream(s).len() >= 1,
        spec_record_stream(s)[0].id == spec_opcode(s),
        s.is_primitive() <==> is_primitive_opcode(spec_record_stream(s)[0].id),
{
    match s {
        Shape::Union { .. } => {},
        Shape::Intersection { .. } => {},
        Shape::Subtraction { .. } => {},
        _ => {},
    }
}

/// A list of primitive-only roots flattens to exactly one record per root,
/// in submission order.
pub proof fn lemma_stream_primitive_roots(roots: Seq<Shape>)
    requires
        forall|i: int| 0 <= i < roots.len() ==> (#[trigger] roots[i]).is_primitive(),
    ensures
        spec_record_stream_all(roots).len() == roots.len(),
        forall|i: int| 0 <= i < roots.len() ==> #[trigger] spec_record_stream_all(roots)[i]
            == spec_record_stream(roots[i])[0],
    decreases roots.len(),
{
    if roots.len() > 0 {
        let prefix = roots.drop_last();
        lemma_stream_primitive_roots(prefix);
        lemma_stream_preorder_head(roots.last());
        assert(spec_record_stream(roots.last()).len() == 1) by {
            lemma_stream_len(roots.last());
        }
        assert forall|i: int| 0 <= i < roots.len() implies #[trigger] spec_record_stream_all(
            roots,
        )[i] == spec_record_stream(roots[i])[0] by {
            if i < roots.len() - 1 {
                assert(prefix[i] == roots[i]);
            } else {
                assert(roots[i] == roots.last());
            }
        }
    }
}

/// The flattened record stream of the shapes submitted this frame, in the
/// exact byte-for-byte field layout the compute shader consumes.
#[derive(Debug)]
pub struct ShapesGPU(pub Vec<ShapeGPU>);

impl View for ShapesGPU {
    type V = Seq<ShapeGPU>;

    open spec fn view(&self) -> Seq<ShapeGPU> {
        self.0@
    }
}

impl ShapesGPU {
    /// An empty stream.
    pub fn new() -> (s: ShapesGPU)
        ensures
            s@ == Seq::<ShapeGPU>::empty(),
    {
        let s = ShapesGPU(Vec::new());
        proof {
            assert(s@ =~= Seq::<ShapeGPU>::empty());
        }
        s
    }

    /// Appends the preorder flattening of one tree to the stream.
    pub fn add(&mut self, shape: &Shape)
        ensures
            final(self)@ == old(self)@ + spec_record_stream(*shape),
        decreases *shape,
    {
        match shape {
            Shape::Union { shape1, shape2 } => {
                self.0.push(ShapeGPU {
                    pos: Vec3Bits::zero(),
                    id: OP_UNION,
                    v1: Vec3Bits::zero(),
                    f1: 0,
                });
                self.add(shape1);
                self.add(shape2);
                proof {
                    assert(self@ =~= old(self)@ + spec_record_stream(*shape));
                }
            },
            Shape::Intersection { shape1, shape2 } => {
                self.0.push(ShapeGPU {
                    pos: Vec3Bits::zero(),
                    id: OP_INTERSECTION,
                    v1: Vec3Bits::zero(),
                    f1: 0,
                });
                self.add(shape1);
                self.add(shape2);
                proof {
                    assert(self@ =~= old(self)@ + spec_record_stream(*shape));
                }
            },
            Shape::Subtraction { shape1, shape2 } => {
                self.0.push(ShapeGPU {
                    pos: Vec3Bits::zero(),
                    id: OP_SUBTRACTION,
                    v1: Vec3Bits::zero(),
                    f1: 0,
                });
                self.add(shape1);
                self.add(shape2);
                proof {
                    assert(self@ =~= old(self)@ + spec_record_stream(*shape));
                }
            },
            Shape::Sphere { pos, radius } => {
                self.0.push(ShapeGPU {
                    pos: *pos,
                    id: OP_SPHERE,
                    v1: Vec3Bits::zero(),
                    f1: *radius,
                });
                proof {
                    assert(self@ =~= old(self)@ + spec_record_stream(*shape));
                }
            },
            Shape::BoxExact { pos, b } => {
                self.0.push(ShapeGPU { pos: *pos, id: OP_BOX_EXACT, v1: *b, f1: 0 });
                proof {
                    assert(self@ =~= old(self)@ + spec_record_stream(*shape));
                }
            },
            Shape::Plane { pos, normal } => {
                self.0.push(ShapeGPU { pos: *pos, id: OP_PLANE, v1: *normal, f1: 0 });
                proof {
                    assert(self@ =~= old(self)@ + spec_record_stream(*shape));
                }
            },
        }
    }
}

/// Flattens every submitted root in order into one record stream.
pub fn shapes_to_gpu(shapes: &Vec<Shape>) -> (gpu: ShapesGPU)
    ensures
        gpu@ == spec_record_stream_all(shapes@),
{
    let mut gpu_shapes = ShapesGPU::new();
    let mut i: usize = 0;
    while i < shapes.len()
        invariant
            i <= shapes.len(),
            gpu_shapes@ == spec_record_stream_all(shapes@.take(i as int)),
        decreases shapes.len() - i,
    {
        gpu_shapes.add(&shapes[i]);
        proof {
            let taken = shapes@.take(i + 1 as int);
            assert(taken.drop_last() =~= shapes@.take(i as int));
            assert(taken.last() == shapes@[i as int]);
        }
        i = i + 1;
    }
    proof {
        assert(shapes@.take(shapes@.len() as int) =~= shapes@);
    }
    gpu_shapes
}

/// Bit pattern of `2.0f32`.
pub const F32_TWO: u32 = 0x4000_0000;

/// A width/height pair in whole pixels.
#[derive(Clone, Copy, Debug, PartialEq, Eq, Structural)]
pub struct Size2 {
    pub width: u32,
    pub height: u32,
}

/// Bit pattern of `-2.0f32`.
pub const F32_NEG_TWO: u32 = 0xC000_0000;

/// Bit pattern of `-4.0f32`.
pub const F32_NEG_FOUR: u32 = 0xC080_0000;

/// The per-frame uniform record, overwritten in place every frame and
/// uploaded wholesale to the device-visible uniform buffer.
///
/// Scalar fields hold `f32` bit patterns; the camera setters and the frame
/// update replace them, nothing here computes with them.
#[derive(Clone, Copy, Debug, PartialEq, Eq, Structural)]
pub struct Globals {
    pub screen_dim: Size2,
    pub camera_pos: Vec3Bits,
    pub camera_rot: Mat3Bits,
    pub light_pos: Vec3Bits,
    pub focal_length: u32,
    pub time: u32,
    pub shape_amount: u32,
}

impl Globals {
    /// The startup value: camera at the origin looking down the identity
    /// rotation, a fixed light, unit focal length, and no shapes.
    pub open spec fn spec_default() -> Globals {
        Globals {
            screen_dim: Size2 { width: WIDTH, height: HEIGHT },
            camera_pos: Vec3Bits::spec_zero(),
            camera_rot: Mat3Bits::spec_identity(),
            light_pos: Vec3Bits { x: F32_NEG_TWO, y: F32_TWO, z: F32_NEG_FOUR },
            focal_length: F32_ONE,
            time: F32_TWO,
            shape_amount: 0,
        }
    }

    /// Builds the startup globals.
    pub fn new() -> (g: Globals)
        ensures
            g == Globals::spec_default(),
    {
        Globals {
            screen_dim: Size2 { width: WIDTH, height: HEIGHT },
            camera_pos: Vec3Bits::zero(),
            camera_rot: Mat3Bits::identity(),
            light_pos: Vec3Bits { x: F32_NEG_TWO, y: F32_TWO, z: F32_NEG_FOUR },
            focal_length: F32_ONE,
            time: F32_TWO,
            shape_amount: 0,
        }
    }
}

/// Why a submission was refused.
#[derive(Clone, Copy, Debug, PartialEq, Eq, Structural)]
pub enum SubmitError {
    /// Adding the shape would push the frame's flattened record count past
    /// [`MAX_RECORDS`].  Nothing was appended; truncating the stream
    /// instead would desynchronize the arity-driven reconstruction.
    CapacityExceeded,
}

/// The render-side frame state: the globals record, the roots submitted
/// this frame, and the size bookkeeping the orchestrator's policies read.
///
/// The GPU handles themselves (device, queue, pipelines, buffers) belong
/// to the embedding layer, which uploads what [`RenderContext::prepare_frame`]
/// hands it.
#[derive(Debug)]
pub struct RenderContext {
    pub globals: Globals,
    /// Presented-surface size in physical pixels.
    pub window_size: Size2,
    /// Compute-output resolution; fixed at startup, never resized.
    pub resolution: Size2,
    /// Roots submitted this frame, in submission order.
    pub shapes: Vec<Shape>,
    /// Running total of the records the pending roots flatten to.
    pub pending_records: u64,
}

impl RenderContext {
    /// The running total is exactly the pending roots' flattened record
    /// count, and it never exceeds the stream capacity.
    pub open spec fn wf(self) -> bool {
        &&& self.pending_records == total_node_count(self.shapes@)
        &&& self.pending_records <= MAX_RECORDS
    }

    /// Builds the startup state: default globals, no pending shapes, and
    /// both sizes at the fixed startup resolution.
    pub fn new() -> (ctx: RenderContext)
        ensures
            ctx.wf(),
            ctx.globals == Globals::spec_default(),
            ctx.window_size == (Size2 { width: WIDTH, height: HEIGHT }),
            ctx.resolution == (Size2 { width: WIDTH, height: HEIGHT }),
            ctx.shapes@.len() == 0,
            ctx.pending_records == 0,
    {
        RenderContext {
            globals: Globals::new(),
            window_size: Size2 { width: WIDTH, height: HEIGHT },
            resolution: Size2 { width: WIDTH, height: HEIGHT },
            shapes: Vec::new(),
            pending_records: 0,
        }
    }

    /// Records a new presented-surface size, ignoring degenerate sizes.
    ///
    /// The embedding layer reconfigures the presentation surface to match;
    /// the compute-output `resolution` deliberately stays fixed.
    pub fn resize_window(&mut self, width: u32, height: u32)
        ensures
            width > 0 && height > 0 ==> final(self).window_size == (Size2 { width, height }),
            !(width > 0 && height > 0) ==> final(self).window_size == old(self).window_size,
            final(self).globals == old(self).globals,
            final(self).resolution == old(self).resolution,
            final(self).shapes@ == old(self).shapes@,
            final(self).pending_records == old(self).pending_records,
    {
        if width > 0 && height > 0 {
            self.window_size = Size2 { width, height };
        }
    }

    /// The per-frame scene turnover: stamps the frame's time and record
    /// count into the globals, flattens the pending roots into one record
    /// stream, and clears the pending list (the scene never carries over).
    ///
    /// The embedding layer then uploads the returned stream and the new
    /// globals and dispatches the compute pass; by [`Self::wf`] the stream
    /// is already known to fit the fixed-size storage buffer.
    pub fn prepare_frame(&mut self, time_bits: u32) -> (gpu: ShapesGPU)
        requires
            old(self).wf(),
        ensures
            final(self).wf(),
            gpu@ == spec_record_stream_all(old(self).shapes@),
            gpu@.len() == total_node_count(old(self).shapes@),
            gpu@.len() <= MAX_RECORDS,
            final(self).globals == (Globals {
                time: time_bits,
                shape_amount: total_node_count(old(self).shapes@) as u32,
                ..old(self).globals
            }),
            final(self).shapes@.len() == 0,
            final(self).pending_records == 0,
            final(self).window_size == old(self).window_size,
            final(self).resolution == old(self).resolution,
    {
        let gpu = shapes_to_gpu(&self.shapes);
        proof {
            lemma_stream_all_len(self.shapes@);
        }
        self.globals.time = time_bits;
        self.globals.shape_amount = self.pending_records as u32;
        self.shapes.clear();
        self.pending_records = 0;
        gpu
    }
}

} // verus!
