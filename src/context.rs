//! The drawing context carried by each handle: transform, blending, scissor,
//! topology and sampler.
use crate::geom::{Point3, Rect, Scalar, UNIT};
use vstd::prelude::*;

verus! {

/// A column of a [`Matrix4`].
#[derive(Clone, Copy, Debug, PartialEq, Eq, Structural)]
pub struct Vector4 {
    pub x: Scalar,
    pub y: Scalar,
    pub z: Scalar,
    pub w: Scalar,
}

/// A 4x4 matrix stored as four columns.
#[derive(Clone, Copy, Debug, PartialEq, Eq, Structural)]
pub struct Matrix4 {
    pub x: Vector4,
    pub y: Vector4,
    pub z: Vector4,
    pub w: Vector4,
}

/// A rotation given as angles in radians about the x, y and z axes.
#[derive(Clone, Copy, Debug, PartialEq, Eq, Structural)]
pub struct Euler {
    pub x: Scalar,
    pub y: Scalar,
    pub z: Scalar,
}

/// A rotation given as a quaternion with scalar part `s` and vector part `v`.
#[derive(Clone, Copy, Debug, PartialEq, Eq, Structural)]
pub struct Quaternion {
    pub s: Scalar,
    pub v: Point3,
}

/// One step of a transform, applied after the steps before it.
#[derive(Clone, Copy, Debug, PartialEq, Eq, Structural)]
pub enum TransformStep {
    Matrix(Matrix4),
    Translate(Point3),
    Scale(Point3),
    Rotate(Euler),
    Orient(Quaternion),
}

/// The identity matrix, in fixed point.
pub open spec fn identity_matrix() -> Matrix4 {
    let z = Scalar { raw: 0 };
    let o = Scalar { raw: UNIT };
    Matrix4 {
        x: Vector4 { x: o, y: z, z: z, w: z },
        y: Vector4 { x: z, y: o, z: z, w: z },
        z: Vector4 { x: z, y: z, z: o, w: z },
        w: Vector4 { x: z, y: z, z: z, w: o },
    }
}

/// Whether a step leaves every point where it is: a zero rotation, a zero
/// translation, a unit scale, the identity matrix, or a quaternion of no turn.
pub open spec fn step_is_identity(step: TransformStep) -> bool {
    match step {
        TransformStep::Matrix(m) => m == identity_matrix(),
        TransformStep::Translate(v) => v.x.raw == 0 && v.y.raw == 0 && v.z.raw == 0,
        TransformStep::Scale(v) => v.x.raw == UNIT && v.y.raw == UNIT && v.z.raw == UNIT,
        TransformStep::Rotate(e) => e.x.raw == 0 && e.y.raw == 0 && e.z.raw == 0,
        TransformStep::Orient(q) => (q.s.raw == UNIT || q.s.raw == -UNIT) && q.v.x.raw == 0
            && q.v.y.raw == 0 && q.v.z.raw == 0,
    }
}

fn is_unit(s: Scalar) -> (r: bool)
    ensures
        r == (s.raw == UNIT),
{
    s.raw == UNIT
}

fn is_zero(s: Scalar) -> (r: bool)
    ensures
        r == (s.raw == 0),
{
    s.raw == 0
}

fn column_is(v: Vector4, x: bool, y: bool, z: bool, w: bool) -> (r: bool)
    ensures
        r == ((if x { v.x.raw == UNIT } else { v.x.raw == 0 }) && (if y { v.y.raw == UNIT } else { v.y.raw == 0 })
            && (if z { v.z.raw == UNIT } else { v.z.raw == 0 }) && (if w { v.w.raw == UNIT } else { v.w.raw == 0 })),
{
    (if x { is_unit(v.x) } else { is_zero(v.x) }) && (if y { is_unit(v.y) } else { is_zero(v.y) })
        && (if z { is_unit(v.z) } else { is_zero(v.z) }) && (if w { is_unit(v.w) } else { is_zero(v.w) })
}

impl TransformStep {
    /// Whether the step leaves every point where it is.
    pub fn is_identity(&self) -> (r: bool)
        ensures
            r == step_is_identity(*self),
    {
        match self {
            TransformStep::Matrix(m) => column_is(m.x, true, false, false, false) && column_is(m.y, false, true, false, false)
                && column_is(m.z, false, false, true, false) && column_is(m.w, false, false, false, true),
            TransformStep::Translate(v) => is_zero(v.x) && is_zero(v.y) && is_zero(v.z),
            TransformStep::Scale(v) => is_unit(v.x) && is_unit(v.y) && is_unit(v.z),
            TransformStep::Rotate(e) => is_zero(e.x) && is_zero(e.y) && is_zero(e.z),
            TransformStep::Orient(q) => (q.s.raw == UNIT || q.s.raw == -UNIT) && is_zero(q.v.x) && is_zero(q.v.y)
                && is_zero(q.v.z),
        }
    }
}

/// A transform, kept as the steps that built it so that no precision is lost
/// before a backend turns it into a matrix.
///
/// Steps that leave every point where they are are never recorded, so the
/// identity is always `Identity`. Two transforms are the same when they were
/// built by the same steps.
#[derive(Debug)]
pub enum Transform {
    Identity,
    Compose(Box<Transform>, TransformStep),
}

impl Transform {
    /// This transform followed by `step`.
    pub open spec fn and_step(self, step: TransformStep) -> Transform {
        Transform::Compose(Box::new(self), step)
    }

    /// Whether two transforms were built by the same steps.
    pub fn same_as(&self, other: &Transform) -> (r: bool)
        ensures
            r == (*self == *other),
        decreases self,
    {
        match (self, other) {
            (Transform::Identity, Transform::Identity) => true,
            (Transform::Compose(a, s), Transform::Compose(b, t)) => {
                if *s == *t {
                    (**a).same_as(&**b)
                } else {
                    false
                }
            },
            _ => false,
        }
    }

    pub fn copy(&self) -> (r: Transform)
        ensures
            r == *self,
        decreases self,
    {
        match self {
            Transform::Identity => Transform::Identity,
            Transform::Compose(rest, step) => Transform::Compose(Box::new((**rest).copy()), *step),
        }
    }
}

impl Clone for Transform {
    fn clone(&self) -> (r: Self)
        ensures
            r == *self,
    {
        self.copy()
    }
}

impl PartialEq for Transform {
    fn eq(&self, other: &Transform) -> (r: bool) {
        self.same_as(other)
    }
}

impl vstd::std_specs::cmp::PartialEqSpecImpl for Transform {
    open spec fn obeys_eq_spec() -> bool {
        true
    }

    open spec fn eq_spec(&self, other: &Transform) -> bool {
        *self == *other
    }
}

/// A factor in a blend equation.
#[derive(Clone, Copy, Debug, PartialEq, Eq, Structural)]
pub enum BlendFactor {
    Zero,
    One,
    SrcColor,
    OneMinusSrcColor,
    SrcAlpha,
    OneMinusSrcAlpha,
    DstColor,
    OneMinusDstColor,
    DstAlpha,
    OneMinusDstAlpha,
    SrcAlphaSaturated,
    BlendColor,
    OneMinusBlendColor,
}

/// How the two weighted terms of a blend equation combine.
#[derive(Clone, Copy, Debug, PartialEq, Eq, Structural)]
pub enum BlendOperation {
    Add,
    Subtract,
    ReverseSubtract,
    Min,
    Max,
}

/// How new fragments blend with what is already drawn.
#[derive(Clone, Copy, Debug, PartialEq, Eq, Structural)]
pub struct BlendDescriptor {
    pub src_factor: BlendFactor,
    pub dst_factor: BlendFactor,
    pub operation: BlendOperation,
}

/// The blend used for the color channels unless a handle says otherwise.
pub open spec fn default_color_blend() -> BlendDescriptor {
    BlendDescriptor {
        src_factor: BlendFactor::SrcAlpha,
        dst_factor: BlendFactor::OneMinusSrcAlpha,
        operation: BlendOperation::Add,
    }
}

/// The blend used for the alpha channel unless a handle says otherwise.
pub open spec fn default_alpha_blend() -> BlendDescriptor {
    BlendDescriptor {
        src_factor: BlendFactor::One,
        dst_factor: BlendFactor::OneMinusSrcAlpha,
        operation: BlendOperation::Add,
    }
}

/// How vertices are assembled into primitives.
#[derive(Clone, Copy, Debug, PartialEq, Eq, Structural)]
pub enum PrimitiveTopology {
    PointList,
    LineList,
    LineStrip,
    TriangleList,
    TriangleStrip,
}

/// What a sampler does with texture coordinates outside the texture.
#[derive(Clone, Copy, Debug, PartialEq, Eq, Structural)]
pub enum AddressMode {
    ClampToEdge,
    Repeat,
    MirrorRepeat,
}

/// How a sampler filters between texels.
#[derive(Clone, Copy, Debug, PartialEq, Eq, Structural)]
pub enum FilterMode {
    Nearest,
    Linear,
}

/// A comparison used by comparison samplers.
#[derive(Clone, Copy, Debug, PartialEq, Eq, Structural)]
pub enum CompareFunction {
    Never,
    Less,
    Equal,
    LessEqual,
    Greater,
    NotEqual,
    GreaterEqual,
    Always,
}

/// How textures are sampled.
#[derive(Clone, Copy, Debug, PartialEq, Eq, Structural)]
pub struct SamplerDescriptor {
    pub address_mode_u: AddressMode,
    pub address_mode_v: AddressMode,
    pub address_mode_w: AddressMode,
    pub mag_filter: FilterMode,
    pub min_filter: FilterMode,
    pub mipmap_filter: FilterMode,
    pub lod_min_clamp: Scalar,
    pub lod_max_clamp: Scalar,
    pub compare: CompareFunction,
}

/// The sampler used unless a handle says otherwise.
pub open spec fn default_sampler() -> SamplerDescriptor {
    SamplerDescriptor {
        address_mode_u: AddressMode::ClampToEdge,
        address_mode_v: AddressMode::ClampToEdge,
        address_mode_w: AddressMode::ClampToEdge,
        mag_filter: FilterMode::Linear,
        min_filter: FilterMode::Linear,
        mipmap_filter: FilterMode::Linear,
        lod_min_clamp: Scalar { raw: -100_000_000i64 },
        lod_max_clamp: Scalar { raw: 100_000_000i64 },
        compare: CompareFunction::Always,
    }
}

impl SamplerDescriptor {
    pub fn new() -> (r: SamplerDescriptor)
        ensures
            r == default_sampler(),
    {
        SamplerDescriptor {
            address_mode_u: AddressMode::ClampToEdge,
            address_mode_v: AddressMode::ClampToEdge,
            address_mode_w: AddressMode::ClampToEdge,
            mag_filter: FilterMode::Linear,
            min_filter: FilterMode::Linear,
            mipmap_filter: FilterMode::Linear,
            lod_min_clamp: Scalar { raw: -100_000_000 },
            lod_max_clamp: Scalar { raw: 100_000_000 },
            compare: CompareFunction::Always,
        }
    }
}

/// The region outside which drawing is cut away.
#[derive(Clone, Copy, Debug, PartialEq, Eq, Structural)]
pub enum Scissor {
    /// The whole target.
    Full,
    /// Only the given rectangle.
    Rect(Rect),
    /// Nothing: successive scissors left no common region.
    NoOverlap,
}

impl Scissor {
    /// The scissor that keeps what both this scissor and `rect` keep.
    pub open spec fn narrow_spec(self, rect: Rect) -> Scissor {
        match self {
            Scissor::Full => Scissor::Rect(rect),
            Scissor::Rect(r) => match r.overlap_spec(rect) {
                Some(o) => Scissor::Rect(o),
                None => Scissor::NoOverlap,
            },
            Scissor::NoOverlap => Scissor::NoOverlap,
        }
    }

    /// The scissor that keeps what both this scissor and `rect` keep.
    pub fn narrow(self, rect: Rect) -> (r: Scissor)
        ensures
            r == self.narrow_spec(rect),
    {
        match self {
            Scissor::Full => Scissor::Rect(rect),
            Scissor::Rect(r) => match r.overlap(rect) {
                Some(o) => Scissor::Rect(o),
                None => Scissor::NoOverlap,
            },
            Scissor::NoOverlap => Scissor::NoOverlap,
        }
    }
}

/// Scissors compose by intersection: from the full target, the first scissor
/// is kept as given; the next one keeps the overlap, or nothing where there is
/// none; and once nothing is kept, nothing ever is.
pub proof fn lemma_scissor_composition(a: Rect, b: Rect, c: Rect)
    ensures
        Scissor::Full.narrow_spec(a) == Scissor::Rect(a),
        Scissor::Full.narrow_spec(a).narrow_spec(b) == (match a.overlap_spec(b) {
            Some(o) => Scissor::Rect(o),
            None => Scissor::NoOverlap,
        }),
        Scissor::NoOverlap.narrow_spec(c) == Scissor::NoOverlap,
{
}

/// The transform, blending, scissor, topology and sampler that apply to the
/// shapes a handle draws.
#[derive(Debug)]
pub struct Context {
    pub transform: Transform,
    pub alpha_blend: BlendDescriptor,
    pub color_blend: BlendDescriptor,
    pub scissor: Scissor,
    pub topology: PrimitiveTopology,
    pub sampler: SamplerDescriptor,
}

/// The context of a fresh handle.
pub open spec fn default_context() -> Context {
    Context {
        transform: Transform::Identity,
        alpha_blend: default_alpha_blend(),
        color_blend: default_color_blend(),
        scissor: Scissor::Full,
        topology: PrimitiveTopology::TriangleList,
        sampler: default_sampler(),
    }
}

impl Context {
    pub fn new() -> (r: Context)
        ensures
            r == default_context(),
    {
        Context {
            transform: Transform::Identity,
            alpha_blend: BlendDescriptor {
                src_factor: BlendFactor::One,
                dst_factor: BlendFactor::OneMinusSrcAlpha,
                operation: BlendOperation::Add,
            },
            color_blend: BlendDescriptor {
                src_factor: BlendFactor::SrcAlpha,
                dst_factor: BlendFactor::OneMinusSrcAlpha,
                operation: BlendOperation::Add,
            },
            scissor: Scissor::Full,
            topology: PrimitiveTopology::TriangleList,
            sampler: SamplerDescriptor::new(),
        }
    }

    /// Whether every field is the same.
    pub fn same_as(&self, other: &Context) -> (r: bool)
        ensures
            r == (*self == *other),
    {
        self.transform.same_as(&other.transform) && self.alpha_blend == other.alpha_blend
            && self.color_blend == other.color_blend && self.scissor == other.scissor
            && self.topology == other.topology && self.sampler == other.sampler
    }

    pub fn copy(&self) -> (r: Context)
        ensures
            r == *self,
    {
        Context {
            transform: self.transform.copy(),
            alpha_blend: self.alpha_blend,
            color_blend: self.color_blend,
            scissor: self.scissor,
            topology: self.topology,
            sampler: self.sampler,
        }
    }
}

impl Default for Context {
    fn default() -> (r: Self)
        ensures
            r == default_context(),
    {
        Context::new()
    }
}

impl Clone for Context {
    fn clone(&self) -> (r: Self)
        ensures
            r == *self,
    {
        self.copy()
    }
}

impl PartialEq for Context {
    fn eq(&self, other: &Context) -> (r: bool) {
        self.same_as(other)
    }
}

impl vstd::std_specs::cmp::PartialEqSpecImpl for Context {
    open spec fn obeys_eq_spec() -> bool {
        true
    }

    open spec fn eq_spec(&self, other: &Context) -> bool {
        *self == *other
    }
}

} // verus!
