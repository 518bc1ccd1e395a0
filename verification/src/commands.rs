//! What a bake hands to the GPU backend: the resources by role, the fences
//! between stages, the parameter-set bindings and the recorded commands.

use vstd::prelude::*;
use crate::programs::{ComputeProgram, DescriptorSet, GraphicsProgram};

verus! {

/// One of the three orthographic views the voxelizer rasterizes through,
/// named by the plane it looks at.
#[derive(Clone, Copy, Debug, PartialEq, Eq, Hash, Structural)]
pub enum Projection {
    XY,
    ZX,
    YZ,
}

impl Projection {
    /// The three views, in the order they are drawn.
    pub fn all() -> (views: Vec<Projection>)
        ensures
            views@ == seq![Projection::XY, Projection::ZX, Projection::YZ],
    {
        vec![Projection::XY, Projection::ZX, Projection::YZ]
    }

    /// The number the kernels know the view by.
    pub open spec fn spec_index(self) -> u32 {
        match self {
            Projection::XY => 0,
            Projection::ZX => 1,
            Projection::YZ => 2,
        }
    }

    /// The number the kernels know the view by.
    pub fn index(self) -> (i: u32)
        ensures
            i == self.spec_index(),
    {
        match self {
            Projection::XY => 0,
            Projection::ZX => 1,
            Projection::YZ => 2,
        }
    }
}

/// A GPU buffer of the baker, by role.
#[derive(Clone, Copy, Debug, PartialEq, Eq, Hash, Structural)]
pub enum Buffer {
    TriangleUvw,
    CoordFlip,
    Aabb,
    Vertices,
    TrianglesInVoxels,
    Voxels,
    Counters,
    InSumBlocks,
    SumBlocks,
    AccumSumBlocks,
    AccumCounters,
    Tmp,
    AdditionalSumBlocks,
    JumpBuffer,
    JumpBufferBis,
}

/// A GPU image of the baker, by role.
#[derive(Clone, Copy, Debug, PartialEq, Eq, Hash, Structural)]
pub enum Image {
    RayMap,
    SignMap,
    SignMapBis,
    VoxelsTexture,
    VoxelsTextureBis,
    DistanceTexture,
    RenderTarget(Projection),
}

/// Anything a parameter set can point at.
#[derive(Clone, Copy, Debug, PartialEq, Eq, Structural)]
pub enum Resource {
    Buffer(Buffer),
    Image(Image),
    /// The index buffer of the selected mesh.
    MeshIndices,
    /// The vertex buffer of the selected mesh.
    MeshVertices,
    /// The uniform block that describes the mesh layout.
    MeshUniform,
    /// The uniform block with the three view transforms.
    RasterizationUniform,
}

/// The dependency a fence sets up between the work before and after it.
#[derive(Clone, Copy, Debug, PartialEq, Eq, Structural)]
pub enum Hazard {
    /// Later work waits for earlier work; nothing is made visible.
    Execution,
    /// Earlier shader writes are visible to later shader reads.
    WriteThenRead,
    /// Earlier shader writes are visible to later shader reads and writes.
    WriteThenReadWrite,
    /// A render target is about to be drawn to for the first time.
    BeginAttachment,
    /// What was drawn to a render target is visible to later sampling.
    AttachmentThenSampled,
    /// A render target that was sampled is about to be drawn to again.
    SampledThenAttachment,
}

/// The layout an image is in.
#[derive(Clone, Copy, Debug, PartialEq, Eq, Structural)]
pub enum ImageLayout {
    Undefined,
    General,
    ColorAttachment,
    ShaderReadOnly,
}

/// A fence on one buffer.
#[derive(Clone, Copy, Debug, PartialEq, Eq, Structural)]
pub struct BufferBarrier {
    pub buffer: Buffer,
    pub hazard: Hazard,
}

/// A fence on one image, with the layout it leaves and the one it enters.
#[derive(Clone, Copy, Debug, PartialEq, Eq, Structural)]
pub struct ImageBarrier {
    pub image: Image,
    pub old_layout: ImageLayout,
    pub new_layout: ImageLayout,
    pub hazard: Hazard,
}

/// One 32-bit slot of a kernel's push constants. Settings that are not
/// integers are named, not held: the backend puts their value in.
#[derive(Clone, Copy, Debug, PartialEq, Eq, Structural)]
pub enum PushValue {
    U32(u32),
    I32(i32),
    /// The in/out threshold of the settings, times `scale`.
    InOutThreshold { scale: u32 },
    /// The surface offset of the settings.
    SurfaceOffset,
    /// The running normalization factor of the sign smoothing before the
    /// given pass, see [`crate::bake::find_sign::spec_normalize_factor`].
    NormalizeFactor { pass: u32 },
}

/// One write into a parameter set.
#[derive(Clone, Copy, Debug, PartialEq, Eq, Structural)]
pub struct Binding {
    pub set: DescriptorSet,
    pub binding: u32,
    pub kind: BindingKind,
    pub resource: Resource,
}

/// How a parameter set entry is read by the kernel.
#[derive(Clone, Copy, Debug, PartialEq, Eq, Structural)]
pub enum BindingKind {
    UniformBuffer,
    StorageBuffer,
    SampledImage,
    StorageImage,
}

/// One recorded command.
#[derive(Clone, Debug, PartialEq, Eq)]
pub enum Command {
    /// Fences on buffers, set together.
    BufferBarriers(Vec<BufferBarrier>),
    /// Fences on images, set together.
    ImageBarriers(Vec<ImageBarrier>),
    /// Make a kernel current, with the global set and the given one.
    BindCompute { program: ComputeProgram, descriptor_set: DescriptorSet },
    /// Make the rasterizing pipeline of one view current, with the global set
    /// and the given one.
    BindGraphics { pipeline: GraphicsProgram, projection: Projection, descriptor_set: DescriptorSet },
    /// Set the push constants of the current program from offset 0.
    PushConstants(Vec<PushValue>),
    /// Run the current kernel on a grid of thread groups.
    Dispatch { x: u32, y: u32, z: u32 },
    /// Start drawing into the cleared render target of one view.
    BeginRendering { target: Projection, width: u32, height: u32 },
    /// Cover the whole target, with the vertical axis pointing up.
    SetViewport { width: u32, height: u32 },
    /// Draw that many vertices, one instance.
    Draw { vertex_count: u32 },
    /// Stop drawing into the render target.
    EndRendering,
}

/// What a command is, with sequences for its lists.
pub enum CommandView {
    BufferBarriers(Seq<BufferBarrier>),
    ImageBarriers(Seq<ImageBarrier>),
    BindCompute { program: ComputeProgram, descriptor_set: DescriptorSet },
    BindGraphics { pipeline: GraphicsProgram, projection: Projection, descriptor_set: DescriptorSet },
    PushConstants(Seq<PushValue>),
    Dispatch { x: u32, y: u32, z: u32 },
    BeginRendering { target: Projection, width: u32, height: u32 },
    SetViewport { width: u32, height: u32 },
    Draw { vertex_count: u32 },
    EndRendering,
}

impl View for Command {
    type V = CommandView;

    open spec fn view(&self) -> CommandView {
        match *self {
            Command::BufferBarriers(barriers) => CommandView::BufferBarriers(barriers@),
            Command::ImageBarriers(barriers) => CommandView::ImageBarriers(barriers@),
            Command::BindCompute { program, descriptor_set } => CommandView::BindCompute {
                program,
                descriptor_set,
            },
            Command::BindGraphics { pipeline, projection, descriptor_set } => CommandView::BindGraphics {
                pipeline,
                projection,
                descriptor_set,
            },
            Command::PushConstants(values) => CommandView::PushConstants(values@),
            Command::Dispatch { x, y, z } => CommandView::Dispatch { x, y, z },
            Command::BeginRendering { target, width, height } => CommandView::BeginRendering {
                target,
                width,
                height,
            },
            Command::SetViewport { width, height } => CommandView::SetViewport { width, height },
            Command::Draw { vertex_count } => CommandView::Draw { vertex_count },
            Command::EndRendering => CommandView::EndRendering,
        }
    }
}

/// A fence that only orders work on a buffer.
pub open spec fn spec_ordered(buffer: Buffer) -> BufferBarrier {
    BufferBarrier { buffer, hazard: Hazard::Execution }
}

/// A fence that makes what was written to a buffer readable.
pub open spec fn spec_flushed(buffer: Buffer) -> BufferBarrier {
    BufferBarrier { buffer, hazard: Hazard::WriteThenRead }
}

/// A fence between kernels on an image that stays in the general layout.
pub open spec fn spec_general(image: Image, hazard: Hazard) -> ImageBarrier {
    ImageBarrier { image, old_layout: ImageLayout::General, new_layout: ImageLayout::General, hazard }
}

/// A fence that takes an image into the general layout, whatever it held.
pub open spec fn spec_discarded(image: Image, hazard: Hazard) -> ImageBarrier {
    ImageBarrier { image, old_layout: ImageLayout::Undefined, new_layout: ImageLayout::General, hazard }
}

/// The same fence on the render targets of the three views.
pub open spec fn spec_on_render_targets(
    old_layout: ImageLayout,
    new_layout: ImageLayout,
    hazard: Hazard,
) -> Seq<ImageBarrier> {
    seq![
        ImageBarrier { image: Image::RenderTarget(Projection::XY), old_layout, new_layout, hazard },
        ImageBarrier { image: Image::RenderTarget(Projection::ZX), old_layout, new_layout, hazard },
        ImageBarrier { image: Image::RenderTarget(Projection::YZ), old_layout, new_layout, hazard },
    ]
}

/// A buffer written into a parameter set for reading and writing.
pub open spec fn spec_storage_buffer(set: DescriptorSet, binding: u32, buffer: Buffer) -> Binding {
    Binding { set, binding, kind: BindingKind::StorageBuffer, resource: Resource::Buffer(buffer) }
}

/// A buffer of the selected mesh or a uniform block written into a parameter
/// set, as the given kind.
pub open spec fn spec_external(
    set: DescriptorSet,
    binding: u32,
    kind: BindingKind,
    resource: Resource,
) -> Binding {
    Binding { set, binding, kind, resource }
}

/// An image written into a parameter set for sampling.
pub open spec fn spec_sampled_image(set: DescriptorSet, binding: u32, image: Image) -> Binding {
    Binding { set, binding, kind: BindingKind::SampledImage, resource: Resource::Image(image) }
}

/// An image written into a parameter set for reading and writing.
pub open spec fn spec_storage_image(set: DescriptorSet, binding: u32, image: Image) -> Binding {
    Binding { set, binding, kind: BindingKind::StorageImage, resource: Resource::Image(image) }
}

/// Binding a kernel with its parameter set.
pub open spec fn bind(program: ComputeProgram, descriptor_set: DescriptorSet) -> CommandView {
    CommandView::BindCompute { program, descriptor_set }
}

/// A dispatch of `x * y * z` thread groups.
pub open spec fn dispatch(x: u32, y: u32, z: u32) -> CommandView {
    CommandView::Dispatch { x, y, z }
}

/// An ordered list of commands, as recorded into one command buffer.
#[derive(Clone, Debug, PartialEq, Eq)]
pub struct CommandList {
    pub commands: Vec<Command>,
}

impl View for CommandList {
    type V = Seq<CommandView>;

    open spec fn view(&self) -> Seq<CommandView> {
        self.commands@.map_values(|c: Command| c@)
    }
}

impl CommandList {
    /// The empty list.
    pub fn new() -> (list: CommandList)
        ensures
            list@ == Seq::<CommandView>::empty(),
    {
        let list = CommandList { commands: Vec::new() };
        assert(list@ =~= Seq::<CommandView>::empty());
        list
    }

    /// The list of the given commands, in their order.
    pub fn from_vec(commands: Vec<Command>) -> (list: CommandList)
        ensures
            list@ == commands@.map_values(|c: Command| c@),
            list.commands == commands,
    {
        CommandList { commands }
    }

    /// Number of commands.
    pub fn len(&self) -> (n: usize)
        ensures
            n == self@.len(),
    {
        self.commands.len()
    }

    /// Add one command at the end.
    pub fn push(&mut self, command: Command)
        ensures
            final(self)@ == old(self)@.push(command@),
    {
        self.commands.push(command);
        assert(self@ =~= old(self)@.push(command@));
    }

    /// Add the commands of another list at the end, in their order.
    pub fn append(&mut self, other: CommandList)
        ensures
            final(self)@ == old(self)@ + other@,
    {
        let mut other = other;
        let ghost tail = other@;
        self.commands.append(&mut other.commands);
        assert(self@ =~= old(self)@ + tail);
    }

    /// Add a fence on the given buffers.
    pub fn buffer_barriers(&mut self, barriers: Vec<BufferBarrier>)
        ensures
            final(self)@ == old(self)@.push(CommandView::BufferBarriers(barriers@)),
    {
        self.push(Command::BufferBarriers(barriers));
    }

    /// Add a fence on the given images.
    pub fn image_barriers(&mut self, barriers: Vec<ImageBarrier>)
        ensures
            final(self)@ == old(self)@.push(CommandView::ImageBarriers(barriers@)),
    {
        self.push(Command::ImageBarriers(barriers));
    }

    /// Make a kernel current.
    pub fn bind(&mut self, program: ComputeProgram, descriptor_set: DescriptorSet)
        ensures
            final(self)@ == old(self)@.push(bind(program, descriptor_set)),
    {
        self.push(Command::BindCompute { program, descriptor_set });
    }

    /// Set the push constants of the current program.
    pub fn push_constants(&mut self, values: Vec<PushValue>)
        ensures
            final(self)@ == old(self)@.push(CommandView::PushConstants(values@)),
    {
        self.push(Command::PushConstants(values));
    }

    /// Run the current kernel.
    pub fn dispatch(&mut self, x: u32, y: u32, z: u32)
        ensures
            final(self)@ == old(self)@.push(dispatch(x, y, z)),
    {
        self.push(Command::Dispatch { x, y, z });
    }
}

/// The list that holds one item.
pub fn only<T>(item: T) -> (list: Vec<T>)
    ensures
        list@ == seq![item],
{
    let mut list: Vec<T> = Vec::new();
    list.push(item);
    list
}

/// A fence that only orders work on a buffer.
#[verifier::when_used_as_spec(spec_ordered)]
pub fn ordered(buffer: Buffer) -> (b: BufferBarrier)
    ensures
        b == spec_ordered(buffer),
{
    BufferBarrier { buffer, hazard: Hazard::Execution }
}

/// A fence that makes what was written to a buffer readable.
#[verifier::when_used_as_spec(spec_flushed)]
pub fn flushed(buffer: Buffer) -> (b: BufferBarrier)
    ensures
        b == spec_flushed(buffer),
{
    BufferBarrier { buffer, hazard: Hazard::WriteThenRead }
}

/// A fence between kernels on an image that stays in the general layout.
#[verifier::when_used_as_spec(spec_general)]
pub fn general(image: Image, hazard: Hazard) -> (b: ImageBarrier)
    ensures
        b == spec_general(image, hazard),
{
    ImageBarrier { image, old_layout: ImageLayout::General, new_layout: ImageLayout::General, hazard }
}

/// A fence that takes an image into the general layout, whatever it held.
#[verifier::when_used_as_spec(spec_discarded)]
pub fn discarded(image: Image, hazard: Hazard) -> (b: ImageBarrier)
    ensures
        b == spec_discarded(image, hazard),
{
    ImageBarrier { image, old_layout: ImageLayout::Undefined, new_layout: ImageLayout::General, hazard }
}

/// The same fence on the render targets of the three views.
pub fn on_render_targets(old_layout: ImageLayout, new_layout: ImageLayout, hazard: Hazard) -> (barriers:
    Vec<ImageBarrier>)
    ensures
        barriers@ == spec_on_render_targets(old_layout, new_layout, hazard),
{
    vec![
        ImageBarrier { image: Image::RenderTarget(Projection::XY), old_layout, new_layout, hazard },
        ImageBarrier { image: Image::RenderTarget(Projection::ZX), old_layout, new_layout, hazard },
        ImageBarrier { image: Image::RenderTarget(Projection::YZ), old_layout, new_layout, hazard },
    ]
}

/// A buffer written into a parameter set for reading and writing.
#[verifier::when_used_as_spec(spec_storage_buffer)]
pub fn storage_buffer(set: DescriptorSet, binding: u32, buffer: Buffer) -> (b: Binding)
    ensures
        b == spec_storage_buffer(set, binding, buffer),
{
    Binding { set, binding, kind: BindingKind::StorageBuffer, resource: Resource::Buffer(buffer) }
}

/// A buffer of the selected mesh or a uniform block written into a parameter
/// set, as the given kind.
#[verifier::when_used_as_spec(spec_external)]
pub fn external(set: DescriptorSet, binding: u32, kind: BindingKind, resource: Resource) -> (b: Binding)
    ensures
        b == spec_external(set, binding, kind, resource),
{
    Binding { set, binding, kind, resource }
}

/// An image written into a parameter set for sampling.
#[verifier::when_used_as_spec(spec_sampled_image)]
pub fn sampled_image(set: DescriptorSet, binding: u32, image: Image) -> (b: Binding)
    ensures
        b == spec_sampled_image(set, binding, image),
{
    Binding { set, binding, kind: BindingKind::SampledImage, resource: Resource::Image(image) }
}

/// An image written into a parameter set for reading and writing.
#[verifier::when_used_as_spec(spec_storage_image)]
pub fn storage_image(set: DescriptorSet, binding: u32, image: Image) -> (b: Binding)
    ensures
        b == spec_storage_image(set, binding, image),
{
    Binding { set, binding, kind: BindingKind::StorageImage, resource: Resource::Image(image) }
}

} // verus!
