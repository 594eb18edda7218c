use vstd::prelude::*;
use crate::resources::ColorFormat;

verus! {

/// Entry point of every vertex program.
pub const VERTEX_ENTRY: &'static str = "vs_main";

/// Entry point of every fragment program.
pub const FRAGMENT_ENTRY: &'static str = "fs_main";

/// Vertices of the two-triangle quad that each draw generates from the vertex index.
pub const QUAD_VERTICES: u32 = 6;

/// The shader stage that sees a binding.
#[derive(Clone, Copy, Debug, PartialEq, Eq, Structural)]
pub enum Stage {
    Vertex,
    Fragment,
}

/// What a binding slot holds.
#[derive(Clone, Copy, Debug, PartialEq, Eq, Structural)]
pub enum BindingKind {
    SampledImage,
    FilteringSampler,
    UniformBuffer,
}

/// One entry of a binding-set layout.
#[derive(Clone, Copy, Debug, PartialEq, Eq, Structural)]
pub struct LayoutEntry {
    pub binding: u32,
    pub visibility: Stage,
    pub kind: BindingKind,
}

/// The two binding-set layouts.
#[derive(Clone, Copy, Debug, PartialEq, Eq, Structural)]
pub enum LayoutId {
    /// An image at binding 0 and a sampler at binding 1, for the fragment stage.
    Texture,
    /// A uniform buffer at binding 0, for the vertex stage.
    Uniform,
}

pub open spec fn layout_entries_spec(id: LayoutId) -> Seq<LayoutEntry> {
    match id {
        LayoutId::Texture => seq![
            LayoutEntry { binding: 0, visibility: Stage::Fragment, kind: BindingKind::SampledImage },
            LayoutEntry {
                binding: 1,
                visibility: Stage::Fragment,
                kind: BindingKind::FilteringSampler,
            },
        ],
        LayoutId::Uniform => seq![
            LayoutEntry { binding: 0, visibility: Stage::Vertex, kind: BindingKind::UniformBuffer },
        ],
    }
}

/// The entries of a binding-set layout.
pub fn layout_entries(id: LayoutId) -> (r: Vec<LayoutEntry>)
    ensures
        r@ == layout_entries_spec(id),
{
    match id {
        LayoutId::Texture => {
            let r = vec![
                LayoutEntry {
                    binding: 0,
                    visibility: Stage::Fragment,
                    kind: BindingKind::SampledImage,
                },
                LayoutEntry {
                    binding: 1,
                    visibility: Stage::Fragment,
                    kind: BindingKind::FilteringSampler,
                },
            ];
            assert(r@ =~= layout_entries_spec(id));
            r
        },
        LayoutId::Uniform => {
            let r = vec![
                LayoutEntry {
                    binding: 0,
                    visibility: Stage::Vertex,
                    kind: BindingKind::UniformBuffer,
                },
            ];
            assert(r@ =~= layout_entries_spec(id));
            r
        },
    }
}

/// The two GPU programs.
#[derive(Clone, Copy, Debug, PartialEq, Eq, Structural)]
pub enum Program {
    /// Draws the objects into the offscreen target.
    Framebuffer,
    /// Composites the offscreen target onto the presentable image.
    PostProcess,
}

/// A program with its fixed-function state: a triangle list with no vertex
/// buffers, no depth or stencil, default blending and multisampling, and one
/// color target.
#[derive(Debug)]
pub struct PipelineDesc {
    pub program: Program,
    /// The binding-set layout at each slot, slot 0 first.
    pub layouts: Vec<LayoutId>,
    pub color_target: ColorFormat,
}

/// The binding-set layouts that a program consumes, by slot.
pub open spec fn pipeline_layouts_spec(program: Program) -> Seq<LayoutId> {
    match program {
        Program::Framebuffer => seq![LayoutId::Texture, LayoutId::Uniform],
        Program::PostProcess => seq![LayoutId::Texture],
    }
}

/// Describes the pipeline of `program`, drawing into images of `format`.
pub fn pipeline_desc(program: Program, format: ColorFormat) -> (r: PipelineDesc)
    ensures
        r.program == program,
        r.layouts@ == pipeline_layouts_spec(program),
        r.color_target == format,
{
    let layouts = match program {
        Program::Framebuffer => vec![LayoutId::Texture, LayoutId::Uniform],
        Program::PostProcess => vec![LayoutId::Texture],
    };
    assert(layouts@ =~= pipeline_layouts_spec(program));
    PipelineDesc { program, layouts, color_target: format }
}

/// The two images that passes sample.
#[derive(Clone, Copy, Debug, PartialEq, Eq, Structural)]
pub enum ImageId {
    SpriteAtlas,
    OffscreenTarget,
}

/// What one binding of a binding set holds.
#[derive(Clone, Copy, Debug, PartialEq, Eq, Structural)]
pub enum Resource {
    /// A view of the whole image.
    Image(ImageId),
    /// The sampler that both passes share.
    SharedSampler,
    /// The whole of the uniform buffer at this index.
    UniformBuffer(usize),
}

/// One binding of a binding set.
#[derive(Clone, Copy, Debug, PartialEq, Eq, Structural)]
pub struct BindingEntry {
    pub binding: u32,
    pub resource: Resource,
}

/// The kind of layout slot that a resource fills.
pub open spec fn kind_of(r: Resource) -> BindingKind {
    match r {
        Resource::Image(_) => BindingKind::SampledImage,
        Resource::SharedSampler => BindingKind::FilteringSampler,
        Resource::UniformBuffer(_) => BindingKind::UniformBuffer,
    }
}

/// The entries fill the layout's slots one for one, binding numbers and kinds alike.
pub open spec fn fits_layout(entries: Seq<BindingEntry>, layout: Seq<LayoutEntry>) -> bool {
    &&& entries.len() == layout.len()
    &&& forall|i: int|
        0 <= i < entries.len() ==> (#[trigger] entries[i]).binding == layout[i].binding && kind_of(
            entries[i].resource,
        ) == layout[i].kind
}

/// The texture binding set of `image`: the image at binding 0, the shared
/// sampler at binding 1.
pub fn texture_binding_set(image: ImageId) -> (r: Vec<BindingEntry>)
    ensures
        r@ == seq![
            BindingEntry { binding: 0, resource: Resource::Image(image) },
            BindingEntry { binding: 1, resource: Resource::SharedSampler },
        ],
        fits_layout(r@, layout_entries_spec(LayoutId::Texture)),
{
    let r = vec![
        BindingEntry { binding: 0, resource: Resource::Image(image) },
        BindingEntry { binding: 1, resource: Resource::SharedSampler },
    ];
    assert(r@ =~= seq![
        BindingEntry { binding: 0, resource: Resource::Image(image) },
        BindingEntry { binding: 1, resource: Resource::SharedSampler },
    ]);
    r
}

/// The binding set of the object whose uniform buffer is at `buffer`.
pub fn uniform_binding_set(buffer: usize) -> (r: Vec<BindingEntry>)
    ensures
        r@ == seq![BindingEntry { binding: 0, resource: Resource::UniformBuffer(buffer) }],
        fits_layout(r@, layout_entries_spec(LayoutId::Uniform)),
{
    let r = vec![BindingEntry { binding: 0, resource: Resource::UniformBuffer(buffer) }];
    assert(r@ =~= seq![BindingEntry { binding: 0, resource: Resource::UniformBuffer(buffer) }]);
    r
}

} // verus!
