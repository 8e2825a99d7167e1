//! Layouts of shader bindings and the resources bound to them.

use vstd::prelude::*;

verus! {

/// The bit of the vertex stage.
pub const VERTEX: u32 = 1;

/// The bit of the fragment stage.
pub const FRAGMENT: u32 = 2;

/// The bits of the vertex and the fragment stage.
pub const VERTEX_FRAGMENT: u32 = 3;

/// The shader stages that can see a binding, one bit each.
#[derive(Clone, Copy, Debug, PartialEq, Eq, Structural)]
pub struct ShaderStages {
    bits: u32,
}

/// How a shader reads a bound buffer.
#[derive(Clone, Copy, Debug, PartialEq, Eq, Structural)]
pub enum BufferBindingType {
    /// As uniform data.
    Uniform,
    /// As storage, writable unless `read_only`.
    Storage { read_only: bool },
}

/// How a shader uses a bound sampler.
#[derive(Clone, Copy, Debug, PartialEq, Eq, Structural)]
pub enum SamplerBindingType {
    /// With filtering.
    Filtering,
    /// Without filtering.
    NonFiltering,
    /// For comparisons.
    Comparison,
}

/// What a shader gets when it samples a bound texture.
#[derive(Clone, Copy, Debug, PartialEq, Eq, Structural)]
pub enum TextureSampleType {
    /// Floating-point values, filtered or not.
    Float { filterable: bool },
    /// Depth values.
    Depth,
    /// Signed integers.
    Sint,
    /// Unsigned integers.
    Uint,
}

/// The shape of a bound texture.
#[derive(Clone, Copy, Debug, PartialEq, Eq, Structural)]
pub enum TextureViewDimension {
    D1,
    D2,
    D2Array,
    Cube,
    CubeArray,
    D3,
}

/// The kind of resource that a binding slot takes.
#[derive(Clone, Copy, Debug, PartialEq, Eq, Structural)]
pub enum BindingType {
    /// A buffer. A `min_binding_size` of 0 stands for no minimum.
    Buffer { ty: BufferBindingType, has_dynamic_offset: bool, min_binding_size: u64 },
    /// A sampler.
    Sampler(SamplerBindingType),
    /// A texture.
    Texture {
        sample_type: TextureSampleType,
        view_dimension: TextureViewDimension,
        multisampled: bool,
    },
}

/// One slot of a binding layout.
#[derive(Clone, Copy, Debug, PartialEq, Eq, Structural)]
pub struct BindGroupLayoutEntry {
    pub binding: u32,
    pub visibility: ShaderStages,
    pub ty: BindingType,
}

/// A binding layout: its slots, numbered from 0 in order.
#[derive(Debug)]
pub struct BindingLayout {
    entries: Vec<BindGroupLayoutEntry>,
}

/// One resource together with the slot that it is bound to.
#[derive(Debug)]
pub struct BindGroupEntry<R> {
    pub binding: u32,
    pub resource: R,
}

/// A group of resources bound to the slots of a layout.
#[derive(Debug)]
pub struct Binding<R> {
    entries: Vec<BindGroupEntry<R>>,
}

impl ShaderStages {
    /// The stage bits.
    pub closed spec fn spec_bits(self) -> u32 {
        self.bits
    }

    /// The stages with the given bits.
    pub fn from_bits(bits: u32) -> (stages: ShaderStages)
        ensures
            stages.spec_bits() == bits,
    {
        ShaderStages { bits }
    }

    /// The stage bits.
    pub fn bits(self) -> (bits: u32)
        ensures
            bits == self.spec_bits(),
    {
        self.bits
    }
}

/// The slots that `create_binding_layout` makes of the given kinds: slot
/// `i` takes kind `i`, and all are visible to the same stages.
pub open spec fn numbered_slots(visibility: ShaderStages, kinds: Seq<BindingType>) -> Seq<
    BindGroupLayoutEntry,
> {
    Seq::new(
        kinds.len(),
        |i: int| BindGroupLayoutEntry { binding: i as u32, visibility, ty: kinds[i] },
    )
}

impl View for BindingLayout {
    type V = Seq<BindGroupLayoutEntry>;

    /// The slots of the layout in order.
    closed spec fn view(&self) -> Seq<BindGroupLayoutEntry> {
        self.entries@
    }
}

impl BindingLayout {
    /// The slots of the layout in order.
    pub fn entries(&self) -> (entries: &Vec<BindGroupLayoutEntry>)
        ensures
            entries@ == self@,
    {
        &self.entries
    }
}

impl<R> View for Binding<R> {
    type V = Seq<BindGroupEntry<R>>;

    /// The bound resources in the order of their slots.
    closed spec fn view(&self) -> Seq<BindGroupEntry<R>> {
        self.entries@
    }
}

impl<R> Binding<R> {
    /// The bound resources in the order of their slots.
    pub fn into_entries(self) -> (entries: Vec<BindGroupEntry<R>>)
        ensures
            entries@ == self@,
    {
        self.entries
    }
}

/// Lays out one slot for each of `entries`, in order, all visible to the
/// stages of `visibility`.
pub fn create_binding_layout(visibility: ShaderStages, entries: Vec<BindingType>) -> (layout:
    BindingLayout)
    requires
        entries@.len() <= u32::MAX,
    ensures
        layout@ == numbered_slots(visibility, entries@),
{
    let mut slots: Vec<BindGroupLayoutEntry> = Vec::new();
    let mut i: usize = 0;
    while i < entries.len()
        invariant
            i <= entries@.len() <= u32::MAX,
            slots@ == numbered_slots(visibility, entries@.take(i as int)),
        decreases entries@.len() - i,
    {
        slots.push(BindGroupLayoutEntry { binding: i as u32, visibility, ty: entries[i] });
        i += 1;
        assert(slots@ =~= numbered_slots(visibility, entries@.take(i as int)));
    }
    assert(entries@.take(i as int) =~= entries@);
    BindingLayout { entries: slots }
}

/// Binds `resources` to the slots of `layout`: resource `i` to slot `i`.
///
/// A layout with another number of slots than there are resources is a
/// caller error.
pub fn create_binding<R>(layout: &BindingLayout, resources: Vec<R>) -> (binding: Binding<R>)
    requires
        resources@.len() == layout@.len(),
        resources@.len() <= u32::MAX,
    ensures
        binding@.len() == resources@.len(),
        forall|i: int|
            0 <= i < resources@.len() ==> (#[trigger] binding@[i]).binding == i && binding@[i].resource
                == resources@[i],
{
    let mut resources = resources;
    let ghost all = resources@;
    let mut entries: Vec<BindGroupEntry<R>> = Vec::new();
    while resources.len() > 0
        invariant
            all.len() <= u32::MAX,
            entries@.len() + resources@.len() == all.len(),
            resources@ == all.skip(entries@.len() as int),
            forall|i: int|
                0 <= i < entries@.len() ==> (#[trigger] entries@[i]).binding == i && entries@[i].resource
                    == all[i],
        decreases resources@.len(),
    {
        let binding = entries.len() as u32;
        let resource = resources.remove(0);
        entries.push(BindGroupEntry { binding, resource });
        assert(resources@ =~= all.skip(entries@.len() as int));
    }
    Binding { entries }
}

} // verus!
