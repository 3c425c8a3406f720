//! Render pipeline descriptors and state.

use vstd::prelude::*;

use crate::mtl::{Device, Function, PixelFormat};

verus! {

/// The source of one blend factor.
#[derive(Debug, Copy, Clone, Eq, PartialEq, Structural)]
pub enum BlendFactor {
    Zero,
    One,
    SourceColor,
    OneMinusSourceColor,
    SourceAlpha,
    OneMinusSourceAlpha,
    DestinationColor,
    OneMinusDestinationColor,
    DestinationAlpha,
    OneMinusDestinationAlpha,
    SourceAlphaSaturated,
    BlendColor,
    OneMinusBlendColor,
    BlendAlpha,
    OneMinusBlendAlpha,
    Source1Color,
    OneMinusSource1Color,
    Source1Alpha,
    OneMinusSource1Alpha,
}

/// How source and destination are combined.
#[derive(Debug, Copy, Clone, Eq, PartialEq, Structural)]
pub enum BlendOperation {
    Add,
    Subtract,
    ReverseSubtract,
    Min,
    Max,
}

/// Which color channels a render pass may write.
#[derive(Debug, Copy, Clone, Eq, PartialEq, Structural)]
pub enum ColorWriteMask {
    Disabled,
    Red,
    Green,
    Blue,
    Alpha,
    All,
}

impl ColorWriteMask {
    /// The mask's raw channel bits: red 8, green 4, blue 2, alpha 1.
    pub fn bits(&self) -> (b: u32)
        ensures
            b == match *self {
                ColorWriteMask::Disabled => 0u32,
                ColorWriteMask::Red => 8u32,
                ColorWriteMask::Green => 4u32,
                ColorWriteMask::Blue => 2u32,
                ColorWriteMask::Alpha => 1u32,
                ColorWriteMask::All => 0xfu32,
            },
    {
        match *self {
            ColorWriteMask::Disabled => 0,
            ColorWriteMask::Red => 8,
            ColorWriteMask::Green => 4,
            ColorWriteMask::Blue => 2,
            ColorWriteMask::Alpha => 1,
            ColorWriteMask::All => 0xf,
        }
    }
}

/// The class of primitive a pipeline rasterizes.
#[derive(Debug, Copy, Clone, Eq, PartialEq, Structural)]
pub enum PrimitiveTopologyClass {
    Unspecified,
    Point,
    Line,
    Triangle,
}

/// How the tessellator subdivides patch edges.
#[derive(Debug, Copy, Clone, Eq, PartialEq, Structural)]
pub enum TessellationPartitionMode {
    Pow2,
    Integer,
    FractionalOdd,
    FractionalEven,
}

/// How tessellation factors step across patches and instances.
#[derive(Debug, Copy, Clone, Eq, PartialEq, Structural)]
pub enum TessellationFactorStepFunction {
    Constant,
    PerPatch,
    PerInstance,
    PerPatchAndPerInstance,
}

/// The numeric format of tessellation factors.
#[derive(Debug, Copy, Clone, Eq, PartialEq, Structural)]
pub enum TessellationFactorFormat {
    MTLTessellationFactorFormatHalf,
}

/// How control points of a patch are indexed.
#[derive(Debug, Copy, Clone, Eq, PartialEq, Structural)]
pub enum TessellationControlPointIndexType {
    NoIndices,
    U16,
    U32,
}

/// Blend and write configuration of one color attachment.
#[derive(Debug, Copy, Clone, Eq, PartialEq, Structural)]
pub struct ColorAttachmentDescriptor {
    pub pixel_format: PixelFormat,
    pub blending_enabled: bool,
    pub src_rgb_blend_factor: BlendFactor,
    pub dest_rgb_blend_factor: BlendFactor,
    pub rgb_blend_operation: BlendOperation,
    pub src_alpha_blend_factor: BlendFactor,
    pub dest_alpha_blend_factor: BlendFactor,
    pub alpha_blend_operation: BlendOperation,
    pub write_mask: ColorWriteMask,
}

impl ColorAttachmentDescriptor {
    /// A fresh attachment descriptor with the defaults: no pixel format
    /// chosen, blending off, source factors one, destination factors
    /// zero, additive operations, every channel writable.
    pub fn new() -> (d: ColorAttachmentDescriptor)
        ensures
            d == ColorAttachmentDescriptor::default_spec(),
    {
        ColorAttachmentDescriptor {
            pixel_format: PixelFormat::Invalid,
            blending_enabled: false,
            src_rgb_blend_factor: BlendFactor::One,
            dest_rgb_blend_factor: BlendFactor::Zero,
            rgb_blend_operation: BlendOperation::Add,
            src_alpha_blend_factor: BlendFactor::One,
            dest_alpha_blend_factor: BlendFactor::Zero,
            alpha_blend_operation: BlendOperation::Add,
            write_mask: ColorWriteMask::All,
        }
    }

    /// The default attachment configuration.
    pub open spec fn default_spec() -> ColorAttachmentDescriptor {
        ColorAttachmentDescriptor {
            pixel_format: PixelFormat::Invalid,
            blending_enabled: false,
            src_rgb_blend_factor: BlendFactor::One,
            dest_rgb_blend_factor: BlendFactor::Zero,
            rgb_blend_operation: BlendOperation::Add,
            src_alpha_blend_factor: BlendFactor::One,
            dest_alpha_blend_factor: BlendFactor::Zero,
            alpha_blend_operation: BlendOperation::Add,
            write_mask: ColorWriteMask::All,
        }
    }

    /// The attachment's pixel format.
    pub fn pixel_format(&self) -> (r: PixelFormat)
        ensures
            r == self.pixel_format,
    {
        self.pixel_format
    }

    /// Sets the attachment's pixel format.
    pub fn set_pixel_format(&mut self, value: PixelFormat)
        ensures
            (*final(self) == ColorAttachmentDescriptor { pixel_format: value, ..*old(self) }),
    {
        self.pixel_format = value;
    }
    /// Whether blending is on for this attachment.
    pub fn blening_enabled(&self) -> (r: bool)
        ensures
            r == self.blending_enabled,
    {
        self.blending_enabled
    }

    /// Switches blending on or off.
    pub fn set_blening_enabled(&mut self, value: bool)
        ensures
            (*final(self) == ColorAttachmentDescriptor { blending_enabled: value, ..*old(self) }),
    {
        self.blending_enabled = value;
    }
    /// The source color blend factor.
    pub fn src_rgb_blend_factor(&self) -> (r: BlendFactor)
        ensures
            r == self.src_rgb_blend_factor,
    {
        self.src_rgb_blend_factor
    }

    /// Sets the source color blend factor.
    pub fn set_src_rgb_blend_factor(&mut self, value: BlendFactor)
        ensures
            (*final(self) == ColorAttachmentDescriptor { src_rgb_blend_factor: value, ..*old(self) }),
    {
        self.src_rgb_blend_factor = value;
    }
    /// The destination color blend factor.
    pub fn dest_rgb_blend_factor(&self) -> (r: BlendFactor)
        ensures
            r == self.dest_rgb_blend_factor,
    {
        self.dest_rgb_blend_factor
    }

    /// Sets the destination color blend factor.
    pub fn set_dest_rgb_blend_factor(&mut self, value: BlendFactor)
        ensures
            (*final(self) == ColorAttachmentDescriptor { dest_rgb_blend_factor: value, ..*old(self) }),
    {
        self.dest_rgb_blend_factor = value;
    }
    /// The color blend operation.
    pub fn rgb_blend_operation(&self) -> (r: BlendOperation)
        ensures
            r == self.rgb_blend_operation,
    {
        self.rgb_blend_operation
    }

    /// Sets the color blend operation.
    pub fn set_rgb_blend_operation(&mut self, value: BlendOperation)
        ensures
            (*final(self) == ColorAttachmentDescriptor { rgb_blend_operation: value, ..*old(self) }),
    {
        self.rgb_blend_operation = value;
    }
    /// The source alpha blend factor.
    pub fn src_alpha_blend_factor(&self) -> (r: BlendFactor)
        ensures
            r == self.src_alpha_blend_factor,
    {
        self.src_alpha_blend_factor
    }

    /// Sets the source alpha blend factor.
    pub fn set_src_alpha_blend_factor(&mut self, value: BlendFactor)
        ensures
            (*final(self) == ColorAttachmentDescriptor { src_alpha_blend_factor: value, ..*old(self) }),
    {
        self.src_alpha_blend_factor = value;
    }
    /// The destination alpha blend factor.
    pub fn dest_alpha_blend_factor(&self) -> (r: BlendFactor)
        ensures
            r == self.dest_alpha_blend_factor,
    {
        self.dest_alpha_blend_factor
    }

    /// Sets the destination alpha blend factor.
    pub fn set_dest_alpha_blend_factor(&mut self, value: BlendFactor)
        ensures
            (*final(self) == ColorAttachmentDescriptor { dest_alpha_blend_factor: value, ..*old(self) }),
    {
        self.dest_alpha_blend_factor = value;
    }
    /// The alpha blend operation.
    pub fn alpha_blend_operation(&self) -> (r: BlendOperation)
        ensures
            r == self.alpha_blend_operation,
    {
        self.alpha_blend_operation
    }

    /// Sets the alpha blend operation.
    pub fn alpha_rgb_blend_operation(&mut self, value: BlendOperation)
        ensures
            (*final(self) == ColorAttachmentDescriptor { alpha_blend_operation: value, ..*old(self) }),
    {
        self.alpha_blend_operation = value;
    }
    /// Which channels the pass writes.
    pub fn write_mask(&self) -> (r: ColorWriteMask)
        ensures
            r == self.write_mask,
    {
        self.write_mask
    }

    /// Sets the channel write mask.
    pub fn set_write_mask(&mut self, value: ColorWriteMask)
        ensures
            (*final(self) == ColorAttachmentDescriptor { write_mask: value, ..*old(self) }),
    {
        self.write_mask = value;
    }
}

/// One shader argument, as reflected from a compiled pipeline.
#[derive(Debug, Copy, Clone, Eq, PartialEq, Structural)]
pub struct Argument {
    pub index: usize,
}

/// Reflection information of a compiled pipeline.
pub struct Reflection {
    pub vertex_args: Option<Vec<Argument>>,
    pub fragment_args: Option<Vec<Argument>>,
    pub tile_args: Option<Vec<Argument>>,
}

impl Reflection {
    /// The vertex stage's arguments, when reflection captured them.
    pub fn vertex_arguments(&self) -> (r: Option<&Vec<Argument>>)
        ensures
            match r {
                Some(v) => self.vertex_args matches Some(w) && v@ == w@,
                None => self.vertex_args is None,
            },
    {
        self.vertex_args.as_ref()
    }

    /// The fragment stage's arguments, when reflection captured them.
    pub fn fragment_arguments(&self) -> (r: Option<&Vec<Argument>>)
        ensures
            match r {
                Some(v) => self.fragment_args matches Some(w) && v@ == w@,
                None => self.fragment_args is None,
            },
    {
        self.fragment_args.as_ref()
    }

    /// The tile stage's arguments, when reflection captured them.
    pub fn tile_arguments(&self) -> (r: Option<&Vec<Argument>>)
        ensures
            match r {
                Some(v) => self.tile_args matches Some(w) && v@ == w@,
                None => self.tile_args is None,
            },
    {
        self.tile_args.as_ref()
    }
}

/// The color attachment table of a pipeline descriptor: eight slots,
/// each holding one attachment configuration.
pub struct ColorAttachmentDescriptorArray {
    items: Vec<ColorAttachmentDescriptor>,
}

impl ColorAttachmentDescriptorArray {
    /// The slots, in order.
    pub closed spec fn items_view(self) -> Seq<ColorAttachmentDescriptor> {
        self.items@
    }

    /// A table of eight default slots.
    pub fn new() -> (a: ColorAttachmentDescriptorArray)
        ensures
            a.items_view().len() == 8,
            forall|i: int|
                0 <= i < 8 ==> #[trigger] a.items_view()[i]
                    == ColorAttachmentDescriptor::default_spec(),
    {
        let mut items: Vec<ColorAttachmentDescriptor> = Vec::new();
        let mut i: usize = 0;
        while i < 8
            invariant
                i <= 8,
                items@.len() == i,
                forall|j: int|
                    0 <= j < i ==> #[trigger] items@[j]
                        == ColorAttachmentDescriptor::default_spec(),
            decreases 8 - i,
        {
            items.push(ColorAttachmentDescriptor::new());
            i = i + 1;
        }
        ColorAttachmentDescriptorArray { items }
    }

    /// Reads one slot.
    pub fn get_at(&self, index: usize) -> (r: &ColorAttachmentDescriptor)
        requires
            (index as nat) < self.items_view().len(),
        ensures
            *r == self.items_view()[index as int],
    {
        &self.items[index]
    }

    /// Borrows one slot for modification.
    pub fn get_mut_at(&mut self, index: usize) -> (r: &mut ColorAttachmentDescriptor)
        requires
            (index as nat) < old(self).items_view().len(),
        ensures
            *r == old(self).items_view()[index as int],
            final(self).items_view() == old(self).items_view().update(
                index as int,
                *final(r),
            ),
    {
        &mut self.items[index]
    }

    /// Replaces one slot.
    pub fn set_at(&mut self, index: usize, value: &ColorAttachmentDescriptor)
        requires
            (index as nat) < old(self).items_view().len(),
        ensures
            final(self).items_view() == old(self).items_view().update(index as int, *value),
    {
        self.items.set(index, *value);
    }

    /// Resets one slot to the defaults.
    pub fn reset_at(&mut self, index: usize)
        requires
            (index as nat) < old(self).items_view().len(),
        ensures
            final(self).items_view() == old(self).items_view().update(
                index as int,
                ColorAttachmentDescriptor::default_spec(),
            ),
    {
        self.items.set(index, ColorAttachmentDescriptor::new());
    }
}

/// A render pipeline descriptor: the shader functions, attachment table
/// and sampling configuration a pipeline is built from.
pub struct Descriptor {
    vertex_fn: Option<Function>,
    fragment_fn: Option<Function>,
    attachments: ColorAttachmentDescriptorArray,
    raster_samples: usize,
}

impl Descriptor {
    /// The vertex function, if one is set.
    pub closed spec fn vertex_function_spec(self) -> Option<Function> {
        self.vertex_fn
    }

    /// The fragment function, if one is set.
    pub closed spec fn fragment_function_spec(self) -> Option<Function> {
        self.fragment_fn
    }

    /// The attachment table.
    pub closed spec fn color_attachments_spec(self) -> Seq<ColorAttachmentDescriptor> {
        self.attachments.items_view()
    }

    /// The raster sample count.
    pub closed spec fn raster_sample_count_spec(self) -> nat {
        self.raster_samples as nat
    }

    /// A fresh descriptor: no functions, eight default attachment slots,
    /// one raster sample.
    pub fn new() -> (d: Descriptor)
        ensures
            d.vertex_function_spec() is None,
            d.fragment_function_spec() is None,
            d.color_attachments_spec().len() == 8,
            forall|i: int|
                0 <= i < 8 ==> #[trigger] d.color_attachments_spec()[i]
                    == ColorAttachmentDescriptor::default_spec(),
            d.raster_sample_count_spec() == 1,
    {
        Descriptor {
            vertex_fn: None,
            fragment_fn: None,
            attachments: ColorAttachmentDescriptorArray::new(),
            raster_samples: 1,
        }
    }

    /// Returns the descriptor to its default values.
    pub fn reset(&mut self)
        ensures
            final(self).vertex_function_spec() is None,
            final(self).fragment_function_spec() is None,
            final(self).color_attachments_spec().len() == 8,
            forall|i: int|
                0 <= i < 8 ==> #[trigger] final(self).color_attachments_spec()[i]
                    == ColorAttachmentDescriptor::default_spec(),
            final(self).raster_sample_count_spec() == 1,
    {
        self.vertex_fn = None;
        self.fragment_fn = None;
        self.attachments = ColorAttachmentDescriptorArray::new();
        self.raster_samples = 1;
    }

    /// The vertex function, if one is set.
    pub fn vertex_function(&self) -> (r: Option<&Function>)
        ensures
            match r {
                Some(f) => self.vertex_function_spec() == Some(*f),
                None => self.vertex_function_spec() is None,
            },
    {
        self.vertex_fn.as_ref()
    }

    /// Sets or clears the vertex function.
    pub fn set_vertex_function(&mut self, value: Option<&Function>)
        ensures
            final(self).vertex_function_spec() == match value {
                Some(f) => Some(*f),
                None => None::<Function>,
            },
            final(self).fragment_function_spec() == old(self).fragment_function_spec(),
            final(self).color_attachments_spec() == old(self).color_attachments_spec(),
            final(self).raster_sample_count_spec() == old(self).raster_sample_count_spec(),
    {
        self.vertex_fn = match value {
            Some(f) => Some(*f),
            None => None,
        };
    }

    /// Sets the vertex function.
    pub fn set_vertex_fn(&mut self, value: &Function)
        ensures
            final(self).vertex_function_spec() == Some(*value),
            final(self).fragment_function_spec() == old(self).fragment_function_spec(),
            final(self).color_attachments_spec() == old(self).color_attachments_spec(),
            final(self).raster_sample_count_spec() == old(self).raster_sample_count_spec(),
    {
        self.set_vertex_function(Some(value))
    }

    /// The fragment function, if one is set.
    pub fn fragment_function(&self) -> (r: Option<&Function>)
        ensures
            match r {
                Some(f) => self.fragment_function_spec() == Some(*f),
                None => self.fragment_function_spec() is None,
            },
    {
        self.fragment_fn.as_ref()
    }

    /// Sets or clears the fragment function.
    pub fn set_fragment_function(&mut self, value: Option<&Function>)
        ensures
            final(self).fragment_function_spec() == match value {
                Some(f) => Some(*f),
                None => None::<Function>,
            },
            final(self).vertex_function_spec() == old(self).vertex_function_spec(),
            final(self).color_attachments_spec() == old(self).color_attachments_spec(),
            final(self).raster_sample_count_spec() == old(self).raster_sample_count_spec(),
    {
        self.fragment_fn = match value {
            Some(f) => Some(*f),
            None => None,
        };
    }

    /// Sets the fragment function.
    pub fn set_fragment_fn(&mut self, value: &Function)
        ensures
            final(self).fragment_function_spec() == Some(*value),
            final(self).vertex_function_spec() == old(self).vertex_function_spec(),
            final(self).color_attachments_spec() == old(self).color_attachments_spec(),
            final(self).raster_sample_count_spec() == old(self).raster_sample_count_spec(),
    {
        self.set_fragment_function(Some(value))
    }

    /// The attachment table.
    pub fn color_attachments(&self) -> (r: &ColorAttachmentDescriptorArray)
        ensures
            r.items_view() == self.color_attachments_spec(),
    {
        &self.attachments
    }

    /// The attachment table, for modification.
    pub fn color_attachments_mut(&mut self) -> (r: &mut ColorAttachmentDescriptorArray)
        ensures
            r.items_view() == old(self).color_attachments_spec(),
            final(self).color_attachments_spec() == final(r).items_view(),
            final(self).vertex_function_spec() == old(self).vertex_function_spec(),
            final(self).fragment_function_spec() == old(self).fragment_function_spec(),
            final(self).raster_sample_count_spec() == old(self).raster_sample_count_spec(),
    {
        &mut self.attachments
    }

    /// The raster sample count.
    pub fn raster_sample_count(&self) -> (r: usize)
        ensures
            (r as nat) == self.raster_sample_count_spec(),
    {
        self.raster_samples
    }

    /// Sets the raster sample count.
    pub fn set_raster_sample_count(&mut self, value: usize)
        ensures
            final(self).raster_sample_count_spec() == value,
            final(self).vertex_function_spec() == old(self).vertex_function_spec(),
            final(self).fragment_function_spec() == old(self).fragment_function_spec(),
            final(self).color_attachments_spec() == old(self).color_attachments_spec(),
    {
        self.raster_samples = value;
    }
}

/// A compiled render pipeline's immutable properties.
pub struct State {
    pub device: Device,
    pub max_threads: usize,
    pub tile_size_match: bool,
    pub imageblock_len: usize,
}

impl State {
    /// A compiled pipeline state with the given properties.
    pub fn new(device: Device, max_threads: usize, tile_size_match: bool, imageblock_len: usize) -> (s: State)
        ensures
            s.device == device,
            s.max_threads == max_threads,
            s.tile_size_match == tile_size_match,
            s.imageblock_len == imageblock_len,
    {
        State { device, max_threads, tile_size_match, imageblock_len }
    }

    /// The device the pipeline was compiled for.
    pub fn device(&self) -> (d: Device)
        ensures
            d == self.device,
    {
        self.device
    }

    /// The largest threadgroup the pipeline can dispatch.
    pub fn max_total_threads_per_threadgroup(&self) -> (r: usize)
        ensures
            r == self.max_threads,
    {
        self.max_threads
    }

    /// Whether the threadgroup size must match the tile size.
    pub fn threadgourp_size_matches_tile_size(&self) -> (r: bool)
        ensures
            r == self.tile_size_match,
    {
        self.tile_size_match
    }

    /// The imageblock sample length.
    pub fn imageblock_sample_length(&self) -> (r: usize)
        ensures
            r == self.imageblock_len,
    {
        self.imageblock_len
    }
}

} // verus!
