//! Descriptor catalog: render pipelines, depth-stencil, compute layers.

use cidre::mlc;
use cidre::mlc::activation_descriptor::ActivationDescriptor;
use cidre::mlc::matmul;
use cidre::mtl::depth_stencil::{CompareFn, DepthStencilDescriptor, StencilDescriptor, StencilOp};
use cidre::mtl::render_pipeline::{ColorWriteMask, Descriptor};
use cidre::mtl::{Function, PixelFormat};

#[test]
fn render_pipeline_basics() {
    let mut desc = Descriptor::new();

    assert!(desc.vertex_function().is_none());
    assert!(desc.fragment_function().is_none());

    desc.reset();
}

#[test]
fn activation_descriptor_basics() {
    let desc = ActivationDescriptor::with_type(mlc::ActivationType::ReLU).unwrap();
    assert_eq!(desc.a(), 0);
    assert_eq!(desc.b(), 1);
    assert_eq!(desc.c(), 1);
}

#[test]
fn matmul_descriptor_defaults() {
    let desc = matmul::Desc::new();
    assert!(!desc.transposes_x());
    assert!(!desc.transposes_y());

    let desc = matmul::Desc::with_transposes(true, false).unwrap();
    assert!(desc.transposes_x());
    assert!(!desc.transposes_y());

    let layer = matmul::Layer::with_desc(&desc).unwrap();
    assert!(layer.desc().transposes_x());
    let fresh = matmul::Layer::new();
    assert!(!fresh.desc().transposes_y());
}

#[test]
fn pipeline_descriptor_round_trip() {
    let mut desc = Descriptor::new();
    let vs = Function::with_id(100);
    let fs = Function::with_id(200);

    desc.set_vertex_fn(&vs);
    desc.set_fragment_fn(&fs);
    assert_eq!(desc.vertex_function(), Some(&vs));
    assert_eq!(desc.fragment_function(), Some(&fs));

    desc.set_raster_sample_count(4);
    assert_eq!(desc.raster_sample_count(), 4);

    let attachments = desc.color_attachments_mut();
    let mut slot = *attachments.get_at(0);
    slot.set_pixel_format(PixelFormat::Bgra8UNorm);
    slot.set_blening_enabled(true);
    attachments.set_at(0, &slot);
    assert_eq!(
        desc.color_attachments().get_at(0).pixel_format(),
        PixelFormat::Bgra8UNorm
    );
    assert!(desc.color_attachments().get_at(0).blening_enabled());

    desc.reset();
    assert!(desc.vertex_function().is_none());
    assert_eq!(desc.raster_sample_count(), 1);
    assert_eq!(
        desc.color_attachments().get_at(0).pixel_format(),
        PixelFormat::Invalid
    );
}

#[test]
fn color_write_mask_bits() {
    assert_eq!(ColorWriteMask::Disabled.bits(), 0);
    assert_eq!(ColorWriteMask::Red.bits(), 8);
    assert_eq!(ColorWriteMask::Green.bits(), 4);
    assert_eq!(ColorWriteMask::Blue.bits(), 2);
    assert_eq!(ColorWriteMask::Alpha.bits(), 1);
    assert_eq!(ColorWriteMask::All.bits(), 0xf);
}

#[test]
fn depth_stencil_defaults_and_resets() {
    let mut d = DepthStencilDescriptor::new();
    assert_eq!(d.compare_fn(), CompareFn::Always);
    assert!(!d.is_depth_write_enabled());

    let mut face = StencilDescriptor::new();
    assert_eq!(face.compare_fn(), CompareFn::Always);
    assert_eq!(face.failure_op(), StencilOp::Keep);
    assert_eq!(face.read_mask(), 0xffffffff);

    face.set_compare_fn(CompareFn::Less);
    face.set_failure_op(StencilOp::Zero);
    face.set_depth_failure_op(StencilOp::Invert);
    face.set_depth_stencil_op(StencilOp::Replace);
    face.set_read_mask(0xff);
    face.set_write_mask(0x0f);

    d.set_front_face_stencil(&face);
    assert_eq!(d.front_face_stenil().compare_fn(), CompareFn::Less);
    assert_eq!(d.front_face_stenil().write_mask(), 0x0f);

    d.reset_front_face_stencil();
    assert_eq!(d.front_face_stenil().compare_fn(), CompareFn::Always);

    d.set_back_face_stencil(&face);
    assert_eq!(d.back_face_stencil().depth_failure_op(), StencilOp::Invert);
    d.reset_back_face_stencil();
    assert_eq!(d.back_face_stencil().failure_op(), StencilOp::Keep);

    d.set_depth_write_enabled(true);
    assert!(d.is_depth_write_enabled());
    d.set_compare_fn(CompareFn::LessEqual);
    assert_eq!(d.compare_fn(), CompareFn::LessEqual);
}
