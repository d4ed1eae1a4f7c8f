//! Texture descriptors, textures and heaps.

use cidre::mtl;

#[test]
fn basics1() {
    let mut td =
        mtl::TextureDesc::new_2d_with_pixel_format(mtl::PixelFormat::A8UNorm, 100, 200, false);

    assert_eq!(td.texture_type(), mtl::TextureType::D2);
    assert_eq!(td.pixel_format(), mtl::PixelFormat::A8UNorm);
    assert_eq!(td.width(), 100);
    assert_eq!(td.height(), 200);
    assert_eq!(td.depth(), 1);
    assert_eq!(td.mipmap_level_count(), 1);
    assert_eq!(td.sample_count(), 1);
    assert_eq!(td.array_len(), 1);

    td.set_width(200);
    assert_eq!(td.width(), 200);

    td.set_height(300);
    assert_eq!(td.height(), 300);
}

#[test]
fn basics2() {
    let td = mtl::TextureDesc::new_cube_with_pixel_format(mtl::PixelFormat::A8UNorm, 100, false);

    assert_eq!(td.texture_type(), mtl::TextureType::Cube);
}

#[test]
fn basics3() {
    let device = mtl::Device::default().unwrap();

    let td =
        mtl::TextureDesc::new_2d_with_pixel_format(mtl::PixelFormat::A8UNorm, 100, 200, false);

    let t = device.new_texture(&td).unwrap();

    assert_eq!(t.width(), 100);
    assert_eq!(t.height(), 200);
    assert_eq!(t.depth(), 1);
}

#[test]
fn basics4() {
    let device = mtl::Device::default().unwrap();

    let td =
        mtl::TextureDesc::new_2d_with_pixel_format(mtl::PixelFormat::A8UNorm, 100, 200, false);

    let t = device.new_texture(&td).unwrap();

    assert!(t.parent_texture().is_none());
    assert!(t.io_surf().is_none());
    assert_eq!(t.texture_type(), mtl::texture::Type::D2);
    assert!(t.io_surf().is_none());
    assert_eq!(t.io_surf_plane(), 0);

    let tv = t
        .texture_view_with_pixel_format(mtl::PixelFormat::A8UNorm)
        .unwrap();

    assert!(tv.parent_texture().is_some());
    assert_eq!(tv.width(), 100);
    assert_eq!(tv.height(), 200);
}

#[test]
fn heap_basics() {
    let mut desc = mtl::heap::Descriptor::new();
    assert_eq!(0, desc.size());
    desc.set_size(1024);
    assert_eq!(1024, desc.size());

    let device = mtl::Device::default().unwrap();
    let heap = device.new_heap_with_descriptor(&desc).unwrap();
    assert!(heap.size() >= 1024);
}

#[test]
fn mipmap_chain_length() {
    // the full chain over 100 x 200 has floor(log2(200)) + 1 = 8 levels
    let td = mtl::TextureDesc::new_2d_with_pixel_format(mtl::PixelFormat::A8UNorm, 100, 200, true);
    assert_eq!(td.mipmap_level_count(), 8);
    let td1 = mtl::TextureDesc::new_2d_with_pixel_format(mtl::PixelFormat::A8UNorm, 1, 1, true);
    assert_eq!(td1.mipmap_level_count(), 1);
}

#[test]
fn zero_sized_texture_refused() {
    let device = mtl::Device::default().unwrap();
    let td = mtl::TextureDesc::new_2d_with_pixel_format(mtl::PixelFormat::A8UNorm, 0, 200, false);
    assert!(device.new_texture(&td).is_none());
}

#[test]
fn heap_buffer_fits_or_fails() {
    let device = mtl::Device::default().unwrap();
    let mut desc = mtl::heap::Descriptor::new();
    desc.set_size(4096);
    let heap = device.new_heap_with_descriptor(&desc).unwrap();
    let buf = heap
        .buffer_with_length_and_options(4096, mtl::ResourceOptions::standard())
        .unwrap();
    assert_eq!(buf.length(), 4096);
    assert!(heap.buffer_with_length_and_options(4097, mtl::ResourceOptions::standard()).is_none());
}

#[test]
fn swizzle_default_is_identity() {
    let sw = mtl::SwizzleChannels::default();
    assert_eq!(sw.red, mtl::Swizzle::Red);
    assert_eq!(sw.green, mtl::Swizzle::Green);
    assert_eq!(sw.blue, mtl::Swizzle::Blue);
    assert_eq!(sw.alpha, mtl::Swizzle::Alpha);
}

#[test]
fn usage_to_number() {
    let u = mtl::Usage::render_target();
    assert_eq!(u.to_cf_number().as_i64(), 4);
}

#[test]
fn encoder_debug_groups() {
    let mut enc = mtl::command_encoder::CommandEncoder::new();
    enc.push_debug_group("blit");
    enc.push_debug_group("upload");
    enc.insert_debug_signpost("halfway");
    enc.pop_debug_group();
    enc.pop_debug_group();
    assert!(enc.debug_groups.is_empty());
    assert_eq!(enc.signposts, vec!["halfway".to_owned()]);
    enc.end_encoding();
    assert!(enc.ended);
}
