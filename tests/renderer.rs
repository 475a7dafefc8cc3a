use fungui::buffer::UploadAction;
use fungui::error::{gl_error_to_string, RenderError};
use fungui::geometry::NinePatchGrid;
use fungui::image::{Image, PixelFormat};
use fungui::renderer::{initialize_renderer, GpuObjects, Renderer, DRAW_CALL_INDEX_TEXT, DRAW_CALL_INDEX_UI};
use fungui::shader::{
    shader_sources, vertex_attrib_layout, ComponentType, Profile, ShaderKind, ShaderProgram,
    LEGACY_QUAD_FRAGMENT_SOURCE, LEGACY_QUAD_VERTEX_SOURCE, QUAD_FRAGMENT_SOURCE, QUAD_VERTEX_SOURCE,
    TEXT_FRAGMENT_SOURCE,
};

fn objects(n: u32) -> GpuObjects {
    GpuObjects {
        texture: 100 + n,
        program: ShaderProgram::from_locations(200 + n, true, 0, 1, 2, 3),
        vbo: 300 + n,
        vao: 400 + n,
    }
}

fn image(w: u32, h: u32) -> Image {
    Image { width: w, height: h, pixels: vec![255; (w * h * 4) as usize] }
}

fn renderer(legacy: bool) -> Renderer<f32> {
    initialize_renderer(legacy, objects(0), objects(1), &image(2, 2)).unwrap()
}

#[test]
fn initialize_registers_the_built_in_draw_calls() {
    let r = renderer(false);
    assert_eq!(r.draw_call_count(), 2);
    assert_eq!(r.get_texture(DRAW_CALL_INDEX_UI), Ok(100));
    assert_eq!(r.get_texture(DRAW_CALL_INDEX_TEXT), Ok(101));
    assert!(!r.legacy_mode());
    assert_eq!(r.calls[0].attributes.vao, Some(400));
    let legacy = renderer(true);
    assert!(legacy.legacy_mode());
    assert_eq!(legacy.calls[1].attributes.vao, None);
}

#[test]
fn initialize_refuses_a_malformed_sprite_sheet() {
    let bad = Image { width: 2, height: 2, pixels: vec![0; 15] };
    assert!(matches!(
        initialize_renderer::<f32>(false, objects(0), objects(1), &bad),
        Err(RenderError::ImageDecodeError)
    ));
}

#[test]
fn draw_call_indices_follow_creation_order() {
    let mut r = renderer(false);
    assert_eq!(r.create_draw_call(objects(2), &image(1, 1)), Ok(2));
    assert_eq!(r.create_draw_call(objects(3), &image(3, 1)), Ok(3));
    assert_eq!(r.get_texture(3), Ok(103));
    assert_eq!(r.get_texture(4), Err(RenderError::InvalidDrawCallIndex));
    assert_eq!(r.get_texture(usize::MAX), Err(RenderError::InvalidDrawCallIndex));
}

#[test]
fn create_draw_call_refuses_bad_pixels_and_keeps_registry() {
    let mut r = renderer(false);
    let bad = Image { width: 4, height: 4, pixels: vec![0; 4 * 4] };
    assert_eq!(r.create_draw_call(objects(2), &bad), Err(RenderError::ImageDecodeError));
    assert_eq!(r.draw_call_count(), 2);
    assert_eq!(r.create_draw_call(objects(2), &image(4, 4)), Ok(2));
}

#[test]
fn draw_into_missing_draw_call_fails() {
    let mut r = renderer(false);
    assert_eq!(
        r.draw_quad((0.0, 0.0, 1.0, 1.0), (0.0, 0.0, 1.0, 1.0), (1, 1, 1, 1), 0.0, 2),
        Err(RenderError::InvalidDrawCallIndex)
    );
    assert_eq!(r.queue_len(0), Ok(0));
    assert_eq!(r.queue_len(2), Err(RenderError::InvalidDrawCallIndex));
}

#[test]
fn end_to_end_single_quad_frame() {
    let mut r = renderer(false);
    let index = r.create_draw_call(objects(2), &image(2, 2)).unwrap();
    assert_eq!(index, 2);
    r.draw_quad((0.0, 0.0, 10.0, 10.0), (0.0, 0.0, 1.0, 1.0), (255, 0, 0, 255), 0.0, index).unwrap();
    assert_eq!(r.queue_len(index), Ok(1));
    let submissions = r.render();
    assert_eq!(submissions.len(), 1);
    let s = &submissions[0];
    assert_eq!(s.index, 2);
    assert_eq!(s.vertex_count, 6);
    assert_eq!(s.texture, 102);
    assert_eq!(s.vbo, 302);
    assert_eq!(s.vao, Some(402));
    assert!(!s.bind_attribs_per_draw);
    assert_eq!(s.upload, UploadAction::Reallocate { bytes: 144 });
    assert_eq!(s.quads[0][2].0, (10.0, 10.0, 0.0));
    assert_eq!(r.queue_len(index), Ok(0));
}

#[test]
fn hundred_thousand_quads_make_one_upload_and_one_draw() {
    let mut r = renderer(false);
    let index = r.create_draw_call(objects(2), &image(1, 1)).unwrap();
    for i in 0..100_000u32 {
        r.draw_quad(((i % 1000) as f32, 0.0, 10.0, 10.0), (0.3, 0.3, 0.6, 0.6), (255, 255, 128, 255), 0.0, index)
            .unwrap();
    }
    let submissions = r.render();
    assert_eq!(submissions.len(), 1);
    assert_eq!(submissions[0].index, index);
    assert_eq!(submissions[0].vertex_count, 600_000);
    assert_eq!(submissions[0].quads.len(), 100_000);
    assert_eq!(submissions[0].upload, UploadAction::Reallocate { bytes: 14_400_000 });
}

#[test]
fn render_empties_every_queue_in_registry_order() {
    let mut r = renderer(true);
    r.create_draw_call(objects(2), &image(1, 1)).unwrap();
    r.draw_quad((0.0, 0.0, 1.0, 1.0), (0.0, 0.0, 1.0, 1.0), (1, 2, 3, 4), 0.0, 2).unwrap();
    r.draw_quad_corners((0.0, 0.0), (2.0, 0.0), (2.0, 2.0), (0.0, 2.0), (0.0, 0.0, 1.0, 1.0), (1, 2, 3, 4), 0.0, 0)
        .unwrap();
    let grid = NinePatchGrid {
        xs: [0.0, 1.0, 2.0, 3.0],
        ys: [0.0, 1.0, 2.0, 3.0],
        txs: [0.0, 0.3, 0.6, 1.0],
        tys: [0.0, 0.3, 0.6, 1.0],
    };
    r.draw_quad_ninepatch(&grid, (1, 1, 1, 1), 0.0, 2).unwrap();
    let submissions = r.render();
    let order: Vec<usize> = submissions.iter().map(|s| s.index).collect();
    assert_eq!(order, vec![0, 2]);
    assert_eq!(submissions[1].vertex_count, 60);
    assert!(submissions.iter().all(|s| s.bind_attribs_per_draw && s.vao.is_none()));
    for i in 0..r.draw_call_count() {
        assert_eq!(r.queue_len(i), Ok(0));
    }
    assert!(r.render().is_empty());
}

#[test]
fn steady_frames_update_in_place_after_the_first() {
    let mut r = renderer(false);
    for frame in 0..4 {
        for _ in 0..50 {
            r.draw_quad((0.0, 0.0, 1.0, 1.0), (0.0, 0.0, 1.0, 1.0), (1, 1, 1, 1), 0.0, 0).unwrap();
        }
        let s = r.render();
        let expected = if frame == 0 {
            UploadAction::Reallocate { bytes: 7200 }
        } else {
            UploadAction::UpdateInPlace { bytes: 7200 }
        };
        assert_eq!(s[0].upload, expected);
    }
    r.draw_quad((0.0, 0.0, 1.0, 1.0), (0.0, 0.0, 1.0, 1.0), (1, 1, 1, 1), 0.0, 0).unwrap();
    assert_eq!(r.render()[0].upload, UploadAction::UpdateInPlace { bytes: 144 });
    assert_eq!(r.calls[0].attributes.allocated_capacity, 7200);
}

#[test]
fn failed_program_gets_zeroed_locations() {
    let p = ShaderProgram::from_locations(7, false, 5, 6, 7, 8);
    assert_eq!((p.program, p.projection_matrix_location, p.position_attrib_location), (7, 0, 0));
    assert_eq!((p.texcoord_attrib_location, p.color_attrib_location), (0, 0));
    let q = ShaderProgram::from_locations(7, true, 5, -1, 7, 8);
    assert_eq!(q.projection_matrix_location, 5);
    assert_eq!(q.position_attrib_location, u32::MAX);
    assert_eq!(q.attrib_locations(), [u32::MAX, 7, 8]);
}

#[test]
fn layout_matches_the_vertex_fields() {
    let p = ShaderProgram::from_locations(1, true, 0, 4, 5, 6);
    let l = vertex_attrib_layout(&p);
    assert_eq!(l.map(|a| a.location), [4, 5, 6]);
    assert_eq!(l.map(|a| a.components), [3, 2, 4]);
    assert_eq!(l.map(|a| a.offset), [0, 12, 20]);
    assert_eq!(l.map(|a| a.stride), [24, 24, 24]);
    assert_eq!(l[2].component_type, ComponentType::UnsignedByte);
    assert!(l[2].normalized && !l[0].normalized);
}

#[test]
fn shader_sources_follow_the_profile() {
    assert_eq!(shader_sources(Profile::Modern, ShaderKind::Quad), (QUAD_VERTEX_SOURCE, QUAD_FRAGMENT_SOURCE));
    assert_eq!(
        shader_sources(Profile::Legacy, ShaderKind::Quad),
        (LEGACY_QUAD_VERTEX_SOURCE, LEGACY_QUAD_FRAGMENT_SOURCE)
    );
    assert_eq!(shader_sources(Profile::Modern, ShaderKind::Text).1, TEXT_FRAGMENT_SOURCE);
}

#[test]
fn gl_errors_are_named() {
    assert_eq!(gl_error_to_string(0x0500), "GL_INVALID_ENUM");
    assert_eq!(gl_error_to_string(0x0502), "GL_INVALID_OPERATION");
    assert_eq!(gl_error_to_string(0x0505), "GL_OUT_OF_MEMORY");
    assert_eq!(gl_error_to_string(0x0531), "GL_TABLE_TOO_LARGE");
    assert_eq!(gl_error_to_string(0x0508), "unknown error");
    assert_eq!(gl_error_to_string(0), "unknown error");
}

#[test]
fn images_are_checked_against_their_format() {
    let rgba = image(3, 2);
    assert!(rgba.fits(PixelFormat::Rgba));
    assert!(!rgba.fits(PixelFormat::Red));
    assert_eq!(rgba.check(PixelFormat::Red), Err(RenderError::ImageDecodeError));
    let blank = Image::blank(16, 8, PixelFormat::Red);
    assert_eq!(blank.pixels.len(), 128);
    assert!(blank.pixels.iter().all(|&p| p == 0));
    assert!(blank.fits(PixelFormat::Red));
}
