use wawawa::cli::{parse_size, read_size_args, ArgError};
use wawawa::frame::{frame_action, AcquireError, FrameAction, CAMERA_GROUP, TEXTURE_GROUP};
use wawawa::geometry::{quad_indices, Buffers, DrawIndexed, QUAD_VERTEX_COUNT};
use wawawa::layout::{attribute_array, layout_of, vertex_layout, VertexAttribute, VertexFormat, VertexShape};
use wawawa::surface::{choose_format, ConfigError, SurfaceCaps, SurfaceSettings, WindowSize};
use wawawa::Config;

fn caps(srgb: Vec<bool>) -> SurfaceCaps {
    SurfaceCaps { srgb_formats: srgb, present_mode_count: 2, alpha_mode_count: 1 }
}

fn settings(width: u32, height: u32) -> SurfaceSettings {
    SurfaceSettings::new(&caps(vec![false, true]), WindowSize { width, height }).unwrap()
}

fn quad_buffers() -> Buffers<()> {
    Buffers::new((), QUAD_VERTEX_COUNT as usize, (), &quad_indices()).unwrap()
}

#[test]
fn texture_layout_is_packed() {
    let l = vertex_layout(VertexShape::Texture);
    assert_eq!(l.array_stride, 20);
    assert_eq!(
        l.attributes,
        vec![
            VertexAttribute { shader_location: 0, format: VertexFormat::Float32x3, offset: 0 },
            VertexAttribute { shader_location: 1, format: VertexFormat::Float32x2, offset: 12 },
        ]
    );
}

#[test]
fn color_layout_is_packed() {
    let l = vertex_layout(VertexShape::Color);
    assert_eq!(l.array_stride, 24);
    assert_eq!(
        l.attributes,
        vec![
            VertexAttribute { shader_location: 0, format: VertexFormat::Float32x3, offset: 0 },
            VertexAttribute { shader_location: 1, format: VertexFormat::Float32x3, offset: 12 },
        ]
    );
}

#[test]
fn layout_of_three_fields() {
    let fields = vec![VertexFormat::Float32x2, VertexFormat::Float32x3, VertexFormat::Float32x2];
    let l = layout_of(&fields);
    assert_eq!(l.array_stride, 28);
    let offsets: Vec<u64> = l.attributes.iter().map(|a| a.offset).collect();
    assert_eq!(offsets, vec![0, 8, 20]);
    let locations: Vec<u32> = l.attributes.iter().map(|a| a.shader_location).collect();
    assert_eq!(locations, vec![0, 1, 2]);
}

#[test]
fn layout_of_no_fields() {
    let l = layout_of(&vec![]);
    assert_eq!(l.array_stride, 0);
    assert!(l.attributes.is_empty());
    assert!(attribute_array(&vec![]).is_empty());
}

#[test]
fn format_sizes() {
    assert_eq!(VertexFormat::Float32x2.size(), 8);
    assert_eq!(VertexFormat::Float32x3.size(), 12);
}

#[test]
fn quad_has_six_indices_two_triangles() {
    assert_eq!(quad_indices(), vec![0u16, 1, 2, 0, 2, 3]);
    let b = quad_buffers();
    assert_eq!(b.vertex_count, 4);
    assert_eq!(b.index_count, 6);
    assert_eq!(b.triangle_count(), 2);
}

#[test]
fn quad_draw_call_covers_all_indices_once() {
    let d = quad_buffers().draw_call();
    assert_eq!(
        d,
        DrawIndexed { first_index: 0, index_end: 6, base_vertex: 0, first_instance: 0, instance_end: 1 }
    );
}

#[test]
fn buffers_reject_out_of_range_index() {
    assert!(Buffers::new((), 3, (), &quad_indices()).is_none());
}

#[test]
fn buffers_reject_partial_triangle() {
    assert!(Buffers::new((), 4, (), &vec![0u16, 1, 2, 3]).is_none());
}

#[test]
fn buffers_accept_empty_indices() {
    let b = Buffers::new((), 0, (), &vec![]).unwrap();
    assert_eq!(b.index_count, 0);
    assert_eq!(b.triangle_count(), 0);
}

#[test]
fn format_prefers_first_srgb() {
    assert_eq!(choose_format(&vec![false, true, true]), Some(1));
}

#[test]
fn format_falls_back_to_first_without_srgb() {
    assert_eq!(choose_format(&vec![false, false, false]), Some(0));
    assert_eq!(choose_format(&vec![false]), Some(0));
}

#[test]
fn format_none_without_formats() {
    assert_eq!(choose_format(&vec![]), None);
}

#[test]
fn settings_take_window_size_and_first_modes() {
    let s = SurfaceSettings::new(&caps(vec![false, false, true]), WindowSize { width: 800, height: 600 }).unwrap();
    assert_eq!(
        s,
        SurfaceSettings { format: 2, present_mode: 0, alpha_mode: 0, width: 800, height: 600 }
    );
    assert_eq!(s.aspect(), (800, 600));
}

#[test]
fn settings_errors() {
    let size = WindowSize { width: 10, height: 10 };
    assert_eq!(SurfaceSettings::new(&caps(vec![]), size), Err(ConfigError::NoFormat));
    let c = SurfaceCaps { srgb_formats: vec![true], present_mode_count: 0, alpha_mode_count: 1 };
    assert_eq!(SurfaceSettings::new(&c, size), Err(ConfigError::NoPresentMode));
    let c = SurfaceCaps { srgb_formats: vec![true], present_mode_count: 1, alpha_mode_count: 0 };
    assert_eq!(SurfaceSettings::new(&c, size), Err(ConfigError::NoAlphaMode));
    assert_eq!(
        SurfaceSettings::new(&caps(vec![true]), WindowSize { width: 0, height: 10 }),
        Err(ConfigError::ZeroSize)
    );
}

#[test]
fn resize_updates_size_and_aspect() {
    let mut s = settings(1600, 1200);
    assert!(s.resize(WindowSize { width: 1024, height: 768 }));
    assert_eq!(s.size(), WindowSize { width: 1024, height: 768 });
    assert_eq!(s.aspect(), (1024, 768));
    assert_eq!(s.format, 1);
}

#[test]
fn resize_to_zero_is_deferred() {
    let mut s = settings(1600, 1200);
    assert!(!s.resize(WindowSize { width: 0, height: 500 }));
    assert!(!s.resize(WindowSize { width: 500, height: 0 }));
    assert_eq!(s.aspect(), (1600, 1200));
}

#[test]
fn frame_drawn_when_acquired() {
    let b = quad_buffers();
    let a = frame_action(None, &settings(640, 480), &b);
    assert_eq!(a, FrameAction::Draw(b.draw_call()));
    assert_eq!((TEXTURE_GROUP, CAMERA_GROUP), (0, 1));
}

#[test]
fn frame_outdated_or_lost_reconfigures_at_last_size() {
    let b = quad_buffers();
    let s = settings(640, 480);
    let size = WindowSize { width: 640, height: 480 };
    assert_eq!(frame_action(Some(AcquireError::Outdated), &s, &b), FrameAction::Reconfigure(size));
    assert_eq!(frame_action(Some(AcquireError::Lost), &s, &b), FrameAction::Reconfigure(size));
}

#[test]
fn frame_timeout_skips_and_device_loss_is_fatal() {
    let b = quad_buffers();
    let s = settings(640, 480);
    assert_eq!(frame_action(Some(AcquireError::Timeout), &s, &b), FrameAction::Skip);
    assert_eq!(frame_action(Some(AcquireError::DeviceLost), &s, &b), FrameAction::Fatal);
    assert_eq!(frame_action(Some(AcquireError::OutOfMemory), &s, &b), FrameAction::Fatal);
}

#[test]
fn parse_size_values() {
    assert_eq!(parse_size(b"800,600"), Some(WindowSize { width: 800, height: 600 }));
    assert_eq!(parse_size(b"+800,+600"), Some(WindowSize { width: 800, height: 600 }));
    assert_eq!(parse_size(b"800,600,7"), Some(WindowSize { width: 800, height: 600 }));
    assert_eq!(parse_size(b"4294967295,0"), Some(WindowSize { width: 4294967295, height: 0 }));
    assert_eq!(parse_size(b"800"), None);
    assert_eq!(parse_size(b""), None);
    assert_eq!(parse_size(b",600"), None);
    assert_eq!(parse_size(b"800,"), None);
    assert_eq!(parse_size(b"8a0,600"), None);
    assert_eq!(parse_size(b"-1,600"), None);
    assert_eq!(parse_size(b"+,600"), None);
    assert_eq!(parse_size(b"4294967296,1"), None);
    assert_eq!(parse_size(b"99999999999999999999,1"), None);
}

#[test]
fn args_select_size() {
    let d = WindowSize { width: 1, height: 2 };
    let none: Vec<Vec<u8>> = vec![];
    assert_eq!(read_size_args(&none, d), Ok(d));
    let ok = vec![b"--size".to_vec(), b"300,200".to_vec()];
    assert_eq!(read_size_args(&ok, d), Ok(WindowSize { width: 300, height: 200 }));
    assert_eq!(read_size_args(&vec![b"--size".to_vec()], d), Err(ArgError::MissingSize));
    assert_eq!(read_size_args(&vec![b"--help".to_vec()], d), Err(ArgError::InvalidOption));
    let bad = vec![b"--size".to_vec(), b"300x200".to_vec()];
    assert_eq!(read_size_args(&bad, d), Err(ArgError::InvalidSize));
}

#[test]
fn config_default_and_from_args() {
    let c = Config::default();
    assert_eq!(c.initial_window_size, WindowSize { width: 1600, height: 1200 });
    assert_eq!(Config::from_args(&vec![]), Ok(c));
    let c = Config::from_args(&vec![b"--size".to_vec(), b"640,480".to_vec()]).unwrap();
    assert_eq!(c.initial_window_size, WindowSize { width: 640, height: 480 });
    assert_eq!(Config::from_args(&vec![b"-s".to_vec()]), Err(ArgError::InvalidOption));
}
