use triangle_pair::events::Action;
use triangle_pair::events::Key;
use triangle_pair::events::KeyState;
use triangle_pair::events::LoopEvent;
use triangle_pair::events::WindowEvent;
use triangle_pair::events::dispatch;
use triangle_pair::layout::VertexFormat;
use triangle_pair::layout::vertex_count;
use triangle_pair::layout::vertex_layout;
use triangle_pair::shape::NamedVertex;
use triangle_pair::shape::build_shape;
use triangle_pair::shape::lookup_vertex;
use triangle_pair::shape::pentagon_table;
use triangle_pair::shape::shape_names;
use triangle_pair::shape::triangle_pair_shape;
use triangle_pair::surface::choose_format_index;
use triangle_pair::surface::surface_plan;
use triangle_pair::vertex::Float3;
use triangle_pair::vertex::Vertex;
use triangle_pair::vertex::VERTEX_STRIDE;
use triangle_pair::vertex::encode_vertices;

fn own_window_event(event: WindowEvent) -> LoopEvent {
    LoopEvent::Window { own_window: true, event }
}

#[test]
fn close_requested_exits() {
    assert_eq!(dispatch(&own_window_event(WindowEvent::CloseRequested)), Action::Exit);
}

#[test]
fn escape_pressed_exits() {
    let e = own_window_event(WindowEvent::KeyboardInput {
        state: KeyState::Pressed,
        key: Some(Key::Escape),
    });
    assert_eq!(dispatch(&e), Action::Exit);
}

#[test]
fn escape_released_is_ignored() {
    let e = own_window_event(WindowEvent::KeyboardInput {
        state: KeyState::Released,
        key: Some(Key::Escape),
    });
    assert_eq!(dispatch(&e), Action::Ignore);
}

#[test]
fn other_key_is_ignored() {
    let e = own_window_event(WindowEvent::KeyboardInput {
        state: KeyState::Pressed,
        key: Some(Key::Other),
    });
    assert_eq!(dispatch(&e), Action::Ignore);
    let unnamed = own_window_event(WindowEvent::KeyboardInput {
        state: KeyState::Pressed,
        key: None,
    });
    assert_eq!(dispatch(&unnamed), Action::Ignore);
}

#[test]
fn close_of_other_window_is_ignored() {
    let e = LoopEvent::Window { own_window: false, event: WindowEvent::CloseRequested };
    assert_eq!(dispatch(&e), Action::Ignore);
}

#[test]
fn resize_and_scale_change_are_ignored() {
    let resized = own_window_event(WindowEvent::Resized { width: 640, height: 480 });
    assert_eq!(dispatch(&resized), Action::Ignore);
    let scaled = own_window_event(WindowEvent::ScaleFactorChanged { width: 1280, height: 960 });
    assert_eq!(dispatch(&scaled), Action::Ignore);
}

#[test]
fn redraw_request_renders_own_window_only() {
    assert_eq!(dispatch(&LoopEvent::RedrawRequested { own_window: true }), Action::Render);
    assert_eq!(dispatch(&LoopEvent::RedrawRequested { own_window: false }), Action::Ignore);
}

#[test]
fn idle_loop_schedules_redraw() {
    assert_eq!(dispatch(&LoopEvent::MainEventsCleared), Action::RequestRedraw);
    assert_eq!(dispatch(&LoopEvent::Other), Action::Ignore);
}

#[test]
fn shape_holds_the_six_corners_in_draw_order() {
    let shape = triangle_pair_shape();
    assert_eq!(shape.len(), 6);
    let expected: [([f32; 3], [f32; 3]); 6] = [
        ([-0.0868241, 0.49240386, 0.0], [0.5, 0.0, 0.5]),
        ([-0.49513406, 0.06958647, 0.0], [0.5, 0.0, 0.5]),
        ([0.44147372, 0.2347359, 0.0], [0.5, 0.0, 0.5]),
        ([-0.49513406, 0.06958647, 0.0], [0.5, 0.0, 0.5]),
        ([-0.21918549, -0.44939706, 0.0], [0.5, 0.0, 0.5]),
        ([0.44147372, 0.2347359, 0.0], [0.5, 0.0, 0.5]),
    ];
    for (v, (pos, col)) in shape.iter().zip(expected.iter()) {
        assert_eq!(f32::from_bits(v.position.x), pos[0]);
        assert_eq!(f32::from_bits(v.position.y), pos[1]);
        assert_eq!(f32::from_bits(v.position.z), pos[2]);
        assert_eq!(f32::from_bits(v.color.x), col[0]);
        assert_eq!(f32::from_bits(v.color.y), col[1]);
        assert_eq!(f32::from_bits(v.color.z), col[2]);
    }
    assert_eq!(shape[1], shape[3]);
    assert_eq!(shape[2], shape[5]);
}

#[test]
fn encoding_matches_the_packed_float_bytes() {
    let shape = triangle_pair_shape();
    let bytes = encode_vertices(&shape);
    assert_eq!(bytes.len(), VERTEX_STRIDE * shape.len());
    let mut expected: Vec<u8> = Vec::new();
    for v in shape.iter() {
        for bits in [v.position.x, v.position.y, v.position.z, v.color.x, v.color.y, v.color.z] {
            expected.extend_from_slice(&f32::from_bits(bits).to_le_bytes());
        }
    }
    assert_eq!(bytes, expected);
}

#[test]
fn encoding_one_vertex_is_little_endian() {
    let v = Vertex {
        position: Float3 { x: 0x01020304, y: 0, z: 0xffffffff },
        color: Float3 { x: 0x80000000, y: 0x7f, z: 0 },
    };
    let bytes = encode_vertices(&vec![v]);
    assert_eq!(
        bytes,
        vec![
            0x04, 0x03, 0x02, 0x01, 0, 0, 0, 0, 0xff, 0xff, 0xff, 0xff, 0, 0, 0, 0x80, 0x7f, 0, 0,
            0, 0, 0, 0, 0,
        ]
    );
}

#[test]
fn lookup_finds_each_corner_and_nothing_else() {
    let table = pentagon_table();
    assert_eq!(table.len(), 5);
    for name in [b'A', b'B', b'C', b'D', b'E'] {
        let found = lookup_vertex(&table, name);
        assert!(found.is_some());
    }
    assert_eq!(lookup_vertex(&table, b'Z'), None);
    let d = lookup_vertex(&table, b'D').unwrap();
    assert_eq!(f32::from_bits(d.position.x), 0.35966998);
    assert_eq!(f32::from_bits(d.position.y), -0.3473291);
}

#[test]
fn lookup_takes_the_first_entry_of_a_name() {
    let early = Vertex {
        position: Float3 { x: 1, y: 2, z: 3 },
        color: Float3 { x: 4, y: 5, z: 6 },
    };
    let late = Vertex {
        position: Float3 { x: 7, y: 8, z: 9 },
        color: Float3 { x: 10, y: 11, z: 12 },
    };
    let table = vec![
        NamedVertex { name: b'Q', vertex: early },
        NamedVertex { name: b'Q', vertex: late },
    ];
    assert_eq!(lookup_vertex(&table, b'Q'), Some(early));
}

#[test]
fn build_shape_fails_on_a_missing_name() {
    let table = pentagon_table();
    let names = vec![b'A', b'B', b'X'];
    assert!(build_shape(&table, &names).is_none());
    let good = shape_names();
    let resolved = build_shape(&table, &good).unwrap();
    assert_eq!(resolved, triangle_pair_shape());
}

#[test]
fn build_shape_of_no_names_is_empty() {
    let table = pentagon_table();
    let resolved = build_shape(&table, &Vec::new()).unwrap();
    assert!(resolved.is_empty());
}

#[test]
fn layout_packs_position_then_color() {
    let l = vertex_layout();
    assert_eq!(l.array_stride, 24);
    assert_eq!(l.attributes.len(), 2);
    assert_eq!(l.attributes[0].offset, 0);
    assert_eq!(l.attributes[0].shader_location, 0);
    assert_eq!(l.attributes[0].format, VertexFormat::Float32x3);
    assert_eq!(l.attributes[1].offset, 12);
    assert_eq!(l.attributes[1].shader_location, 1);
    assert_eq!(l.attributes[1].format, VertexFormat::Float32x3);
}

#[test]
fn vertex_count_accepts_whole_vertices_only() {
    assert_eq!(vertex_count(0), Some(0));
    assert_eq!(vertex_count(24), Some(1));
    assert_eq!(vertex_count(144), Some(6));
    assert_eq!(vertex_count(1), None);
    assert_eq!(vertex_count(143), None);
}

#[test]
fn buffer_length_matches_the_draw_calls_vertex_count() {
    let bytes = encode_vertices(&triangle_pair_shape());
    assert_eq!(vertex_count(bytes.len()), Some(6));
}

#[test]
fn first_srgb_format_wins() {
    assert_eq!(choose_format_index(&vec![false, true, true]), Some(1));
    assert_eq!(choose_format_index(&vec![true, false]), Some(0));
}

#[test]
fn first_format_is_the_fallback() {
    assert_eq!(choose_format_index(&vec![false, false, false]), Some(0));
    assert_eq!(choose_format_index(&Vec::new()), None);
}

#[test]
fn surface_plan_takes_first_modes_and_window_size() {
    let p = surface_plan(&vec![false, true], 3, 2, 800, 600);
    assert_eq!(p.format_index, 1);
    assert_eq!(p.present_mode_index, 0);
    assert_eq!(p.alpha_mode_index, 0);
    assert_eq!(p.width, 800);
    assert_eq!(p.height, 600);
}
