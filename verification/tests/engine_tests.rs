use scene_mirror::engine::Engine;
use scene_mirror::frame::DisplayPrimitive;
use scene_mirror::json::{take_string, Json};
use scene_mirror::resources::ResourceUpdate;
use scene_mirror::scene::{
    BorderStyle, RemoteDisplayItem, RemoteImageResource, RemoteResource, SceneError,
};

fn obj(fields: Vec<(&str, Json)>) -> Json {
    Json::Object(fields.into_iter().map(|(k, v)| (k.to_string(), v)).collect())
}

fn uint(n: u64) -> Json {
    Json::UInt(n)
}

fn bounds(left: u64, top: u64, width: u64, height: u64) -> Json {
    obj(vec![
        ("position", obj(vec![("left", uint(left)), ("top", uint(top))])),
        ("size", obj(vec![("width", uint(width)), ("height", uint(height))])),
    ])
}

fn color(r: u64, g: u64, b: u64, a: u64) -> Json {
    obj(vec![
        ("red", uint(r)),
        ("green", uint(g)),
        ("blue", uint(b)),
        ("alpha", uint(a)),
    ])
}

fn add_rect(left: u64, top: u64, width: u64, height: u64) -> Json {
    obj(vec![(
        "AddRect",
        obj(vec![
            ("bounds", bounds(left, top, width, height)),
            ("display", obj(vec![("color", color(1, 2, 3, 255))])),
        ]),
    )])
}

fn add_border() -> Json {
    let colors = Json::Array(vec![
        color(1, 0, 0, 255),
        color(0, 1, 0, 255),
        color(0, 0, 1, 255),
        color(9, 9, 9, 255),
    ]);
    obj(vec![(
        "AddBorder",
        obj(vec![
            ("bounds", bounds(0, 0, 10, 10)),
            ("display", obj(vec![("colors", colors)])),
        ]),
    )])
}

fn add_text(text_fragments: Vec<Json>, font_key: u64, font_instance_key: u64) -> Json {
    let shaped = Json::Array(vec![obj(vec![
        ("font_key", uint(font_key)),
        ("font_instance_key", uint(font_instance_key)),
    ])]);
    obj(vec![(
        "AddText",
        obj(vec![
            ("bounds", bounds(5, 6, 100, 20)),
            (
                "display",
                obj(vec![
                    ("color", color(0, 0, 0, 255)),
                    ("source_text", Json::Array(text_fragments)),
                    ("shaped_text", shaped),
                ]),
            ),
        ]),
    )])
}

fn owned_fragment(s: &str) -> Json {
    obj(vec![("Owned", Json::Str(s.to_string()))])
}

fn static_fragment(s: &str) -> Json {
    obj(vec![("Static", Json::Str(s.to_string()))])
}

fn update_self(index: u64, changes: Vec<Json>) -> Json {
    obj(vec![(
        "UpdateSelf",
        Json::Array(vec![uint(index), Json::Array(changes)]),
    )])
}

fn bounds_change(key: &str, v: u64) -> Json {
    obj(vec![("Bounds", obj(vec![(key, uint(v))]))])
}

fn text_change(s: &str) -> Json {
    obj(vec![("Text", obj(vec![("content", Json::Str(s.to_string()))]))])
}

fn add_font(key: u64, data_uri: &str) -> Json {
    obj(vec![(
        "AddFont",
        obj(vec![("key", uint(key)), ("data_uri", Json::Str(data_uri.to_string()))]),
    )])
}

fn add_font_instance(key: u64, instance_key: u64, size: u64) -> Json {
    obj(vec![(
        "AddFontInstance",
        obj(vec![
            ("key", uint(key)),
            ("instance_key", uint(instance_key)),
            ("size", uint(size)),
        ]),
    )])
}

#[test]
fn scene_length_counts_adds_across_batches() {
    let mut e = Engine::new();
    assert!(e
        .receive_render(&Json::Array(vec![add_rect(0, 0, 1, 1), add_border()]))
        .is_ok());
    assert!(e
        .receive_render(&Json::Array(vec![
            add_rect(2, 2, 2, 2),
            add_text(vec![owned_fragment("x")], 1, 2),
            add_rect(3, 3, 3, 3),
        ]))
        .is_ok());
    assert_eq!(e.items.len(), 5);
}

#[test]
fn clear_then_frame_is_empty_and_dirty() {
    let mut e = Engine::new();
    assert!(e.receive_render(&Json::Array(vec![add_rect(0, 0, 1, 1)])).is_ok());
    e.receive_clear();
    assert!(e.should_redraw());
    assert!(!e.should_redraw());
    let out = e.generate_display_list();
    assert_eq!(out.primitives.len(), 0);
    assert_eq!(out.failures.len(), 0);
}

#[test]
fn bounds_update_changes_only_the_addressed_scalar() {
    let mut e = Engine::new();
    assert!(e
        .receive_render(&Json::Array(vec![add_rect(1, 2, 3, 4), add_rect(5, 6, 7, 8)]))
        .is_ok());
    assert!(e
        .receive_render(&Json::Array(vec![update_self(0, vec![bounds_change("x", 10)])]))
        .is_ok());
    match &e.items[0] {
        RemoteDisplayItem::Rect(ri) => {
            assert_eq!(ri.rect.position.left, 10);
            assert_eq!(ri.rect.position.top, 2);
            assert_eq!(ri.rect.size.width, 3);
            assert_eq!(ri.rect.size.height, 4);
            assert_eq!(ri.color.red, 1);
        }
        _ => panic!("expected a rect item"),
    }
    match &e.items[1] {
        RemoteDisplayItem::Rect(ri) => {
            assert_eq!(ri.rect.position.left, 5);
            assert_eq!(ri.rect.position.top, 6);
        }
        _ => panic!("expected a rect item"),
    }
}

#[test]
fn font_then_instance_then_text_resolves() {
    let mut e = Engine::new();
    assert!(e
        .receive_resources(&Json::Array(vec![add_font(7, "data:font/opentype;base64,AAAA")]))
        .is_ok());
    assert!(e
        .receive_resources(&Json::Array(vec![add_font_instance(7, 42, 16)]))
        .is_ok());
    assert!(e
        .receive_render(&Json::Array(vec![add_text(vec![owned_fragment("hi")], 7, 42)]))
        .is_ok());
    assert_eq!(e.pending_font_count(), 1);
    let (updates, failures) = e.take_resource_updates(&vec!["Family Seven".to_string()]);
    assert!(failures.is_empty());
    assert_eq!(updates.len(), 2);
    match &updates[0] {
        ResourceUpdate::RegisterFont { key, data_uri } => {
            assert_eq!(*key, 7);
            assert_eq!(data_uri, "data:font/opentype;base64,AAAA");
        }
        _ => panic!("expected a font registration first"),
    }
    match &updates[1] {
        ResourceUpdate::RegisterSizedFont { family, size } => {
            assert_eq!(family, "Family Seven");
            assert_eq!(*size, 16);
        }
        _ => panic!("expected a sized-font registration second"),
    }
    let out = e.generate_display_list();
    assert_eq!(out.failures.len(), 0);
    assert_eq!(out.primitives.len(), 1);
    match &out.primitives[0] {
        DisplayPrimitive::Text { family, size, text, .. } => {
            assert_eq!(family, "Family Seven");
            assert_eq!(*size, 16);
            assert_eq!(text, "hi");
        }
        _ => panic!("expected a text primitive"),
    }
}

#[test]
fn instance_before_font_yields_missing_font() {
    let mut e = Engine::new();
    assert!(e
        .receive_resources(&Json::Array(vec![add_font_instance(7, 42, 16)]))
        .is_ok());
    assert!(e
        .receive_resources(&Json::Array(vec![add_font(7, "data:font/opentype;base64,AAAA")]))
        .is_ok());
    assert!(e
        .receive_render(&Json::Array(vec![add_text(vec![owned_fragment("hi")], 7, 42)]))
        .is_ok());
    assert_eq!(e.pending_font_count(), 1);
    let (updates, failures) = e.take_resource_updates(&vec!["Family Seven".to_string()]);
    assert_eq!(failures, vec![SceneError::MissingFont]);
    assert_eq!(updates.len(), 1);
    let out = e.generate_display_list();
    assert_eq!(out.primitives.len(), 0);
    assert_eq!(out.failures.len(), 1);
    assert_eq!(out.failures[0].index, 0);
    assert_eq!(out.failures[0].error, SceneError::MissingFont);
}

#[test]
fn position_override_is_single_slot() {
    let mut e = Engine::new();
    assert!(e
        .receive_position(&Json::Array(vec![uint(10), Json::Int(-5)]))
        .is_ok());
    assert_eq!(e.should_set_window_position(), Some((10, -5)));
    assert_eq!(e.should_set_window_position(), None);
}

#[test]
fn size_override_is_single_slot_and_replaced_by_rewrite() {
    let mut e = Engine::new();
    assert!(e.receive_size(&Json::Array(vec![uint(800), uint(600)])).is_ok());
    assert!(e.receive_size(&Json::Array(vec![uint(1024), uint(768)])).is_ok());
    assert_eq!(e.should_set_window_size(), Some((1024, 768)));
    assert_eq!(e.should_set_window_size(), None);
}

#[test]
fn update_self_on_empty_scene_is_silent_noop() {
    let mut e = Engine::new();
    let r = e.receive_render(&Json::Array(vec![
        update_self(3, vec![bounds_change("x", 10)]),
        add_rect(0, 0, 1, 1),
    ]));
    assert!(r.is_ok());
    assert_eq!(e.items.len(), 0);
    assert!(!e.should_redraw());
}

#[test]
fn replaying_add_rect_appends_two_equal_items() {
    let mut e = Engine::new();
    assert!(e
        .receive_render(&Json::Array(vec![add_rect(1, 1, 1, 1), add_rect(1, 1, 1, 1)]))
        .is_ok());
    assert_eq!(e.items.len(), 2);
    assert_eq!(e.items[0], e.items[1]);
}

#[test]
fn replaying_update_self_is_noop_on_scene_content() {
    let mut e = Engine::new();
    assert!(e.receive_render(&Json::Array(vec![add_rect(1, 2, 3, 4)])).is_ok());
    let update = Json::Array(vec![update_self(
        0,
        vec![bounds_change("x", 10), bounds_change("height", 9)],
    )]);
    assert!(e.receive_render(&update).is_ok());
    let after_first = e.items.clone();
    assert!(e.receive_render(&update).is_ok());
    assert_eq!(e.items, after_first);
}

#[test]
fn source_text_fragments_concatenate_in_order() {
    let mut e = Engine::new();
    assert!(e
        .receive_render(&Json::Array(vec![add_text(
            vec![owned_fragment("Hello "), static_fragment("World")],
            1,
            2,
        )]))
        .is_ok());
    match &e.items[0] {
        RemoteDisplayItem::Text(ti) => {
            assert_eq!(ti.text, "Hello World");
            assert_eq!(ti.font_key, 1);
            assert_eq!(ti.font_instance_key, 2);
        }
        _ => panic!("expected a text item"),
    }
}

#[test]
fn border_gets_placeholder_styles_and_widths() {
    let mut e = Engine::new();
    assert!(e.receive_render(&Json::Array(vec![add_border()])).is_ok());
    match &e.items[0] {
        RemoteDisplayItem::Border(bi) => {
            assert_eq!(bi.styles.top, BorderStyle::Solid);
            assert_eq!(bi.styles.left, BorderStyle::Solid);
            assert_eq!(bi.widths.top, 1);
            assert_eq!(bi.widths.bottom, 1);
            assert_eq!(bi.colors.right.green, 1);
        }
        _ => panic!("expected a border item"),
    }
}

#[test]
fn empty_render_batch_still_marks_dirty() {
    let mut e = Engine::new();
    assert!(!e.should_redraw());
    assert!(e.receive_render(&Json::Array(vec![])).is_ok());
    assert!(e.should_redraw());
}

#[test]
fn malformed_position_is_rejected_without_mutation() {
    let mut e = Engine::new();
    assert_eq!(e.receive_position(&Json::Null), Err(SceneError::MalformedMessage));
    assert_eq!(
        e.receive_position(&Json::Array(vec![uint(1)])),
        Err(SceneError::MalformedMessage)
    );
    assert_eq!(e.should_set_window_position(), None);
}

#[test]
fn out_of_range_scalar_is_malformed() {
    let mut e = Engine::new();
    assert_eq!(
        e.receive_size(&Json::Array(vec![uint(u64::MAX), uint(1)])),
        Err(SceneError::MalformedMessage)
    );
    assert_eq!(e.should_set_window_size(), None);
}

#[test]
fn unknown_resource_entry_aborts_batch() {
    let mut e = Engine::new();
    let r = e.receive_resources(&Json::Array(vec![
        add_font(1, "data:x"),
        obj(vec![("Nonsense", Json::Null)]),
        add_font(2, "data:y"),
    ]));
    assert_eq!(r, Err(SceneError::UnknownDiffKind));
    assert_eq!(e.resources.len(), 1);
}

#[test]
fn unknown_render_entry_aborts_batch() {
    let mut e = Engine::new();
    let r = e.receive_render(&Json::Array(vec![
        add_rect(0, 0, 1, 1),
        obj(vec![("Nonsense", Json::Null)]),
        add_rect(0, 0, 2, 2),
    ]));
    assert_eq!(r, Err(SceneError::UnknownDiffKind));
    assert_eq!(e.items.len(), 1);
    assert!(!e.should_redraw());
}

#[test]
fn text_change_on_rect_item_is_wrong_kind() {
    let mut e = Engine::new();
    assert!(e.receive_render(&Json::Array(vec![add_rect(0, 0, 1, 1)])).is_ok());
    let r = e.receive_render(&Json::Array(vec![update_self(0, vec![text_change("hi")])]));
    assert_eq!(r, Err(SceneError::WrongItemKind));
}

#[test]
fn update_beyond_nonempty_scene_is_out_of_range() {
    let mut e = Engine::new();
    assert!(e.receive_render(&Json::Array(vec![add_rect(0, 0, 1, 1)])).is_ok());
    let r = e.receive_render(&Json::Array(vec![update_self(5, vec![bounds_change("x", 1)])]));
    assert_eq!(r, Err(SceneError::IndexOutOfRange));
}

#[test]
fn unknown_change_kind_is_tolerated() {
    let mut e = Engine::new();
    assert!(e.receive_render(&Json::Array(vec![add_rect(1, 2, 3, 4)])).is_ok());
    let r = e.receive_render(&Json::Array(vec![update_self(
        0,
        vec![obj(vec![("FutureChange", Json::Null)])],
    )]));
    assert!(r.is_ok());
    match &e.items[0] {
        RemoteDisplayItem::Rect(ri) => assert_eq!(ri.rect.position.left, 1),
        _ => panic!("expected a rect item"),
    }
}

#[test]
fn image_resource_reports_unsupported() {
    let mut e = Engine::new();
    e.resources.push(RemoteResource::Image(RemoteImageResource {}));
    assert_eq!(e.pending_font_count(), 0);
    let (updates, failures) = e.take_resource_updates(&Vec::<String>::new());
    assert!(updates.is_empty());
    assert_eq!(failures, vec![SceneError::UnsupportedResource]);
    assert!(e.resources.is_empty());
}

#[test]
fn text_content_update_replaces_text() {
    let mut e = Engine::new();
    assert!(e
        .receive_render(&Json::Array(vec![add_text(vec![owned_fragment("old")], 1, 2)]))
        .is_ok());
    assert!(e
        .receive_render(&Json::Array(vec![update_self(0, vec![text_change("new")])]))
        .is_ok());
    match &e.items[0] {
        RemoteDisplayItem::Text(ti) => assert_eq!(ti.text, "new"),
        _ => panic!("expected a text item"),
    }
}

#[test]
fn message_routes_all_fields_in_priority_order() {
    let mut e = Engine::new();
    assert!(e.receive_render(&Json::Array(vec![add_rect(0, 0, 1, 1)])).is_ok());
    let msg = obj(vec![
        ("clear", Json::Bool(true)),
        ("position", Json::Array(vec![uint(1), uint(2)])),
        ("size", Json::Array(vec![uint(300), uint(400)])),
        ("resources", Json::Array(vec![add_font(9, "data:z")])),
        ("render", Json::Array(vec![add_rect(5, 5, 5, 5)])),
    ]);
    assert!(e.receive_message(&msg).is_ok());
    assert_eq!(e.items.len(), 1);
    match &e.items[0] {
        RemoteDisplayItem::Rect(ri) => assert_eq!(ri.rect.position.left, 5),
        _ => panic!("expected a rect item"),
    }
    assert_eq!(e.resources.len(), 1);
    assert_eq!(e.should_set_window_position(), Some((1, 2)));
    assert_eq!(e.should_set_window_size(), Some((300, 400)));
    assert!(e.should_redraw());
}

#[test]
fn message_without_fields_changes_nothing() {
    let mut e = Engine::new();
    assert!(e.receive_message(&obj(vec![("other", Json::Null)])).is_ok());
    assert_eq!(e.items.len(), 0);
    assert_eq!(e.resources.len(), 0);
    assert!(!e.should_redraw());
}

#[test]
fn item_accessors_match_their_kind() {
    let mut e = Engine::new();
    assert!(e
        .receive_render(&Json::Array(vec![
            add_rect(1, 2, 3, 4),
            add_border(),
            add_text(vec![owned_fragment("t")], 1, 2),
        ]))
        .is_ok());
    assert!(e.items[0].as_rect().is_some());
    assert!(e.items[0].as_border().is_none());
    assert!(e.items[0].as_text().is_none());
    assert!(e.items[0].as_image().is_none());
    assert!(e.items[1].as_border().is_some());
    assert!(e.items[1].as_rect().is_none());
    assert!(e.items[2].as_text().is_some());
    assert_eq!(e.items[2].as_text().unwrap().text, "t");
}

#[test]
fn mixed_batch_grows_scene_by_its_add_entries_only() {
    let mut e = Engine::new();
    assert!(e.receive_render(&Json::Array(vec![add_rect(0, 0, 1, 1)])).is_ok());
    assert!(e
        .receive_render(&Json::Array(vec![
            add_rect(1, 1, 1, 1),
            update_self(0, vec![bounds_change("width", 50)]),
            add_text(vec![owned_fragment("t")], 1, 2),
        ]))
        .is_ok());
    assert_eq!(e.items.len(), 3);
    match &e.items[0] {
        RemoteDisplayItem::Rect(ri) => assert_eq!(ri.rect.size.width, 50),
        _ => panic!("expected a rect item"),
    }
}

#[test]
fn failing_field_aborts_the_rest_of_the_message() {
    let mut e = Engine::new();
    assert!(e.receive_render(&Json::Array(vec![add_rect(0, 0, 1, 1)])).is_ok());
    let msg = obj(vec![
        ("clear", Json::Bool(true)),
        ("position", Json::Null),
        ("render", Json::Array(vec![add_rect(5, 5, 5, 5)])),
    ]);
    assert_eq!(e.receive_message(&msg), Err(SceneError::MalformedMessage));
    assert_eq!(e.items.len(), 0);
    assert_eq!(e.should_set_window_position(), None);
}

#[test]
fn take_string_accepts_only_strings() {
    assert_eq!(take_string(Json::Str("abc".to_string())), Some("abc".to_string()));
    assert_eq!(take_string(Json::UInt(3)), None);
    assert_eq!(take_string(Json::Null), None);
}

#[test]
fn rect_and_border_render_without_fonts() {
    let mut e = Engine::new();
    assert!(e
        .receive_render(&Json::Array(vec![add_rect(1, 2, 3, 4), add_border()]))
        .is_ok());
    let out = e.generate_display_list();
    assert_eq!(out.failures.len(), 0);
    assert_eq!(out.primitives.len(), 2);
    match &out.primitives[0] {
        DisplayPrimitive::Rect { rect, color } => {
            assert_eq!(rect.position.left, 1);
            assert_eq!(color.alpha, 255);
        }
        _ => panic!("expected a rect primitive"),
    }
    match &out.primitives[1] {
        DisplayPrimitive::Border { widths, .. } => assert_eq!(widths.left, 1),
        _ => panic!("expected a border primitive"),
    }
}
