use render_core::lambda::{body_from, response_body, Body, LambdaLayer};
use render_core::pipeline::{
    camera_bind_group_layout, fragment_entry_point, required_limits, vertex_entry_point,
    BufferRole, BufferUsages, Face, FrontFace, Limits, MultisampleState, PolygonMode,
    PrimitiveState, PrimitiveTopology, RenderPipelineDescriptor, UniformBinding,
};
use render_core::geometry::Vertex;
use render_core::server::{error_reply, fallback, index_reply, Fallback, Opt, Reply};

#[test]
fn default_options() {
    let opt = Opt::default();
    assert_eq!(opt.log_level, "debug");
    assert_eq!(opt.addr, "::1");
    assert_eq!(opt.port, 8080);
    assert_eq!(opt.static_dir, "./dist");
    assert_eq!(opt.log_filter(), "debug,hyper=info,mio=info");
}

#[test]
fn default_layer_leaves_the_address() {
    let layer = LambdaLayer::default();
    assert!(!layer.trim_stage());
    assert_eq!(layer.request_url(Some("http"), Some("example.org"), "/a", Some("x=1")), None);
}

#[test]
fn trimmed_address_is_built_from_its_parts() {
    let layer = LambdaLayer::new(true);
    assert_eq!(
        layer.request_url(Some("http"), Some("example.org"), "/a/b", Some("x=1")),
        Some(String::from("http://example.org/a/b?x=1"))
    );
    assert_eq!(
        layer.request_url(None, Some("example.org"), "/a/b", None),
        Some(String::from("https://example.org/a/b"))
    );
    assert_eq!(layer.request_url(Some("http"), None, "/a/b", None), Some(String::from("/a/b")));
    assert_eq!(layer.request_url(None, None, "/", Some("q")), Some(String::from("/?q")));
}

#[test]
fn layer_wraps_a_service() {
    let layer = LambdaLayer::new(true);
    let service = layer.layer(7u32);
    assert_eq!(*service.inner(), 7);
    assert_eq!(service.layer(), layer);
    assert_eq!(service.into_inner(), 7);
}

#[test]
fn limits_by_platform() {
    assert_eq!(required_limits(true), Limits::DownlevelWebgl2);
    assert_eq!(required_limits(false), Limits::Default);
}

#[test]
fn buffer_usages_by_role() {
    let none = BufferUsages { vertex: false, index: false, uniform: false, copy_dst: false };
    assert_eq!(BufferRole::Vertex.usages(), BufferUsages { vertex: true, ..none });
    assert_eq!(BufferRole::Index.usages(), BufferUsages { index: true, ..none });
    assert_eq!(
        BufferRole::CameraUniform.usages(),
        BufferUsages { uniform: true, copy_dst: true, ..none }
    );
}

#[test]
fn camera_is_bound_to_the_vertex_stage() {
    assert_eq!(
        camera_bind_group_layout(),
        vec![UniformBinding {
            binding: 0,
            vertex_stage: true,
            fragment_stage: false,
            compute_stage: false,
            has_dynamic_offset: false,
        }]
    );
}

#[test]
fn pipeline_draws_solid_triangles() {
    let pipeline = RenderPipelineDescriptor::new(3);
    let expected = RenderPipelineDescriptor {
        vertex_buffer: Vertex::desc(),
        target_format: 3,
        primitive: PrimitiveState {
            topology: PrimitiveTopology::TriangleList,
            strip_index_format: None,
            front_face: FrontFace::Ccw,
            cull_mode: Some(Face::Back),
            polygon_mode: PolygonMode::Fill,
            unclipped_depth: false,
            conservative: false,
        },
        depth_stencil: false,
        multisample: MultisampleState { count: 1, mask: !0, alpha_to_coverage_enabled: false },
        multiview: None,
    };
    assert_eq!(pipeline, expected);
    assert_eq!(vertex_entry_point(), "vs_main");
    assert_eq!(fragment_entry_point(), "fs_main");
}

#[test]
fn only_a_missing_file_gets_the_index() {
    assert_eq!(fallback(404), Fallback::ServeIndex);
    for status in [200u16, 206, 301, 304, 400, 403, 405, 500] {
        assert_eq!(fallback(status), Fallback::Forward);
    }
}

#[test]
fn index_reply_by_what_was_read() {
    assert_eq!(
        index_reply(Some(String::from("<html></html>")), "/srv"),
        Reply { status: 200, body: String::from("<html></html>") }
    );
    assert_eq!(
        index_reply(None, "/srv/app"),
        Reply { status: 404, body: String::from("index file not found at /srv/app") }
    );
}

#[test]
fn error_reply_carries_the_error() {
    assert_eq!(
        error_reply("disk on fire"),
        Reply { status: 500, body: String::from("error: disk on fire") }
    );
}

#[test]
fn response_body_is_text_where_it_can_be() {
    assert_eq!(response_body(b"hello".to_vec()), Body::Text(String::from("hello")));
    assert_eq!(response_body(vec![]), Body::Text(String::new()));
    assert_eq!(
        response_body("gr\u{fc}n".as_bytes().to_vec()),
        Body::Text(String::from("gr\u{fc}n"))
    );
    assert_eq!(response_body(vec![0xff, 0xfe, 0x00]), Body::Binary(vec![0xff, 0xfe, 0x00]));
    assert_eq!(response_body(vec![b'a', 0xc3]), Body::Binary(vec![b'a', 0xc3]));
    assert_eq!(body_from(Some(String::from("x")), vec![1, 2]), Body::Text(String::from("x")));
    assert_eq!(body_from(None, vec![1, 2]), Body::Binary(vec![1, 2]));
}
