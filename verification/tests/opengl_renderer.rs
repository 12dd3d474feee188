use rustation_ng::templates::opengl_renderer::{
    batch_commands, AntiAliasing, BlendMode, Color, DrawCommand, FillCommand, PSXVertex, RendererError,
    RendererSettings, Resolution, ShaderCache, ShaderType, TextureFilter, TriangleCommand,
};

fn triangle(textured: bool, gouraud: bool) -> TriangleCommand {
    let v = PSXVertex { x: 1, y: 2, color: Color { r: 10, g: 20, b: 30, a: 255 }, u: 0, v: 0 };
    TriangleCommand { vertices: [v, v, v], textured, gouraud, blend_mode: BlendMode::Additive, texture_page: 0, clut: 0 }
}

#[test]
fn shader_choice_follows_texturing_and_shading() {
    assert_eq!(triangle(false, false).get_shader_type(), ShaderType::Flat);
    assert_eq!(triangle(false, true).get_shader_type(), ShaderType::Gouraud);
    assert_eq!(triangle(true, false).get_shader_type(), ShaderType::Textured);
    assert_eq!(triangle(true, true).get_shader_type(), ShaderType::TexturedGouraud);
}

#[test]
fn shader_cache_loads_finds_and_cleans_up() {
    let mut cache = ShaderCache::new();
    match cache.get_shader(ShaderType::Gouraud) {
        Err(RendererError::OpenGLError(m)) => assert_eq!(m, "Shader Gouraud not loaded"),
        Ok(_) => panic!("nothing is loaded yet"),
    }
    assert!(cache.load_all_shaders().is_ok());
    for kind in [ShaderType::Flat, ShaderType::Gouraud, ShaderType::Textured, ShaderType::TexturedGouraud] {
        assert_eq!(cache.get_shader(kind).unwrap().kind, kind);
    }
    // loading again keeps one program per type
    assert!(cache.load_all_shaders().is_ok());
    assert_eq!(cache.shaders.len(), 4);
    cache.cleanup();
    assert!(cache.get_shader(ShaderType::Flat).is_err());
}

#[test]
fn batching_keeps_commands_in_order() {
    let cmds = vec![
        DrawCommand::Triangle(triangle(true, false)),
        DrawCommand::Fill(FillCommand),
        DrawCommand::Triangle(triangle(false, true)),
    ];
    let out = batch_commands(&cmds);
    assert_eq!(out, cmds);
    assert!(!cmds[0].can_merge(&cmds[2]));
}

#[test]
fn renderer_defaults_and_blend_numbers() {
    let s = RendererSettings::default();
    assert_eq!(s.internal_resolution_scale, 1);
    assert_eq!(s.texture_filtering, TextureFilter::Nearest);
    assert_eq!(s.anti_aliasing, AntiAliasing::Off);
    assert!(s.vsync && s.dithering && !s.true_color && !s.widescreen_hack && !s.pgxp_enabled);
    let r = Resolution::default();
    assert_eq!((r.width, r.height), (320, 240));
    assert_eq!(BlendMode::Opaque.index(), 0);
    assert_eq!(BlendMode::Quarter.index(), 3);
}
