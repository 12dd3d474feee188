//! The parts of the hardware renderer that decide rather than draw: renderer
//! settings, the draw-command model with its batching, the choice of shader for a
//! triangle, and the cache of compiled shader programs. The GL calls themselves are
//! the host's.

use vstd::prelude::*;
use vstd::string::StringExecFns;

verus! {

/// Renderer settings.
#[derive(Debug, Clone, Copy, PartialEq, Eq, Structural)]
pub struct RendererSettings {
    /// 1x, 2x, 4x, 8x or 16x.
    pub internal_resolution_scale: u32,
    pub texture_filtering: TextureFilter,
    pub anti_aliasing: AntiAliasing,
    pub vsync: bool,
    pub dithering: bool,
    /// 24-bit colour.
    pub true_color: bool,
    pub widescreen_hack: bool,
    /// Perspective-correct texturing.
    pub pgxp_enabled: bool,
}

impl Default for RendererSettings {
    fn default() -> (r: Self)
        ensures
            r == (RendererSettings {
                internal_resolution_scale: 1,
                texture_filtering: TextureFilter::Nearest,
                anti_aliasing: AntiAliasing::Off,
                vsync: true,
                dithering: true,
                true_color: false,
                widescreen_hack: false,
                pgxp_enabled: false,
            }),
    {
        RendererSettings {
            internal_resolution_scale: 1,
            texture_filtering: TextureFilter::Nearest,
            anti_aliasing: AntiAliasing::Off,
            vsync: true,
            dithering: true,
            true_color: false,
            widescreen_hack: false,
            pgxp_enabled: false,
        }
    }
}

/// Texture filters.
#[allow(non_camel_case_types)]
#[derive(Debug, Clone, Copy, PartialEq, Eq, Structural)]
pub enum TextureFilter {
    Nearest,
    Bilinear,
    xBR,
    SABR,
}

/// Anti-aliasing modes; `Off` is no anti-aliasing.
#[derive(Debug, Clone, Copy, PartialEq, Eq, Structural)]
pub enum AntiAliasing {
    Off,
    FXAA,
    SMAA,
    MSAA2x,
    MSAA4x,
    MSAA8x,
}

/// The shader programs, one per combination of texturing and shading.
#[derive(Debug, Clone, Copy, PartialEq, Eq, Structural)]
pub enum ShaderType {
    Flat,
    Gouraud,
    Textured,
    TexturedGouraud,
}

/// The name of a shader type, as messages print it.
pub open spec fn shader_name(kind: ShaderType) -> Seq<char> {
    match kind {
        ShaderType::Flat => "Flat"@,
        ShaderType::Gouraud => "Gouraud"@,
        ShaderType::Textured => "Textured"@,
        ShaderType::TexturedGouraud => "TexturedGouraud"@,
    }
}

/// A vertex colour.
#[derive(Debug, Clone, Copy, PartialEq, Eq, Structural)]
pub struct Color {
    pub r: u8,
    pub g: u8,
    pub b: u8,
    pub a: u8,
}

/// A vertex as the GPU gives it: position, colour and texture coordinates.
#[derive(Debug, Clone, Copy, PartialEq, Eq, Structural)]
pub struct PSXVertex {
    pub x: i16,
    pub y: i16,
    pub color: Color,
    pub u: u8,
    pub v: u8,
}

/// Semi-transparency modes; `Opaque` is no blending.
#[derive(Debug, Clone, Copy, PartialEq, Eq, Structural)]
pub enum BlendMode {
    Opaque,
    Additive,
    Subtractive,
    Quarter,
}

impl BlendMode {
    /// The mode's number as the shaders take it.
    pub fn index(&self) -> (r: i32)
        ensures
            r == (match *self {
                BlendMode::Opaque => 0i32,
                BlendMode::Additive => 1i32,
                BlendMode::Subtractive => 2i32,
                BlendMode::Quarter => 3i32,
            }),
    {
        match *self {
            BlendMode::Opaque => 0,
            BlendMode::Additive => 1,
            BlendMode::Subtractive => 2,
            BlendMode::Quarter => 3,
        }
    }
}

/// A triangle to draw.
#[derive(Debug, Clone, Copy, PartialEq, Eq)]
pub struct TriangleCommand {
    pub vertices: [PSXVertex; 3],
    pub textured: bool,
    pub gouraud: bool,
    pub blend_mode: BlendMode,
    pub texture_page: u16,
    pub clut: u16,
}

/// The shader that draws a triangle with the given texturing and shading.
pub open spec fn shader_for(textured: bool, gouraud: bool) -> ShaderType {
    if textured {
        if gouraud { ShaderType::TexturedGouraud } else { ShaderType::Textured }
    } else {
        if gouraud { ShaderType::Gouraud } else { ShaderType::Flat }
    }
}

impl TriangleCommand {
    /// The shader this triangle is drawn with.
    pub fn get_shader_type(&self) -> (r: ShaderType)
        ensures
            r == shader_for(self.textured, self.gouraud),
    {
        match (self.textured, self.gouraud) {
            (false, false) => ShaderType::Flat,
            (false, true) => ShaderType::Gouraud,
            (true, false) => ShaderType::Textured,
            (true, true) => ShaderType::TexturedGouraud,
        }
    }
}

/// A rectangle to draw.
#[derive(Debug, Clone, Copy, PartialEq, Eq, Structural)]
pub struct RectangleCommand;

/// A line to draw.
#[derive(Debug, Clone, Copy, PartialEq, Eq, Structural)]
pub struct LineCommand;

/// A rectangle to fill.
#[derive(Debug, Clone, Copy, PartialEq, Eq, Structural)]
pub struct FillCommand;

/// A VRAM-to-VRAM copy.
#[derive(Debug, Clone, Copy, PartialEq, Eq, Structural)]
pub struct CopyCommand;

/// One draw command.
#[derive(Debug, Clone, Copy, PartialEq, Eq)]
pub enum DrawCommand {
    Triangle(TriangleCommand),
    Rectangle(RectangleCommand),
    Line(LineCommand),
    Fill(FillCommand),
    Copy(CopyCommand),
}

impl DrawCommand {
    /// Whether `other` can be folded into this command: no two commands are.
    pub fn can_merge(&self, other: &DrawCommand) -> (r: bool)
        ensures
            !r,
    {
        false
    }

    /// Fold `other` into this command: nothing is folded, so the command stays.
    pub fn merge(&mut self, other: &DrawCommand)
        ensures
            *final(self) == *old(self),
    {
    }
}

/// The commands in the order they are drawn, each merged into the one before it where
/// `can_merge` allows: since no two commands merge, they are the commands given.
pub fn batch_commands(commands: &[DrawCommand]) -> (r: Vec<DrawCommand>)
    ensures
        r@ == commands@,
{
    let mut buffer: Vec<DrawCommand> = Vec::new();
    let mut i: usize = 0;
    while i < commands.len()
        invariant
            i <= commands@.len(),
            buffer@ == commands@.take(i as int),
        decreases commands@.len() - i,
    {
        let cmd = commands[i];
        let n = buffer.len();
        if n > 0 {
            let last = buffer[n - 1];
            if last.can_merge(&cmd) {
                let mut merged = last;
                merged.merge(&cmd);
                buffer.set(n - 1, merged);
                i = i + 1;
                continue;
            }
        }
        buffer.push(cmd);
        i = i + 1;
        assert(buffer@ =~= commands@.take(i as int));
    }
    assert(commands@.take(commands@.len() as int) =~= commands@);
    buffer
}

/// An output resolution.
#[derive(Debug, Clone, Copy, PartialEq, Eq, Structural)]
pub struct Resolution {
    pub width: u32,
    pub height: u32,
}

impl Default for Resolution {
    fn default() -> (r: Self)
        ensures
            r == (Resolution { width: 320, height: 240 }),
    {
        Resolution { width: 320, height: 240 }
    }
}

/// A compiled shader program, known by the variant it implements.
#[derive(Debug, Clone, Copy, PartialEq, Eq, Structural)]
pub struct Shader {
    pub kind: ShaderType,
}

/// Renderer errors; a GL error carries its message.
#[derive(Debug)]
pub enum RendererError {
    OpenGLError(String),
}

/// The compiled shader programs, at most one per shader type.
pub struct ShaderCache {
    pub shaders: Vec<Shader>,
}

impl ShaderCache {
    /// The shader types that have a program in the cache.
    pub open spec fn loaded(&self) -> Set<ShaderType> {
        Set::new(|k: ShaderType| exists|i: int| 0 <= i < self.shaders@.len() && self.shaders@[i].kind == k)
    }

    /// Empty.
    pub fn new() -> (r: Self)
        ensures
            r.shaders@.len() == 0,
            r.loaded() == Set::<ShaderType>::empty(),
    {
        let r = ShaderCache { shaders: Vec::new() };
        assert(r.loaded() =~= Set::<ShaderType>::empty());
        r
    }

    /// Compile a program and keep it under its type, in place of one kept before.
    fn load_shader(&mut self, kind: ShaderType)
        ensures
            final(self).loaded() == old(self).loaded().insert(kind),
    {
        let mut i: usize = 0;
        while i < self.shaders.len()
            invariant
                i <= self.shaders@.len(),
                self.shaders@ == old(self).shaders@,
                forall|j: int| 0 <= j < i ==> self.shaders@[j].kind != kind,
            decreases self.shaders@.len() - i,
        {
            if self.shaders[i].kind == kind {
                let ghost before = self.shaders@;
                self.shaders.set(i, Shader { kind });
                assert(self.loaded() =~= old(self).loaded().insert(kind)) by {
                    assert(self.shaders@ == before.update(i as int, Shader { kind }));
                    assert forall|k: ShaderType| self.loaded().contains(k) implies old(self).loaded().insert(kind).contains(k) by {
                        let w = choose|w: int| 0 <= w < self.shaders@.len() && self.shaders@[w].kind == k;
                        if w != i as int {
                            assert(before[w].kind == k);
                        }
                    }
                    assert forall|k: ShaderType| old(self).loaded().insert(kind).contains(k) implies self.loaded().contains(k) by {
                        if k == kind {
                            assert(self.shaders@[i as int].kind == k);
                        } else {
                            let w = choose|w: int| 0 <= w < before.len() && before[w].kind == k;
                            assert(self.shaders@[w].kind == k);
                        }
                    }
                }
                return;
            }
            i = i + 1;
        }
        let ghost before = self.shaders@;
        self.shaders.push(Shader { kind });
        assert(self.loaded() =~= old(self).loaded().insert(kind)) by {
            assert forall|k: ShaderType| self.loaded().contains(k) implies old(self).loaded().insert(kind).contains(k) by {
                let w = choose|w: int| 0 <= w < self.shaders@.len() && self.shaders@[w].kind == k;
                if w < before.len() {
                    assert(before[w].kind == k);
                }
            }
            assert forall|k: ShaderType| old(self).loaded().insert(kind).contains(k) implies self.loaded().contains(k) by {
                if k == kind {
                    assert(self.shaders@[before.len() as int].kind == k);
                } else {
                    let w = choose|w: int| 0 <= w < before.len() && before[w].kind == k;
                    assert(self.shaders@[w].kind == k);
                }
            }
        }
    }

    /// Compile every shader variant.
    pub fn load_all_shaders(&mut self) -> (r: Result<(), RendererError>)
        ensures
            r is Ok,
            final(self).loaded() == old(self).loaded().insert(ShaderType::Flat).insert(ShaderType::Gouraud).insert(
                ShaderType::Textured,
            ).insert(ShaderType::TexturedGouraud),
    {
        self.load_shader(ShaderType::Flat);
        self.load_shader(ShaderType::Gouraud);
        self.load_shader(ShaderType::Textured);
        self.load_shader(ShaderType::TexturedGouraud);
        Ok(())
    }

    /// The program of a shader type; an error naming the type if none is loaded.
    pub fn get_shader(&self, kind: ShaderType) -> (r: Result<&Shader, RendererError>)
        ensures
            (r is Ok) == self.loaded().contains(kind),
            r matches Ok(s) ==> s.kind == kind,
            r matches Err(RendererError::OpenGLError(m)) ==> m@ == "Shader "@ + shader_name(kind) + " not loaded"@,
    {
        let mut i: usize = 0;
        while i < self.shaders.len()
            invariant
                i <= self.shaders@.len(),
                forall|j: int| 0 <= j < i ==> self.shaders@[j].kind != kind,
            decreases self.shaders@.len() - i,
        {
            if self.shaders[i].kind == kind {
                return Ok(&self.shaders[i]);
            }
            i = i + 1;
        }
        let mut msg = String::from_str("Shader ");
        match kind {
            ShaderType::Flat => msg.append("Flat"),
            ShaderType::Gouraud => msg.append("Gouraud"),
            ShaderType::Textured => msg.append("Textured"),
            ShaderType::TexturedGouraud => msg.append("TexturedGouraud"),
        }
        msg.append(" not loaded");
        Err(RendererError::OpenGLError(msg))
    }

    /// Release every program.
    pub fn cleanup(&mut self)
        ensures
            final(self).shaders@.len() == 0,
            final(self).loaded() == Set::<ShaderType>::empty(),
    {
        self.shaders.clear();
        assert(self.loaded() =~= Set::<ShaderType>::empty());
    }
}

} // verus!
