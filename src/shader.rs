//! Shader programs: the source pair for each profile and purpose, the
//! cached locations of a linked program, and the vertex attribute layout.
use vstd::prelude::*;

use crate::buffer::VERTEX_STRIDE;

verus! {

/// The capability level of the graphics context, fixed at initialization.
#[derive(Clone, Copy, Debug, PartialEq, Eq, Structural)]
pub enum Profile {
    /// No vertex-layout objects: attributes are bound around every draw.
    Legacy,
    /// Vertex-layout objects carry the attribute bindings.
    Modern,
}

impl Profile {
    /// The profile for a context that is or is not a legacy one.
    pub fn from_legacy_mode(legacy_mode: bool) -> (p: Profile)
        ensures
            (p == Profile::Legacy) == legacy_mode,
    {
        if legacy_mode {
            Profile::Legacy
        } else {
            Profile::Modern
        }
    }

    /// Whether draw calls on this profile own a vertex-layout object.
    pub fn has_vertex_layout(self) -> (r: bool)
        ensures
            r == (self == Profile::Modern),
    {
        match self {
            Profile::Legacy => false,
            Profile::Modern => true,
        }
    }
}

/// What a program draws.
#[derive(Clone, Copy, Debug, PartialEq, Eq, Structural)]
pub enum ShaderKind {
    /// Textured, tinted quads (UI sprites and client draw calls).
    Quad,
    /// Glyphs sampled from the single-channel glyph cache.
    Text,
}

pub const QUAD_VERTEX_SOURCE: &'static str = "#version 330 core
uniform mat4 projection_matrix;
in vec3 position;
in vec2 texcoord;
in vec4 color;
out vec2 frag_texcoord;
out vec4 frag_color;
void main() {
    gl_Position = vec4(position, 1.0) * projection_matrix;
    frag_texcoord = texcoord;
    frag_color = color;
}
";

pub const QUAD_FRAGMENT_SOURCE: &'static str = "#version 330 core
uniform sampler2D tex;
in vec2 frag_texcoord;
in vec4 frag_color;
out vec4 out_color;
void main() {
    out_color = texture(tex, frag_texcoord) * frag_color;
}
";

pub const TEXT_VERTEX_SOURCE: &'static str = QUAD_VERTEX_SOURCE;

pub const TEXT_FRAGMENT_SOURCE: &'static str = "#version 330 core
uniform sampler2D tex;
in vec2 frag_texcoord;
in vec4 frag_color;
out vec4 out_color;
void main() {
    out_color = vec4(frag_color.rgb, frag_color.a * texture(tex, frag_texcoord).r);
}
";

pub const LEGACY_QUAD_VERTEX_SOURCE: &'static str = "#version 110
uniform mat4 projection_matrix;
attribute vec3 position;
attribute vec2 texcoord;
attribute vec4 color;
varying vec2 frag_texcoord;
varying vec4 frag_color;
void main() {
    gl_Position = vec4(position, 1.0) * projection_matrix;
    frag_texcoord = texcoord;
    frag_color = color;
}
";

pub const LEGACY_QUAD_FRAGMENT_SOURCE: &'static str = "#version 110
uniform sampler2D tex;
varying vec2 frag_texcoord;
varying vec4 frag_color;
void main() {
    gl_FragColor = texture2D(tex, frag_texcoord) * frag_color;
}
";

pub const LEGACY_TEXT_VERTEX_SOURCE: &'static str = LEGACY_QUAD_VERTEX_SOURCE;

pub const LEGACY_TEXT_FRAGMENT_SOURCE: &'static str = "#version 110
uniform sampler2D tex;
varying vec2 frag_texcoord;
varying vec4 frag_color;
void main() {
    gl_FragColor = vec4(frag_color.rgb, frag_color.a * texture2D(tex, frag_texcoord).r);
}
";

/// The (vertex, fragment) source pair of `kind` for `profile`.
pub open spec fn shader_sources_spec(profile: Profile, kind: ShaderKind) -> (&'static str, &'static str) {
    match (profile, kind) {
        (Profile::Modern, ShaderKind::Quad) => (QUAD_VERTEX_SOURCE, QUAD_FRAGMENT_SOURCE),
        (Profile::Modern, ShaderKind::Text) => (TEXT_VERTEX_SOURCE, TEXT_FRAGMENT_SOURCE),
        (Profile::Legacy, ShaderKind::Quad) => (LEGACY_QUAD_VERTEX_SOURCE, LEGACY_QUAD_FRAGMENT_SOURCE),
        (Profile::Legacy, ShaderKind::Text) => (LEGACY_TEXT_VERTEX_SOURCE, LEGACY_TEXT_FRAGMENT_SOURCE),
    }
}

/// Selects the (vertex, fragment) source pair of `kind` for `profile`.
pub fn shader_sources(profile: Profile, kind: ShaderKind) -> (r: (&'static str, &'static str))
    ensures
        r == shader_sources_spec(profile, kind),
{
    match (profile, kind) {
        (Profile::Modern, ShaderKind::Quad) => (QUAD_VERTEX_SOURCE, QUAD_FRAGMENT_SOURCE),
        (Profile::Modern, ShaderKind::Text) => (TEXT_VERTEX_SOURCE, TEXT_FRAGMENT_SOURCE),
        (Profile::Legacy, ShaderKind::Quad) => (LEGACY_QUAD_VERTEX_SOURCE, LEGACY_QUAD_FRAGMENT_SOURCE),
        (Profile::Legacy, ShaderKind::Text) => (LEGACY_TEXT_VERTEX_SOURCE, LEGACY_TEXT_FRAGMENT_SOURCE),
    }
}

/// A linked program with the locations it was resolved to. Immutable once
/// built; owned by its draw call.
#[derive(Clone, Copy, Debug, PartialEq, Eq, Structural)]
pub struct ShaderProgram {
    pub program: u32,
    pub projection_matrix_location: i32,
    pub position_attrib_location: u32,
    pub texcoord_attrib_location: u32,
    pub color_attrib_location: u32,
}

impl ShaderProgram {
    /// Builds the program record from what the context reported. When a
    /// stage failed to compile or the program failed to link, the program is
    /// kept but every location is zero, so that rendering goes on with it.
    /// Attribute locations are taken bit for bit, as the context hands them
    /// out as signed values.
    pub fn from_locations(
        program: u32,
        compiled_and_linked: bool,
        projection_matrix_location: i32,
        position_attrib_location: i32,
        texcoord_attrib_location: i32,
        color_attrib_location: i32,
    ) -> (p: ShaderProgram)
        ensures
            p.program == program,
            compiled_and_linked ==> p == (ShaderProgram {
                program,
                projection_matrix_location,
                position_attrib_location: position_attrib_location as u32,
                texcoord_attrib_location: texcoord_attrib_location as u32,
                color_attrib_location: color_attrib_location as u32,
            }),
            !compiled_and_linked ==> p == (ShaderProgram {
                program,
                projection_matrix_location: 0,
                position_attrib_location: 0,
                texcoord_attrib_location: 0,
                color_attrib_location: 0,
            }),
    {
        if compiled_and_linked {
            ShaderProgram {
                program,
                projection_matrix_location,
                position_attrib_location: position_attrib_location as u32,
                texcoord_attrib_location: texcoord_attrib_location as u32,
                color_attrib_location: color_attrib_location as u32,
            }
        } else {
            ShaderProgram {
                program,
                projection_matrix_location: 0,
                position_attrib_location: 0,
                texcoord_attrib_location: 0,
                color_attrib_location: 0,
            }
        }
    }

    /// The three attribute locations: position, texture coordinate, color.
    pub fn attrib_locations(&self) -> (r: [u32; 3])
        ensures
            r@ == seq![
                self.position_attrib_location,
                self.texcoord_attrib_location,
                self.color_attrib_location,
            ],
    {
        let r = [self.position_attrib_location, self.texcoord_attrib_location, self.color_attrib_location];
        assert(r@ =~= seq![
            self.position_attrib_location,
            self.texcoord_attrib_location,
            self.color_attrib_location,
        ]);
        r
    }
}

/// The component type of a vertex attribute.
#[derive(Clone, Copy, Debug, PartialEq, Eq, Structural)]
pub enum ComponentType {
    Float,
    UnsignedByte,
}

/// How one vertex attribute is read from the interleaved vertex buffer.
#[derive(Clone, Copy, Debug, PartialEq, Eq, Structural)]
pub struct AttribPointer {
    pub location: u32,
    pub components: i32,
    pub component_type: ComponentType,
    /// Whether integer components are mapped to `[0, 1]`.
    pub normalized: bool,
    pub stride: usize,
    pub offset: usize,
}

/// The interleaved layout of a vertex: position (3 floats at 0), texture
/// coordinate (2 floats at 12), color (4 normalized bytes at 20), all with
/// the stride of one vertex.
pub open spec fn vertex_attrib_layout_spec(program: ShaderProgram) -> Seq<AttribPointer> {
    seq![
        AttribPointer {
            location: program.position_attrib_location,
            components: 3,
            component_type: ComponentType::Float,
            normalized: false,
            stride: VERTEX_STRIDE,
            offset: 0,
        },
        AttribPointer {
            location: program.texcoord_attrib_location,
            components: 2,
            component_type: ComponentType::Float,
            normalized: false,
            stride: VERTEX_STRIDE,
            offset: 12,
        },
        AttribPointer {
            location: program.color_attrib_location,
            components: 4,
            component_type: ComponentType::UnsignedByte,
            normalized: true,
            stride: VERTEX_STRIDE,
            offset: 20,
        },
    ]
}

/// The attribute pointers to enable for `program`, in field order.
pub fn vertex_attrib_layout(program: &ShaderProgram) -> (r: [AttribPointer; 3])
    ensures
        r@ == vertex_attrib_layout_spec(*program),
{
    let r = [
        AttribPointer {
            location: program.position_attrib_location,
            components: 3,
            component_type: ComponentType::Float,
            normalized: false,
            stride: VERTEX_STRIDE,
            offset: 0,
        },
        AttribPointer {
            location: program.texcoord_attrib_location,
            components: 2,
            component_type: ComponentType::Float,
            normalized: false,
            stride: VERTEX_STRIDE,
            offset: 12,
        },
        AttribPointer {
            location: program.color_attrib_location,
            components: 4,
            component_type: ComponentType::UnsignedByte,
            normalized: true,
            stride: VERTEX_STRIDE,
            offset: 20,
        },
    ];
    assert(r@ =~= vertex_attrib_layout_spec(*program));
    r
}

} // verus!
