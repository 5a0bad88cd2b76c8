use crate::vertex::{
    empty_geometry, full_vertex_spec, merged, drawn, outcome, AssembleError, Batch, Geometry,
    VertexSpecable,
};
use crate::window::{first_action, Action, Window, WindowEvent};
use vstd::prelude::*;

verus! {

/// A texture to show: its size in pixels and its pixels, four bytes each.
#[derive(Debug, Clone)]
pub struct TextureSetupDefinition {
    pub width: u32,
    pub height: u32,
    pub data: Vec<u8>,
}

/// What the application draws with.
#[derive(Debug, Clone)]
pub enum RenderingSource {
    ColorRenderingSource,
    TextureRenderingSource { tex_def: TextureSetupDefinition },
}

/// One input of the vertex shader: its name there, and how many components
/// of a vertex it takes.
#[derive(Debug, Clone, Copy, PartialEq, Eq)]
pub struct VertexAttribute {
    pub var_name: &'static str,
    pub stride: u8,
}

/// The text of a vertex shader.
#[derive(Debug, Clone, Copy, PartialEq, Eq)]
pub struct GLVertexShader {
    pub glsl: &'static str,
}

impl GLVertexShader {
    pub fn get_glsl(&self) -> (glsl: &'static str)
        ensures
            glsl@ == self.glsl@,
    {
        self.glsl
    }
}

/// The text of a fragment shader.
#[derive(Debug, Clone, Copy, PartialEq, Eq)]
pub struct GLFragmentShader {
    pub glsl: &'static str,
}

impl GLFragmentShader {
    pub fn get_glsl(&self) -> (glsl: &'static str)
        ensures
            glsl@ == self.glsl@,
    {
        self.glsl
    }
}

/// A pipeline: its two shaders, and how its vertices are laid out.
#[derive(Debug, Clone)]
pub struct RenderingPipelineSource {
    pub vertex_glsl: GLVertexShader,
    pub fragment_glsl: GLFragmentShader,
    pub all_vertex_attrs: Vec<VertexAttribute>,
    pub vertex_width: u8,
}

/// The vertex shader of colored shapes.
pub const COLOR_VS_GLSL: &'static str = r#"#version 150
    in vec2 position;
    in vec3 color;
    out vec3 attr_color;
    void main() {
       attr_color = color;
       gl_Position = vec4(position, 0.0, 1.0);
    }"#;

/// The fragment shader of colored shapes.
pub const COLOR_FS_GLSL: &'static str = r#"#version 150
    in vec3 attr_color;
    out vec4 out_color;
    void main() {
       out_color = vec4(attr_color, 1.0);
    }"#;

/// The vertex shader of textured shapes.
pub const TEXTURE_VS_GLSL: &'static str = r#"#version 150
    in vec2 position;
    in vec2 texcoord;
    out vec2 attr_texcoord;
    void main() {
       attr_texcoord = texcoord;
       gl_Position = vec4(position, 0.0, 1.0);
    }"#;

/// The fragment shader of textured shapes.
pub const TEXTURE_FS_GLSL: &'static str = r#"#version 150
    in vec2 attr_texcoord;
    out vec4 out_color;
    uniform sampler2D tex_sample;
    void main() {
       out_color = texture(tex_sample, attr_texcoord);
    }"#;

/// A pipeline as mathematics: the texts of its shaders, its attributes by
/// name and stride, and the width of its vertices.
pub struct PipelineView {
    pub vertex_glsl: Seq<char>,
    pub fragment_glsl: Seq<char>,
    pub attributes: Seq<(Seq<char>, u8)>,
    pub vertex_width: u8,
}

impl View for RenderingPipelineSource {
    type V = PipelineView;

    open spec fn view(&self) -> PipelineView {
        PipelineView {
            vertex_glsl: self.vertex_glsl.glsl@,
            fragment_glsl: self.fragment_glsl.glsl@,
            attributes: self.all_vertex_attrs@.map_values(
                |a: VertexAttribute| (a.var_name@, a.stride),
            ),
            vertex_width: self.vertex_width,
        }
    }
}

/// The pipeline of colored shapes: a position of two components and a
/// color of three make a vertex of five.
pub open spec fn color_pipeline() -> PipelineView {
    PipelineView {
        vertex_glsl: COLOR_VS_GLSL@,
        fragment_glsl: COLOR_FS_GLSL@,
        attributes: seq![("position"@, 2u8), ("color"@, 3u8)],
        vertex_width: 5,
    }
}

/// The pipeline of textured shapes: a position of two components and a
/// texture coordinate of two make a vertex of four.
pub open spec fn texture_pipeline() -> PipelineView {
    PipelineView {
        vertex_glsl: TEXTURE_VS_GLSL@,
        fragment_glsl: TEXTURE_FS_GLSL@,
        attributes: seq![("position"@, 2u8), ("texcoord"@, 2u8)],
        vertex_width: 4,
    }
}

/// The strides of the attributes, in their order.
pub open spec fn strides(attrs: Seq<VertexAttribute>) -> Seq<u8> {
    attrs.map_values(|a: VertexAttribute| a.stride)
}

/// The pipeline of colored shapes.
pub fn color_pipeline_source() -> (source: RenderingPipelineSource)
    ensures
        source@ == color_pipeline(),
{
    let mut all_vertex_attrs: Vec<VertexAttribute> = Vec::new();
    all_vertex_attrs.push(VertexAttribute { var_name: "position", stride: 2 });
    all_vertex_attrs.push(VertexAttribute { var_name: "color", stride: 3 });
    let source = RenderingPipelineSource {
        vertex_glsl: GLVertexShader { glsl: COLOR_VS_GLSL },
        fragment_glsl: GLFragmentShader { glsl: COLOR_FS_GLSL },
        all_vertex_attrs,
        vertex_width: 5,
    };
    proof {
        assert(source@.attributes =~= color_pipeline().attributes);
    }
    source
}

/// The pipeline of textured shapes.
pub fn texture_pipeline_source() -> (source: RenderingPipelineSource)
    ensures
        source@ == texture_pipeline(),
{
    let mut all_vertex_attrs: Vec<VertexAttribute> = Vec::new();
    all_vertex_attrs.push(VertexAttribute { var_name: "position", stride: 2 });
    all_vertex_attrs.push(VertexAttribute { var_name: "texcoord", stride: 2 });
    let source = RenderingPipelineSource {
        vertex_glsl: GLVertexShader { glsl: TEXTURE_VS_GLSL },
        fragment_glsl: GLFragmentShader { glsl: TEXTURE_FS_GLSL },
        all_vertex_attrs,
        vertex_width: 4,
    };
    proof {
        assert(source@.attributes =~= texture_pipeline().attributes);
    }
    source
}

/// Where attribute `i` starts within a vertex, counted in components:
/// behind all the attributes before it.
pub open spec fn attribute_offset(strides: Seq<u8>, i: int) -> int
    decreases i,
{
    if i <= 0 {
        0
    } else {
        attribute_offset(strides, i - 1) + strides[i - 1]
    }
}

/// An object of the graphics system that has to be given back, by its
/// kind and its name there.
#[derive(Debug, Clone, Copy, PartialEq, Eq, Structural)]
pub enum Release {
    Buffer(u32),
    VertexArray(u32),
    Shader(u32),
    Program(u32),
}

/// The names of the three objects that hold the vertex data of a draw
/// call, and the number of components of one vertex.
#[derive(Debug, Clone, Copy, PartialEq, Eq, Structural)]
pub struct VertexBuffers {
    pub vao: u32,
    pub vbo: u32,
    pub ebo: u32,
    pub vertex_width: u8,
}

impl VertexBuffers {
    pub fn new(vao: u32, vbo: u32, ebo: u32, vertex_width: u8) -> (buffers: VertexBuffers)
        ensures
            buffers == (VertexBuffers { vao, vbo, ebo, vertex_width }),
    {
        VertexBuffers { vao, vbo, ebo, vertex_width }
    }

    /// What giving the buffers back takes, in order.
    pub open spec fn releases(self) -> Seq<Release> {
        seq![
            Release::Buffer(self.vao),
            Release::VertexArray(self.vao),
            Release::Buffer(self.vbo),
            Release::Buffer(self.ebo),
        ]
    }

    /// Merges the drawables into the data of one draw call, at the width
    /// of these buffers. The number of elements to draw is the number of
    /// indices of the batch.
    pub fn gen_vertex_buffers<V: VertexSpecable>(&self, rects: &Vec<V>) -> (result: Result<
        Batch<V::Component>,
        AssembleError,
    >)
        ensures
            outcome(result) == merged(drawn(rects@), self.vertex_width as int),
            rects@.len() == 0 ==> outcome(result) == Ok::<Geometry<V::Component>, AssembleError>(
                empty_geometry(),
            ),
    {
        full_vertex_spec(rects, self.vertex_width)
    }

    /// What giving the buffers back takes.
    pub fn close(&self) -> (releases: Vec<Release>)
        ensures
            releases@ == self.releases(),
    {
        let mut releases: Vec<Release> = Vec::new();
        releases.push(Release::Buffer(self.vao));
        releases.push(Release::VertexArray(self.vao));
        releases.push(Release::Buffer(self.vbo));
        releases.push(Release::Buffer(self.ebo));
        proof {
            assert(releases@ =~= self.releases());
        }
        releases
    }
}

/// A compiled shader, by its name in the graphics system.
#[derive(Debug, Clone, Copy, PartialEq, Eq, Structural)]
pub struct Shader {
    pub addr: u32,
}

/// A linked program, by its name in the graphics system, with its two
/// shaders.
#[derive(Debug, Clone, Copy, PartialEq, Eq, Structural)]
pub struct Program {
    pub addr: u32,
    pub vertex_shader: Shader,
    pub fragment_shader: Shader,
}

impl Program {
    pub fn new(addr: u32, vertex_shader: Shader, fragment_shader: Shader) -> (program: Program)
        ensures
            program == (Program { addr, vertex_shader, fragment_shader }),
    {
        Program { addr, vertex_shader, fragment_shader }
    }

    pub fn get_addr(&self) -> (addr: u32)
        ensures
            addr == self.addr,
    {
        self.addr
    }

    /// What giving the program back takes, in order: its shaders first.
    pub open spec fn releases(self) -> Seq<Release> {
        seq![
            Release::Shader(self.vertex_shader.addr),
            Release::Shader(self.fragment_shader.addr),
            Release::Program(self.addr),
        ]
    }

    /// What giving the program back takes.
    pub fn close(&self) -> (releases: Vec<Release>)
        ensures
            releases@ == self.releases(),
    {
        let mut releases: Vec<Release> = Vec::new();
        releases.push(Release::Shader(self.vertex_shader.addr));
        releases.push(Release::Shader(self.fragment_shader.addr));
        releases.push(Release::Program(self.addr));
        proof {
            assert(releases@ =~= self.releases());
        }
        releases
    }

    /// Where each attribute starts within a vertex, counted in components.
    /// `None` where one of them would start beyond `usize::MAX`.
    pub fn define_vertex_attribute_layout(vertex_attrs: &Vec<VertexAttribute>) -> (offsets: Option<
        Vec<usize>,
    >)
        ensures
            match offsets {
                Some(starts) => {
                    &&& starts@.len() == vertex_attrs@.len()
                    &&& forall|i: int|
                        0 <= i < starts@.len() ==> #[trigger] starts@[i] == attribute_offset(
                            strides(vertex_attrs@),
                            i,
                        )
                },
                None => exists|i: int|
                    0 <= i < vertex_attrs@.len() && #[trigger] attribute_offset(
                        strides(vertex_attrs@),
                        i,
                    ) > usize::MAX,
            },
    {
        let ghost all = strides(vertex_attrs@);
        let mut starts: Vec<usize> = Vec::new();
        let mut total_offset: usize = 0;
        let mut k: usize = 0;
        while k < vertex_attrs.len()
            invariant
                0 <= k <= vertex_attrs.len(),
                all == strides(vertex_attrs@),
                starts@.len() == k,
                forall|i: int|
                    0 <= i < k ==> #[trigger] starts@[i] == attribute_offset(all, i),
                k < vertex_attrs.len() ==> total_offset == attribute_offset(all, k as int),
            decreases vertex_attrs.len() - k,
        {
            starts.push(total_offset);
            if k + 1 < vertex_attrs.len() {
                let stride = vertex_attrs[k].stride as usize;
                proof {
                    assert(all[k as int] == vertex_attrs@[k as int].stride);
                    assert(attribute_offset(all, k + 1) == attribute_offset(all, k as int)
                        + all[k as int]);
                }
                if stride > usize::MAX - total_offset {
                    return None;
                }
                total_offset = total_offset + stride;
            }
            k += 1;
        }
        Some(starts)
    }
}

/// What draws: the program and the buffers it reads.
#[derive(Debug, Clone, Copy, PartialEq, Eq, Structural)]
pub struct Renderer {
    pub program: Program,
    pub vertices: VertexBuffers,
}

impl Renderer {
    pub fn new(program: Program, vertices: VertexBuffers) -> (renderer: Renderer)
        ensures
            renderer == (Renderer { program, vertices }),
    {
        Renderer { program, vertices }
    }

    /// The data of the next draw call.
    pub fn draw<V: VertexSpecable>(&self, rects: &Vec<V>) -> (result: Result<Batch<V::Component>, AssembleError>)
        ensures
            outcome(result) == merged(drawn(rects@), self.vertices.vertex_width as int),
    {
        self.vertices.gen_vertex_buffers(rects)
    }

    /// What giving the renderer back takes: the buffers first, then the
    /// program.
    pub fn close(&self) -> (releases: Vec<Release>)
        ensures
            releases@ == self.vertices.releases() + self.program.releases(),
    {
        let mut releases = self.vertices.close();
        let mut of_program = self.program.close();
        releases.append(&mut of_program);
        releases
    }
}

/// The names that the graphics system gave to the objects of one renderer.
#[derive(Debug, Clone, Copy, PartialEq, Eq, Structural)]
pub struct ObjectNames {
    pub vao: u32,
    pub vbo: u32,
    pub ebo: u32,
    pub program: u32,
    pub vertex_shader: u32,
    pub fragment_shader: u32,
}

impl RenderingSource {
    /// The width of the vertices that this source is drawn with.
    pub open spec fn vertex_width(self) -> u8 {
        match self {
            RenderingSource::ColorRenderingSource => 5,
            RenderingSource::TextureRenderingSource { .. } => 4,
        }
    }

    /// The pipeline that draws this source.
    pub fn pipeline(&self) -> (source: RenderingPipelineSource)
        ensures
            source@ == if self is ColorRenderingSource {
                color_pipeline()
            } else {
                texture_pipeline()
            },
            source.vertex_width == self.vertex_width(),
    {
        match self {
            RenderingSource::ColorRenderingSource => color_pipeline_source(),
            RenderingSource::TextureRenderingSource { .. } => texture_pipeline_source(),
        }
    }
}

/// A window and what draws into it.
#[derive(Debug, Clone, Copy, PartialEq, Eq, Structural)]
pub struct App {
    pub window: Window,
    pub renderer: Renderer,
}

impl App {
    /// The application for a window of the given size and a source, over
    /// the objects that were made for the source's pipeline.
    pub fn new(width: u32, height: u32, source: &RenderingSource, names: ObjectNames) -> (app: App)
        ensures
            app.window == (Window { width, height }),
            app.renderer.vertices == (VertexBuffers {
                vao: names.vao,
                vbo: names.vbo,
                ebo: names.ebo,
                vertex_width: source.vertex_width(),
            }),
            app.renderer.program == (Program {
                addr: names.program,
                vertex_shader: Shader { addr: names.vertex_shader },
                fragment_shader: Shader { addr: names.fragment_shader },
            }),
    {
        let p_src = source.pipeline();
        let vertices = VertexBuffers::new(names.vao, names.vbo, names.ebo, p_src.vertex_width);
        let program = Program::new(
            names.program,
            Shader { addr: names.vertex_shader },
            Shader { addr: names.fragment_shader },
        );
        App { window: Window::new(width, height), renderer: Renderer::new(program, vertices) }
    }

    /// The data of the next frame: the drawables merged at the width of
    /// the application's pipeline.
    pub fn draw<V: VertexSpecable>(&mut self, rects: &Vec<V>) -> (result: Result<
        Batch<V::Component>,
        AssembleError,
    >)
        ensures
            outcome(result) == merged(drawn(rects@), old(self).renderer.vertices.vertex_width as int),
            *final(self) == *old(self),
    {
        self.renderer.draw(rects)
    }

    /// The action that the events ask for, as the window reads them.
    pub fn handle_events(&mut self, events: &Vec<WindowEvent>) -> (action: Option<Action>)
        ensures
            action == first_action(events@),
            *final(self) == *old(self),
    {
        self.window.handle_events(events)
    }

    /// What closing the application takes: giving the renderer back.
    pub fn close(&self) -> (releases: Vec<Release>)
        ensures
            releases@ == self.renderer.vertices.releases() + self.renderer.program.releases(),
    {
        self.renderer.close()
    }
}

} // verus!
