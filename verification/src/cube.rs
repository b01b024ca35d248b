//! The renderable cube: owns two GPU buffers holding the fixed mesh and a
//! shader program with one vertex-position attribute and one transform
//! uniform; computes the per-frame transform and issues the draw call.
//!
//! Construction either returns a fully initialized cube — two live buffers,
//! one live linked program, both locations resolved — or an error with no GPU
//! resource left allocated: every failure path releases what it had built.

use vstd::prelude::*;

use crate::RenderError;
use crate::gl::BufferTarget;
use crate::gl::GlCall;
use crate::gl::GlContext;
use crate::gl::GlPlan;
use crate::gl::ResourceKind;
use crate::gl::Transform;
use crate::gl::assoc;
use crate::gl::attrib_slot;
use crate::gl::head_flag;
use crate::gl::lemma_remove_last;
use crate::gl::lemma_remove_mid;
use crate::gl::same_store;
use crate::gl::tail_of;
use crate::mesh;
use crate::shader_program::ShaderProgram;
use crate::shader_program::contains_name;
use crate::shader_program::link_error;
use crate::shader_program::link_granted;
use crate::shader_program::link_trace;
use crate::shader_program::lemma_views_of;
use crate::shader_program::views_of;

verus! {

/// The vertex shader: one position attribute, one transform uniform, a
/// clip-space output.
pub const VERTEX_SHADER_SOURCE: &'static str = "attribute vec3 vertexPosition;\nuniform mat4 vertexTransform;\nvoid main() {\n    gl_Position = vertexTransform * vec4(vertexPosition, 1);\n}\n";

/// The fragment shader: a fixed color.
pub const FRAGMENT_SHADER_SOURCE: &'static str = "void main() {\n    gl_FragColor = vec4(1, 0, 0, 1);\n}\n";

/// The transform the cube uploads after `elapsed_ms` milliseconds: a fixed
/// perspective, translation and scale, and the same rotation on all three
/// axes. The angle in radians is the elapsed time in seconds, so the angle in
/// milliradians is exactly the elapsed milliseconds.
pub open spec fn transform_spec(elapsed_ms: u64) -> Transform {
    Transform {
        perspective_depth: 50,
        translate_z: 1,
        scale_percent: 50,
        rot_x_millirad: elapsed_ms,
        rot_y_millirad: elapsed_ms,
        rot_z_millirad: elapsed_ms,
    }
}

/// Computes the per-frame transform: a pure function of the elapsed time.
pub fn transform_of(elapsed_ms: u64) -> (t: Transform)
    ensures
        t == transform_spec(elapsed_ms),
{
    Transform {
        perspective_depth: 50,
        translate_z: 1,
        scale_percent: 50,
        rot_x_millirad: elapsed_ms,
        rot_y_millirad: elapsed_ms,
        rot_z_millirad: elapsed_ms,
    }
}

/// At elapsed time zero the transform applies no rotation on any axis, while
/// the fixed perspective, translation and scale still apply; and the
/// transform is a function of the elapsed time alone.
pub proof fn lemma_transform_at_zero()
    ensures
        transform_spec(0).rot_x_millirad == 0,
        transform_spec(0).rot_y_millirad == 0,
        transform_spec(0).rot_z_millirad == 0,
        transform_spec(0).perspective_depth == 50,
        transform_spec(0).translate_z == 1,
        transform_spec(0).scale_percent == 50,
{
}

/// Does this plan let the whole cube construction succeed: both buffers
/// allocate, the program links, and both requested names resolve?
pub open spec fn cube_granted(plan: GlPlan) -> bool {
    &&& head_flag(plan.buffer_ok@)
    &&& head_flag(tail_of(plan.buffer_ok@))
    &&& link_granted(plan)
    &&& attrib_slot(plan.attribs@, "vertexPosition"@) >= 0
    &&& assoc(plan.uniforms@, "vertexTransform"@) is Some
}

/// Is `e` the error a failed cube construction under this plan reports? The
/// first step the plan refuses decides it: a buffer allocation refusal, then
/// whatever the link sequence reports, then a requested name that did not
/// resolve.
pub open spec fn cube_error_matches(plan: GlPlan, e: RenderError) -> bool {
    if !head_flag(plan.buffer_ok@) || !head_flag(tail_of(plan.buffer_ok@)) {
        e == RenderError::ResourceExhausted { resource: ResourceKind::Buffer }
    } else if !link_granted(plan) {
        e == link_error(plan)
    } else if attrib_slot(plan.attribs@, "vertexPosition"@) < 0 {
        e matches RenderError::CallerError { name } && name@ == "vertexPosition"@
    } else {
        e matches RenderError::CallerError { name } && name@ == "vertexTransform"@
    }
}

/// The commands a cube construction issues under this plan, starting from
/// fresh handle `id`.
pub open spec fn create_trace(plan: GlPlan, id: u64) -> Seq<GlCall> {
    let b1 = head_flag(plan.buffer_ok@);
    let b2 = head_flag(tail_of(plan.buffer_ok@));
    if !b1 {
        seq![GlCall::CreateBuffer { ok: false }]
    } else if !b2 {
        seq![
            GlCall::CreateBuffer { ok: true },
            GlCall::CreateBuffer { ok: false },
            GlCall::DeleteBuffer { buffer: id },
        ]
    } else {
        let vb = id;
        let ib = (id + 1) as u64;
        let setup = seq![
            GlCall::CreateBuffer { ok: true },
            GlCall::CreateBuffer { ok: true },
            GlCall::BindBuffer { target: BufferTarget::ArrayBuffer, buffer: vb },
            GlCall::BindBuffer { target: BufferTarget::ElementArrayBuffer, buffer: ib },
            GlCall::BufferData {
                target: BufferTarget::ArrayBuffer,
                len: (mesh::VERTEX_COUNT * mesh::COMPONENTS_PER_VERTEX) as usize,
            },
            GlCall::BufferData {
                target: BufferTarget::ElementArrayBuffer,
                len: mesh::INDEX_COUNT as usize,
            },
        ];
        let lt = link_trace(
            plan,
            (id + 2) as u64,
            seq!["vertexPosition"@],
            seq!["vertexTransform"@],
        );
        if !link_granted(plan) {
            setup + lt + seq![
                GlCall::DeleteBuffer { buffer: vb },
                GlCall::DeleteBuffer { buffer: ib },
            ]
        } else if !(attrib_slot(plan.attribs@, "vertexPosition"@) >= 0) || !(assoc(
            plan.uniforms@,
            "vertexTransform"@,
        ) is Some) {
            setup + lt + seq![
                GlCall::DeleteProgram { program: (id + 4) as u64 },
                GlCall::DeleteBuffer { buffer: vb },
                GlCall::DeleteBuffer { buffer: ib },
            ]
        } else {
            setup + lt
        }
    }
}

/// The commands one render step issues: enable depth testing, rebind the
/// buffers, activate the program, configure and enable the position
/// attribute, upload the transform, draw the indexed triangles.
pub open spec fn render_trace(c: Cube, elapsed_ms: u64) -> Seq<GlCall> {
    seq![
        GlCall::EnableDepthTest,
        GlCall::BindBuffer { target: BufferTarget::ArrayBuffer, buffer: c.vertex_buffer },
        GlCall::BindBuffer { target: BufferTarget::ElementArrayBuffer, buffer: c.index_buffer },
        GlCall::UseProgram { program: c.program.program },
        GlCall::VertexAttribPointer { slot: c.position_slot, size: 3, offset: 0 },
        GlCall::EnableVertexAttribArray { slot: c.position_slot },
        GlCall::UniformMatrix {
            location: c.transform_location,
            transpose: false,
            transform: transform_spec(elapsed_ms),
        },
        GlCall::DrawTriangles {
            index_count: mesh::INDEX_COUNT as u32,
            index_16bit: true,
            offset: 0,
        },
    ]
}

/// Any two render steps with the same cube and the same elapsed time append
/// identical command sequences — in particular, identical transform uploads.
pub proof fn lemma_render_deterministic(
    c: Cube,
    elapsed_ms: u64,
    before1: Seq<GlCall>,
    after1: Seq<GlCall>,
    before2: Seq<GlCall>,
    after2: Seq<GlCall>,
)
    requires
        after1 == before1 + render_trace(c, elapsed_ms),
        after2 == before2 + render_trace(c, elapsed_ms),
    ensures
        after1.skip(before1.len() as int) == after2.skip(before2.len() as int),
        after1.skip(before1.len() as int)[6] == (GlCall::UniformMatrix {
            location: c.transform_location,
            transpose: false,
            transform: transform_spec(elapsed_ms),
        }),
{
    assert(after1.skip(before1.len() as int) =~= render_trace(c, elapsed_ms));
    assert(after2.skip(before2.len() as int) =~= render_trace(c, elapsed_ms));
}

/// The renderable cube: two live buffer handles, a linked shader program, and
/// the two locations resolved at construction time.
#[derive(Debug)]
pub struct Cube {
    /// The live buffer holding the vertex positions.
    pub vertex_buffer: u64,
    /// The live buffer holding the triangle indices.
    pub index_buffer: u64,
    /// The linked shader program and its location table.
    pub program: ShaderProgram,
    /// The slot the vertex-position attribute resolved to.
    pub position_slot: u32,
    /// The location the transform uniform resolved to.
    pub transform_location: u64,
}

impl Cube {
    /// The cube's internal consistency: its two buffers are distinct, and the
    /// stored locations are the ones its program's table holds for the two
    /// names the shaders use.
    pub open spec fn wf(self) -> bool {
        &&& self.vertex_buffer != self.index_buffer
        &&& assoc(self.program.attributes@, "vertexPosition"@) == Some(self.position_slot)
        &&& assoc(self.program.uniforms@, "vertexTransform"@) == Some(self.transform_location)
    }

    /// All GPU objects the cube refers to are live in the context.
    pub open spec fn live_in(self, ctx: GlContext) -> bool {
        &&& ctx.buffers@.contains(self.vertex_buffer)
        &&& ctx.buffers@.contains(self.index_buffer)
        &&& ctx.programs@.contains(self.program.program)
    }

    /// Builds the cube: allocates and fills its two buffers, links its shader
    /// program, and resolves the position attribute and the transform
    /// uniform. Succeeds exactly when the context grants every allocation,
    /// both compiles and the link, and both names resolve; on every failure
    /// path everything allocated on the way is released first, so an error
    /// leaves the context's live resources exactly as they were.
    pub fn new(gl: &mut GlContext) -> (r: Result<Cube, RenderError>)
        requires
            old(gl).wf(),
            old(gl).next_id + 5 <= u64::MAX,
        ensures
            final(gl).wf(),
            final(gl).shaders@ == old(gl).shaders@,
            old(gl).next_id <= final(gl).next_id <= old(gl).next_id + 5,
            final(gl).plan.attribs == old(gl).plan.attribs,
            final(gl).plan.uniforms == old(gl).plan.uniforms,
            final(gl).plan.frame_ok == old(gl).plan.frame_ok,
            final(gl).plan.buffer_ok@ == (if head_flag(old(gl).plan.buffer_ok@) {
                tail_of(tail_of(old(gl).plan.buffer_ok@))
            } else {
                tail_of(old(gl).plan.buffer_ok@)
            }),
            r is Ok <==> cube_granted(old(gl).plan),
            r matches Err(e) ==> ({
                &&& final(gl).buffers@ == old(gl).buffers@
                &&& final(gl).programs@ == old(gl).programs@
                &&& cube_error_matches(old(gl).plan, e)
            }),
            r matches Ok(c) ==> ({
                &&& c.wf()
                &&& c.live_in(*final(gl))
                &&& c.vertex_buffer == old(gl).next_id
                &&& c.index_buffer == old(gl).next_id + 1
                &&& c.program.program == old(gl).next_id + 4
                &&& final(gl).next_id == old(gl).next_id + 5
                &&& final(gl).buffers@ == old(gl).buffers@.push(c.vertex_buffer).push(
                    c.index_buffer,
                )
                &&& final(gl).programs@ == old(gl).programs@.push(c.program.program)
                &&& c.position_slot as int == attrib_slot(
                    old(gl).plan.attribs@,
                    "vertexPosition"@,
                ) as int
                &&& Some(c.transform_location) == assoc(
                    old(gl).plan.uniforms@,
                    "vertexTransform"@,
                )
            }),
            final(gl).calls@ == old(gl).calls@ + create_trace(old(gl).plan, old(gl).next_id),
    {
        let ghost plan0 = old(gl).plan;
        let ghost calls0 = old(gl).calls@;
        let ghost n0 = old(gl).next_id;
        let ghost buffers0 = old(gl).buffers@;
        let ghost programs0 = old(gl).programs@;

        let vertex_buffer = match gl.create_buffer() {
            Some(b) => b,
            None => {
                return Err(RenderError::ResourceExhausted { resource: ResourceKind::Buffer });
            },
        };
        let index_buffer = match gl.create_buffer() {
            Some(b) => b,
            None => {
                proof {
                    assert(gl.buffers@ == buffers0.push(vertex_buffer));
                    assert(gl.buffers@[buffers0.len() as int] == vertex_buffer);
                }
                gl.delete_buffer(vertex_buffer);
                proof {
                    lemma_remove_last(buffers0, vertex_buffer, gl.buffers@);
                    assert(gl.buffers@ == buffers0);
                    assert(gl.calls@ =~= calls0 + create_trace(plan0, n0));
                }
                return Err(RenderError::ResourceExhausted { resource: ResourceKind::Buffer });
            },
        };
        proof {
            assert(gl.buffers@ == buffers0.push(vertex_buffer).push(index_buffer));
            assert(gl.buffers@[buffers0.len() as int] == vertex_buffer);
            assert(gl.buffers@[buffers0.len() as int + 1] == index_buffer);
        }
        gl.bind_buffer(BufferTarget::ArrayBuffer, vertex_buffer);
        gl.bind_buffer(BufferTarget::ElementArrayBuffer, index_buffer);
        let vertices = mesh::vertex_components();
        gl.buffer_data(BufferTarget::ArrayBuffer, vertices.len());
        let indices = mesh::cube_indices();
        gl.buffer_data(BufferTarget::ElementArrayBuffer, indices.len());

        let mut attribute_names: Vec<&str> = Vec::new();
        attribute_names.push("vertexPosition");
        let mut uniform_names: Vec<&str> = Vec::new();
        uniform_names.push("vertexTransform");
        proof {
            lemma_views_of(attribute_names@);
            assert(views_of(attribute_names@) =~= seq!["vertexPosition"@]);
            lemma_views_of(uniform_names@);
            assert(views_of(uniform_names@) =~= seq!["vertexTransform"@]);
        }
        let ghost pre_link = *gl;
        let sp = match ShaderProgram::new(
            gl,
            VERTEX_SHADER_SOURCE,
            FRAGMENT_SHADER_SOURCE,
            attribute_names.as_slice(),
            uniform_names.as_slice(),
        ) {
            Ok(p) => p,
            Err(e) => {
                proof {
                    assert(gl.buffers@ == buffers0.push(vertex_buffer).push(index_buffer));
                    assert(gl.buffers@[buffers0.len() as int] == vertex_buffer);
                    assert(link_error(pre_link.plan) == link_error(plan0));
                }
                gl.delete_buffer(vertex_buffer);
                proof {
                    lemma_remove_mid(buffers0, vertex_buffer, index_buffer, gl.buffers@);
                    assert(gl.buffers@[buffers0.len() as int] == index_buffer);
                }
                gl.delete_buffer(index_buffer);
                proof {
                    lemma_remove_last(buffers0, index_buffer, gl.buffers@);
                    assert(gl.buffers@ == buffers0);
                    assert(link_trace(pre_link.plan, (n0 + 2) as u64, views_of(attribute_names@), views_of(uniform_names@))
                        == link_trace(plan0, (n0 + 2) as u64, seq!["vertexPosition"@], seq!["vertexTransform"@]));
                    assert(gl.calls@ =~= calls0 + create_trace(plan0, n0));
                }
                return Err(e);
            },
        };
        proof {
            assert(link_trace(pre_link.plan, (n0 + 2) as u64, views_of(attribute_names@), views_of(uniform_names@))
                == link_trace(plan0, (n0 + 2) as u64, seq!["vertexPosition"@], seq!["vertexTransform"@]));
            assert(contains_name(views_of(attribute_names@), "vertexPosition"@)) by {
                assert(views_of(attribute_names@)[0] == "vertexPosition"@);
            }
            assert(contains_name(views_of(uniform_names@), "vertexTransform"@)) by {
                assert(views_of(uniform_names@)[0] == "vertexTransform"@);
            }
        }
        let ghost sp_handle = sp.program;
        let position_slot = match sp.attribute("vertexPosition") {
            Some(s) => s,
            None => {
                proof {
                    assert(gl.programs@[programs0.len() as int] == sp_handle);
                }
                sp.destroy(gl);
                proof {
                    lemma_remove_last(programs0, sp_handle, gl.programs@);
                    assert(gl.programs@ == programs0);
                    assert(gl.buffers@[buffers0.len() as int] == vertex_buffer);
                }
                gl.delete_buffer(vertex_buffer);
                proof {
                    lemma_remove_mid(buffers0, vertex_buffer, index_buffer, gl.buffers@);
                    assert(gl.buffers@[buffers0.len() as int] == index_buffer);
                }
                gl.delete_buffer(index_buffer);
                proof {
                    lemma_remove_last(buffers0, index_buffer, gl.buffers@);
                    assert(gl.buffers@ == buffers0);
                    assert(gl.calls@ =~= calls0 + create_trace(plan0, n0));
                }
                return Err(RenderError::CallerError { name: "vertexPosition".to_owned() });
            },
        };
        let transform_location = match sp.uniform("vertexTransform") {
            Some(l) => l,
            None => {
                proof {
                    assert(gl.programs@[programs0.len() as int] == sp_handle);
                }
                sp.destroy(gl);
                proof {
                    lemma_remove_last(programs0, sp_handle, gl.programs@);
                    assert(gl.programs@ == programs0);
                    assert(gl.buffers@[buffers0.len() as int] == vertex_buffer);
                }
                gl.delete_buffer(vertex_buffer);
                proof {
                    lemma_remove_mid(buffers0, vertex_buffer, index_buffer, gl.buffers@);
                    assert(gl.buffers@[buffers0.len() as int] == index_buffer);
                }
                gl.delete_buffer(index_buffer);
                proof {
                    lemma_remove_last(buffers0, index_buffer, gl.buffers@);
                    assert(gl.buffers@ == buffers0);
                    assert(gl.calls@ =~= calls0 + create_trace(plan0, n0));
                }
                return Err(RenderError::CallerError { name: "vertexTransform".to_owned() });
            },
        };
        proof {
            assert(gl.calls@ =~= calls0 + create_trace(plan0, n0));
            assert(gl.buffers@[buffers0.len() as int] == vertex_buffer);
            assert(gl.buffers@[buffers0.len() as int + 1] == index_buffer);
            assert(gl.programs@[programs0.len() as int] == sp_handle);
        }
        Ok(
            Cube {
                vertex_buffer,
                index_buffer,
                program: sp,
                position_slot,
                transform_location,
            },
        )
    }

    /// One render step: enables depth testing, rebinds this cube's buffers,
    /// activates its program, configures and enables the position attribute,
    /// uploads the transform derived from the elapsed time, and draws the
    /// indexed triangles. Nothing is allocated or released; the commands
    /// appended are a function of the cube and the elapsed time alone.
    pub fn render(&self, gl: &mut GlContext, elapsed_ms: u64)
        requires
            old(gl).wf(),
            self.live_in(*old(gl)),
        ensures
            final(gl).wf(),
            same_store(*old(gl), *final(gl)),
            final(gl).plan == old(gl).plan,
            self.live_in(*final(gl)),
            final(gl).calls@ == old(gl).calls@ + render_trace(*self, elapsed_ms),
    {
        gl.enable_depth_test();
        gl.bind_buffer(BufferTarget::ArrayBuffer, self.vertex_buffer);
        gl.bind_buffer(BufferTarget::ElementArrayBuffer, self.index_buffer);
        self.program.use_program(gl);
        gl.vertex_attrib_pointer(self.position_slot, 3, 0);
        gl.enable_vertex_attrib_array(self.position_slot);
        let transform = transform_of(elapsed_ms);
        gl.uniform_matrix(self.transform_location, false, transform);
        gl.draw_triangles(mesh::INDEX_COUNT as u32, true, 0);
        proof {
            assert(gl.calls@ =~= old(gl).calls@ + render_trace(*self, elapsed_ms));
        }
    }

    /// Releases the cube's two buffers and, through its program, the one
    /// linked program object — each exactly once. Takes the cube by value,
    /// so a second destruction of the same cube cannot be written.
    pub fn destroy(self, gl: &mut GlContext)
        requires
            old(gl).wf(),
            self.wf(),
            self.live_in(*old(gl)),
        ensures
            final(gl).wf(),
            final(gl).shaders == old(gl).shaders,
            final(gl).next_id == old(gl).next_id,
            final(gl).plan == old(gl).plan,
            final(gl).buffers@.len() == old(gl).buffers@.len() - 2,
            final(gl).programs@.len() == old(gl).programs@.len() - 1,
            !final(gl).buffers@.contains(self.vertex_buffer),
            !final(gl).buffers@.contains(self.index_buffer),
            !final(gl).programs@.contains(self.program.program),
            forall|x: u64|
                x != self.vertex_buffer && x != self.index_buffer ==> final(gl).buffers@.contains(x) == old(gl).buffers@.contains(x),
            forall|x: u64|
                x != self.program.program ==> final(gl).programs@.contains(x) == old(gl).programs@.contains(x),
            final(gl).calls@ == old(gl).calls@ + seq![
                GlCall::DeleteBuffer { buffer: self.vertex_buffer },
                GlCall::DeleteBuffer { buffer: self.index_buffer },
                GlCall::DeleteProgram { program: self.program.program },
            ],
    {
        gl.delete_buffer(self.vertex_buffer);
        gl.delete_buffer(self.index_buffer);
        let Cube { program, .. } = self;
        program.destroy(gl);
        proof {
            assert(gl.calls@ =~= old(gl).calls@ + seq![
                GlCall::DeleteBuffer { buffer: self.vertex_buffer },
                GlCall::DeleteBuffer { buffer: self.index_buffer },
                GlCall::DeleteProgram { program: self.program.program },
            ]);
        }
    }
}

} // verus!
