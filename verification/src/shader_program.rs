//! The shader program component: compiles the two stages, links the program,
//! resolves the requested attribute and uniform names once at link time, and
//! exposes bind and lookup.
//!
//! The lifecycle rules are the design's heart and are stated as contracts:
//! whatever the context answers, no stage object outlives a call to
//! [`ShaderProgram::new`]; on every failure path everything allocated on the
//! way is released before the error is returned, so an error leaves the
//! context exactly as it was.

use vstd::prelude::*;

use crate::RenderError;
use crate::gl::GlCall;
use crate::gl::GlContext;
use crate::gl::GlPlan;
use crate::gl::ResourceKind;
use crate::gl::StageKind;
use crate::gl::assoc;
use crate::gl::assoc_find;
use crate::gl::attrib_slot;
use crate::gl::head_flag;
use crate::gl::head_log;
use crate::gl::lemma_remove_last;
use crate::gl::lemma_remove_mid;
use crate::gl::tail_of;

verus! {

/// Does a plan whose stage-allocation and compile-status queues start with
/// `so` and `co` let one stage compile?
pub open spec fn stage_granted_q(so: Seq<bool>, co: Seq<bool>) -> bool {
    head_flag(so) && head_flag(co)
}

/// Does this plan let one stage compile?
pub open spec fn stage_granted(plan: GlPlan) -> bool {
    stage_granted_q(plan.shader_ok@, plan.compile_ok@)
}

/// The error a failed stage compilation reports: allocation refused, or a
/// compile failure carrying the context's diagnostic log if it offers one.
pub open spec fn stage_error_q(
    so: Seq<bool>,
    slog: Seq<Option<String>>,
    kind: StageKind,
) -> RenderError {
    if !head_flag(so) {
        RenderError::ResourceExhausted { resource: ResourceKind::Shader }
    } else {
        RenderError::ShaderCompile { stage: kind, message: head_log(slog) }
    }
}

/// The error a failed stage compilation under this plan reports.
pub open spec fn stage_error(plan: GlPlan, kind: StageKind) -> RenderError {
    stage_error_q(plan.shader_ok@, plan.shader_log@, kind)
}

/// The commands one stage compilation issues, given the queues it consults
/// and the handle the context would hand out next.
pub open spec fn compile_trace_q(
    so: Seq<bool>,
    co: Seq<bool>,
    kind: StageKind,
    id: u64,
) -> Seq<GlCall> {
    if !head_flag(so) {
        seq![GlCall::CreateShader { kind, ok: false }]
    } else if head_flag(co) {
        seq![
            GlCall::CreateShader { kind, ok: true },
            GlCall::ShaderSourceSet { shader: id },
            GlCall::CompileShader { shader: id },
        ]
    } else {
        seq![
            GlCall::CreateShader { kind, ok: true },
            GlCall::ShaderSourceSet { shader: id },
            GlCall::CompileShader { shader: id },
            GlCall::DeleteShader { shader: id },
        ]
    }
}

/// Does this plan let the whole link sequence succeed: both stages compile,
/// the program allocates and the link status comes back good?
pub open spec fn link_granted(plan: GlPlan) -> bool {
    &&& stage_granted_q(plan.shader_ok@, plan.compile_ok@)
    &&& stage_granted_q(tail_of(plan.shader_ok@), tail_of(plan.compile_ok@))
    &&& head_flag(plan.program_ok@)
    &&& head_flag(plan.link_ok@)
}

/// The error a failed link sequence under this plan reports: the first step
/// the plan refuses decides the error, exactly as the steps are attempted.
pub open spec fn link_error(plan: GlPlan) -> RenderError {
    let so = plan.shader_ok@;
    let co = plan.compile_ok@;
    if !stage_granted_q(so, co) {
        stage_error_q(so, plan.shader_log@, StageKind::Vertex)
    } else if !stage_granted_q(tail_of(so), tail_of(co)) {
        stage_error_q(tail_of(so), plan.shader_log@, StageKind::Fragment)
    } else if !head_flag(plan.program_ok@) {
        RenderError::ResourceExhausted { resource: ResourceKind::Program }
    } else {
        RenderError::ShaderLink { message: head_log(plan.program_log@) }
    }
}

/// The introspection commands that resolve the requested attribute names, in
/// request order.
pub open spec fn attrib_lookup_trace(
    attribs: Seq<(String, i32)>,
    program: u64,
    names: Seq<Seq<char>>,
) -> Seq<GlCall>
    decreases names.len(),
{
    if names.len() == 0 {
        Seq::empty()
    } else {
        attrib_lookup_trace(attribs, program, names.drop_last()).push(
            GlCall::GetAttribLocation { program, slot: attrib_slot(attribs, names.last()) },
        )
    }
}

/// The introspection commands that resolve the requested uniform names, in
/// request order.
pub open spec fn uniform_lookup_trace(
    uniforms: Seq<(String, u64)>,
    program: u64,
    names: Seq<Seq<char>>,
) -> Seq<GlCall>
    decreases names.len(),
{
    if names.len() == 0 {
        Seq::empty()
    } else {
        uniform_lookup_trace(uniforms, program, names.drop_last()).push(
            GlCall::GetUniformLocation {
                program,
                found: assoc(uniforms, names.last()) is Some,
            },
        )
    }
}

/// The full command sequence a link attempt issues, given the plan, the next
/// fresh handle, and the requested names.
pub open spec fn link_trace(
    plan: GlPlan,
    id: u64,
    attribute_names: Seq<Seq<char>>,
    uniform_names: Seq<Seq<char>>,
) -> Seq<GlCall> {
    let so = plan.shader_ok@;
    let co = plan.compile_ok@;
    let vs_t = compile_trace_q(so, co, StageKind::Vertex, id);
    if !stage_granted_q(so, co) {
        vs_t
    } else {
        let vs = id;
        let fs = (id + 1) as u64;
        let fs_t = compile_trace_q(tail_of(so), tail_of(co), StageKind::Fragment, fs);
        if !stage_granted_q(tail_of(so), tail_of(co)) {
            vs_t + fs_t + seq![GlCall::DeleteShader { shader: vs }]
        } else if !head_flag(plan.program_ok@) {
            vs_t + fs_t + seq![
                GlCall::CreateProgram { ok: false },
                GlCall::DeleteShader { shader: vs },
                GlCall::DeleteShader { shader: fs },
            ]
        } else {
            let p = (id + 2) as u64;
            let base = vs_t + fs_t + seq![
                GlCall::CreateProgram { ok: true },
                GlCall::AttachShader { program: p, shader: vs },
                GlCall::AttachShader { program: p, shader: fs },
                GlCall::LinkProgram { program: p },
                GlCall::DeleteShader { shader: vs },
                GlCall::DeleteShader { shader: fs },
            ];
            if !head_flag(plan.link_ok@) {
                base + seq![GlCall::DeleteProgram { program: p }]
            } else {
                base + attrib_lookup_trace(plan.attribs@, p, attribute_names)
                    + uniform_lookup_trace(plan.uniforms@, p, uniform_names)
            }
        }
    }
}

/// A failed link releases everything it built, each exactly once: when both
/// stages compile and the program allocates but the link status comes back
/// bad, the commands issued contain exactly one release of each stage handle
/// and exactly one release of the program object, whatever the requested
/// names.
pub proof fn lemma_link_failure_releases_once(
    plan: GlPlan,
    id: u64,
    anames: Seq<Seq<char>>,
    unames: Seq<Seq<char>>,
)
    requires
        stage_granted_q(plan.shader_ok@, plan.compile_ok@),
        stage_granted_q(tail_of(plan.shader_ok@), tail_of(plan.compile_ok@)),
        head_flag(plan.program_ok@),
        !head_flag(plan.link_ok@),
        id + 2 <= u64::MAX,
    ensures
        ({
            let t = link_trace(plan, id, anames, unames);
            let vs = id;
            let fs = (id + 1) as u64;
            let p = (id + 2) as u64;
            &&& t.len() == 13
            &&& t[10] == (GlCall::DeleteShader { shader: vs })
            &&& t[11] == (GlCall::DeleteShader { shader: fs })
            &&& t[12] == (GlCall::DeleteProgram { program: p })
            &&& forall|i: int|
                0 <= i < t.len() && #[trigger] t[i] == (GlCall::DeleteShader { shader: vs })
                    ==> i == 10
            &&& forall|i: int|
                0 <= i < t.len() && #[trigger] t[i] == (GlCall::DeleteShader { shader: fs })
                    ==> i == 11
            &&& forall|i: int|
                0 <= i < t.len() && #[trigger] t[i] == (GlCall::DeleteProgram { program: p })
                    ==> i == 12
        }),
{
    let t = link_trace(plan, id, anames, unames);
    let vs = id;
    let fs = (id + 1) as u64;
    let p = (id + 2) as u64;
    assert(t =~= seq![
        GlCall::CreateShader { kind: StageKind::Vertex, ok: true },
        GlCall::ShaderSourceSet { shader: vs },
        GlCall::CompileShader { shader: vs },
        GlCall::CreateShader { kind: StageKind::Fragment, ok: true },
        GlCall::ShaderSourceSet { shader: fs },
        GlCall::CompileShader { shader: fs },
        GlCall::CreateProgram { ok: true },
        GlCall::AttachShader { program: p, shader: vs },
        GlCall::AttachShader { program: p, shader: fs },
        GlCall::LinkProgram { program: p },
        GlCall::DeleteShader { shader: vs },
        GlCall::DeleteShader { shader: fs },
        GlCall::DeleteProgram { program: p },
    ]);
}

/// Is one of the names the given character sequence?
pub open spec fn contains_name(names: Seq<Seq<char>>, n: Seq<char>) -> bool {
    exists|i: int| 0 <= i < names.len() && names[i] == n
}

/// The requested names as character sequences, in request order.
pub open spec fn views_of(names: Seq<&str>) -> Seq<Seq<char>>
    decreases names.len(),
{
    if names.len() == 0 {
        Seq::empty()
    } else {
        views_of(names.drop_last()).push(names.last()@)
    }
}

/// `views_of` keeps the length and reads each name in place.
pub proof fn lemma_views_of(names: Seq<&str>)
    ensures
        views_of(names).len() == names.len(),
        forall|i: int| 0 <= i < names.len() ==> #[trigger] views_of(names)[i] == names[i]@,
    decreases names.len(),
{
    if names.len() > 0 {
        lemma_views_of(names.drop_last());
        assert forall|i: int|
            0 <= i < names.len() implies #[trigger] views_of(names)[i] == names[i]@ by {
            if i < names.len() - 1 {
                assert(views_of(names)[i] == views_of(names.drop_last())[i]);
                assert(names.drop_last()[i] == names[i]);
            } else {
                assert(views_of(names)[i] == names.last()@);
            }
        }
    }
}

/// What the attribute location table built from these requested names holds
/// for a name: its slot, when it was requested and resolved to a valid slot;
/// absent otherwise.
pub open spec fn expected_attrib(
    attribs: Seq<(String, i32)>,
    names: Seq<Seq<char>>,
    n: Seq<char>,
) -> Option<u32> {
    if contains_name(names, n) && attrib_slot(attribs, n) >= 0 {
        Some(attrib_slot(attribs, n) as u32)
    } else {
        None
    }
}

/// What the uniform location table built from these requested names holds for
/// a name: its location, when it was requested and resolved; absent otherwise.
pub open spec fn expected_uniform(
    uniforms: Seq<(String, u64)>,
    names: Seq<Seq<char>>,
    n: Seq<char>,
) -> Option<u64> {
    if contains_name(names, n) {
        assoc(uniforms, n)
    } else {
        None
    }
}

/// Appending an entry changes a table's lookups only for its name, and only
/// when that name was absent before.
proof fn lemma_assoc_push<V>(t: Seq<(String, V)>, e: (String, V), n: Seq<char>)
    ensures
        assoc(t.push(e), n) == (if assoc(t, n) is Some {
            assoc(t, n)
        } else if e.0@ == n {
            Some(e.1)
        } else {
            None::<V>
        }),
    decreases t.len(),
{
    if t.len() == 0 {
        assert(t.push(e)[0] == e);
        if e.0@ == n {
            assert(assoc(t.push(e), n) == Some(e.1));
        } else {
            assert(t.push(e).drop_first() =~= Seq::<(String, V)>::empty());
            assert(assoc(Seq::<(String, V)>::empty(), n) == None::<V>);
            assert(assoc(t.push(e), n) == None::<V>);
        }
    } else {
        assert(t.push(e)[0] == t[0]);
        if t[0].0@ == n {
            assert(assoc(t, n) == Some(t[0].1));
            assert(assoc(t.push(e), n) == Some(t[0].1));
        } else {
            assert(t.push(e).drop_first() =~= t.drop_first().push(e));
            lemma_assoc_push(t.drop_first(), e, n);
            assert(assoc(t, n) == assoc(t.drop_first(), n));
            assert(assoc(t.push(e), n) == assoc(t.drop_first().push(e), n));
        }
    }
}

/// Appending a name to the processed prefix extends what it contains by
/// exactly that name.
proof fn lemma_contains_push(v: Seq<Seq<char>>, x: Seq<char>, n: Seq<char>)
    ensures
        contains_name(v.push(x), n) == (contains_name(v, n) || x == n),
{
    if contains_name(v, n) {
        let i = choose|i: int| 0 <= i < v.len() && v[i] == n;
        assert(v.push(x)[i] == n);
    }
    if x == n {
        assert(v.push(x)[v.len() as int] == n);
    }
    if contains_name(v.push(x), n) {
        let i = choose|i: int| 0 <= i < v.push(x).len() && v.push(x)[i] == n;
        if i < v.len() {
            assert(v[i] == n);
        }
    }
}

/// One shader stage's source text, tagged with the pipeline stage it feeds.
pub enum ShaderSource<'a> {
    VertexShader(&'a str),
    FragmentShader(&'a str),
}

impl<'a> ShaderSource<'a> {
    /// The pipeline stage this source feeds.
    pub open spec fn kind(self) -> StageKind {
        match self {
            ShaderSource::VertexShader(_) => StageKind::Vertex,
            ShaderSource::FragmentShader(_) => StageKind::Fragment,
        }
    }

    /// Compiles this stage: creates a stage object, hands it the source, asks
    /// the context to compile, and checks the compile status. Succeeds exactly
    /// when the context grants the allocation and reports the compile good.
    /// On failure nothing stays allocated: a stage object that failed to
    /// compile is released, after its diagnostic log is read, before the
    /// error is returned.
    pub fn compile(&self, gl: &mut GlContext) -> (r: Result<u64, RenderError>)
        requires
            old(gl).wf(),
            old(gl).next_id < u64::MAX,
        ensures
            final(gl).wf(),
            final(gl).buffers == old(gl).buffers,
            final(gl).programs == old(gl).programs,
            r is Ok <==> stage_granted(old(gl).plan),
            r matches Err(e) ==> ({
                &&& e == stage_error(old(gl).plan, self.kind())
                &&& final(gl).shaders@ == old(gl).shaders@
            }),
            r matches Ok(h) ==> ({
                &&& h == old(gl).next_id
                &&& final(gl).next_id == old(gl).next_id + 1
                &&& final(gl).shaders@ == old(gl).shaders@.push(h)
                &&& !old(gl).shaders@.contains(h)
            }),
            old(gl).next_id <= final(gl).next_id <= old(gl).next_id + 1,
            final(gl).calls@ == old(gl).calls@ + compile_trace_q(
                old(gl).plan.shader_ok@,
                old(gl).plan.compile_ok@,
                self.kind(),
                old(gl).next_id,
            ),
            ({
                let p0 = old(gl).plan;
                let p1 = final(gl).plan;
                &&& p1.buffer_ok == p0.buffer_ok
                &&& p1.program_ok == p0.program_ok
                &&& p1.link_ok == p0.link_ok
                &&& p1.program_log == p0.program_log
                &&& p1.attribs == p0.attribs
                &&& p1.uniforms == p0.uniforms
                &&& p1.frame_ok == p0.frame_ok
                &&& p1.shader_ok@ == tail_of(p0.shader_ok@)
                &&& p1.compile_ok@ == (if head_flag(p0.shader_ok@) {
                    tail_of(p0.compile_ok@)
                } else {
                    p0.compile_ok@
                })
                &&& p1.shader_log@ == (if stage_granted(p0) || !head_flag(p0.shader_ok@) {
                    p0.shader_log@
                } else {
                    tail_of(p0.shader_log@)
                })
            }),
    {
        let kind = match self {
            ShaderSource::VertexShader(_) => StageKind::Vertex,
            ShaderSource::FragmentShader(_) => StageKind::Fragment,
        };
        let shader = match gl.create_shader(kind) {
            Some(h) => h,
            None => {
                return Err(RenderError::ResourceExhausted { resource: ResourceKind::Shader });
            },
        };
        proof {
            assert(gl.shaders@[gl.shaders@.len() - 1] == shader);
        }
        gl.shader_source(shader);
        gl.compile_shader(shader);
        if gl.get_compile_status(shader) {
            proof {
                assert(gl.calls@ =~= old(gl).calls@ + compile_trace_q(
                    old(gl).plan.shader_ok@,
                    old(gl).plan.compile_ok@,
                    self.kind(),
                    old(gl).next_id,
                ));
            }
            Ok(shader)
        } else {
            let message = gl.get_shader_info_log(shader);
            gl.delete_shader(shader);
            proof {
                let orig = old(gl).shaders@;
                let pushed = orig.push(shader);
                let i = choose|i: int|
                    0 <= i < pushed.len() && pushed[i] == shader && gl.shaders@ == pushed.remove(i);
                assert forall|j: int| 0 <= j < pushed.len() && j != orig.len() as int
                    implies pushed[j] != shader by {
                    assert(pushed[j] == orig[j]);
                }
                assert(i == orig.len() as int);
                pushed.remove_ensures(i);
                assert(gl.shaders@ =~= orig);
                assert(gl.calls@ =~= old(gl).calls@ + compile_trace_q(
                    old(gl).plan.shader_ok@,
                    old(gl).plan.compile_ok@,
                    self.kind(),
                    old(gl).next_id,
                ));
            }
            Err(RenderError::ShaderCompile { stage: kind, message })
        }
    }
}

/// A linked program together with its location table: the attribute and
/// uniform names that were requested at link time and resolved in the
/// compiled program.
#[derive(Debug)]
pub struct ShaderProgram {
    /// The live program handle this value owns.
    pub program: u64,
    /// Attribute name to slot, for requested names that resolved.
    pub attributes: Vec<(String, u32)>,
    /// Uniform name to location, for requested names that resolved.
    pub uniforms: Vec<(String, u64)>,
}

impl ShaderProgram {
    /// Compiles both stages, links a program, and resolves the requested
    /// names, releasing every intermediate object on every path: the stage
    /// handles never outlive the call, and a program that failed to link is
    /// released before the error is returned. Succeeds exactly when the
    /// context grants both compilations, the program allocation and the link.
    pub fn new(
        gl: &mut GlContext,
        vertex_shader: &str,
        fragment_shader: &str,
        attribute_names: &[&str],
        uniform_names: &[&str],
    ) -> (r: Result<ShaderProgram, RenderError>)
        requires
            old(gl).wf(),
            old(gl).next_id + 3 <= u64::MAX,
        ensures
            final(gl).wf(),
            final(gl).buffers == old(gl).buffers,
            final(gl).shaders@ == old(gl).shaders@,
            old(gl).next_id <= final(gl).next_id <= old(gl).next_id + 3,
            r is Ok <==> link_granted(old(gl).plan),
            r matches Err(e) ==> ({
                &&& e == link_error(old(gl).plan)
                &&& final(gl).programs@ == old(gl).programs@
            }),
            r matches Ok(p) ==> ({
                &&& p.program == old(gl).next_id + 2
                &&& final(gl).next_id == old(gl).next_id + 3
                &&& final(gl).programs@ == old(gl).programs@.push(p.program)
                &&& !old(gl).programs@.contains(p.program)
                &&& final(gl).programs@.contains(p.program)
                &&& forall|n: Seq<char>|
                    #[trigger] assoc(p.attributes@, n) == expected_attrib(
                        old(gl).plan.attribs@,
                        views_of(attribute_names@),
                        n,
                    )
                &&& forall|n: Seq<char>|
                    #[trigger] assoc(p.uniforms@, n) == expected_uniform(
                        old(gl).plan.uniforms@,
                        views_of(uniform_names@),
                        n,
                    )
            }),
            final(gl).calls@ == old(gl).calls@ + link_trace(
                old(gl).plan,
                old(gl).next_id,
                views_of(attribute_names@),
                views_of(uniform_names@),
            ),
            ({
                let p0 = old(gl).plan;
                let p1 = final(gl).plan;
                let so = p0.shader_ok@;
                let co = p0.compile_ok@;
                let both = stage_granted_q(so, co) && stage_granted_q(tail_of(so), tail_of(co));
                &&& p1.buffer_ok == p0.buffer_ok
                &&& p1.attribs == p0.attribs
                &&& p1.uniforms == p0.uniforms
                &&& p1.frame_ok == p0.frame_ok
                &&& p1.shader_ok@ == (if stage_granted_q(so, co) {
                    tail_of(tail_of(so))
                } else {
                    tail_of(so)
                })
                &&& p1.compile_ok@ == (if !head_flag(so) {
                    co
                } else if !head_flag(co) || !head_flag(tail_of(so)) {
                    tail_of(co)
                } else {
                    tail_of(tail_of(co))
                })
                &&& p1.shader_log@ == (if (head_flag(so) && !head_flag(co)) || (stage_granted_q(
                    so,
                    co,
                ) && head_flag(tail_of(so)) && !head_flag(tail_of(co))) {
                    tail_of(p0.shader_log@)
                } else {
                    p0.shader_log@
                })
                &&& p1.program_ok@ == (if both {
                    tail_of(p0.program_ok@)
                } else {
                    p0.program_ok@
                })
                &&& p1.link_ok@ == (if both && head_flag(p0.program_ok@) {
                    tail_of(p0.link_ok@)
                } else {
                    p0.link_ok@
                })
                &&& p1.program_log@ == (if both && head_flag(p0.program_ok@) && !head_flag(
                    p0.link_ok@,
                ) {
                    tail_of(p0.program_log@)
                } else {
                    p0.program_log@
                })
            }),
    {
        let ghost plan0 = old(gl).plan;
        let ghost calls0 = old(gl).calls@;
        let ghost n0 = old(gl).next_id;
        let ghost shaders0 = old(gl).shaders@;
        let ghost programs0 = old(gl).programs@;
        let ghost avs = views_of(attribute_names@);
        let ghost uvs = views_of(uniform_names@);

        let vertex = match ShaderSource::VertexShader(vertex_shader).compile(gl) {
            Ok(h) => h,
            Err(e) => {
                return Err(e);
            },
        };
        let fragment = match ShaderSource::FragmentShader(fragment_shader).compile(gl) {
            Ok(h) => h,
            Err(e) => {
                proof {
                    assert(gl.shaders@ == shaders0.push(vertex));
                    assert(gl.shaders@[shaders0.len() as int] == vertex);
                }
                gl.delete_shader(vertex);
                proof {
                    lemma_remove_last(shaders0, vertex, gl.shaders@);
                    assert(gl.shaders@ == shaders0);
                    assert(gl.calls@ =~= calls0 + link_trace(plan0, n0, avs, uvs));
                }
                return Err(e);
            },
        };
        let program = match gl.create_program() {
            Some(p) => p,
            None => {
                proof {
                    assert(gl.shaders@ == shaders0.push(vertex).push(fragment));
                    assert(gl.shaders@[shaders0.len() as int] == vertex);
                }
                gl.delete_shader(vertex);
                proof {
                    lemma_remove_mid(shaders0, vertex, fragment, gl.shaders@);
                    assert(gl.shaders@[shaders0.len() as int] == fragment);
                }
                gl.delete_shader(fragment);
                proof {
                    lemma_remove_last(shaders0, fragment, gl.shaders@);
                    assert(gl.shaders@ == shaders0);
                    assert(gl.calls@ =~= calls0 + link_trace(plan0, n0, avs, uvs));
                }
                return Err(RenderError::ResourceExhausted { resource: ResourceKind::Program });
            },
        };
        proof {
            assert(gl.programs@[gl.programs@.len() - 1] == program);
            assert(gl.shaders@ == shaders0.push(vertex).push(fragment));
            assert(gl.shaders@[shaders0.len() as int] == vertex);
            assert(gl.shaders@[shaders0.len() as int + 1] == fragment);
        }
        gl.attach_shader(program, vertex);
        gl.attach_shader(program, fragment);
        gl.link_program(program);
        gl.delete_shader(vertex);
        proof {
            lemma_remove_mid(shaders0, vertex, fragment, gl.shaders@);
            assert(gl.shaders@[shaders0.len() as int] == fragment);
        }
        gl.delete_shader(fragment);
        proof {
            lemma_remove_last(shaders0, fragment, gl.shaders@);
            assert(gl.shaders@ == shaders0);
        }
        if !gl.get_link_status(program) {
            let message = gl.get_program_info_log(program);
            gl.delete_program(program);
            proof {
                lemma_remove_last(programs0, program, gl.programs@);
                assert(gl.programs@ == programs0);
                assert(gl.calls@ =~= calls0 + link_trace(plan0, n0, avs, uvs));
            }
            return Err(RenderError::ShaderLink { message });
        }

        let ghost pre = *gl;
        let mut attributes: Vec<(String, u32)> = Vec::new();
        let mut j: usize = 0;
        proof {
            lemma_views_of(attribute_names@);
            assert(avs.take(0) =~= Seq::<Seq<char>>::empty());
            assert(pre.calls@ + attrib_lookup_trace(plan0.attribs@, program, avs.take(0))
                =~= pre.calls@);
        }
        while j < attribute_names.len()
            invariant
                gl.wf(),
                j <= attribute_names@.len(),
                avs == views_of(attribute_names@),
                avs.len() == attribute_names@.len(),
                gl.next_id == pre.next_id,
                gl.buffers == pre.buffers,
                gl.shaders == pre.shaders,
                gl.programs == pre.programs,
                gl.plan == pre.plan,
                pre.plan.attribs == plan0.attribs,
                gl.programs@.contains(program),
                gl.calls@ == pre.calls@ + attrib_lookup_trace(
                    plan0.attribs@,
                    program,
                    avs.take(j as int),
                ),
                forall|n: Seq<char>|
                    #[trigger] assoc(attributes@, n) == expected_attrib(
                        plan0.attribs@,
                        avs.take(j as int),
                        n,
                    ),
            decreases attribute_names@.len() - j,
        {
            let name: &str = attribute_names[j];
            let loc = gl.get_attrib_location(program, name);
            let ghost prev_table = attributes@;
            let owned = name.to_owned();
            if loc >= 0 {
                attributes.push((owned, loc as u32));
            }
            proof {
                lemma_views_of(attribute_names@);
                assert(avs[j as int] == name@);
                assert(avs.take(j as int + 1).drop_last() =~= avs.take(j as int));
                assert(avs.take(j as int + 1).last() == avs[j as int]);
                assert(gl.calls@ =~= pre.calls@ + attrib_lookup_trace(
                    plan0.attribs@,
                    program,
                    avs.take(j as int + 1),
                ));
                assert(avs.take(j as int + 1) =~= avs.take(j as int).push(avs[j as int]));
                assert forall|n: Seq<char>|
                    #[trigger] assoc(attributes@, n) == expected_attrib(
                        plan0.attribs@,
                        avs.take(j as int + 1),
                        n,
                    ) by {
                    lemma_contains_push(avs.take(j as int), avs[j as int], n);
                    if loc >= 0 {
                        lemma_assoc_push(prev_table, attributes@.last(), n);
                    }
                }
            }
            j += 1;
        }
        proof {
            assert(avs.take(avs.len() as int) =~= avs);
        }

        let ghost pre2 = *gl;
        let mut uniforms: Vec<(String, u64)> = Vec::new();
        let mut k: usize = 0;
        proof {
            lemma_views_of(uniform_names@);
            assert(uvs.take(0) =~= Seq::<Seq<char>>::empty());
            assert(pre2.calls@ + uniform_lookup_trace(plan0.uniforms@, program, uvs.take(0))
                =~= pre2.calls@);
        }
        while k < uniform_names.len()
            invariant
                gl.wf(),
                k <= uniform_names@.len(),
                uvs == views_of(uniform_names@),
                uvs.len() == uniform_names@.len(),
                gl.next_id == pre2.next_id,
                gl.buffers == pre2.buffers,
                gl.shaders == pre2.shaders,
                gl.programs == pre2.programs,
                gl.plan == pre2.plan,
                pre2.plan.uniforms == plan0.uniforms,
                gl.programs@.contains(program),
                gl.calls@ == pre2.calls@ + uniform_lookup_trace(
                    plan0.uniforms@,
                    program,
                    uvs.take(k as int),
                ),
                forall|n: Seq<char>|
                    #[trigger] assoc(uniforms@, n) == expected_uniform(
                        plan0.uniforms@,
                        uvs.take(k as int),
                        n,
                    ),
            decreases uniform_names@.len() - k,
        {
            let name: &str = uniform_names[k];
            let r = gl.get_uniform_location(program, name);
            let ghost prev_table = uniforms@;
            let owned = name.to_owned();
            match r {
                Some(loc) => {
                    uniforms.push((owned, loc));
                },
                None => {},
            }
            proof {
                lemma_views_of(uniform_names@);
                assert(uvs[k as int] == name@);
                assert(uvs.take(k as int + 1).drop_last() =~= uvs.take(k as int));
                assert(uvs.take(k as int + 1).last() == uvs[k as int]);
                assert(gl.calls@ =~= pre2.calls@ + uniform_lookup_trace(
                    plan0.uniforms@,
                    program,
                    uvs.take(k as int + 1),
                ));
                assert(uvs.take(k as int + 1) =~= uvs.take(k as int).push(uvs[k as int]));
                assert forall|n: Seq<char>|
                    #[trigger] assoc(uniforms@, n) == expected_uniform(
                        plan0.uniforms@,
                        uvs.take(k as int + 1),
                        n,
                    ) by {
                    lemma_contains_push(uvs.take(k as int), uvs[k as int], n);
                    if r is Some {
                        lemma_assoc_push(prev_table, uniforms@.last(), n);
                    }
                }
            }
            k += 1;
        }
        proof {
            assert(uvs.take(uvs.len() as int) =~= uvs);
            assert(gl.calls@ =~= calls0 + link_trace(plan0, n0, avs, uvs));
        }

        Ok(ShaderProgram { program, attributes, uniforms })
    }

    /// Binds this program as the active one on the context; the effect is
    /// global to the context and lasts until another program is bound.
    pub fn use_program(&self, gl: &mut GlContext)
        requires
            old(gl).wf(),
            old(gl).programs@.contains(self.program),
        ensures
            final(gl).wf(),
            crate::gl::same_store(*old(gl), *final(gl)),
            final(gl).plan == old(gl).plan,
            final(gl).calls@ == old(gl).calls@.push(GlCall::UseProgram { program: self.program }),
    {
        gl.use_program(self.program);
    }

    /// Looks up an attribute's slot. A name that was never requested at link
    /// time, or did not resolve in the program, answers `None`; callers must
    /// check before use.
    pub fn attribute(&self, name: &str) -> (r: Option<u32>)
        ensures
            r == assoc(self.attributes@, name@),
    {
        assoc_find(&self.attributes, name)
    }

    /// Looks up a uniform's location. A name that was never requested at link
    /// time, or did not resolve in the program, is absent from the table and
    /// answers `None`; treating such a name as present is a caller error, and
    /// the caller must check before use.
    pub fn uniform(&self, name: &str) -> (r: Option<u64>)
        ensures
            r == assoc(self.uniforms@, name@),
    {
        assoc_find(&self.uniforms, name)
    }

    /// Releases the linked program object. Takes the program by value, so a
    /// second release of the same program cannot be written.
    pub fn destroy(self, gl: &mut GlContext)
        requires
            old(gl).wf(),
            old(gl).programs@.contains(self.program),
        ensures
            final(gl).wf(),
            final(gl).buffers == old(gl).buffers,
            final(gl).shaders == old(gl).shaders,
            final(gl).next_id == old(gl).next_id,
            final(gl).plan == old(gl).plan,
            final(gl).calls@ == old(gl).calls@.push(
                GlCall::DeleteProgram { program: self.program },
            ),
            final(gl).programs@.len() == old(gl).programs@.len() - 1,
            !final(gl).programs@.contains(self.program),
            forall|x: u64|
                x != self.program ==> final(gl).programs@.contains(x) == old(gl).programs@.contains(x),
            exists|i: int|
                0 <= i < old(gl).programs@.len() && old(gl).programs@[i] == self.program && final(gl).programs@ == old(gl).programs@.remove(i),
    {
        gl.delete_program(self.program);
    }
}

} // verus!
