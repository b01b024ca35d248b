//! An explicit model of the GPU rendering context.
//!
//! The real renderer talks to a browser-supplied GL context: every call either
//! issues a command (create, bind, upload, compile, link, draw, delete) or asks
//! a question whose answer the host controls (did this allocation succeed, did
//! this stage compile, where did this name land). This module models that
//! collaborator as a plain value: a [`GlContext`] records every command in
//! order, tracks the set of live buffer, shader and program handles, and
//! answers questions from a scripted [`GlPlan`]. The renderer core is verified
//! against this model for *every* plan, so its guarantees hold whatever a real
//! context answers.

use vstd::prelude::*;

verus! {

/// The two shader pipeline stages.
#[derive(Clone, Copy, PartialEq, Eq, Structural, Debug)]
pub enum StageKind {
    Vertex,
    Fragment,
}

/// The two buffer binding targets the renderer uses.
#[derive(Clone, Copy, PartialEq, Eq, Structural, Debug)]
pub enum BufferTarget {
    /// Vertex attribute data.
    ArrayBuffer,
    /// Triangle indices.
    ElementArrayBuffer,
}

/// Which kind of GPU object an allocation request was for.
#[derive(Clone, Copy, PartialEq, Eq, Structural, Debug)]
pub enum ResourceKind {
    Buffer,
    Shader,
    Program,
}

/// The parameters of the per-frame transform, before any floating-point
/// matrix is built from them: a fixed perspective, translation and scale, and
/// one rotation angle per axis. Angles are in milliradians, so that the whole
/// transform is an exact function of the elapsed time in milliseconds.
#[derive(Clone, Copy, PartialEq, Eq, Structural, Debug)]
pub struct Transform {
    /// Depth parameter of the fixed perspective projection.
    pub perspective_depth: u64,
    /// Fixed translation along the depth axis.
    pub translate_z: u64,
    /// Fixed uniform scale, in percent.
    pub scale_percent: u64,
    /// Rotation around the x axis, in milliradians.
    pub rot_x_millirad: u64,
    /// Rotation around the y axis, in milliradians.
    pub rot_y_millirad: u64,
    /// Rotation around the z axis, in milliradians.
    pub rot_z_millirad: u64,
}

/// One command issued to the context, as the model records it.
#[derive(Clone, Copy, PartialEq, Eq, Structural, Debug)]
pub enum GlCall {
    /// A buffer allocation request and whether the context granted it.
    CreateBuffer { ok: bool },
    /// Binding a buffer to a target.
    BindBuffer { target: BufferTarget, buffer: u64 },
    /// Uploading `len` elements of static data to the buffer bound at `target`.
    BufferData { target: BufferTarget, len: usize },
    /// A stage object allocation request and whether the context granted it.
    CreateShader { kind: StageKind, ok: bool },
    /// Attaching source text to a stage object.
    ShaderSourceSet { shader: u64 },
    /// Asking the context to compile a stage object.
    CompileShader { shader: u64 },
    /// Releasing a stage object.
    DeleteShader { shader: u64 },
    /// A program allocation request and whether the context granted it.
    CreateProgram { ok: bool },
    /// Attaching a compiled stage to a program.
    AttachShader { program: u64, shader: u64 },
    /// Asking the context to link a program.
    LinkProgram { program: u64 },
    /// Releasing a program object.
    DeleteProgram { program: u64 },
    /// Resolving an attribute name; `slot` is negative when the name is absent.
    GetAttribLocation { program: u64, slot: i32 },
    /// Resolving a uniform name; `found` says whether the name resolved.
    GetUniformLocation { program: u64, found: bool },
    /// Binding a program as the active one.
    UseProgram { program: u64 },
    /// Enabling the depth test.
    EnableDepthTest,
    /// Configuring an attribute slot to read `size`-component float tuples,
    /// tightly packed, starting at `offset` of the bound vertex buffer.
    VertexAttribPointer { slot: u32, size: u32, offset: u32 },
    /// Enabling an attribute slot.
    EnableVertexAttribArray { slot: u32 },
    /// Uploading the per-frame transform to a matrix uniform.
    UniformMatrix { location: u64, transpose: bool, transform: Transform },
    /// An indexed triangle-list draw call; `index_16bit` says the indices are
    /// 16-bit unsigned.
    DrawTriangles { index_count: u32, index_16bit: bool, offset: u32 },
    /// Clearing the color and depth buffers.
    Clear,
    /// Asking the host to schedule the next frame callback, and whether it
    /// agreed.
    RequestFrame { ok: bool },
    /// Releasing a buffer object.
    DeleteBuffer { buffer: u64 },
}

/// The scripted answers a model context gives. Each queue is consumed from the
/// front by the corresponding question; an exhausted queue answers with the
/// cooperative default (allocations succeed, compiles and links succeed, no
/// diagnostic log, frame requests granted). The two tables are not consumed:
/// they fix, once and for all, where each attribute or uniform name resolves
/// in a linked program.
pub struct GlPlan {
    /// Will the next buffer allocation succeed?
    pub buffer_ok: Vec<bool>,
    /// Will the next stage-object allocation succeed?
    pub shader_ok: Vec<bool>,
    /// Will the next program allocation succeed?
    pub program_ok: Vec<bool>,
    /// Will the next queried stage compile status be true?
    pub compile_ok: Vec<bool>,
    /// Will the next queried program link status be true?
    pub link_ok: Vec<bool>,
    /// The next stage diagnostic log, if any.
    pub shader_log: Vec<Option<String>>,
    /// The next program diagnostic log, if any.
    pub program_log: Vec<Option<String>>,
    /// Attribute name resolution: first match wins; absent names resolve to a
    /// negative slot.
    pub attribs: Vec<(String, i32)>,
    /// Uniform name resolution: first match wins; absent names do not resolve.
    pub uniforms: Vec<(String, u64)>,
    /// Will the host grant the next frame-callback registration?
    pub frame_ok: Vec<bool>,
}

/// The model context: the full record of commands issued, the live GPU
/// objects, and the remaining scripted answers.
pub struct GlContext {
    /// Source of fresh handles.
    pub next_id: u64,
    /// Live buffer handles.
    pub buffers: Vec<u64>,
    /// Live stage-object handles.
    pub shaders: Vec<u64>,
    /// Live program handles.
    pub programs: Vec<u64>,
    /// Every command issued so far, in order.
    pub calls: Vec<GlCall>,
    /// The remaining scripted answers.
    pub plan: GlPlan,
}

/// The answer at the front of a yes/no queue; an exhausted queue answers yes.
pub open spec fn head_flag(q: Seq<bool>) -> bool {
    q.len() == 0 || q[0]
}

/// The log at the front of a diagnostic queue; an exhausted queue has none.
pub open spec fn head_log(q: Seq<Option<String>>) -> Option<String> {
    if q.len() == 0 {
        None
    } else {
        q[0]
    }
}

/// A queue after its front answer has been consumed.
pub open spec fn tail_of<T>(q: Seq<T>) -> Seq<T> {
    if q.len() == 0 {
        q
    } else {
        q.drop_first()
    }
}

/// No handle occurs twice.
pub open spec fn no_dup(s: Seq<u64>) -> bool {
    forall|i: int, j: int| 0 <= i < j < s.len() ==> #[trigger] s[i] != #[trigger] s[j]
}

/// Every handle is below the bound, so a fresh handle collides with nothing.
pub open spec fn all_below(s: Seq<u64>, bound: u64) -> bool {
    forall|i: int| 0 <= i < s.len() ==> s[i] < bound
}

impl GlContext {
    /// The context's internal consistency: live handles are distinct and were
    /// all allocated below the fresh-handle counter.
    pub open spec fn wf(self) -> bool {
        &&& no_dup(self.buffers@)
        &&& no_dup(self.shaders@)
        &&& no_dup(self.programs@)
        &&& all_below(self.buffers@, self.next_id)
        &&& all_below(self.shaders@, self.next_id)
        &&& all_below(self.programs@, self.next_id)
    }

    /// A fresh context with a given response plan: nothing allocated, nothing
    /// recorded.
    pub fn new(plan: GlPlan) -> (ctx: GlContext)
        ensures
            ctx.wf(),
            ctx.next_id == 1,
            ctx.buffers@ =~= Seq::<u64>::empty(),
            ctx.shaders@ =~= Seq::<u64>::empty(),
            ctx.programs@ =~= Seq::<u64>::empty(),
            ctx.calls@ =~= Seq::<GlCall>::empty(),
            ctx.plan == plan,
    {
        GlContext {
            next_id: 1,
            buffers: Vec::new(),
            shaders: Vec::new(),
            programs: Vec::new(),
            calls: Vec::new(),
            plan,
        }
    }
}

/// All plan fields except the buffer-allocation queue agree.
pub open spec fn plan_same_but_buffer_ok(a: GlPlan, b: GlPlan) -> bool {
    &&& b.shader_ok == a.shader_ok
    &&& b.program_ok == a.program_ok
    &&& b.compile_ok == a.compile_ok
    &&& b.link_ok == a.link_ok
    &&& b.shader_log == a.shader_log
    &&& b.program_log == a.program_log
    &&& b.attribs == a.attribs
    &&& b.uniforms == a.uniforms
    &&& b.frame_ok == a.frame_ok
}

/// All plan fields except the stage-allocation queue agree.
pub open spec fn plan_same_but_shader_ok(a: GlPlan, b: GlPlan) -> bool {
    &&& b.buffer_ok == a.buffer_ok
    &&& b.program_ok == a.program_ok
    &&& b.compile_ok == a.compile_ok
    &&& b.link_ok == a.link_ok
    &&& b.shader_log == a.shader_log
    &&& b.program_log == a.program_log
    &&& b.attribs == a.attribs
    &&& b.uniforms == a.uniforms
    &&& b.frame_ok == a.frame_ok
}

/// All plan fields except the program-allocation queue agree.
pub open spec fn plan_same_but_program_ok(a: GlPlan, b: GlPlan) -> bool {
    &&& b.buffer_ok == a.buffer_ok
    &&& b.shader_ok == a.shader_ok
    &&& b.compile_ok == a.compile_ok
    &&& b.link_ok == a.link_ok
    &&& b.shader_log == a.shader_log
    &&& b.program_log == a.program_log
    &&& b.attribs == a.attribs
    &&& b.uniforms == a.uniforms
    &&& b.frame_ok == a.frame_ok
}

/// All plan fields except the compile-status queue agree.
pub open spec fn plan_same_but_compile_ok(a: GlPlan, b: GlPlan) -> bool {
    &&& b.buffer_ok == a.buffer_ok
    &&& b.shader_ok == a.shader_ok
    &&& b.program_ok == a.program_ok
    &&& b.link_ok == a.link_ok
    &&& b.shader_log == a.shader_log
    &&& b.program_log == a.program_log
    &&& b.attribs == a.attribs
    &&& b.uniforms == a.uniforms
    &&& b.frame_ok == a.frame_ok
}

/// All plan fields except the link-status queue agree.
pub open spec fn plan_same_but_link_ok(a: GlPlan, b: GlPlan) -> bool {
    &&& b.buffer_ok == a.buffer_ok
    &&& b.shader_ok == a.shader_ok
    &&& b.program_ok == a.program_ok
    &&& b.compile_ok == a.compile_ok
    &&& b.shader_log == a.shader_log
    &&& b.program_log == a.program_log
    &&& b.attribs == a.attribs
    &&& b.uniforms == a.uniforms
    &&& b.frame_ok == a.frame_ok
}

/// All plan fields except the stage-diagnostic queue agree.
pub open spec fn plan_same_but_shader_log(a: GlPlan, b: GlPlan) -> bool {
    &&& b.buffer_ok == a.buffer_ok
    &&& b.shader_ok == a.shader_ok
    &&& b.program_ok == a.program_ok
    &&& b.compile_ok == a.compile_ok
    &&& b.link_ok == a.link_ok
    &&& b.program_log == a.program_log
    &&& b.attribs == a.attribs
    &&& b.uniforms == a.uniforms
    &&& b.frame_ok == a.frame_ok
}

/// All plan fields except the program-diagnostic queue agree.
pub open spec fn plan_same_but_program_log(a: GlPlan, b: GlPlan) -> bool {
    &&& b.buffer_ok == a.buffer_ok
    &&& b.shader_ok == a.shader_ok
    &&& b.program_ok == a.program_ok
    &&& b.compile_ok == a.compile_ok
    &&& b.link_ok == a.link_ok
    &&& b.shader_log == a.shader_log
    &&& b.attribs == a.attribs
    &&& b.uniforms == a.uniforms
    &&& b.frame_ok == a.frame_ok
}

/// All plan fields except the frame-scheduling queue agree.
pub open spec fn plan_same_but_frame_ok(a: GlPlan, b: GlPlan) -> bool {
    &&& b.buffer_ok == a.buffer_ok
    &&& b.shader_ok == a.shader_ok
    &&& b.program_ok == a.program_ok
    &&& b.compile_ok == a.compile_ok
    &&& b.link_ok == a.link_ok
    &&& b.shader_log == a.shader_log
    &&& b.program_log == a.program_log
    &&& b.attribs == a.attribs
    &&& b.uniforms == a.uniforms
}

/// The value bound to the first entry of `t` whose name reads as `name`.
pub open spec fn assoc<V>(t: Seq<(String, V)>, name: Seq<char>) -> Option<V>
    decreases t.len(),
{
    if t.len() == 0 {
        None
    } else if t[0].0@ == name {
        Some(t[0].1)
    } else {
        assoc(t.drop_first(), name)
    }
}

/// The slot an attribute name resolves to: the table's answer, or negative
/// when the name is absent.
pub open spec fn attrib_slot(t: Seq<(String, i32)>, name: Seq<char>) -> i32 {
    match assoc(t, name) {
        Some(s) => s,
        None => -1i32,
    }
}

/// First-match lookup in an association table.
pub(crate) fn assoc_find<V: Copy>(t: &Vec<(String, V)>, name: &str) -> (r: Option<V>)
    ensures
        r == assoc(t@, name@),
{
    let owned: String = name.to_owned();
    let mut i: usize = 0;
    proof {
        assert(t@.skip(0) =~= t@);
    }
    while i < t.len()
        invariant
            0 <= i <= t@.len(),
            owned@ == name@,
            assoc(t@, name@) == assoc(t@.skip(i as int), name@),
        decreases t@.len() - i,
    {
        if t[i].0 == owned {
            proof {
                assert(t@.skip(i as int)[0] == t@[i as int]);
            }
            return Some(t[i].1);
        }
        proof {
            assert(t@.skip(i as int).drop_first() =~= t@.skip(i as int + 1));
        }
        i = i + 1;
    }
    proof {
        assert(t@.skip(i as int) =~= Seq::<(String, V)>::empty());
    }
    None
}

/// Removes a handle from a duplicate-free list of live handles.
fn remove_handle(v: &mut Vec<u64>, h: u64)
    requires
        no_dup(old(v)@),
        old(v)@.contains(h),
    ensures
        no_dup(final(v)@),
        final(v)@.len() == old(v)@.len() - 1,
        !final(v)@.contains(h),
        forall|x: u64| x != h ==> final(v)@.contains(x) == old(v)@.contains(x),
        exists|i: int|
            0 <= i < old(v)@.len() && old(v)@[i] == h && final(v)@ == old(v)@.remove(i),
        forall|b: u64| all_below(old(v)@, b) ==> all_below(final(v)@, b),
{
    let ghost orig = v@;
    let mut i: usize = 0;
    while i < v.len()
        invariant
            v@ == orig,
            orig == old(v)@,
            no_dup(orig),
            0 <= i <= orig.len(),
            orig.contains(h),
            forall|j: int| 0 <= j < i ==> orig[j] != h,
        decreases orig.len() - i,
    {
        if v[i] == h {
            proof {
                assert(orig[i as int] == h);
            }
            v.remove(i);
            proof {
                let k = i as int;
                assert(v@ == orig.remove(k));
                orig.remove_ensures(k);
                assert forall|x: u64| x != h implies v@.contains(x) == orig.contains(x) by {
                    if orig.contains(x) {
                        let j = choose|j: int| 0 <= j < orig.len() && orig[j] == x;
                        if j < k {
                            assert(v@[j] == x);
                        } else {
                            assert(j != k);
                            assert(v@[j - 1] == x);
                        }
                    }
                    if v@.contains(x) {
                        let j = choose|j: int| 0 <= j < v@.len() && v@[j] == x;
                        if j < k {
                            assert(orig[j] == x);
                        } else {
                            assert(orig[j + 1] == x);
                        }
                    }
                }
                assert(!v@.contains(h)) by {
                    if v@.contains(h) {
                        let j = choose|j: int| 0 <= j < v@.len() && v@[j] == h;
                        assert(orig[k] == h);
                        if j < k {
                            assert(v@[j] == orig[j]);
                            assert(orig[j] == orig[k] && j != k);
                        } else {
                            assert(v@[j] == orig[j + 1]);
                            assert(orig[j + 1] == orig[k] && j + 1 != k);
                        }
                        assert(false);
                    }
                }
                assert(no_dup(v@)) by {
                    assert forall|a: int, b: int|
                        0 <= a < b < v@.len() implies v@[a] != v@[b] by {
                        let a0 = if a < k { a } else { a + 1 };
                        let b0 = if b < k { b } else { b + 1 };
                        assert(0 <= a0 < b0 < orig.len());
                        assert(v@[a] == orig[a0]);
                        assert(v@[b] == orig[b0]);
                        assert(orig[a0] != orig[b0]);
                    }
                }
                assert forall|b: u64| all_below(orig, b) implies all_below(v@, b) by {
                    assert forall|j: int| 0 <= j < v@.len() implies v@[j] < b by {
                        let j0 = if j < k { j } else { j + 1 };
                        assert(v@[j] == orig[j0]);
                    }
                }
            }
            return;
        }
        i = i + 1;
    }
    proof {
        let j = choose|j: int| 0 <= j < orig.len() && orig[j] == h;
        assert(false);
    }
}

/// The live stores and the fresh-handle counter of both contexts agree.
pub open spec fn same_store(a: GlContext, b: GlContext) -> bool {
    &&& b.next_id == a.next_id
    &&& b.buffers == a.buffers
    &&& b.shaders == a.shaders
    &&& b.programs == a.programs
}

/// A fresh handle equal to the bound collides with nothing below it.
proof fn lemma_push_fresh(s: Seq<u64>, bound: u64)
    requires
        no_dup(s),
        all_below(s, bound),
        bound < u64::MAX,
    ensures
        no_dup(s.push(bound)),
        all_below(s.push(bound), (bound + 1) as u64),
        !s.contains(bound),
{
    assert forall|i: int, j: int|
        0 <= i < j < s.push(bound).len() implies s.push(bound)[i] != s.push(bound)[j] by {
        if j < s.len() {
            assert(s.push(bound)[i] == s[i]);
            assert(s.push(bound)[j] == s[j]);
        } else {
            assert(s.push(bound)[j] == bound);
            assert(s.push(bound)[i] == s[i]);
            assert(s[i] < bound);
        }
    }
    assert forall|i: int| 0 <= i < s.push(bound).len() implies s.push(bound)[i] < bound + 1 by {
        if i < s.len() {
            assert(s.push(bound)[i] == s[i]);
        } else {
            assert(s.push(bound)[i] == bound);
        }
    }
    assert(!s.contains(bound)) by {
        if s.contains(bound) {
            let j = choose|j: int| 0 <= j < s.len() && s[j] == bound;
            assert(s[j] < bound);
        }
    }
}

/// Removing a handle that was just pushed onto a list it was absent from
/// leaves the list as it was.
pub proof fn lemma_remove_last(orig: Seq<u64>, h: u64, res: Seq<u64>)
    requires
        !orig.contains(h),
        exists|i: int|
            0 <= i < orig.push(h).len() && orig.push(h)[i] == h && res == orig.push(h).remove(i),
    ensures
        res =~= orig,
{
    let pushed = orig.push(h);
    let i = choose|i: int| 0 <= i < pushed.len() && pushed[i] == h && res == pushed.remove(i);
    assert forall|j: int|
        0 <= j < pushed.len() && j != orig.len() as int implies pushed[j] != h by {
        assert(pushed[j] == orig[j]);
    }
    assert(i == orig.len() as int);
    pushed.remove_ensures(i);
    assert(res =~= orig);
}

/// Removing the first of two freshly pushed distinct handles leaves the list
/// with only the second.
pub proof fn lemma_remove_mid(orig: Seq<u64>, a: u64, b: u64, res: Seq<u64>)
    requires
        !orig.contains(a),
        a != b,
        exists|i: int|
            0 <= i < orig.push(a).push(b).len() && orig.push(a).push(b)[i] == a && res == orig.push(
                a,
            ).push(b).remove(i),
    ensures
        res =~= orig.push(b),
{
    let s = orig.push(a).push(b);
    let i = choose|i: int| 0 <= i < s.len() && s[i] == a && res == s.remove(i);
    assert forall|j: int| 0 <= j < s.len() && j != orig.len() as int implies s[j] != a by {
        if j < orig.len() {
            assert(s[j] == orig[j]);
        } else {
            assert(j == orig.len() + 1);
            assert(s[j] == b);
        }
    }
    assert(i == orig.len() as int);
    s.remove_ensures(i);
    assert(res =~= orig.push(b));
}

/// A bound on every handle stays a bound when it grows.
proof fn lemma_below_mono(s: Seq<u64>, a: u64, b: u64)
    requires
        all_below(s, a),
        a <= b,
    ensures
        all_below(s, b),
{
    assert forall|i: int| 0 <= i < s.len() implies s[i] < b by {
        assert(s[i] < a);
    }
}

impl GlContext {
    /// Requests a new buffer object; the plan decides whether the context
    /// grants one.
    pub fn create_buffer(&mut self) -> (r: Option<u64>)
        requires
            old(self).wf(),
            old(self).next_id < u64::MAX,
        ensures
            final(self).wf(),
            final(self).shaders == old(self).shaders,
            final(self).programs == old(self).programs,
            final(self).plan.buffer_ok@ == tail_of(old(self).plan.buffer_ok@),
            plan_same_but_buffer_ok(old(self).plan, final(self).plan),
            final(self).calls@ == old(self).calls@.push(
                GlCall::CreateBuffer { ok: head_flag(old(self).plan.buffer_ok@) },
            ),
            if head_flag(old(self).plan.buffer_ok@) {
                &&& r == Some(old(self).next_id)
                &&& final(self).next_id == old(self).next_id + 1
                &&& final(self).buffers@ == old(self).buffers@.push(old(self).next_id)
                &&& !old(self).buffers@.contains(old(self).next_id)
            } else {
                &&& r == None::<u64>
                &&& final(self).next_id == old(self).next_id
                &&& final(self).buffers == old(self).buffers
            },
    {
        let ok = take_flag(&mut self.plan.buffer_ok);
        self.calls.push(GlCall::CreateBuffer { ok });
        if ok {
            let h = self.next_id;
            proof {
                lemma_push_fresh(self.buffers@, h);
                lemma_below_mono(self.shaders@, h, (h + 1) as u64);
                lemma_below_mono(self.programs@, h, (h + 1) as u64);
            }
            self.next_id = self.next_id + 1;
            self.buffers.push(h);
            Some(h)
        } else {
            None
        }
    }

    /// Requests a new stage object of the given kind; the plan decides whether
    /// the context grants one.
    pub fn create_shader(&mut self, kind: StageKind) -> (r: Option<u64>)
        requires
            old(self).wf(),
            old(self).next_id < u64::MAX,
        ensures
            final(self).wf(),
            final(self).buffers == old(self).buffers,
            final(self).programs == old(self).programs,
            final(self).plan.shader_ok@ == tail_of(old(self).plan.shader_ok@),
            plan_same_but_shader_ok(old(self).plan, final(self).plan),
            final(self).calls@ == old(self).calls@.push(
                GlCall::CreateShader { kind, ok: head_flag(old(self).plan.shader_ok@) },
            ),
            if head_flag(old(self).plan.shader_ok@) {
                &&& r == Some(old(self).next_id)
                &&& final(self).next_id == old(self).next_id + 1
                &&& final(self).shaders@ == old(self).shaders@.push(old(self).next_id)
                &&& !old(self).shaders@.contains(old(self).next_id)
            } else {
                &&& r == None::<u64>
                &&& final(self).next_id == old(self).next_id
                &&& final(self).shaders == old(self).shaders
            },
    {
        let ok = take_flag(&mut self.plan.shader_ok);
        self.calls.push(GlCall::CreateShader { kind, ok });
        if ok {
            let h = self.next_id;
            proof {
                lemma_push_fresh(self.shaders@, h);
                lemma_below_mono(self.buffers@, h, (h + 1) as u64);
                lemma_below_mono(self.programs@, h, (h + 1) as u64);
            }
            self.next_id = self.next_id + 1;
            self.shaders.push(h);
            Some(h)
        } else {
            None
        }
    }

    /// Requests a new program object; the plan decides whether the context
    /// grants one.
    pub fn create_program(&mut self) -> (r: Option<u64>)
        requires
            old(self).wf(),
            old(self).next_id < u64::MAX,
        ensures
            final(self).wf(),
            final(self).buffers == old(self).buffers,
            final(self).shaders == old(self).shaders,
            final(self).plan.program_ok@ == tail_of(old(self).plan.program_ok@),
            plan_same_but_program_ok(old(self).plan, final(self).plan),
            final(self).calls@ == old(self).calls@.push(
                GlCall::CreateProgram { ok: head_flag(old(self).plan.program_ok@) },
            ),
            if head_flag(old(self).plan.program_ok@) {
                &&& r == Some(old(self).next_id)
                &&& final(self).next_id == old(self).next_id + 1
                &&& final(self).programs@ == old(self).programs@.push(old(self).next_id)
                &&& !old(self).programs@.contains(old(self).next_id)
            } else {
                &&& r == None::<u64>
                &&& final(self).next_id == old(self).next_id
                &&& final(self).programs == old(self).programs
            },
    {
        let ok = take_flag(&mut self.plan.program_ok);
        self.calls.push(GlCall::CreateProgram { ok });
        if ok {
            let h = self.next_id;
            proof {
                lemma_push_fresh(self.programs@, h);
                lemma_below_mono(self.buffers@, h, (h + 1) as u64);
                lemma_below_mono(self.shaders@, h, (h + 1) as u64);
            }
            self.next_id = self.next_id + 1;
            self.programs.push(h);
            Some(h)
        } else {
            None
        }
    }

    /// Binds a live buffer to a target.
    pub fn bind_buffer(&mut self, target: BufferTarget, buffer: u64)
        requires
            old(self).wf(),
            old(self).buffers@.contains(buffer),
        ensures
            final(self).wf(),
            same_store(*old(self), *final(self)),
            final(self).plan == old(self).plan,
            final(self).calls@ == old(self).calls@.push(GlCall::BindBuffer { target, buffer }),
    {
        self.calls.push(GlCall::BindBuffer { target, buffer });
    }

    /// Uploads `len` elements of static geometry to the buffer bound at
    /// `target`.
    pub fn buffer_data(&mut self, target: BufferTarget, len: usize)
        requires
            old(self).wf(),
        ensures
            final(self).wf(),
            same_store(*old(self), *final(self)),
            final(self).plan == old(self).plan,
            final(self).calls@ == old(self).calls@.push(GlCall::BufferData { target, len }),
    {
        self.calls.push(GlCall::BufferData { target, len });
    }

    /// Attaches source text to a live stage object.
    pub fn shader_source(&mut self, shader: u64)
        requires
            old(self).wf(),
            old(self).shaders@.contains(shader),
        ensures
            final(self).wf(),
            same_store(*old(self), *final(self)),
            final(self).plan == old(self).plan,
            final(self).calls@ == old(self).calls@.push(GlCall::ShaderSourceSet { shader }),
    {
        self.calls.push(GlCall::ShaderSourceSet { shader });
    }

    /// Asks the context to compile a live stage object.
    pub fn compile_shader(&mut self, shader: u64)
        requires
            old(self).wf(),
            old(self).shaders@.contains(shader),
        ensures
            final(self).wf(),
            same_store(*old(self), *final(self)),
            final(self).plan == old(self).plan,
            final(self).calls@ == old(self).calls@.push(GlCall::CompileShader { shader }),
    {
        self.calls.push(GlCall::CompileShader { shader });
    }

    /// Reads a stage's compile-status flag; the plan decides the answer.
    pub fn get_compile_status(&mut self, shader: u64) -> (r: bool)
        requires
            old(self).wf(),
            old(self).shaders@.contains(shader),
        ensures
            final(self).wf(),
            same_store(*old(self), *final(self)),
            final(self).calls == old(self).calls,
            r == head_flag(old(self).plan.compile_ok@),
            final(self).plan.compile_ok@ == tail_of(old(self).plan.compile_ok@),
            plan_same_but_compile_ok(old(self).plan, final(self).plan),
    {
        take_flag(&mut self.plan.compile_ok)
    }

    /// Reads a stage's diagnostic log, if the plan provides one.
    pub fn get_shader_info_log(&mut self, shader: u64) -> (r: Option<String>)
        requires
            old(self).wf(),
            old(self).shaders@.contains(shader),
        ensures
            final(self).wf(),
            same_store(*old(self), *final(self)),
            final(self).calls == old(self).calls,
            r == head_log(old(self).plan.shader_log@),
            final(self).plan.shader_log@ == tail_of(old(self).plan.shader_log@),
            plan_same_but_shader_log(old(self).plan, final(self).plan),
    {
        take_log(&mut self.plan.shader_log)
    }

    /// Releases a live stage object.
    pub fn delete_shader(&mut self, shader: u64)
        requires
            old(self).wf(),
            old(self).shaders@.contains(shader),
        ensures
            final(self).wf(),
            final(self).buffers == old(self).buffers,
            final(self).programs == old(self).programs,
            final(self).next_id == old(self).next_id,
            final(self).plan == old(self).plan,
            final(self).calls@ == old(self).calls@.push(GlCall::DeleteShader { shader }),
            final(self).shaders@.len() == old(self).shaders@.len() - 1,
            !final(self).shaders@.contains(shader),
            forall|x: u64|
                x != shader ==> final(self).shaders@.contains(x) == old(self).shaders@.contains(x),
            exists|i: int|
                0 <= i < old(self).shaders@.len() && old(self).shaders@[i] == shader && final(self).shaders@ == old(self).shaders@.remove(i),
    {
        remove_handle(&mut self.shaders, shader);
        self.calls.push(GlCall::DeleteShader { shader });
    }

    /// Attaches a live stage to a live program.
    pub fn attach_shader(&mut self, program: u64, shader: u64)
        requires
            old(self).wf(),
            old(self).programs@.contains(program),
            old(self).shaders@.contains(shader),
        ensures
            final(self).wf(),
            same_store(*old(self), *final(self)),
            final(self).plan == old(self).plan,
            final(self).calls@ == old(self).calls@.push(GlCall::AttachShader { program, shader }),
    {
        self.calls.push(GlCall::AttachShader { program, shader });
    }

    /// Asks the context to link a live program.
    pub fn link_program(&mut self, program: u64)
        requires
            old(self).wf(),
            old(self).programs@.contains(program),
        ensures
            final(self).wf(),
            same_store(*old(self), *final(self)),
            final(self).plan == old(self).plan,
            final(self).calls@ == old(self).calls@.push(GlCall::LinkProgram { program }),
    {
        self.calls.push(GlCall::LinkProgram { program });
    }

    /// Reads a program's link-status flag; the plan decides the answer.
    pub fn get_link_status(&mut self, program: u64) -> (r: bool)
        requires
            old(self).wf(),
            old(self).programs@.contains(program),
        ensures
            final(self).wf(),
            same_store(*old(self), *final(self)),
            final(self).calls == old(self).calls,
            r == head_flag(old(self).plan.link_ok@),
            final(self).plan.link_ok@ == tail_of(old(self).plan.link_ok@),
            plan_same_but_link_ok(old(self).plan, final(self).plan),
    {
        take_flag(&mut self.plan.link_ok)
    }

    /// Reads a program's diagnostic log, if the plan provides one.
    pub fn get_program_info_log(&mut self, program: u64) -> (r: Option<String>)
        requires
            old(self).wf(),
            old(self).programs@.contains(program),
        ensures
            final(self).wf(),
            same_store(*old(self), *final(self)),
            final(self).calls == old(self).calls,
            r == head_log(old(self).plan.program_log@),
            final(self).plan.program_log@ == tail_of(old(self).plan.program_log@),
            plan_same_but_program_log(old(self).plan, final(self).plan),
    {
        take_log(&mut self.plan.program_log)
    }

    /// Releases a live program object.
    pub fn delete_program(&mut self, program: u64)
        requires
            old(self).wf(),
            old(self).programs@.contains(program),
        ensures
            final(self).wf(),
            final(self).buffers == old(self).buffers,
            final(self).shaders == old(self).shaders,
            final(self).next_id == old(self).next_id,
            final(self).plan == old(self).plan,
            final(self).calls@ == old(self).calls@.push(GlCall::DeleteProgram { program }),
            final(self).programs@.len() == old(self).programs@.len() - 1,
            !final(self).programs@.contains(program),
            forall|x: u64|
                x != program ==> final(self).programs@.contains(x) == old(self).programs@.contains(x),
            exists|i: int|
                0 <= i < old(self).programs@.len() && old(self).programs@[i] == program && final(self).programs@ == old(self).programs@.remove(i),
    {
        remove_handle(&mut self.programs, program);
        self.calls.push(GlCall::DeleteProgram { program });
    }

    /// Releases a live buffer object.
    pub fn delete_buffer(&mut self, buffer: u64)
        requires
            old(self).wf(),
            old(self).buffers@.contains(buffer),
        ensures
            final(self).wf(),
            final(self).shaders == old(self).shaders,
            final(self).programs == old(self).programs,
            final(self).next_id == old(self).next_id,
            final(self).plan == old(self).plan,
            final(self).calls@ == old(self).calls@.push(GlCall::DeleteBuffer { buffer }),
            final(self).buffers@.len() == old(self).buffers@.len() - 1,
            !final(self).buffers@.contains(buffer),
            forall|x: u64|
                x != buffer ==> final(self).buffers@.contains(x) == old(self).buffers@.contains(x),
            exists|i: int|
                0 <= i < old(self).buffers@.len() && old(self).buffers@[i] == buffer && final(self).buffers@ == old(self).buffers@.remove(i),
    {
        remove_handle(&mut self.buffers, buffer);
        self.calls.push(GlCall::DeleteBuffer { buffer });
    }

    /// Resolves an attribute name in a live linked program; negative when the
    /// name is absent from the program.
    pub fn get_attrib_location(&mut self, program: u64, name: &str) -> (slot: i32)
        requires
            old(self).wf(),
            old(self).programs@.contains(program),
        ensures
            final(self).wf(),
            same_store(*old(self), *final(self)),
            final(self).plan == old(self).plan,
            slot == attrib_slot(old(self).plan.attribs@, name@),
            final(self).calls@ == old(self).calls@.push(
                GlCall::GetAttribLocation {
                    program,
                    slot: attrib_slot(old(self).plan.attribs@, name@),
                },
            ),
    {
        let r = assoc_find(&self.plan.attribs, name);
        let slot = match r {
            Some(s) => s,
            None => -1,
        };
        self.calls.push(GlCall::GetAttribLocation { program, slot });
        slot
    }

    /// Resolves a uniform name in a live linked program; `None` when the name
    /// is absent from the program.
    pub fn get_uniform_location(&mut self, program: u64, name: &str) -> (r: Option<u64>)
        requires
            old(self).wf(),
            old(self).programs@.contains(program),
        ensures
            final(self).wf(),
            same_store(*old(self), *final(self)),
            final(self).plan == old(self).plan,
            r == assoc(old(self).plan.uniforms@, name@),
            final(self).calls@ == old(self).calls@.push(
                GlCall::GetUniformLocation {
                    program,
                    found: assoc(old(self).plan.uniforms@, name@) is Some,
                },
            ),
    {
        let r = assoc_find(&self.plan.uniforms, name);
        let found = r.is_some();
        self.calls.push(GlCall::GetUniformLocation { program, found });
        r
    }

    /// Binds a live program as the active one.
    pub fn use_program(&mut self, program: u64)
        requires
            old(self).wf(),
            old(self).programs@.contains(program),
        ensures
            final(self).wf(),
            same_store(*old(self), *final(self)),
            final(self).plan == old(self).plan,
            final(self).calls@ == old(self).calls@.push(GlCall::UseProgram { program }),
    {
        self.calls.push(GlCall::UseProgram { program });
    }

    /// Enables the depth test; safe to repeat every frame.
    pub fn enable_depth_test(&mut self)
        requires
            old(self).wf(),
        ensures
            final(self).wf(),
            same_store(*old(self), *final(self)),
            final(self).plan == old(self).plan,
            final(self).calls@ == old(self).calls@.push(GlCall::EnableDepthTest),
    {
        self.calls.push(GlCall::EnableDepthTest);
    }

    /// Configures an attribute slot to read tightly packed float tuples from
    /// the bound vertex buffer.
    pub fn vertex_attrib_pointer(&mut self, slot: u32, size: u32, offset: u32)
        requires
            old(self).wf(),
        ensures
            final(self).wf(),
            same_store(*old(self), *final(self)),
            final(self).plan == old(self).plan,
            final(self).calls@ == old(self).calls@.push(
                GlCall::VertexAttribPointer { slot, size, offset },
            ),
    {
        self.calls.push(GlCall::VertexAttribPointer { slot, size, offset });
    }

    /// Enables an attribute slot.
    pub fn enable_vertex_attrib_array(&mut self, slot: u32)
        requires
            old(self).wf(),
        ensures
            final(self).wf(),
            same_store(*old(self), *final(self)),
            final(self).plan == old(self).plan,
            final(self).calls@ == old(self).calls@.push(GlCall::EnableVertexAttribArray { slot }),
    {
        self.calls.push(GlCall::EnableVertexAttribArray { slot });
    }

    /// Uploads the per-frame transform to a matrix uniform.
    pub fn uniform_matrix(&mut self, location: u64, transpose: bool, transform: Transform)
        requires
            old(self).wf(),
        ensures
            final(self).wf(),
            same_store(*old(self), *final(self)),
            final(self).plan == old(self).plan,
            final(self).calls@ == old(self).calls@.push(
                GlCall::UniformMatrix { location, transpose, transform },
            ),
    {
        self.calls.push(GlCall::UniformMatrix { location, transpose, transform });
    }

    /// Issues an indexed triangle-list draw call.
    pub fn draw_triangles(&mut self, index_count: u32, index_16bit: bool, offset: u32)
        requires
            old(self).wf(),
        ensures
            final(self).wf(),
            same_store(*old(self), *final(self)),
            final(self).plan == old(self).plan,
            final(self).calls@ == old(self).calls@.push(
                GlCall::DrawTriangles { index_count, index_16bit, offset },
            ),
    {
        self.calls.push(GlCall::DrawTriangles { index_count, index_16bit, offset });
    }

    /// Clears the color and depth buffers.
    pub fn clear(&mut self)
        requires
            old(self).wf(),
        ensures
            final(self).wf(),
            same_store(*old(self), *final(self)),
            final(self).plan == old(self).plan,
            final(self).calls@ == old(self).calls@.push(GlCall::Clear),
    {
        self.calls.push(GlCall::Clear);
    }

    /// Asks the host to schedule the next frame callback; the plan decides
    /// whether it agrees.
    pub fn request_frame(&mut self) -> (r: bool)
        requires
            old(self).wf(),
        ensures
            final(self).wf(),
            same_store(*old(self), *final(self)),
            r == head_flag(old(self).plan.frame_ok@),
            final(self).plan.frame_ok@ == tail_of(old(self).plan.frame_ok@),
            plan_same_but_frame_ok(old(self).plan, final(self).plan),
            final(self).calls@ == old(self).calls@.push(
                GlCall::RequestFrame { ok: head_flag(old(self).plan.frame_ok@) },
            ),
    {
        let ok = take_flag(&mut self.plan.frame_ok);
        self.calls.push(GlCall::RequestFrame { ok });
        ok
    }
}

/// Pops the front of a yes/no queue; an exhausted queue answers yes.
fn take_flag(q: &mut Vec<bool>) -> (r: bool)
    ensures
        r == head_flag(old(q)@),
        final(q)@ == tail_of(old(q)@),
{
    if q.len() == 0 {
        true
    } else {
        q.remove(0)
    }
}

/// Pops the front of a diagnostic-log queue; an exhausted queue has none.
fn take_log(q: &mut Vec<Option<String>>) -> (r: Option<String>)
    ensures
        r == head_log(old(q)@),
        final(q)@ == tail_of(old(q)@),
{
    if q.len() == 0 {
        None
    } else {
        q.remove(0)
    }
}

} // verus!
