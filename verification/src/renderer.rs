use vstd::prelude::*;

verus! {

/// The uniforms of the cloud shader's contract, by name.
#[derive(Clone, Copy, PartialEq, Eq, Structural, Debug)]
pub enum UniformName {
    Mvp,
    Opacity,
    Time,
    Scale,
    AmbientBrightMult,
    CamDir,
    CamPos,
    ViewDistance,
    FogCol,
    Sunset,
    Sunrise,
}

impl UniformName {
    /// The name as it appears in the shader source.
    pub open spec fn spec_text(self) -> Seq<char> {
        match self {
            UniformName::Mvp => "mvp"@,
            UniformName::Opacity => "opacity"@,
            UniformName::Time => "time"@,
            UniformName::Scale => "scale"@,
            UniformName::AmbientBrightMult => "ambientBrightMult"@,
            UniformName::CamDir => "camDir"@,
            UniformName::CamPos => "camPos"@,
            UniformName::ViewDistance => "viewDistance"@,
            UniformName::FogCol => "fogCol"@,
            UniformName::Sunset => "sunset"@,
            UniformName::Sunrise => "sunrise"@,
        }
    }

    /// The shader-side spelling of the uniform's name.
    pub fn text(&self) -> (r: &'static str)
        ensures
            r@ == self.spec_text(),
    {
        match self {
            UniformName::Mvp => "mvp",
            UniformName::Opacity => "opacity",
            UniformName::Time => "time",
            UniformName::Scale => "scale",
            UniformName::AmbientBrightMult => "ambientBrightMult",
            UniformName::CamDir => "camDir",
            UniformName::CamPos => "camPos",
            UniformName::ViewDistance => "viewDistance",
            UniformName::FogCol => "fogCol",
            UniformName::Sunset => "sunset",
            UniformName::Sunrise => "sunrise",
        }
    }
}

/// Where a uniform's value comes from, each frame: the camera snapshot, the
/// frame clock, or a fixed render-configuration constant (scalars in
/// thousandths, so 1000 stands for 1.0).
#[derive(Clone, Copy, PartialEq, Eq, Structural, Debug)]
pub enum UniformSource {
    /// The camera's combined model-view-projection matrix.
    CameraMvp,
    /// The camera's look direction.
    CameraDirection,
    /// The camera's eye position.
    CameraPosition,
    /// Seconds since startup, from the frame clock.
    ElapsedSeconds,
    /// A constant scalar, thousandths.
    ConstScalar(i64),
    /// A constant 4-vector, thousandths.
    ConstVec4(i64, i64, i64, i64),
}

/// The two vertex attributes of the quad mesh.
#[derive(Clone, Copy, PartialEq, Eq, Structural, Debug)]
pub enum AttributeKind {
    Position,
    TexCoord,
}

impl AttributeKind {
    /// The name as it appears in the shader source.
    pub open spec fn spec_text(self) -> Seq<char> {
        match self {
            AttributeKind::Position => "aPos"@,
            AttributeKind::TexCoord => "uv"@,
        }
    }

    /// The shader-side spelling of the attribute's name.
    pub fn text(&self) -> (r: &'static str)
        ensures
            r@ == self.spec_text(),
    {
        match self {
            AttributeKind::Position => "aPos",
            AttributeKind::TexCoord => "uv",
        }
    }
}

/// One step of GPU work the caller performs, in order, to draw a frame.
/// The library decides; the caller holding the GPU context executes.
#[derive(Clone, Copy, PartialEq, Eq, Structural, Debug)]
pub enum GpuCommand {
    /// Bind the quad's vertex-array layout.
    BindVertexArray,
    /// Bind the cloud shader program.
    UseProgram,
    /// Create the quad's vertex buffer.
    CreateBuffer,
    /// Upload the constant quad mesh (see `quad_vertices`) into the buffer.
    UploadQuad,
    /// Attach the buffer to the vertex array at the given stride.
    AttachQuadBuffer { stride_bytes: u32 },
    /// Declare one vertex attribute read from the buffer.
    DeclareAttribute { kind: AttributeKind, components: u32, offset_bytes: u32 },
    /// Look the uniform up by name and, if the shader has it, write it; a
    /// missing name is skipped silently by construction: no command is
    /// emitted for it.
    WriteUniform { name: UniformName, source: UniformSource },
    /// Disable back-face culling for the double-sided quad.
    DisableCulling,
    /// Issue the triangle draw.
    DrawTriangles { vertices: u32 },
    /// Restore back-face culling so the change does not leak past the draw.
    EnableCulling,
}

/// Bytes from one vertex to the next: five 4-byte values.
pub const VERTEX_STRIDE_BYTES: u32 = 20;

/// Byte offset of the position attribute inside a vertex.
pub const POSITION_OFFSET_BYTES: u32 = 0;

/// Byte offset of the texture-coordinate attribute inside a vertex.
pub const UV_OFFSET_BYTES: u32 = 12;

/// Vertices in the quad: two triangles.
pub const QUAD_VERTEX_COUNT: u32 = 6;

/// The quad mesh, interleaved position (3 values) and texture coordinate
/// (2 values) per vertex, in thousandths of a world unit: a square of side
/// 200 units floating at height 100.5.
pub open spec fn quad_vertex_data() -> Seq<i64> {
    seq![
        -100000i64, 100500i64, -100000i64, 0i64, 1000i64,
        -100000i64, 100500i64, 100000i64, 0i64, 0i64,
        100000i64, 100500i64, 100000i64, 1000i64, 0i64,
        100000i64, 100500i64, 100000i64, 1000i64, 0i64,
        100000i64, 100500i64, -100000i64, 1000i64, 1000i64,
        -100000i64, 100500i64, -100000i64, 0i64, 1000i64,
    ]
}

/// The constant quad mesh, ready for a one-time upload.
pub fn quad_vertices() -> (r: Vec<i64>)
    ensures
        r@ == quad_vertex_data(),
{
    let r: Vec<i64> = vec![
        -100000, 100500, -100000, 0, 1000,
        -100000, 100500, 100000, 0, 0,
        100000, 100500, 100000, 1000, 0,
        100000, 100500, 100000, 1000, 0,
        100000, 100500, -100000, 1000, 1000,
        -100000, 100500, -100000, 0, 1000,
    ];
    proof {
        assert(r@ =~= quad_vertex_data());
    }
    r
}

/// The shader-uniform contract: every uniform the renderer writes, in write
/// order, with the source of its value.
pub open spec fn uniform_table_spec() -> Seq<(UniformName, UniformSource)> {
    seq![
        (UniformName::Mvp, UniformSource::CameraMvp),
        (UniformName::Opacity, UniformSource::ConstScalar(1000)),
        (UniformName::Time, UniformSource::ElapsedSeconds),
        (UniformName::Scale, UniformSource::ConstScalar(1000)),
        (UniformName::AmbientBrightMult, UniformSource::ConstScalar(1000)),
        (UniformName::CamDir, UniformSource::CameraDirection),
        (UniformName::CamPos, UniformSource::CameraPosition),
        (UniformName::ViewDistance, UniformSource::ConstScalar(8000)),
        (UniformName::FogCol, UniformSource::ConstVec4(0, 0, 0, 1000)),
        (UniformName::Sunset, UniformSource::ConstScalar(0)),
        (UniformName::Sunrise, UniformSource::ConstScalar(0)),
    ]
}

/// The uniform contract as a value, for callers that resolve names against a
/// compiled shader.
pub fn uniform_table() -> (r: Vec<(UniformName, UniformSource)>)
    ensures
        r@ == uniform_table_spec(),
{
    let r: Vec<(UniformName, UniformSource)> = vec![
        (UniformName::Mvp, UniformSource::CameraMvp),
        (UniformName::Opacity, UniformSource::ConstScalar(1000)),
        (UniformName::Time, UniformSource::ElapsedSeconds),
        (UniformName::Scale, UniformSource::ConstScalar(1000)),
        (UniformName::AmbientBrightMult, UniformSource::ConstScalar(1000)),
        (UniformName::CamDir, UniformSource::CameraDirection),
        (UniformName::CamPos, UniformSource::CameraPosition),
        (UniformName::ViewDistance, UniformSource::ConstScalar(8000)),
        (UniformName::FogCol, UniformSource::ConstVec4(0, 0, 0, 1000)),
        (UniformName::Sunset, UniformSource::ConstScalar(0)),
        (UniformName::Sunrise, UniformSource::ConstScalar(0)),
    ];
    proof {
        assert(r@ =~= uniform_table_spec());
    }
    r
}

/// The uniform-write commands for the first `n` table entries: an entry is
/// written exactly when the shader has its name, in table order.
pub open spec fn uniform_commands_upto(avail: Seq<UniformName>, n: int) -> Seq<GpuCommand>
    decreases n,
{
    if n <= 0 {
        Seq::empty()
    } else {
        uniform_commands_upto(avail, n - 1) + (if avail.contains(uniform_table_spec()[n - 1].0) {
            seq![
                GpuCommand::WriteUniform {
                    name: uniform_table_spec()[n - 1].0,
                    source: uniform_table_spec()[n - 1].1,
                },
            ]
        } else {
            Seq::<GpuCommand>::empty()
        })
    }
}

/// The uniform-write commands of a frame, given the names the compiled
/// shader actually has.
pub open spec fn uniform_commands(avail: Seq<UniformName>) -> Seq<GpuCommand> {
    uniform_commands_upto(avail, uniform_table_spec().len() as int)
}

/// The one-time setup: create and fill the quad's buffer, attach it, declare
/// the two attributes.
pub open spec fn setup_commands() -> Seq<GpuCommand> {
    seq![
        GpuCommand::CreateBuffer,
        GpuCommand::UploadQuad,
        GpuCommand::AttachQuadBuffer { stride_bytes: VERTEX_STRIDE_BYTES },
        GpuCommand::DeclareAttribute {
            kind: AttributeKind::Position,
            components: 3,
            offset_bytes: POSITION_OFFSET_BYTES,
        },
        GpuCommand::DeclareAttribute {
            kind: AttributeKind::TexCoord,
            components: 2,
            offset_bytes: UV_OFFSET_BYTES,
        },
    ]
}

/// Everything a frame does, in order: bind, one-time setup when the
/// resources do not exist yet, the uniform writes the shader accepts, and
/// the culling-guarded draw.
pub open spec fn spec_frame_commands(ready: bool, avail: Seq<UniformName>) -> Seq<GpuCommand> {
    seq![GpuCommand::BindVertexArray, GpuCommand::UseProgram] + (if ready {
        Seq::<GpuCommand>::empty()
    } else {
        setup_commands()
    }) + uniform_commands(avail) + seq![
        GpuCommand::DisableCulling,
        GpuCommand::DrawTriangles { vertices: QUAD_VERTEX_COUNT },
        GpuCommand::EnableCulling,
    ]
}

/// The renderer's resource lifecycle: GPU handles not yet created, or
/// created and configured for the rest of the process's life.
#[derive(Clone, Copy, PartialEq, Eq, Structural, Debug)]
pub enum ResourceState {
    Uninitialized,
    Ready,
}

/// The renderer's own state: just the one-time-upload stage. The GPU handles
/// themselves live with the caller that owns the GPU context.
pub struct Renderer {
    pub state: ResourceState,
}

/// Membership test against the names a shader was found to have.
pub fn contains_name(avail: &Vec<UniformName>, n: UniformName) -> (r: bool)
    ensures
        r == avail@.contains(n),
{
    let mut i: usize = 0;
    while i < avail.len()
        invariant
            i <= avail@.len(),
            forall|k: int| 0 <= k < i ==> avail@[k] != n,
        decreases avail@.len() - i,
    {
        if avail[i] == n {
            return true;
        }
        i = i + 1;
    }
    false
}

impl Renderer {
    /// A fresh renderer: no GPU resources yet.
    pub fn new() -> (r: Renderer)
        ensures
            r.state == ResourceState::Uninitialized,
    {
        Renderer { state: ResourceState::Uninitialized }
    }

    /// Produces the frame's GPU commands and advances the resource state:
    /// the setup commands appear exactly on the first frame, and afterwards
    /// the renderer is `Ready` forever.
    pub fn render_frame(&mut self, available: &Vec<UniformName>) -> (cmds: Vec<GpuCommand>)
        ensures
            final(self).state == ResourceState::Ready,
            cmds@ == spec_frame_commands(
                old(self).state == ResourceState::Ready,
                available@,
            ),
    {
        let ghost ready = self.state == ResourceState::Ready;
        let mut cmds: Vec<GpuCommand> = Vec::new();
        cmds.push(GpuCommand::BindVertexArray);
        cmds.push(GpuCommand::UseProgram);
        if matches!(self.state, ResourceState::Uninitialized) {
            cmds.push(GpuCommand::CreateBuffer);
            cmds.push(GpuCommand::UploadQuad);
            cmds.push(GpuCommand::AttachQuadBuffer { stride_bytes: VERTEX_STRIDE_BYTES });
            cmds.push(
                GpuCommand::DeclareAttribute {
                    kind: AttributeKind::Position,
                    components: 3,
                    offset_bytes: POSITION_OFFSET_BYTES,
                },
            );
            cmds.push(
                GpuCommand::DeclareAttribute {
                    kind: AttributeKind::TexCoord,
                    components: 2,
                    offset_bytes: UV_OFFSET_BYTES,
                },
            );
            self.state = ResourceState::Ready;
        }
        let ghost prefix = seq![GpuCommand::BindVertexArray, GpuCommand::UseProgram] + (if ready {
            Seq::<GpuCommand>::empty()
        } else {
            setup_commands()
        });
        proof {
            assert(cmds@ =~= prefix + uniform_commands_upto(available@, 0));
        }
        let table = uniform_table();
        let mut i: usize = 0;
        while i < table.len()
            invariant
                table@ == uniform_table_spec(),
                i <= table@.len(),
                cmds@ == prefix + uniform_commands_upto(available@, i as int),
            decreases table@.len() - i,
        {
            let (name, source) = table[i];
            if contains_name(available, name) {
                cmds.push(GpuCommand::WriteUniform { name, source });
            }
            proof {
                assert(cmds@ =~= prefix + uniform_commands_upto(available@, i as int + 1));
            }
            i = i + 1;
        }
        cmds.push(GpuCommand::DisableCulling);
        cmds.push(GpuCommand::DrawTriangles { vertices: QUAD_VERTEX_COUNT });
        cmds.push(GpuCommand::EnableCulling);
        proof {
            assert(cmds@ =~= spec_frame_commands(ready, available@));
        }
        cmds
    }
}

/// How many buffer-creation commands a command sequence holds.
pub open spec fn creates_in(cmds: Seq<GpuCommand>) -> int
    decreases cmds.len(),
{
    if cmds.len() == 0 {
        0
    } else {
        (if cmds[0] is CreateBuffer {
            1int
        } else {
            0int
        }) + creates_in(cmds.drop_first())
    }
}

/// Buffer-creation counts add over concatenation.
pub proof fn lemma_creates_concat(a: Seq<GpuCommand>, b: Seq<GpuCommand>)
    ensures
        creates_in(a + b) == creates_in(a) + creates_in(b),
    decreases a.len(),
{
    if a.len() == 0 {
        assert(a + b =~= b);
    } else {
        assert((a + b).drop_first() =~= a.drop_first() + b);
        lemma_creates_concat(a.drop_first(), b);
    }
}

/// Uniform writes never create buffers.
pub proof fn lemma_uniform_commands_no_create(avail: Seq<UniformName>, n: int)
    ensures
        creates_in(uniform_commands_upto(avail, n)) == 0,
    decreases n,
{
    if n <= 0 {
    } else {
        lemma_uniform_commands_no_create(avail, n - 1);
        if avail.contains(uniform_table_spec()[n - 1].0) {
            let w = seq![
                GpuCommand::WriteUniform {
                    name: uniform_table_spec()[n - 1].0,
                    source: uniform_table_spec()[n - 1].1,
                },
            ];
            assert(creates_in(w) == 0) by {
                reveal_with_fuel(creates_in, 3);
                assert(w.drop_first() =~= Seq::<GpuCommand>::empty());
            }
            lemma_creates_concat(uniform_commands_upto(avail, n - 1), w);
        } else {
            lemma_creates_concat(
                uniform_commands_upto(avail, n - 1),
                Seq::<GpuCommand>::empty(),
            );
        }
    }
}

/// A frame creates the buffer exactly once, on the first frame, and never
/// afterwards.
pub proof fn lemma_frame_creates(ready: bool, avail: Seq<UniformName>)
    ensures
        creates_in(spec_frame_commands(ready, avail)) == if ready {
            0int
        } else {
            1int
        },
{
    reveal_with_fuel(creates_in, 7);
    let head = seq![GpuCommand::BindVertexArray, GpuCommand::UseProgram];
    let mid = if ready {
        Seq::<GpuCommand>::empty()
    } else {
        setup_commands()
    };
    let tail = seq![
        GpuCommand::DisableCulling,
        GpuCommand::DrawTriangles { vertices: QUAD_VERTEX_COUNT },
        GpuCommand::EnableCulling,
    ];
    assert(creates_in(head) == 0) by {
        reveal_with_fuel(creates_in, 3);
        assert(head.drop_first() =~= seq![GpuCommand::UseProgram]);
        assert(head.drop_first().drop_first() =~= Seq::<GpuCommand>::empty());
    }
    assert(creates_in(tail) == 0) by {
        reveal_with_fuel(creates_in, 4);
        assert(tail.drop_first().drop_first() =~= seq![GpuCommand::EnableCulling]);
        assert(tail.drop_first().drop_first().drop_first() =~= Seq::<GpuCommand>::empty());
    }
    assert(creates_in(mid) == if ready { 0int } else { 1int }) by {
        reveal_with_fuel(creates_in, 7);
        if !ready {
            assert(mid.drop_first().drop_first().drop_first().drop_first().drop_first()
                =~= Seq::<GpuCommand>::empty());
        }
    }
    lemma_uniform_commands_no_create(avail, uniform_table_spec().len() as int);
    lemma_creates_concat(head, mid);
    lemma_creates_concat(head + mid, uniform_commands(avail));
    lemma_creates_concat(head + mid + uniform_commands(avail), tail);
}

/// The buffer creations a run of frames performs in total, starting from the
/// given resource stage; after any frame the renderer is ready, so the stage
/// of every later frame is `true`.
pub open spec fn frames_creates(ready: bool, frames: Seq<Seq<UniformName>>) -> int
    decreases frames.len(),
{
    if frames.len() == 0 {
        0
    } else {
        creates_in(spec_frame_commands(ready, frames[0])) + frames_creates(
            true,
            frames.drop_first(),
        )
    }
}

/// A renderer that is already ready never creates another buffer, over any
/// run of frames.
pub proof fn lemma_ready_frames_create_nothing(frames: Seq<Seq<UniformName>>)
    ensures
        frames_creates(true, frames) == 0,
    decreases frames.len(),
{
    if frames.len() > 0 {
        lemma_frame_creates(true, frames[0]);
        lemma_ready_frames_create_nothing(frames.drop_first());
    }
}

/// One-time upload: over any run of one or more frames from a fresh
/// renderer, exactly one buffer-creation command is issued, however many
/// frames run.
pub proof fn lemma_one_time_upload(frames: Seq<Seq<UniformName>>)
    requires
        frames.len() >= 1,
    ensures
        frames_creates(false, frames) == 1,
{
    lemma_frame_creates(false, frames[0]);
    lemma_ready_frames_create_nothing(frames.drop_first());
}

/// Exactly the available table entries are written: a uniform-write command
/// stands in the stream if and only if it is a table entry whose name the
/// shader has. A missing name is skipped and everything else is still
/// written.
pub proof fn lemma_uniform_write_iff(
    avail: Seq<UniformName>,
    n: int,
    name: UniformName,
    source: UniformSource,
)
    requires
        0 <= n <= uniform_table_spec().len(),
    ensures
        uniform_commands_upto(avail, n).contains(
            GpuCommand::WriteUniform { name, source },
        ) <==> (exists|i: int|
            0 <= i < n && #[trigger] uniform_table_spec()[i] == (name, source)
                && avail.contains(name)),
    decreases n,
{
    let w = GpuCommand::WriteUniform { name, source };
    if n > 0 {
        lemma_uniform_write_iff(avail, n - 1, name, source);
        let prev = uniform_commands_upto(avail, n - 1);
        let entry = uniform_table_spec()[n - 1];
        let cur = uniform_commands_upto(avail, n);
        if avail.contains(entry.0) {
            assert(cur =~= prev.push(
                GpuCommand::WriteUniform { name: entry.0, source: entry.1 },
            ));
            if cur.contains(w) {
                let j = choose|j: int| 0 <= j < cur.len() && cur[j] == w;
                if j < prev.len() {
                    assert(prev.contains(w));
                } else {
                    assert(uniform_table_spec()[n - 1] == (name, source));
                }
            }
            if prev.contains(w) {
                let j = choose|j: int| 0 <= j < prev.len() && prev[j] == w;
                assert(cur[j] == w);
            }
            if entry == (name, source) && avail.contains(name) {
                assert(cur[cur.len() - 1] == w);
            }
        } else {
            assert(cur =~= prev);
        }
    }
}

/// A name the shader does not have is never written, whatever its source
/// would have been.
pub proof fn lemma_missing_uniform_skipped(avail: Seq<UniformName>, name: UniformName)
    requires
        !avail.contains(name),
    ensures
        forall|source: UniformSource|
            !(#[trigger] uniform_commands(avail).contains(
                GpuCommand::WriteUniform { name, source },
            )),
{
    assert forall|source: UniformSource|
        !(#[trigger] uniform_commands(avail).contains(
            GpuCommand::WriteUniform { name, source },
        )) by {
        lemma_uniform_write_iff(
            avail,
            uniform_table_spec().len() as int,
            name,
            source,
        );
    }
}

/// Every table entry whose name the shader has is written, missing names
/// notwithstanding.
pub proof fn lemma_available_uniform_written(avail: Seq<UniformName>, i: int)
    requires
        0 <= i < uniform_table_spec().len(),
        avail.contains(uniform_table_spec()[i].0),
    ensures
        uniform_commands(avail).contains(
            GpuCommand::WriteUniform {
                name: uniform_table_spec()[i].0,
                source: uniform_table_spec()[i].1,
            },
        ),
{
    lemma_uniform_write_iff(
        avail,
        uniform_table_spec().len() as int,
        uniform_table_spec()[i].0,
        uniform_table_spec()[i].1,
    );
}

} // verus!
