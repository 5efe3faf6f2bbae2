use cloudcam::matrix::{identity, multiply, Mat4};
use cloudcam::renderer::{
    quad_vertices, uniform_table, AttributeKind, GpuCommand, UniformName, UniformSource,
    QUAD_VERTEX_COUNT, UV_OFFSET_BYTES, VERTEX_STRIDE_BYTES,
};
use cloudcam::TestThing;

fn all_names() -> Vec<UniformName> {
    vec![
        UniformName::Mvp,
        UniformName::Opacity,
        UniformName::Time,
        UniformName::Scale,
        UniformName::AmbientBrightMult,
        UniformName::CamDir,
        UniformName::CamPos,
        UniformName::ViewDistance,
        UniformName::FogCol,
        UniformName::Sunset,
        UniformName::Sunrise,
    ]
}

fn creates_in(cmds: &[GpuCommand]) -> usize {
    cmds.iter().filter(|c| matches!(c, GpuCommand::CreateBuffer)).count()
}

#[test]
fn buffer_is_created_exactly_once_across_frames() {
    let mut t = TestThing::new();
    let avail = all_names();
    let first = t.draw_clouds(&avail);
    assert_eq!(creates_in(&first), 1);
    let mut total = creates_in(&first);
    for _ in 0..5 {
        let cmds = t.draw_clouds(&avail);
        assert_eq!(creates_in(&cmds), 0);
        total += creates_in(&cmds);
    }
    assert_eq!(total, 1);
}

#[test]
fn first_frame_commands_in_order() {
    let mut t = TestThing::new();
    let avail = all_names();
    let cmds = t.draw_clouds(&avail);
    assert_eq!(cmds.len(), 21);
    assert_eq!(cmds[0], GpuCommand::BindVertexArray);
    assert_eq!(cmds[1], GpuCommand::UseProgram);
    assert_eq!(cmds[2], GpuCommand::CreateBuffer);
    assert_eq!(cmds[3], GpuCommand::UploadQuad);
    assert_eq!(cmds[4], GpuCommand::AttachQuadBuffer { stride_bytes: VERTEX_STRIDE_BYTES });
    assert_eq!(
        cmds[5],
        GpuCommand::DeclareAttribute {
            kind: AttributeKind::Position,
            components: 3,
            offset_bytes: 0,
        }
    );
    assert_eq!(
        cmds[6],
        GpuCommand::DeclareAttribute {
            kind: AttributeKind::TexCoord,
            components: 2,
            offset_bytes: UV_OFFSET_BYTES,
        }
    );
    // All eleven uniforms written, in table order.
    let table = uniform_table();
    for (i, (name, source)) in table.iter().enumerate() {
        assert_eq!(cmds[7 + i], GpuCommand::WriteUniform { name: *name, source: *source });
    }
    assert_eq!(cmds[18], GpuCommand::DisableCulling);
    assert_eq!(cmds[19], GpuCommand::DrawTriangles { vertices: QUAD_VERTEX_COUNT });
    assert_eq!(cmds[20], GpuCommand::EnableCulling);
}

#[test]
fn missing_sunset_uniform_is_skipped_and_others_written() {
    let mut t = TestThing::new();
    let avail: Vec<UniformName> =
        all_names().into_iter().filter(|n| *n != UniformName::Sunset).collect();
    let cmds = t.draw_clouds(&avail);
    let written: Vec<UniformName> = cmds
        .iter()
        .filter_map(|c| match c {
            GpuCommand::WriteUniform { name, .. } => Some(*name),
            _ => None,
        })
        .collect();
    assert!(!written.contains(&UniformName::Sunset));
    for name in avail {
        assert!(written.contains(&name), "{:?} missing", name);
    }
    assert_eq!(written.len(), 10);
    // The frame still completes in full: culling toggles and the draw.
    assert_eq!(cmds[cmds.len() - 1], GpuCommand::EnableCulling);
    assert_eq!(
        cmds[cmds.len() - 2],
        GpuCommand::DrawTriangles { vertices: QUAD_VERTEX_COUNT }
    );
}

#[test]
fn uniform_contract_matches_the_shader_table() {
    let table = uniform_table();
    assert_eq!(table.len(), 11);
    assert_eq!(table[0], (UniformName::Mvp, UniformSource::CameraMvp));
    assert_eq!(table[1], (UniformName::Opacity, UniformSource::ConstScalar(1000)));
    assert_eq!(table[2], (UniformName::Time, UniformSource::ElapsedSeconds));
    assert_eq!(table[3], (UniformName::Scale, UniformSource::ConstScalar(1000)));
    assert_eq!(
        table[4],
        (UniformName::AmbientBrightMult, UniformSource::ConstScalar(1000))
    );
    assert_eq!(table[5], (UniformName::CamDir, UniformSource::CameraDirection));
    assert_eq!(table[6], (UniformName::CamPos, UniformSource::CameraPosition));
    assert_eq!(table[7], (UniformName::ViewDistance, UniformSource::ConstScalar(8000)));
    assert_eq!(table[8], (UniformName::FogCol, UniformSource::ConstVec4(0, 0, 0, 1000)));
    assert_eq!(table[9], (UniformName::Sunset, UniformSource::ConstScalar(0)));
    assert_eq!(table[10], (UniformName::Sunrise, UniformSource::ConstScalar(0)));
}

#[test]
fn uniform_and_attribute_names_match_the_shader_source() {
    assert_eq!(UniformName::Mvp.text(), "mvp");
    assert_eq!(UniformName::Opacity.text(), "opacity");
    assert_eq!(UniformName::Time.text(), "time");
    assert_eq!(UniformName::Scale.text(), "scale");
    assert_eq!(UniformName::AmbientBrightMult.text(), "ambientBrightMult");
    assert_eq!(UniformName::CamDir.text(), "camDir");
    assert_eq!(UniformName::CamPos.text(), "camPos");
    assert_eq!(UniformName::ViewDistance.text(), "viewDistance");
    assert_eq!(UniformName::FogCol.text(), "fogCol");
    assert_eq!(UniformName::Sunset.text(), "sunset");
    assert_eq!(UniformName::Sunrise.text(), "sunrise");
    assert_eq!(AttributeKind::Position.text(), "aPos");
    assert_eq!(AttributeKind::TexCoord.text(), "uv");
}

#[test]
fn quad_mesh_is_the_fixed_interleaved_square() {
    let v = quad_vertices();
    assert_eq!(v.len(), 30);
    let expected: Vec<i64> = vec![
        -100000, 100500, -100000, 0, 1000,
        -100000, 100500, 100000, 0, 0,
        100000, 100500, 100000, 1000, 0,
        100000, 100500, 100000, 1000, 0,
        100000, 100500, -100000, 1000, 1000,
        -100000, 100500, -100000, 0, 1000,
    ];
    assert_eq!(v, expected);
    assert_eq!(VERTEX_STRIDE_BYTES, 20);
    assert_eq!(UV_OFFSET_BYTES, 12);
    assert_eq!(QUAD_VERTEX_COUNT as usize, v.len() / 5);
}

#[test]
fn multiplying_by_the_identity_changes_nothing() {
    let a = Mat4 { m: vec![3, 1, 4, 1, 5, 9, 2, 6, 5, 3, 5, 8, 9, 7, 9, 3] };
    let product = multiply(&a, &identity());
    assert_eq!(product.m, a.m);
    let b = identity();
    let product2 = multiply(&b, &a);
    assert_eq!(product2.m, a.m);
}
