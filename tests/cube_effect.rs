use cube_effect::cube::cube_positions;
use cube_effect::cube_map::{view_projection, CubeMapSide, ViewProjection};
use cube_effect::gpu::{Command, Cull, DepthTest, Error, RenderStates, Viewport};
use cube_effect::image_cube_effect::{
    DrawPass, DrawStage, DrawStep, EffectSetup, ImageCubeEffect, SetupStep, VERTEX_SHADER_SOURCE,
};
use cube_effect::math::{Mat4, Vec3, Vec4};

const FRAGMENT: &str = "in vec3 pos; out vec4 color; void main() { color = vec4(normalize(pos), 1.0); }";

fn states() -> RenderStates {
    RenderStates { write_color: true, write_depth: false, depth_test: DepthTest::Always, blend: false, cull: Cull::Nothing }
}

fn viewport() -> Viewport {
    Viewport { x: 0, y: 0, width: 100, height: 50 }
}

fn v4(x: i64, y: i64, z: i64, w: i64) -> Vec4 {
    Vec4 { x, y, z, w }
}

fn built_effect(program: u32, buffer: u32) -> ImageCubeEffect {
    let (setup, _) = ImageCubeEffect::new(FRAGMENT);
    let setup = match setup.advance(Ok(program)) {
        SetupStep::Issue(s, _) => s,
        SetupStep::Finished(_) => panic!("construction ended after the compile"),
    };
    match setup.advance(Ok(buffer)) {
        SetupStep::Finished(Ok(effect)) => effect,
        other => panic!("unexpected step {:?}", other),
    }
}

fn apply(m: &Mat4, v: Vec4) -> [i64; 4] {
    let dot = |r: &Vec4| r.x * v.x + r.y * v.y + r.z * v.z + r.w * v.w;
    [dot(&m.r0), dot(&m.r1), dot(&m.r2), dot(&m.r3)]
}

#[test]
fn new_compiles_the_fixed_vertex_stage_with_the_fragment_stage() {
    let (setup, command) = ImageCubeEffect::new(FRAGMENT);
    assert_eq!(setup, EffectSetup::Compiling);
    match command {
        Command::CompileProgram { vertex_source, fragment_source } => {
            assert_eq!(vertex_source, VERTEX_SHADER_SOURCE);
            assert!(vertex_source.contains("uniform mat4 viewProjection;"));
            assert!(vertex_source.contains("out vec3 pos;"));
            assert_eq!(fragment_source, FRAGMENT);
        }
        other => panic!("unexpected command {:?}", other),
    }
}

#[test]
fn construction_uploads_the_unit_cube_and_succeeds() {
    let (setup, _) = ImageCubeEffect::new(FRAGMENT);
    let (setup, command) = match setup.advance(Ok(7)) {
        SetupStep::Issue(s, c) => (s, c),
        SetupStep::Finished(_) => panic!("construction ended after the compile"),
    };
    assert_eq!(setup, EffectSetup::Uploading { program: 7 });
    match command {
        Command::CreateStaticVertexBuffer { positions } => {
            assert_eq!(positions.len(), 36);
            assert!(positions.iter().all(|p| p.x.abs() == 1 && p.y.abs() == 1 && p.z.abs() == 1));
            assert_eq!(positions[0], Vec3 { x: 1, y: 1, z: -1 });
        }
        other => panic!("unexpected command {:?}", other),
    }
    match setup.advance(Ok(9)) {
        SetupStep::Finished(Ok(effect)) => {
            assert_eq!(effect.program(), 7);
            assert_eq!(effect.positions(), 9);
        }
        other => panic!("unexpected step {:?}", other),
    }
}

#[test]
fn cube_triangles_lie_on_the_six_faces() {
    let p = cube_positions();
    let mut faces = Vec::new();
    for t in 0..12 {
        let tri = &p[3 * t..3 * t + 3];
        let face = if tri.iter().all(|v| v.x == tri[0].x) {
            (0, tri[0].x)
        } else if tri.iter().all(|v| v.y == tri[0].y) {
            (1, tri[0].y)
        } else {
            assert!(tri.iter().all(|v| v.z == tri[0].z));
            (2, tri[0].z)
        };
        assert!(tri[0] != tri[1] && tri[1] != tri[2] && tri[0] != tri[2]);
        faces.push(face);
    }
    for f in 0..6 {
        assert_eq!(faces[2 * f], faces[2 * f + 1]);
    }
    let mut distinct: Vec<(i32, i64)> = faces.clone();
    distinct.sort();
    distinct.dedup();
    assert_eq!(distinct.len(), 6);
}

#[test]
fn malformed_fragment_shader_is_a_compilation_error() {
    let (setup, _) = ImageCubeEffect::new("void main() { color = undeclared; }");
    match setup.advance(Err("0:1: 'undeclared' : undeclared identifier".to_string())) {
        SetupStep::Finished(Err(Error::ShaderCompilation(m))) => assert!(m.contains("undeclared")),
        other => panic!("unexpected step {:?}", other),
    }
}

#[test]
fn failed_upload_is_a_resource_allocation_error() {
    let setup = EffectSetup::Uploading { program: 3 };
    match setup.advance(Err("out of memory".to_string())) {
        SetupStep::Finished(Err(Error::ResourceAllocation(m))) => assert_eq!(m, "out of memory"),
        other => panic!("unexpected step {:?}", other),
    }
}

#[test]
fn right_face_view_projection_is_exact() {
    let m = view_projection(CubeMapSide::Right, viewport());
    let expected = ViewProjection {
        numer: Mat4 {
            r0: v4(0, 0, -4950, 0),
            r1: v4(0, -9900, 0, 0),
            r2: v4(10100, 0, 0, -2000),
            r3: v4(9900, 0, 0, 0),
        },
        denom: 9900,
    };
    assert_eq!(m, expected);
}

#[test]
fn every_face_looks_along_its_axis() {
    let faces = [
        (CubeMapSide::Right, v4(1, 0, 0, 0), v4(0, -1, 0, 0)),
        (CubeMapSide::Left, v4(-1, 0, 0, 0), v4(0, -1, 0, 0)),
        (CubeMapSide::Top, v4(0, 1, 0, 0), v4(0, 0, 1, 0)),
        (CubeMapSide::Bottom, v4(0, -1, 0, 0), v4(0, 0, -1, 0)),
        (CubeMapSide::Front, v4(0, 0, 1, 0), v4(0, -1, 0, 0)),
        (CubeMapSide::Back, v4(0, 0, -1, 0), v4(0, -1, 0, 0)),
    ];
    for (side, look, up) in faces {
        let view = side.view();
        assert_eq!(apply(&view, look), [0, 0, -1, 0]);
        assert_eq!(apply(&view, up), [0, 1, 0, 0]);
        let m = view_projection(side, viewport());
        assert_eq!(apply(&m.numer, look), [0, 0, 10100, 9900]);
        assert_eq!(m.denom, 9900);
    }
}

#[test]
fn render_issues_uniform_attribute_and_draw() {
    let effect = built_effect(4, 5);
    let (pass, command) = effect.render(CubeMapSide::Top, states(), viewport());
    assert_eq!(pass.stage, DrawStage::BindingUniform);
    match command {
        Command::UseUniformMat4 { program, name, value } => {
            assert_eq!(program, 4);
            assert_eq!(name, "viewProjection");
            assert_eq!(value, view_projection(CubeMapSide::Top, viewport()));
        }
        other => panic!("unexpected command {:?}", other),
    }
    let pass = match pass.advance(Ok(0)) {
        DrawStep::Issue(p, Command::UseAttributeVec3 { program, name, buffer }) => {
            assert_eq!((program, name.as_str(), buffer), (4, "position", 5));
            p
        }
        other => panic!("unexpected step {:?}", other),
    };
    let pass = match pass.advance(Ok(0)) {
        DrawStep::Issue(p, Command::DrawArrays { program, render_states, viewport: vp, count }) => {
            assert_eq!((program, render_states, vp, count), (4, states(), viewport(), 36));
            p
        }
        other => panic!("unexpected step {:?}", other),
    };
    assert!(matches!(pass.advance(Ok(0)), DrawStep::Finished(Ok(()))));
}

#[test]
fn render_to_mip_level_matches_render() {
    let effect = built_effect(1, 2);
    for side in [CubeMapSide::Right, CubeMapSide::Left, CubeMapSide::Top, CubeMapSide::Bottom, CubeMapSide::Front, CubeMapSide::Back] {
        let (pa, ca) = effect.render(side, states(), viewport());
        let (pb, cb) = effect.render_to_mip_level(side, 3, states(), viewport());
        assert_eq!(pa, pb);
        assert_eq!(format!("{:?}", ca), format!("{:?}", cb));
    }
}

#[test]
fn missing_uniform_is_a_binding_error() {
    let effect = built_effect(1, 2);
    let (pass, _) = effect.render(CubeMapSide::Front, states(), viewport());
    match pass.advance(Err("no uniform viewProjection".to_string())) {
        DrawStep::Finished(Err(Error::UniformBinding(m))) => assert_eq!(m, "no uniform viewProjection"),
        other => panic!("unexpected step {:?}", other),
    }
    let pass = DrawPass { stage: DrawStage::BindingAttribute, ..pass };
    assert!(matches!(pass.advance(Err("no attribute".to_string())), DrawStep::Finished(Err(Error::UniformBinding(_)))));
}

#[test]
fn failed_draw_is_a_context_state_error() {
    let effect = built_effect(1, 2);
    let (pass, _) = effect.render(CubeMapSide::Back, states(), viewport());
    let pass = DrawPass { stage: DrawStage::Drawing, ..pass };
    match pass.advance(Err("no render target".to_string())) {
        DrawStep::Finished(Err(e)) => {
            assert!(matches!(e, Error::ContextState(_)));
            assert_eq!(e.message(), "no render target");
        }
        other => panic!("unexpected step {:?}", other),
    }
}
