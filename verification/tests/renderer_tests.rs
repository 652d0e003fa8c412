use entity_renderer::SCALE;
use entity_renderer::commands::GlCommand;
use entity_renderer::maths::Rot;
use entity_renderer::maths::Vec3;
use entity_renderer::maths::create_projection_matrix_perspective;
use entity_renderer::maths::create_transformation_matrix;
use entity_renderer::models::DisplayConfig;
use entity_renderer::models::Entity;
use entity_renderer::models::ModelTexture;
use entity_renderer::models::RawModel;
use entity_renderer::models::ShaderProgram;
use entity_renderer::models::TexturedModel;
use entity_renderer::renderer::Renderer;

fn rot_zero() -> Rot {
    Rot { sin: 0, cos: SCALE }
}

fn sample_model(vao: u32, tex: u32, count: i32) -> TexturedModel {
    TexturedModel {
        raw_model: RawModel { vao_id: vao, vertex_count: count },
        texture: ModelTexture { id: tex, shine_damper: 10 * SCALE, reflectivity: SCALE },
    }
}

fn entity_at(model: TexturedModel, x: i64, y: i64, z: i64) -> Entity {
    Entity {
        model,
        position: Vec3 { x, y, z },
        rot_x: rot_zero(),
        rot_y: rot_zero(),
        rot_z: rot_zero(),
        scale: SCALE,
    }
}

fn model_binding_cmds(model: &TexturedModel) -> Vec<GlCommand> {
    vec![
        GlCommand::BindVertexArray { vao_id: model.raw_model.vao_id },
        GlCommand::EnableVertexAttribArray { index: 0 },
        GlCommand::EnableVertexAttribArray { index: 1 },
        GlCommand::EnableVertexAttribArray { index: 2 },
        GlCommand::LoadShineVariables {
            shine_damper: model.texture.shine_damper,
            reflectivity: model.texture.reflectivity,
        },
        GlCommand::ActiveTextureUnit { unit: 0 },
        GlCommand::BindTexture2d { texture_id: model.texture.id },
    ]
}

fn instance_cmds(e: &Entity) -> Vec<GlCommand> {
    let matrix = create_transformation_matrix(
        &e.position,
        &e.rot_x,
        &e.rot_y,
        &e.rot_z,
        e.scale,
    );
    vec![
        GlCommand::LoadTransformationMatrix { matrix },
        GlCommand::DrawTrianglesIndexed { index_count: e.model.raw_model.vertex_count },
    ]
}

fn draw_calls(cmds: &[GlCommand]) -> usize {
    cmds.iter()
        .filter(|c| matches!(c, GlCommand::DrawTrianglesIndexed { .. }))
        .count()
}

#[test]
fn construction_uploads_the_projection_once() {
    let display = DisplayConfig { width: 800, height: 800 };
    let shader = ShaderProgram { program_id: 7 };
    let mut renderer = Renderer::new(shader, &display);
    let cmds = renderer.take_commands();
    let expected = vec![
        GlCommand::EnableCullFace,
        GlCommand::CullBackFace,
        GlCommand::StartShader { program_id: 7 },
        GlCommand::LoadProjectionMatrix {
            matrix: create_projection_matrix_perspective(800, 800),
        },
        GlCommand::StopShader,
    ];
    assert_eq!(cmds, expected);
}

#[test]
fn take_commands_leaves_the_buffer_empty() {
    let display = DisplayConfig { width: 640, height: 480 };
    let mut renderer = Renderer::new(ShaderProgram { program_id: 1 }, &display);
    let first = renderer.take_commands();
    assert!(!first.is_empty());
    let second = renderer.take_commands();
    assert!(second.is_empty());
}

#[test]
fn prepare_clears_and_sets_the_background() {
    let display = DisplayConfig { width: 640, height: 480 };
    let mut renderer = Renderer::new(ShaderProgram { program_id: 1 }, &display);
    renderer.take_commands();
    renderer.prepare();
    let cmds = renderer.take_commands();
    let expected = vec![
        GlCommand::EnableDepthTest,
        GlCommand::ClearColorAndDepth,
        GlCommand::SetClearColor { red: 0, green: 19661, blue: 0, alpha: 65536 },
    ];
    assert_eq!(cmds, expected);
}

#[test]
fn render_of_empty_collection_issues_nothing() {
    let display = DisplayConfig { width: 800, height: 600 };
    let mut renderer = Renderer::new(ShaderProgram { program_id: 2 }, &display);
    renderer.take_commands();
    let entities: Vec<Vec<Entity>> = Vec::new();
    renderer.render(&entities);
    let cmds = renderer.take_commands();
    assert_eq!(draw_calls(&cmds), 0);
    assert!(cmds.is_empty());
}

#[test]
fn render_skips_empty_groups() {
    let display = DisplayConfig { width: 800, height: 600 };
    let mut renderer = Renderer::new(ShaderProgram { program_id: 2 }, &display);
    renderer.take_commands();
    let entities: Vec<Vec<Entity>> = vec![Vec::new(), Vec::new()];
    renderer.render(&entities);
    let cmds = renderer.take_commands();
    assert!(cmds.is_empty());
}

#[test]
fn render_one_group_of_three_draws_each_instance_once() {
    let display = DisplayConfig { width: 800, height: 600 };
    let mut renderer = Renderer::new(ShaderProgram { program_id: 3 }, &display);
    renderer.take_commands();
    let model = sample_model(11, 42, 36);
    let e1 = entity_at(model, SCALE, 0, 0);
    let e2 = entity_at(model, 0, 2 * SCALE, 0);
    let e3 = entity_at(model, 0, 0, -5 * SCALE);
    let entities = vec![vec![e1, e2, e3]];
    renderer.render(&entities);
    let cmds = renderer.take_commands();

    let mut expected = model_binding_cmds(&model);
    expected.extend(instance_cmds(&e1));
    expected.extend(instance_cmds(&e2));
    expected.extend(instance_cmds(&e3));
    assert_eq!(cmds, expected);
    assert_eq!(draw_calls(&cmds), 3);

    // Each draw is immediately preceded by exactly one transformation
    // upload carrying that entity's matrix.
    for (i, c) in cmds.iter().enumerate() {
        if matches!(c, GlCommand::DrawTrianglesIndexed { .. }) {
            assert!(matches!(cmds[i - 1], GlCommand::LoadTransformationMatrix { .. }));
        }
    }
}

#[test]
fn render_two_groups_binds_each_model_once_in_order() {
    let display = DisplayConfig { width: 800, height: 600 };
    let mut renderer = Renderer::new(ShaderProgram { program_id: 3 }, &display);
    renderer.take_commands();
    let model_a = sample_model(1, 100, 9);
    let model_b = sample_model(2, 200, 12);
    let a1 = entity_at(model_a, SCALE, 0, 0);
    let a2 = entity_at(model_a, -SCALE, 0, 0);
    let b1 = entity_at(model_b, 0, SCALE, 0);
    let entities = vec![vec![a1, a2], vec![b1]];
    renderer.render(&entities);
    let cmds = renderer.take_commands();

    let mut expected = model_binding_cmds(&model_a);
    expected.extend(instance_cmds(&a1));
    expected.extend(instance_cmds(&a2));
    expected.extend(model_binding_cmds(&model_b));
    expected.extend(instance_cmds(&b1));
    assert_eq!(cmds, expected);
}

#[test]
fn unbind_disables_attributes_and_unbinds_the_array() {
    let display = DisplayConfig { width: 800, height: 600 };
    let mut renderer = Renderer::new(ShaderProgram { program_id: 4 }, &display);
    renderer.take_commands();
    renderer.unbind_textured_model();
    let cmds = renderer.take_commands();
    let expected = vec![
        GlCommand::DisableVertexAttribArray { index: 0 },
        GlCommand::DisableVertexAttribArray { index: 1 },
        GlCommand::DisableVertexAttribArray { index: 2 },
        GlCommand::BindVertexArray { vao_id: 0 },
    ];
    assert_eq!(cmds, expected);
}

#[test]
fn shared_model_is_untouched_by_instance_transforms() {
    let model = sample_model(5, 6, 21);
    let before = model;
    let e1 = entity_at(model, SCALE, 0, 0);
    let e2 = entity_at(model, 0, SCALE, 0);
    let m1 = create_transformation_matrix(&e1.position, &e1.rot_x, &e1.rot_y, &e1.rot_z, e1.scale);
    let m2 = create_transformation_matrix(&e2.position, &e2.rot_x, &e2.rot_y, &e2.rot_z, e2.scale);
    assert_ne!(m1, m2);
    assert_eq!(e1.model, before);
    assert_eq!(e2.model, before);

    // The matrix is a function of the pose alone: another entity with the
    // same pose but a different model gets the same matrix.
    let other = sample_model(99, 98, 3);
    let e3 = entity_at(other, SCALE, 0, 0);
    let m3 = create_transformation_matrix(&e3.position, &e3.rot_x, &e3.rot_y, &e3.rot_z, e3.scale);
    assert_eq!(m1, m3);
}

#[test]
fn prepare_instance_uploads_that_entitys_matrix() {
    let display = DisplayConfig { width: 800, height: 600 };
    let mut renderer = Renderer::new(ShaderProgram { program_id: 5 }, &display);
    renderer.take_commands();
    let e = entity_at(sample_model(8, 9, 30), 0, 0, -3 * SCALE);
    renderer.prepare_instance(e);
    let cmds = renderer.take_commands();
    let matrix = create_transformation_matrix(&e.position, &e.rot_x, &e.rot_y, &e.rot_z, e.scale);
    assert_eq!(cmds, vec![GlCommand::LoadTransformationMatrix { matrix }]);
}

#[test]
fn prepare_textured_model_binds_everything_once() {
    let display = DisplayConfig { width: 800, height: 600 };
    let mut renderer = Renderer::new(ShaderProgram { program_id: 5 }, &display);
    renderer.take_commands();
    let model = sample_model(13, 14, 60);
    renderer.prepare_textured_model(&model);
    let cmds = renderer.take_commands();
    assert_eq!(cmds, model_binding_cmds(&model));
}
