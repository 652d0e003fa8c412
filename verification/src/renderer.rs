//! The per-frame entity renderer.
//!
//! The renderer owns one projection matrix, computed once at
//! construction, and a shader-program handle borrowed for its lifetime.
//! Each method appends to the renderer's command buffer exactly the
//! graphics commands the operation takes; the buffer is drained by the
//! shell that drives the native context. Draw order follows group order,
//! then instance order within a group; nothing is sorted and no binding
//! is restored afterwards.

use vstd::prelude::*;

verus! {

use crate::commands::GlCommand;
use crate::maths::Mat4;
use crate::maths::VIEWPORT_MAX;
use crate::maths::create_projection_matrix_perspective;
use crate::maths::create_transformation_matrix;
use crate::maths::spec_projection_matrix;
use crate::maths::spec_transformation_matrix;
use crate::models::DisplayConfig;
use crate::models::Entity;
use crate::models::ShaderProgram;
use crate::models::TexturedModel;
use crate::models::entity_wf;

/// The per-frame renderer.
pub struct Renderer {
    pub projection_matrix: Mat4,
    pub shader: ShaderProgram,
    pub commands: Vec<GlCommand>,
}

/// The commands construction issues: enable back-face culling, then
/// upload the fresh projection matrix inside a start/stop of the shader.
pub open spec fn spec_new_cmds(shader: ShaderProgram, projection: Mat4) -> Seq<GlCommand> {
    seq![
        GlCommand::EnableCullFace,
        GlCommand::CullBackFace,
        (GlCommand::StartShader { program_id: shader.program_id }),
        (GlCommand::LoadProjectionMatrix { matrix: projection }),
        GlCommand::StopShader,
    ]
}

/// The commands that start a frame: enable the depth test, clear both
/// buffers, and reset the clear color to the fixed background.
pub open spec fn spec_prepare_cmds() -> Seq<GlCommand> {
    seq![
        GlCommand::EnableDepthTest,
        GlCommand::ClearColorAndDepth,
        (GlCommand::SetClearColor { red: 0, green: 19661, blue: 0, alpha: 65536 }),
    ]
}

/// The commands that bind one textured model: its vertex array, the
/// three fixed attributes, its specular parameters, and its texture on
/// unit zero.
pub open spec fn spec_model_cmds(m: TexturedModel) -> Seq<GlCommand> {
    seq![
        (GlCommand::BindVertexArray { vao_id: m.raw_model.vao_id }),
        (GlCommand::EnableVertexAttribArray { index: 0 }),
        (GlCommand::EnableVertexAttribArray { index: 1 }),
        (GlCommand::EnableVertexAttribArray { index: 2 }),
        (GlCommand::LoadShineVariables {
            shine_damper: m.texture.shine_damper,
            reflectivity: m.texture.reflectivity,
        }),
        (GlCommand::ActiveTextureUnit { unit: 0 }),
        (GlCommand::BindTexture2d { texture_id: m.texture.id }),
    ]
}

/// The commands that undo a model binding: disable the three attributes
/// and unbind the vertex array.
pub open spec fn spec_unbind_cmds() -> Seq<GlCommand> {
    seq![
        (GlCommand::DisableVertexAttribArray { index: 0 }),
        (GlCommand::DisableVertexAttribArray { index: 1 }),
        (GlCommand::DisableVertexAttribArray { index: 2 }),
        (GlCommand::BindVertexArray { vao_id: 0 }),
    ]
}

/// The transformation matrix of one entity, from its pose alone.
pub open spec fn spec_entity_matrix(e: Entity) -> Mat4 {
    spec_transformation_matrix(e.position, e.rot_x, e.rot_y, e.rot_z, e.scale)
}

/// The two commands that draw one instance: upload its transformation
/// matrix, then issue an indexed draw with its model's index count.
pub open spec fn spec_instance_cmds(e: Entity) -> Seq<GlCommand> {
    seq![
        (GlCommand::LoadTransformationMatrix { matrix: spec_entity_matrix(e) }),
        (GlCommand::DrawTrianglesIndexed { index_count: e.model.raw_model.vertex_count }),
    ]
}

/// The instance commands of a group, in instance order.
pub open spec fn spec_instances_cmds(g: Seq<Entity>) -> Seq<GlCommand>
    decreases g.len(),
{
    if g.len() == 0 {
        Seq::empty()
    } else {
        spec_instances_cmds(g.drop_last()) + spec_instance_cmds(g.last())
    }
}

/// The commands of one group: bind its model once, then draw each
/// instance. An empty group issues nothing.
pub open spec fn spec_group_cmds(g: Seq<Entity>) -> Seq<GlCommand> {
    if g.len() == 0 {
        Seq::empty()
    } else {
        spec_model_cmds(g[0].model) + spec_instances_cmds(g)
    }
}

/// The commands of a whole frame's collection, in group order.
pub open spec fn spec_render_cmds(gs: Seq<Seq<Entity>>) -> Seq<GlCommand>
    decreases gs.len(),
{
    if gs.len() == 0 {
        Seq::empty()
    } else {
        spec_render_cmds(gs.drop_last()) + spec_group_cmds(gs.last())
    }
}

/// The grouped collection as a sequence of sequences.
pub open spec fn groups_view(v: Seq<Vec<Entity>>) -> Seq<Seq<Entity>> {
    v.map_values(|g: Vec<Entity>| g@)
}

/// Every entity of every group has a pose within the accepted ranges.
pub open spec fn entity_groups_wf(gs: Seq<Seq<Entity>>) -> bool {
    forall|i: int, j: int|
        0 <= i < gs.len() && 0 <= j < gs[i].len() ==> entity_wf(#[trigger] gs[i][j])
}

impl Renderer {
    /// Builds a renderer for the given display: enables back-face
    /// culling, computes the projection matrix from the viewport, and
    /// uploads it to the shader once.
    pub fn new(shader: ShaderProgram, dm: &DisplayConfig) -> (r: Renderer)
        requires
            0 < dm.width <= VIEWPORT_MAX,
            0 < dm.height <= VIEWPORT_MAX,
        ensures
            r.projection_matrix == spec_projection_matrix(dm.width as int, dm.height as int),
            r.shader == shader,
            r.commands@ == spec_new_cmds(shader, spec_projection_matrix(
                dm.width as int,
                dm.height as int,
            )),
    {
        let mut commands: Vec<GlCommand> = Vec::new();
        commands.push(GlCommand::EnableCullFace);
        commands.push(GlCommand::CullBackFace);
        let projection_matrix = create_projection_matrix_perspective(dm.width, dm.height);
        commands.push(GlCommand::StartShader { program_id: shader.program_id });
        commands.push(GlCommand::LoadProjectionMatrix { matrix: projection_matrix });
        commands.push(GlCommand::StopShader);
        proof {
            assert(commands@ =~= spec_new_cmds(shader, spec_projection_matrix(
                dm.width as int,
                dm.height as int,
            )));
        }
        Renderer { projection_matrix, shader, commands }
    }

    /// Starts a frame: called once before any draw call of the frame.
    pub fn prepare(&mut self)
        ensures
            final(self).commands@ == old(self).commands@ + spec_prepare_cmds(),
            final(self).projection_matrix == old(self).projection_matrix,
            final(self).shader == old(self).shader,
    {
        self.commands.push(GlCommand::EnableDepthTest);
        self.commands.push(GlCommand::ClearColorAndDepth);
        self.commands.push(GlCommand::SetClearColor { red: 0, green: 19661, blue: 0, alpha: 65536 });
        proof {
            assert(self.commands@ =~= old(self).commands@ + spec_prepare_cmds());
        }
    }

    /// Binds one textured model's state: vertex array, the three fixed
    /// attributes, the specular parameters, and the texture.
    pub fn prepare_textured_model(&mut self, model: &TexturedModel)
        ensures
            final(self).commands@ == old(self).commands@ + spec_model_cmds(*model),
            final(self).projection_matrix == old(self).projection_matrix,
            final(self).shader == old(self).shader,
    {
        let raw_model = model.get_raw_model();
        self.commands.push(GlCommand::BindVertexArray { vao_id: raw_model.vao_id });
        self.commands.push(GlCommand::EnableVertexAttribArray { index: 0 });
        self.commands.push(GlCommand::EnableVertexAttribArray { index: 1 });
        self.commands.push(GlCommand::EnableVertexAttribArray { index: 2 });
        let texture = model.get_texture();
        self.commands.push(GlCommand::LoadShineVariables {
            shine_damper: texture.shine_damper,
            reflectivity: texture.reflectivity,
        });
        self.commands.push(GlCommand::ActiveTextureUnit { unit: 0 });
        self.commands.push(GlCommand::BindTexture2d { texture_id: texture.id });
        proof {
            assert(self.commands@ =~= old(self).commands@ + spec_model_cmds(*model));
        }
    }

    /// Computes the transformation matrix of one instance from its pose
    /// and uploads it to the shader's transformation uniform.
    pub fn prepare_instance(&mut self, entity: Entity)
        requires
            entity_wf(entity),
        ensures
            final(self).commands@ == old(self).commands@ + seq![
                (GlCommand::LoadTransformationMatrix { matrix: spec_entity_matrix(entity) }),
            ],
            final(self).projection_matrix == old(self).projection_matrix,
            final(self).shader == old(self).shader,
    {
        let matrix = create_transformation_matrix(
            &entity.position,
            &entity.rot_x,
            &entity.rot_y,
            &entity.rot_z,
            entity.scale,
        );
        self.commands.push(GlCommand::LoadTransformationMatrix { matrix });
        proof {
            assert(self.commands@ =~= old(self).commands@ + seq![
                (GlCommand::LoadTransformationMatrix { matrix: spec_entity_matrix(entity) }),
            ]);
        }
    }

    /// Draws a frame's grouped collection: for each group in order, binds
    /// the group's model once, then for each instance in order uploads
    /// its transformation matrix and issues one indexed draw. An empty
    /// collection issues nothing; bindings are left as the last group set
    /// them.
    pub fn render(&mut self, entities: &Vec<Vec<Entity>>)
        requires
            entity_groups_wf(groups_view(entities@)),
        ensures
            final(self).commands@ == old(self).commands@
                + spec_render_cmds(groups_view(entities@)),
            final(self).projection_matrix == old(self).projection_matrix,
            final(self).shader == old(self).shader,
    {
        let ghost gs = groups_view(entities@);
        let ghost orig = self.commands@;
        let n = entities.len();
        let mut i: usize = 0;
        while i < n
            invariant
                i <= n,
                n == entities@.len(),
                gs == groups_view(entities@),
                entity_groups_wf(gs),
                self.commands@ == orig + spec_render_cmds(gs.take(i as int)),
                self.projection_matrix == old(self).projection_matrix,
                self.shader == old(self).shader,
            decreases n - i,
        {
            proof {
                assert(gs[i as int] == entities@[i as int]@);
            }
            let group_len = entities[i].len();
            if group_len > 0 {
                let first = entities[i][0];
                self.prepare_textured_model(&first.model);
                let mut j: usize = 0;
                while j < group_len
                    invariant
                        j <= group_len,
                        i < n,
                        n == entities@.len(),
                        gs == groups_view(entities@),
                        entity_groups_wf(gs),
                        group_len == gs[i as int].len(),
                        self.commands@ == orig + spec_render_cmds(gs.take(i as int))
                            + spec_model_cmds(gs[i as int][0].model)
                            + spec_instances_cmds(gs[i as int].take(j as int)),
                        self.projection_matrix == old(self).projection_matrix,
                        self.shader == old(self).shader,
                    decreases group_len - j,
                {
                    proof {
                        assert(gs[i as int] == entities@[i as int]@);
                        assert(entity_wf(gs[i as int][j as int]));
                    }
                    let e = entities[i][j];
                    self.prepare_instance(e);
                    self.commands.push(GlCommand::DrawTrianglesIndexed {
                        index_count: e.model.raw_model.vertex_count,
                    });
                    proof {
                        let g = gs[i as int];
                        assert(g.take(j as int + 1).drop_last() =~= g.take(j as int));
                        assert(g.take(j as int + 1).last() == g[j as int]);
                        assert(self.commands@ =~= orig + spec_render_cmds(gs.take(i as int))
                            + spec_model_cmds(g[0].model)
                            + spec_instances_cmds(g.take(j as int + 1)));
                    }
                    j += 1;
                }
                proof {
                    assert(gs[i as int].take(group_len as int) =~= gs[i as int]);
                }
            }
            proof {
                assert(gs.take(i as int + 1).drop_last() =~= gs.take(i as int));
                assert(gs.take(i as int + 1).last() == gs[i as int]);
                assert(self.commands@ =~= orig + spec_render_cmds(gs.take(i as int + 1)));
            }
            i += 1;
        }
        proof {
            assert(gs.take(n as int) =~= gs);
        }
    }

    /// Undoes the model binding: disables the three attributes and
    /// unbinds the vertex array. Not called by `render`; the caller
    /// invokes it between incompatible draw passes.
    pub fn unbind_textured_model(&mut self)
        ensures
            final(self).commands@ == old(self).commands@ + spec_unbind_cmds(),
            final(self).projection_matrix == old(self).projection_matrix,
            final(self).shader == old(self).shader,
    {
        self.commands.push(GlCommand::DisableVertexAttribArray { index: 0 });
        self.commands.push(GlCommand::DisableVertexAttribArray { index: 1 });
        self.commands.push(GlCommand::DisableVertexAttribArray { index: 2 });
        self.commands.push(GlCommand::BindVertexArray { vao_id: 0 });
        proof {
            assert(self.commands@ =~= old(self).commands@ + spec_unbind_cmds());
        }
    }

    /// Hands the buffered commands over for execution and leaves the
    /// buffer empty.
    pub fn take_commands(&mut self) -> (v: Vec<GlCommand>)
        ensures
            v@ == old(self).commands@,
            final(self).commands@ == Seq::<GlCommand>::empty(),
            final(self).projection_matrix == old(self).projection_matrix,
            final(self).shader == old(self).shader,
    {
        let mut v: Vec<GlCommand> = Vec::new();
        core::mem::swap(&mut v, &mut self.commands);
        proof {
            assert(self.commands@ =~= Seq::<GlCommand>::empty());
        }
        v
    }
}

/// The transformation matrix of an instance is a function of its pose
/// alone: two entities sharing one model, or holding any two models, get
/// identical matrices whenever their poses agree. Together with `render`
/// taking the collection by shared reference, the shared model and
/// texture data are read-only across instances.
pub proof fn lemma_transformation_reads_pose_only(a: Entity, b: Entity)
    requires
        a.position == b.position,
        a.rot_x == b.rot_x,
        a.rot_y == b.rot_y,
        a.rot_z == b.rot_z,
        a.scale == b.scale,
    ensures
        spec_entity_matrix(a) == spec_entity_matrix(b),
{
}

/// Rendering an empty collection issues no command at all: zero draw
/// calls, and no attribute or vertex-array binding is left behind by the
/// call.
pub proof fn lemma_render_empty()
    ensures
        spec_render_cmds(Seq::<Seq<Entity>>::empty()) == Seq::<GlCommand>::empty(),
{
}

/// How many indexed draw calls a command sequence holds.
pub open spec fn spec_draw_count(s: Seq<GlCommand>) -> int
    decreases s.len(),
{
    if s.len() == 0 {
        0
    } else {
        spec_draw_count(s.drop_last()) + if s.last() is DrawTrianglesIndexed {
            1int
        } else {
            0int
        }
    }
}

/// How many entities a grouped collection holds in all.
pub open spec fn spec_entity_count(gs: Seq<Seq<Entity>>) -> int
    decreases gs.len(),
{
    if gs.len() == 0 {
        0
    } else {
        spec_entity_count(gs.drop_last()) + gs.last().len()
    }
}

/// Draw calls add up over concatenation.
pub proof fn lemma_draw_count_add(a: Seq<GlCommand>, b: Seq<GlCommand>)
    ensures
        spec_draw_count(a + b) == spec_draw_count(a) + spec_draw_count(b),
    decreases b.len(),
{
    if b.len() == 0 {
        assert(a + b =~= a);
    } else {
        lemma_draw_count_add(a, b.drop_last());
        assert((a + b).drop_last() =~= a + b.drop_last());
        assert((a + b).last() == b.last());
    }
}

/// A sequence without a draw command has a draw count of zero.
pub proof fn lemma_draw_count_none(s: Seq<GlCommand>)
    requires
        forall|i: int| 0 <= i < s.len() ==> !(#[trigger] s[i] is DrawTrianglesIndexed),
    ensures
        spec_draw_count(s) == 0,
    decreases s.len(),
{
    if s.len() > 0 {
        assert(forall|i: int|
            0 <= i < s.drop_last().len() ==> s.drop_last()[i] == s[i]);
        lemma_draw_count_none(s.drop_last());
        assert(s.last() == s[s.len() - 1]);
    }
}

/// One instance issues exactly one indexed draw.
pub proof fn lemma_instance_cmds_draw_count(e: Entity)
    ensures
        spec_draw_count(spec_instance_cmds(e)) == 1,
{
    let s = spec_instance_cmds(e);
    assert(s.drop_last() =~= seq![
        (GlCommand::LoadTransformationMatrix { matrix: spec_entity_matrix(e) }),
    ]);
    lemma_draw_count_none(s.drop_last());
}

/// A whole frame issues exactly one indexed draw call per entity: none
/// for an empty collection, three for one group of three.
pub proof fn lemma_render_draw_count(gs: Seq<Seq<Entity>>)
    ensures
        spec_draw_count(spec_render_cmds(gs)) == spec_entity_count(gs),
    decreases gs.len(),
{
    if gs.len() > 0 {
        lemma_render_draw_count(gs.drop_last());
        lemma_draw_count_add(spec_render_cmds(gs.drop_last()), spec_group_cmds(gs.last()));
        lemma_group_draw_count(gs.last());
    }
}

/// One group issues exactly one indexed draw call per instance: the
/// model binding issues none, and each instance issues one.
pub proof fn lemma_group_draw_count(g: Seq<Entity>)
    ensures
        spec_draw_count(spec_group_cmds(g)) == g.len(),
    decreases g.len(),
{
    if g.len() > 0 {
        lemma_draw_count_none(spec_model_cmds(g[0].model));
        lemma_draw_count_add(spec_model_cmds(g[0].model), spec_instances_cmds(g));
        lemma_instances_draw_count(g);
    }
}

/// The instance commands of a group hold one draw per instance.
pub proof fn lemma_instances_draw_count(g: Seq<Entity>)
    ensures
        spec_draw_count(spec_instances_cmds(g)) == g.len(),
    decreases g.len(),
{
    if g.len() > 0 {
        lemma_instances_draw_count(g.drop_last());
        lemma_draw_count_add(spec_instances_cmds(g.drop_last()), spec_instance_cmds(g.last()));
        lemma_instance_cmds_draw_count(g.last());
    }
}

/// A group's instance commands come in pairs, one pair per entity in
/// instance order: each indexed draw is immediately preceded by exactly
/// one transformation upload carrying that entity's matrix, and the draw
/// uses that entity's index count.
#[verifier::rlimit(60)]
pub proof fn lemma_instances_cmds_shape(g: Seq<Entity>)
    ensures
        spec_instances_cmds(g).len() == 2 * g.len(),
        forall|k: int| #![trigger g[k]]
            0 <= k < g.len() ==> spec_instances_cmds(g)[2 * k]
                == (GlCommand::LoadTransformationMatrix { matrix: spec_entity_matrix(g[k]) }),
        forall|k: int| #![trigger g[k]]
            0 <= k < g.len() ==> spec_instances_cmds(g)[2 * k + 1]
                == (GlCommand::DrawTrianglesIndexed {
                    index_count: g[k].model.raw_model.vertex_count,
                }),
    decreases g.len(),
{
    if g.len() > 0 {
        let gdl = g.drop_last();
        lemma_instances_cmds_shape(gdl);
        assert forall|k: int| 0 <= k < g.len() implies spec_instances_cmds(g)[2 * k]
            == (GlCommand::LoadTransformationMatrix { matrix: spec_entity_matrix(g[k]) }) by {
            if k < g.len() - 1 {
                assert(gdl[k] == g[k]);
                assert(spec_instances_cmds(g)[2 * k] == spec_instances_cmds(gdl)[2 * k]);
            } else {
                assert(g.last() == g[k]);
            }
        }
        assert forall|k: int| 0 <= k < g.len() implies spec_instances_cmds(g)[2 * k + 1]
            == (GlCommand::DrawTrianglesIndexed {
                index_count: g[k].model.raw_model.vertex_count,
            }) by {
            if k < g.len() - 1 {
                assert(gdl[k] == g[k]);
                assert(spec_instances_cmds(g)[2 * k + 1] == spec_instances_cmds(gdl)[2 * k + 1]);
            } else {
                assert(g.last() == g[k]);
            }
        }
    }
}

} // verus!
