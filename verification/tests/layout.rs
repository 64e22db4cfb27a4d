use ratelite::asset::{FontBitmap, GlyphMetrics, Shader, Texture2D};
use ratelite::canvas::Canvas;
use ratelite::context::GameContext;
use ratelite::element::{Element, Transform, Widget};
use ratelite::fx::{Fx, FX_SCALE};
use ratelite::material::Material;
use ratelite::matrix::Matrix3x3;
use ratelite::mesh::Mesh;
use ratelite::rect::Region;
use ratelite::vault::Vault;
use ratelite::vec2::{VecF2, VecI2};
use ratelite::widgets::{Image, Label};

fn fx(i: i32) -> Fx {
    Fx::from_int(i)
}

fn half() -> Fx {
    Fx::from_raw(FX_SCALE / 2)
}

fn empty_ctx() -> GameContext {
    GameContext::new(Vault::new(), VecI2::new(1200, 600))
}

fn parent_frame(width: i32, height: i32) -> Transform {
    let mut parent = Transform::new();
    parent.real_size = VecF2::new(fx(width), fx(height));
    parent
}

#[test]
fn centered_leaf_sits_at_parent_center_minus_half_its_size() {
    // anchors == pivot == (0.5, 0.5), position == 0, parent 1200 x 600
    let ctx = empty_ctx();
    let parent = parent_frame(1200, 600);
    let mut leaf = Element::empty();
    leaf.set_pivot_and_anchors(VecF2::new(half(), half()));
    leaf.set_size(VecF2::new(fx(100), fx(50)));
    leaf.internal_update(&ctx, &parent);
    assert_eq!(leaf.transform.real_size, VecF2::new(fx(100), fx(50)));
    assert_eq!(
        leaf.transform.real_position,
        VecF2::new(fx(1200 / 2 - 100 / 2), fx(600 / 2 - 50 / 2))
    );
}

#[test]
fn stretch_anchors_span_the_parent_width() {
    // anchor_min.x = 0, anchor_max.x = 1, size.x = 0
    let ctx = empty_ctx();
    let parent = parent_frame(1200, 600);
    let mut node = Element::empty();
    node.set_anchor_max(VecF2::new(Fx::one(), Fx::zero()));
    node.internal_update(&ctx, &parent);
    assert_eq!(node.transform.real_size.x, fx(1200));
    assert_eq!(node.transform.real_size.y, fx(0));
}

#[test]
fn dirty_propagation_recomputes_every_descendant() {
    let ctx = empty_ctx();
    let parent = parent_frame(100, 100);

    let mut grandchild = Element::empty();
    grandchild.set_position(VecF2::new(fx(1), fx(2)));
    let mut child = Element::empty();
    child.set_position(VecF2::new(fx(10), fx(10)));
    child.add_child(Widget::Node(grandchild));
    let mut root = Element::empty();
    root.add_child(Widget::Node(child));

    root.internal_update(&ctx, &parent);
    let gc_before = match root.get_child(0).unwrap() {
        Widget::Node(c) => match c.get_child(0).unwrap() {
            Widget::Node(g) => g.transform,
            _ => unreachable!(),
        },
        _ => unreachable!(),
    };
    assert_eq!(gc_before.real_position, VecF2::new(fx(11), fx(12)));

    // mutate only the root's position; one update must recompute the
    // grandchild's cached matrix although its own fields never changed
    root.set_position(VecF2::new(fx(5), fx(0)));
    root.internal_update(&ctx, &parent);
    let (gc_after, gc_dirty) = match root.get_child(0).unwrap() {
        Widget::Node(c) => match c.get_child(0).unwrap() {
            Widget::Node(g) => (g.transform, g.is_dirty),
            _ => unreachable!(),
        },
        _ => unreachable!(),
    };
    assert!(!gc_dirty);
    assert_eq!(gc_after.real_position, VecF2::new(fx(16), fx(12)));
    // the cached render matrix carries the fresh translation
    assert_eq!(gc_after.matrix.m31, fx(16));
    assert_eq!(gc_after.matrix.m32, fx(12));
}

#[test]
fn clean_nodes_keep_their_cache() {
    let ctx = empty_ctx();
    let parent = parent_frame(100, 100);
    let mut node = Element::empty();
    node.set_position(VecF2::new(fx(7), fx(0)));
    node.internal_update(&ctx, &parent);
    let cached = node.transform;
    assert!(!node.is_dirty);
    node.internal_update(&ctx, &parent);
    assert_eq!(node.transform, cached);
}

#[test]
fn material_records_named_properties() {
    let mut vault = Vault::new();
    let sid = vault.add("shader", Shader::new(1));
    let ctx = GameContext::new(vault, VecI2::new(10, 10));
    let mut material = Material::new(sid);
    material.set_property(&ctx, "u_model", Matrix3x3::identity());
    assert_eq!(material.properties.len(), 1);
    assert_eq!(material.properties[0].0, "u_model");
    let scaled = Matrix3x3::create_scale((fx(2), fx(2)));
    material.set_property(&ctx, "u_model", scaled);
    assert_eq!(material.properties.len(), 1);
    assert_eq!(material.properties[0].1, scaled);
}

#[test]
fn material_set_is_a_no_op_without_its_shader() {
    let ctx = empty_ctx();
    let mut material = Material::new(ratelite::vault::AssetId { index: 4, version: 0 });
    material.set_property(&ctx, "u_model", Matrix3x3::identity());
    assert_eq!(material.properties.len(), 0);
    material.set_texture2d(&ctx, "u_texture", ratelite::vault::AssetId { index: 5, version: 0 }, 1);
    assert_eq!(material.textures.len(), 0);
}

#[test]
fn material_texture_rebinding_keeps_its_first_unit() {
    let mut vault = Vault::new();
    let sid = vault.add("shader", Shader::new(1));
    let t1 = vault.add("one", Texture2D::new(1, 2, 2));
    let t2 = vault.add("two", Texture2D::new(2, 2, 2));
    let ctx = GameContext::new(vault, VecI2::new(10, 10));
    let mut material = Material::new(sid);
    material.set_texture2d(&ctx, "u_texture", t1, 3);
    material.set_texture2d(&ctx, "u_texture", t2, 9);
    assert_eq!(material.textures.len(), 1);
    assert_eq!(material.textures[0].1.active_unit, 3);
    assert_eq!(material.textures[0].1.value, t2);
}

#[test]
fn update_binds_the_model_matrix() {
    let mut vault = Vault::new();
    let sid = vault.add("shader", Shader::new(1));
    let ctx = GameContext::new(vault, VecI2::new(10, 10));
    let mesh = Mesh::new_quad(VecF2::zero(), VecF2::one());
    let mut node = Element::new(mesh, Material::new(sid));
    node.set_position(VecF2::new(fx(4), fx(6)));
    node.internal_update(&ctx, &parent_frame(100, 100));
    let material = node.material.as_ref().unwrap();
    assert_eq!(material.properties.len(), 1);
    assert_eq!(material.properties[0].0, "u_model");
    assert_eq!(material.properties[0].1.m31, fx(4));
    assert_eq!(material.properties[0].1.m32, fx(6));
}

#[test]
fn image_takes_the_texture_size() {
    let mut vault = Vault::new();
    let sid = vault.add("shader", Shader::new(1));
    let tid = vault.add("logo", Texture2D::new(7, 16, 8));
    let mut ctx = GameContext::new(vault, VecI2::new(10, 10));
    let image = Image::new(&mut ctx, sid, tid);
    assert_eq!(image.element.transform.size, VecF2::new(fx(16), fx(8)));
    assert!(image.element.mesh.is_some());
    let material = image.element.material.as_ref().unwrap();
    assert_eq!(material.textures.len(), 1);
    assert_eq!(material.textures[0].1.value, tid);
}

#[test]
fn image_with_unknown_texture_is_empty() {
    let mut ctx = empty_ctx();
    let bogus = ratelite::vault::AssetId { index: 3, version: 1 };
    let image = Image::new(&mut ctx, bogus, bogus);
    assert!(image.element.mesh.is_none());
    assert!(image.element.material.is_none());
}

fn test_font(vault: &mut Vault) -> ratelite::vault::AssetId {
    let texture_id = vault.add("font.texture.dep", Texture2D::new(1, 528, 528));
    let glyph = GlyphMetrics {
        uv: Region::new(VecF2::zero(), VecF2::new(half(), half())),
        size: VecF2::new(fx(5), fx(7)),
        offset: VecF2::new(fx(0), fx(0)),
        advance: fx(6),
    };
    let glyphs = vec![('a', glyph)];
    vault.add("font", FontBitmap::new(glyphs, texture_id, fx(24)))
}

#[test]
fn label_lays_out_one_quad_per_glyph() {
    let mut vault = Vault::new();
    let sid = vault.add("shader", Shader::new(1));
    let fid = test_font(&mut vault);
    let ctx = GameContext::new(vault, VecI2::new(100, 100));
    let mut label = Label::new(&ctx, fid, sid);
    label.set_text("aa");
    let mut widget = Widget::Label(label);
    widget.update(&ctx, &parent_frame(100, 100));
    let mesh = widget.get_element().get_mesh().unwrap();
    assert_eq!(mesh.vertices.len(), 8);
    assert_eq!(mesh.indices.len(), 12);
    // first glyph quad at the pen origin, second advanced by 6
    assert_eq!(mesh.vertices[0].pos, VecF2::new(fx(0), fx(0)));
    assert_eq!(mesh.vertices[1].pos, VecF2::new(fx(5), fx(0)));
    assert_eq!(mesh.vertices[4].pos, VecF2::new(fx(6), fx(0)));
    assert_eq!(mesh.indices[..6], [0, 1, 2, 0, 2, 3]);
    assert_eq!(mesh.indices[6..], [4, 5, 6, 4, 6, 7]);
}

#[test]
fn label_skips_characters_without_glyphs() {
    let mut vault = Vault::new();
    let sid = vault.add("shader", Shader::new(1));
    let fid = test_font(&mut vault);
    let ctx = GameContext::new(vault, VecI2::new(100, 100));
    let mut label = Label::new(&ctx, fid, sid);
    label.set_text("xa");
    let mut widget = Widget::Label(label);
    widget.update(&ctx, &parent_frame(100, 100));
    let mesh = widget.get_element().get_mesh().unwrap();
    // only 'a' produced a quad, with the per-character index base kept
    assert_eq!(mesh.vertices.len(), 4);
    assert_eq!(mesh.indices, vec![4, 5, 6, 4, 6, 7]);
}

#[test]
fn canvas_update_refreshes_the_clock() {
    let mut ctx = empty_ctx();
    ctx.advance_time(Fx::from_raw(FX_SCALE / 60));
    let mut canvas = Canvas::new();
    canvas.start();
    canvas.update(&ctx);
    assert_eq!(canvas.uniform.time, ctx.get_time());
    assert_eq!(canvas.uniform.delta_time, ctx.get_delta_time());
}

#[test]
fn canvas_resize_follows_the_full_window_size() {
    let mut ctx = empty_ctx();
    ctx.set_window_size(VecI2::new(800, 400));
    let mut canvas = Canvas::new();
    canvas.start();
    canvas.resize(&ctx);
    assert_eq!(canvas.uniform.resolution, VecF2::new(fx(800), fx(400)));
    assert_eq!(canvas.uniform.projection.m11, Fx::one().mul(fx(2)).div(fx(800)));
    assert_eq!(canvas.root.transform.size, VecF2::new(fx(800), fx(400)));
    assert!(canvas.root.is_dirty);
}

#[test]
fn render_draws_parents_before_children() {
    let mut vault = Vault::new();
    let sid = vault.add("shader", Shader::new(1));
    let ctx = GameContext::new(vault, VecI2::new(100, 100));

    let quad = |w: i32| Mesh::new_quad(VecF2::zero(), VecF2::new(fx(w), fx(w)));
    let mut inner = Element::new(quad(2), Material::new(sid));
    inner.add_child(Widget::Node(Element::new(quad(3), Material::new(sid))));
    let mut canvas = Canvas::new();
    canvas.add_child(Widget::Node(inner));
    canvas.add_child(Widget::Node(Element::new(quad(4), Material::new(sid))));
    canvas.start();
    canvas.update(&ctx);
    let draws = canvas.render(&ctx);
    assert_eq!(draws.len(), 3);
    assert_eq!(draws[0].0.bounds.width, fx(2));
    assert_eq!(draws[1].0.bounds.width, fx(3));
    assert_eq!(draws[2].0.bounds.width, fx(4));
}

#[test]
fn uniform_block_layout_is_sixteen_scalars() {
    let canvas = Canvas::new();
    let block = canvas.uniform.to_array();
    assert_eq!(block.len(), 16);
    assert_eq!(block[0], canvas.uniform.time);
    assert_eq!(block[1], canvas.uniform.delta_time);
    assert_eq!(block[2], fx(1200));
    assert_eq!(block[3], fx(600));
    assert_eq!(block[4], canvas.uniform.projection.m11);
    assert_eq!(block[7], fx(0));
}

#[test]
fn integer_vector_constructors() {
    assert_eq!(VecI2::new(3, -4), VecI2 { x: 3, y: -4 });
    assert_eq!(VecI2::zero(), VecI2 { x: 0, y: 0 });
    assert_eq!(VecI2::one(), VecI2 { x: 1, y: 1 });
}

#[test]
fn label_without_its_font_is_empty() {
    let ctx = empty_ctx();
    let bogus = ratelite::vault::AssetId { index: 0, version: 0 };
    let label = Label::new(&ctx, bogus, bogus);
    assert!(label.element.mesh.is_none());
    assert!(label.element.material.is_none());
    assert!(!label.is_dirty);
}

#[test]
fn panel_is_an_empty_element() {
    let ctx = empty_ctx();
    let panel = ratelite::widgets::Panel::new(&ctx);
    assert!(panel.element.mesh.is_none());
    assert!(panel.element.children.is_empty());
    assert!(panel.element.is_dirty);
}

#[test]
fn element_names_and_children_are_reachable() {
    let mut root = Element::empty();
    root.set_name("root");
    assert_eq!(root.get_name(), "root");
    root.add_child(Widget::Node(Element::empty()));
    assert!(root.get_child(0).is_some());
    assert!(root.get_child(1).is_none());
    if let Some(Widget::Node(child)) = root.get_child_mut(0) {
        child.set_name("kid");
    }
    match root.get_child(0).unwrap() {
        Widget::Node(child) => assert_eq!(child.get_name(), "kid"),
        _ => unreachable!(),
    }
}

#[test]
fn mutable_field_borrows_mark_the_node_dirty() {
    let ctx = empty_ctx();
    let parent = parent_frame(100, 100);
    let mut node = Element::empty();
    node.internal_update(&ctx, &parent);
    assert!(!node.is_dirty);
    node.get_position_mut().x = fx(9);
    assert!(node.is_dirty);
    node.internal_update(&ctx, &parent);
    assert_eq!(node.transform.real_position.x, fx(9));
}

#[test]
fn zero_size_everything_is_degenerate_but_harmless() {
    // degenerate anchors and sizes must produce zero geometry, not a fault
    let ctx = empty_ctx();
    let parent = parent_frame(0, 0);
    let mut node = Element::empty();
    node.set_pivot_and_anchors(VecF2::new(half(), half()));
    node.internal_update(&ctx, &parent);
    assert_eq!(node.transform.real_position, VecF2::new(fx(0), fx(0)));
    assert_eq!(node.transform.real_size, VecF2::new(fx(0), fx(0)));
    assert!(!node.is_dirty);
}

#[test]
fn context_carries_clock_and_window() {
    let mut ctx = empty_ctx();
    assert_eq!(ctx.get_window_size(), VecI2::new(1200, 600));
    assert_eq!(ctx.get_time(), Fx::zero());
    ctx.advance_time(fx(2));
    ctx.advance_time(fx(3));
    assert_eq!(ctx.get_time(), fx(5));
    assert_eq!(ctx.get_delta_time(), fx(3));
}
