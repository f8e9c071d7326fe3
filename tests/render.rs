use dust::base::{AxisAlignedBoundingBox, Vec3, Viewport};
use dust::camera::Camera;
use dust::context::{DrawCall, RenderContext, RenderError, Shade, Surface, Target};
use dust::light::{AmbientLight, DirectionalLight, Lights, PointLight, Rgb};
use dust::material::{
    AttributeSet, ColorMaterial, ForwardMaterial, Rgba, TextureMaterial, VertexColorMaterial,
};
use dust::model::{CpuMesh, CustomAttribute, Error, Model, ScreenQuad};
use dust::object::{Geometry, Glue, Object, Shadable, Shadable2D};
use dust::pipeline::{forward_pass, geometry_pass, lighting_pass, render_deferred};

const COLOR_PROGRAM: u32 = 1;
const VERTEX_COLOR_PROGRAM: u32 = 2;
const TEXTURE_PROGRAM: u32 = 3;
const LIGHTING_PROGRAM: u32 = 9;

fn triangle_positions() -> Vec<Vec3> {
    vec![Vec3::new(500, -500, 0), Vec3::new(-500, -500, 0), Vec3::new(0, 500, 0)]
}

fn triangle_mesh() -> CpuMesh {
    CpuMesh { positions: triangle_positions(), normals: None, uvs: None, colors: None }
}

fn colored_triangle_mesh() -> CpuMesh {
    let red = Rgba { r: 255, g: 0, b: 0, a: 255 };
    let green = Rgba { r: 0, g: 255, b: 0, a: 255 };
    let blue = Rgba { r: 0, g: 0, b: 255, a: 255 };
    CpuMesh {
        positions: triangle_positions(),
        normals: None,
        uvs: None,
        colors: Some(vec![red, green, blue]),
    }
}

fn quad_mesh() -> CpuMesh {
    CpuMesh {
        positions: vec![
            Vec3::new(-1, -1, 0),
            Vec3::new(1, -1, 0),
            Vec3::new(1, 1, 0),
            Vec3::new(-1, -1, 0),
            Vec3::new(1, 1, 0),
            Vec3::new(-1, 1, 0),
        ],
        normals: None,
        uvs: None,
        colors: None,
    }
}

fn camera() -> Camera {
    Camera::new(Vec3::new(0, 0, 1000), Vec3::new(0, 0, -1000), Viewport::new_at_origo(900, 700))
        .unwrap()
}

fn solid(alpha: u8) -> ColorMaterial {
    ColorMaterial { program: COLOR_PROGRAM, color: Rgba { r: 200, g: 100, b: 50, a: alpha } }
}

fn all_programs() -> RenderContext {
    RenderContext::new(vec![COLOR_PROGRAM, VERTEX_COLOR_PROGRAM, TEXTURE_PROGRAM, LIGHTING_PROGRAM])
}

fn some_lights() -> Lights {
    let white = Rgb { r: 255, g: 255, b: 255 };
    let mut lights = Lights::none();
    lights.ambient = Some(AmbientLight { color: white, intensity: 40 });
    lights.directional.push(DirectionalLight {
        color: white,
        intensity: 200,
        direction: Vec3::new(0, -1, -1),
    });
    lights.point.push(PointLight { color: white, intensity: 100, position: Vec3::new(0, 5, 5) });
    lights
}

#[test]
fn triangle_renders_with_one_draw_of_three_vertices() {
    let camera = camera();
    let model = Model::create(triangle_mesh()).unwrap();
    let object = Glue { geometry: model, material: solid(255) };
    let mut ctx = all_programs();
    assert_eq!(object.render(&camera, &Lights::none(), &mut ctx), Ok(()));
    assert_eq!(ctx.draws().len(), 1);
    assert_eq!(
        ctx.draws()[0],
        DrawCall {
            program: COLOR_PROGRAM,
            target: Target::Screen,
            vertices: 3,
            viewport: Viewport { x: 0, y: 0, width: 900, height: 700 },
        }
    );
}

#[test]
fn resized_viewport_is_used_by_later_renders() {
    let mut camera = camera();
    assert_eq!(camera.viewport(), Viewport::new_at_origo(900, 700));
    camera.set_viewport(Viewport::new_at_origo(450, 350));
    assert_eq!(camera.viewport(), Viewport { x: 0, y: 0, width: 450, height: 350 });
    assert_eq!(camera.position, Vec3::new(0, 0, 1000));
    assert_eq!(camera.target, Vec3::new(0, 0, -1000));
    let object = Glue { geometry: Model::create(triangle_mesh()).unwrap(), material: solid(255) };
    let mut ctx = all_programs();
    assert_eq!(object.render(&camera, &Lights::none(), &mut ctx), Ok(()));
    assert_eq!(ctx.draws()[0].viewport, Viewport::new_at_origo(450, 350));
}

#[test]
fn glue_render_equals_geometry_render_forward() {
    let camera = camera();
    let lights = some_lights();
    let object = Glue { geometry: Model::create(triangle_mesh()).unwrap(), material: solid(255) };
    let mut a = all_programs();
    let mut b = all_programs();
    let ra = object.render(&camera, &lights, &mut a);
    let rb = object.geometry.render_forward(&object.material, &camera, &lights, &mut b);
    assert_eq!(ra, Ok(()));
    assert_eq!(ra, rb);
    assert_eq!(a.draws(), b.draws());
    assert_eq!(a.image(), b.image());
    assert_eq!(a.image()[0].lights, 3);
}

#[test]
fn glue_render_forward_uses_the_material_handed_in() {
    let camera = camera();
    let object = Glue { geometry: Model::create(triangle_mesh()).unwrap(), material: solid(255) };
    let texture = TextureMaterial { program: TEXTURE_PROGRAM, texture: 7, has_alpha: false };
    let mut ctx = all_programs();
    assert_eq!(
        object.render_forward(&texture, &camera, &Lights::none(), &mut ctx),
        Err(RenderError::AttributeMismatch)
    );
    assert_eq!(ctx.draws().len(), 0);
}

#[test]
fn transparency_is_stable_and_follows_alpha() {
    let opaque = Glue { geometry: Model::create(triangle_mesh()).unwrap(), material: solid(255) };
    let faded = Glue { geometry: Model::create(triangle_mesh()).unwrap(), material: solid(128) };
    assert!(!opaque.is_transparent());
    assert!(!opaque.is_transparent());
    assert!(faded.is_transparent());
    assert!(faded.is_transparent());
    let texture = TextureMaterial { program: TEXTURE_PROGRAM, texture: 1, has_alpha: true };
    assert!(texture.is_transparent());
    assert!(!VertexColorMaterial { program: VERTEX_COLOR_PROGRAM }.is_transparent());
}

#[test]
fn aabb_contains_every_position() {
    let model = Model::create(triangle_mesh()).unwrap();
    let b = *model.aabb();
    assert_eq!(b.min, Vec3::new(-500, -500, 0));
    assert_eq!(b.max, Vec3::new(500, 500, 0));
    for p in triangle_positions() {
        assert!(b.contains(p));
    }
    assert!(!b.contains(Vec3::new(0, 501, 0)));
    assert!(!b.is_empty());
}

#[test]
fn aabb_of_no_positions_is_empty() {
    let b = AxisAlignedBoundingBox::new_with_positions(&Vec::new());
    assert!(b.is_empty());
    assert_eq!(b, AxisAlignedBoundingBox::empty());
    assert!(!b.contains(Vec3::new(0, 0, 0)));
    let mut grown = b;
    grown.expand(Vec3::new(3, -4, 5));
    assert_eq!(grown.min, Vec3::new(3, -4, 5));
    assert_eq!(grown.max, Vec3::new(3, -4, 5));
}

#[test]
fn deferred_image_equals_forward_image() {
    let camera = camera();
    let lights = some_lights();
    let objects = vec![
        Glue { geometry: Model::create(triangle_mesh()).unwrap(), material: solid(255) },
        Glue { geometry: Model::create(quad_mesh()).unwrap(), material: solid(255) },
    ];
    let mut forward = all_programs();
    let mut deferred = all_programs();
    assert_eq!(forward_pass(&objects, &camera, &lights, &mut forward), vec![]);
    let r = render_deferred(&objects, LIGHTING_PROGRAM, &camera, &lights, &mut deferred);
    assert_eq!(r, Ok(vec![]));
    assert_eq!(forward.image(), deferred.image());
    assert_eq!(forward.image().len(), 2);
    assert_eq!(
        deferred.image()[1],
        Shade {
            surface: Surface {
                program: COLOR_PROGRAM,
                vertices: 6,
                viewport: Viewport::new_at_origo(900, 700),
            },
            lights: 3,
        }
    );
    assert_eq!(deferred.draws().len(), 3);
    assert_eq!(deferred.draws()[0].target, Target::GBuffer);
    assert_eq!(deferred.draws()[2].target, Target::Screen);
    assert_eq!(deferred.draws()[2].program, LIGHTING_PROGRAM);
}

#[test]
fn geometry_pass_isolates_attribute_mismatch() {
    let camera = camera();
    let triangle = Glue {
        geometry: Model::create(colored_triangle_mesh()).unwrap(),
        material: VertexColorMaterial { program: VERTEX_COLOR_PROGRAM }.descriptor(),
    };
    let quad = Glue {
        geometry: Model::create(quad_mesh()).unwrap(),
        material: TextureMaterial { program: TEXTURE_PROGRAM, texture: 4, has_alpha: false }
            .descriptor(),
    };
    let objects = vec![triangle, quad];
    let mut ctx = all_programs();
    let failures = geometry_pass(&objects, &camera, &mut ctx);
    assert_eq!(failures, vec![(1, RenderError::AttributeMismatch)]);
    assert_eq!(ctx.gbuffer().len(), 1);
    assert_eq!(ctx.gbuffer()[0].program, VERTEX_COLOR_PROGRAM);
    assert_eq!(ctx.gbuffer()[0].vertices, 3);
    assert_eq!(lighting_pass(LIGHTING_PROGRAM, &camera, &Lights::none(), &mut ctx), Ok(()));
    assert_eq!(ctx.image().len(), 1);
}

#[test]
fn missing_program_is_a_bind_failure() {
    let camera = camera();
    let object = Glue { geometry: Model::create(triangle_mesh()).unwrap(), material: solid(255) };
    let mut ctx = RenderContext::new(vec![TEXTURE_PROGRAM]);
    assert_eq!(
        object.render(&camera, &Lights::none(), &mut ctx),
        Err(RenderError::ResourceBindFailure)
    );
    ctx.add_program(COLOR_PROGRAM);
    assert!(ctx.has_program(COLOR_PROGRAM));
    assert_eq!(object.render(&camera, &Lights::none(), &mut ctx), Ok(()));
}

#[test]
fn lighting_without_geometry_pass_is_a_pipeline_error() {
    let camera = camera();
    let mut ctx = all_programs();
    assert_eq!(
        lighting_pass(LIGHTING_PROGRAM, &camera, &Lights::none(), &mut ctx),
        Err(RenderError::PipelineStateError)
    );
    assert_eq!(ctx.draws().len(), 0);
}

#[test]
fn lighting_without_its_program_fails_the_frame() {
    let camera = camera();
    let objects = vec![Glue {
        geometry: Model::create(triangle_mesh()).unwrap(),
        material: solid(255),
    }];
    let mut ctx = RenderContext::new(vec![COLOR_PROGRAM]);
    let r = render_deferred(&objects, LIGHTING_PROGRAM, &camera, &Lights::none(), &mut ctx);
    assert_eq!(r, Err(RenderError::ResourceBindFailure));
    assert_eq!(ctx.gbuffer().len(), 1);
    assert_eq!(ctx.image().len(), 0);
}

#[test]
fn model_rejects_attribute_of_wrong_length() {
    let mut mesh = triangle_mesh();
    mesh.uvs = Some(vec![dust::model::Uv { u: 0, v: 0 }]);
    assert!(matches!(Model::create(mesh), Err(Error::AttributeLengthMismatch)));
    let mut model = Model::create(triangle_mesh()).unwrap();
    assert_eq!(
        model.add_custom_attribute(CustomAttribute::Normals(vec![Vec3::new(0, 0, 1)])),
        Err(Error::AttributeLengthMismatch)
    );
    assert!(!model.attributes().normal);
    let up = Vec3::new(0, 0, 1);
    assert_eq!(model.add_custom_attribute(CustomAttribute::Normals(vec![up, up, up])), Ok(()));
    assert_eq!(
        model.attributes(),
        AttributeSet { position: true, normal: true, uv: false, color: false }
    );
}

#[test]
fn custom_uvs_let_a_textured_material_render() {
    let camera = camera();
    let mut model = Model::create(triangle_mesh()).unwrap();
    let texture = TextureMaterial { program: TEXTURE_PROGRAM, texture: 2, has_alpha: false };
    let mut ctx = all_programs();
    assert_eq!(
        model.render_forward(&texture, &camera, &Lights::none(), &mut ctx),
        Err(RenderError::AttributeMismatch)
    );
    let uv = dust::model::Uv { u: 0, v: 1 };
    assert_eq!(model.add_custom_attribute(CustomAttribute::Uvs(vec![uv, uv, uv])), Ok(()));
    assert_eq!(model.render_forward(&texture, &camera, &Lights::none(), &mut ctx), Ok(()));
    assert_eq!(ctx.draws().len(), 1);
}

#[test]
fn objects_render_through_references() {
    let camera = camera();
    let object = Glue { geometry: Model::create(triangle_mesh()).unwrap(), material: solid(100) };
    let refs = vec![&object, &object];
    let mut ctx = all_programs();
    assert_eq!(forward_pass(&refs, &camera, &Lights::none(), &mut ctx), vec![]);
    assert_eq!(ctx.draws().len(), 2);
    assert!((&object).is_transparent());
    assert_eq!((&object).aabb().max, Vec3::new(500, 500, 0));
}

#[test]
fn screen_quad_draws_six_vertices_in_screen_space() {
    let mut ctx = all_programs();
    let texture = TextureMaterial { program: TEXTURE_PROGRAM, texture: 3, has_alpha: false };
    assert_eq!(ScreenQuad {}.render_forward(&texture, Viewport::new_at_origo(64, 32), &mut ctx), Ok(()));
    assert_eq!(ctx.draws()[0].vertices, 6);
    assert_eq!(ctx.image()[0].lights, 0);
    let colors = VertexColorMaterial { program: VERTEX_COLOR_PROGRAM };
    assert_eq!(
        ScreenQuad {}.render_forward(&colors, Viewport::new_at_origo(64, 32), &mut ctx),
        Err(RenderError::AttributeMismatch)
    );
}

#[test]
fn camera_needs_distinct_position_and_target() {
    let p = Vec3::new(1, 2, 3);
    assert!(Camera::new(p, p, Viewport::new_at_origo(10, 10)).is_none());
    let mut c = camera();
    assert!(!c.set_view(p, p));
    assert_eq!(c.position, Vec3::new(0, 0, 1000));
    assert!(c.set_view(p, Vec3::new(0, 0, 0)));
    assert_eq!(c.position, p);
}

#[test]
fn lights_are_counted_by_kind() {
    assert_eq!(Lights::none().count(), 0);
    assert_eq!(some_lights().count(), 3);
    assert_eq!(Viewport::new_at_origo(900, 700).area(), 630000);
}
