use ciri::component::{Component, ComponentKind, Renderer, Rotator};
use ciri::engine::Engine;
use ciri::frame::{Frame, Viewport};
use ciri::game_object::GameObject;
use ciri::lights::{AmbientLight, Color, DirectionalLight, SceneLight};
use ciri::manager::SceneManager;
use ciri::material::{LightingModel, Material, MaterialType};
use ciri::model::Model;
use ciri::options::EngineOptions;
use ciri::scene::{NoopHooks, Scene, SceneError, SceneHooks};
use ciri::transform::Transform;
use ciri::vec3::Vec3;

fn renderer(handle: u64) -> Component {
    Component::new(ComponentKind::Renderer(Renderer::new(handle)))
}

fn rotator(speed: i64) -> Component {
    Component::new(ComponentKind::Rotator(Rotator::new(speed)))
}

fn test_viewport() -> Viewport {
    Viewport::new_at_origo(640, 480)
}

fn empty_frame() -> Frame {
    Frame::new(16, test_viewport(), Vec::new())
}

/// Hooks that count their invocations and can be told to fail.
struct CountingHooks {
    loads: u32,
    setups: u32,
    exits: u32,
    updates: u32,
    fail_load: bool,
    fail_setup: bool,
    fail_update: bool,
}

impl CountingHooks {
    fn new() -> CountingHooks {
        CountingHooks {
            loads: 0,
            setups: 0,
            exits: 0,
            updates: 0,
            fail_load: false,
            fail_setup: false,
            fail_update: false,
        }
    }
}

impl SceneHooks for CountingHooks {
    fn update(&mut self, _tag: u64, _scene: &mut Scene) -> Result<(), SceneError> {
        self.updates += 1;
        if self.fail_update {
            Err(SceneError::UpdateFailed("update refused".to_string()))
        } else {
            Ok(())
        }
    }

    fn load_assets(&mut self, _tag: u64) -> Result<(), SceneError> {
        self.loads += 1;
        if self.fail_load {
            Err(SceneError::LoadFailed("asset missing".to_string()))
        } else {
            Ok(())
        }
    }

    fn setup(&mut self, _tag: u64, _scene: &mut Scene) -> Result<(), SceneError> {
        self.setups += 1;
        if self.fail_setup {
            Err(SceneError::SetupFailed("setup refused".to_string()))
        } else {
            Ok(())
        }
    }

    fn exit(&mut self, _tag: u64, _scene: &mut Scene) {
        self.exits += 1;
    }
}

fn camera_2d() -> ciri::camera::Camera {
    ciri::camera::Camera::new_2d(test_viewport())
}

#[test]
fn scenario_two_roots_one_inactive() {
    let mut scene = Scene::new("demo".to_string());
    scene.add_camera(camera_2d());

    let visible = GameObject::new("visible".to_string()).with_component(renderer(7));
    let mut hidden = GameObject::new("hidden".to_string());
    hidden.disable();
    let hidden = hidden.with_component(renderer(9));

    scene.add_object(visible);
    scene.add_object(hidden);

    let mut hooks = NoopHooks;
    let mut frame = empty_frame();
    let plan = scene.full_update(1, &mut hooks, &mut frame).unwrap().unwrap();
    assert_eq!(plan.renderables, vec![7]);
    assert!(scene.frame.is_none());
}

#[test]
fn scenario_inactive_child_pruned() {
    let mut scene = Scene::new("demo".to_string());
    let parent = scene.add_object(GameObject::new("parent".to_string()));

    let active_child = GameObject::new("lit".to_string()).with_component(renderer(1));
    let mut inactive_child = GameObject::new("dark".to_string());
    inactive_child.disable();
    let inactive_child = inactive_child.with_component(renderer(2));

    scene.add_child_object(parent, active_child);
    scene.add_child_object(parent, inactive_child);

    assert_eq!(scene.collect_renderables(), vec![1]);
}

#[test]
fn inactive_root_excludes_entire_subtree() {
    let mut scene = Scene::new("demo".to_string());
    let mut root = GameObject::new("root".to_string());
    root.disable();
    let root = root.with_component(renderer(5));
    let root_id = scene.add_object(root);

    // The child is itself active, but sits under an inactive root.
    let child = GameObject::new("child".to_string()).with_component(renderer(6));
    scene.add_child_object(root_id, child);

    assert!(scene.collect_renderables().is_empty());
}

#[test]
fn update_pass_steps_active_rotators_only() {
    let mut scene = Scene::new("demo".to_string());
    let spinning = GameObject::new("spinning".to_string()).with_component(rotator(500));
    let mut still = GameObject::new("still".to_string());
    still.disable();
    let still = still.with_component(rotator(500));

    let spin_id = scene.add_object(spinning);
    let still_id = scene.add_object(still);

    // 2000 ms at 500 milliradians per second: one full milliradian-scaled
    // second's worth, 1000 milliradians.
    scene.update(2000);
    assert_eq!(scene.query(spin_id).unwrap().transform.rotation.y, 1000);
    assert_eq!(scene.query(still_id).unwrap().transform.rotation.y, 0);
}

#[test]
fn full_update_without_camera_skips_rendering() {
    let mut scene = Scene::new("demo".to_string());
    scene.add_object(GameObject::new("thing".to_string()).with_component(renderer(1)));
    let mut hooks = NoopHooks;
    let mut frame = empty_frame();
    let plan = scene.full_update(1, &mut hooks, &mut frame).unwrap();
    assert!(plan.is_none());
}

#[test]
fn full_update_carries_lights_and_clear() {
    let mut scene = Scene::new("demo".to_string());
    scene.add_camera(camera_2d());
    scene.add_light(SceneLight::Ambient(AmbientLight::builder().intensity(500).build()));
    scene.add_light(SceneLight::Directional(
        DirectionalLight::builder().direction(Vec3::new(0, -1000, 0)).build(),
    ));
    let mut hooks = NoopHooks;
    let mut frame = empty_frame();
    let plan = scene.full_update(1, &mut hooks, &mut frame).unwrap().unwrap();
    assert_eq!(plan.lights.len(), 2);
    assert_eq!((plan.clear.r, plan.clear.g, plan.clear.b), (500, 500, 500));
    assert_eq!((plan.clear.a, plan.clear.depth), (1000, 1000));
}

#[test]
fn scene_assigns_sequential_ids() {
    let mut scene = Scene::new("demo".to_string());
    let a = scene.add_object(GameObject::new("a".to_string()));
    let b = scene.add_object(GameObject::new("b".to_string()));
    let c = scene.add_object(GameObject::new("c".to_string()));
    assert_eq!((a, b, c), (0, 1, 2));
    assert_eq!(scene.query(c).unwrap().name, "c");
    assert_eq!(scene.query(c).unwrap().id, Some(c));
    assert!(scene.query(5).is_none());
    assert_eq!(scene.objects().len(), 3);
}

#[test]
fn child_of_unknown_parent_becomes_root() {
    let mut scene = Scene::new("demo".to_string());
    let id = scene.add_child_object(42, GameObject::new("stray".to_string()));
    assert_eq!(id, 0);
    let stored = scene.query(id).unwrap();
    assert_eq!(stored.parent, None);
}

#[test]
fn child_links_are_wired_both_ways() {
    let mut scene = Scene::new("demo".to_string());
    let parent = scene.add_object(GameObject::new("parent".to_string()));
    let child = scene.add_child_object(parent, GameObject::new("child".to_string()));
    assert_eq!(scene.query(parent).unwrap().children, vec![child]);
    assert_eq!(scene.query(child).unwrap().parent, Some(parent));
}

#[test]
fn set_active_unregistered_returns_false() {
    let mut m = SceneManager::new();
    m.register(1, Scene::new("one".to_string()));
    let mut hooks = CountingHooks::new();
    assert!(m.set_active(1, &mut hooks).unwrap());
    assert!(!m.set_active(99, &mut hooks).unwrap());
    assert_eq!(m.active_tag(), Some(1));
    assert_eq!(hooks.loads, 1);
}

#[test]
fn second_activation_skips_load_and_setup() {
    let mut m = SceneManager::new();
    m.register(1, Scene::new("one".to_string()));
    m.register(2, Scene::new("two".to_string()));
    let mut hooks = CountingHooks::new();

    assert!(m.set_active(1, &mut hooks).unwrap());
    assert_eq!((hooks.loads, hooks.setups, hooks.exits), (1, 1, 0));

    assert!(m.set_active(2, &mut hooks).unwrap());
    assert_eq!((hooks.loads, hooks.setups, hooks.exits), (2, 2, 1));

    // Back to the first scene: already loaded, no hooks besides exit.
    assert!(m.set_active(1, &mut hooks).unwrap());
    assert_eq!((hooks.loads, hooks.setups, hooks.exits), (2, 2, 2));
    assert!(m.is_active(1));
}

#[test]
fn failed_load_aborts_activation_and_allows_retry() {
    let mut m = SceneManager::new();
    m.register(1, Scene::new("one".to_string()));
    let mut hooks = CountingHooks::new();
    hooks.fail_load = true;

    let r = m.set_active(1, &mut hooks);
    assert!(matches!(r, Err(SceneError::LoadFailed(_))));
    assert_eq!(m.active_tag(), None);

    hooks.fail_load = false;
    assert!(m.set_active(1, &mut hooks).unwrap());
    assert_eq!(hooks.loads, 2);
}

#[test]
fn failed_setup_keeps_previous_scene_active() {
    let mut m = SceneManager::new();
    m.register(1, Scene::new("one".to_string()));
    m.register(2, Scene::new("two".to_string()));
    let mut hooks = CountingHooks::new();
    assert!(m.set_active(1, &mut hooks).unwrap());

    hooks.fail_setup = true;
    let r = m.set_active(2, &mut hooks);
    assert!(matches!(r, Err(SceneError::SetupFailed(_))));
    assert_eq!(m.active_tag(), Some(1));
    // The failed scene never fired the previous scene's exit hook.
    assert_eq!(hooks.exits, 0);
}

#[test]
fn reregistering_resets_the_one_time_load() {
    let mut m = SceneManager::new();
    m.register(1, Scene::new("one".to_string()));
    let mut hooks = CountingHooks::new();
    assert!(m.set_active(1, &mut hooks).unwrap());
    assert_eq!(hooks.loads, 1);
    m.register(1, Scene::new("one again".to_string()));
    assert!(m.set_active(1, &mut hooks).unwrap());
    assert_eq!(hooks.loads, 2);
}

#[test]
fn find_by_name_matches_scene_names() {
    let mut m = SceneManager::new();
    m.register(4, Scene::new("menu".to_string()));
    m.register(9, Scene::new("game".to_string()));
    assert_eq!(m.find_by_name(&"game".to_string()), Some(9));
    assert_eq!(m.find_by_name(&"credits".to_string()), None);
}

#[test]
fn manager_get_mut_reaches_registered_scene() {
    let mut m = SceneManager::new();
    m.register(4, Scene::new("menu".to_string()));
    {
        let scene = m.get_mut(4);
        scene.add_object(GameObject::new("button".to_string()));
    }
    assert_eq!(m.get_mut(4).objects().len(), 1);
}

#[test]
fn engine_runs_frames_on_the_active_scene() {
    let mut engine = Engine::new();
    let mut scene = Scene::new("game".to_string());
    scene.add_camera(camera_2d());
    scene.add_object(GameObject::new("cube".to_string()).with_component(renderer(13)));
    engine.scenes.register(1, scene);

    let mut hooks = CountingHooks::new();
    assert!(engine.scenes.set_active(1, &mut hooks).unwrap());

    let mut frame = empty_frame();
    let plan = engine.update(&mut hooks, &mut frame).unwrap().unwrap();
    assert_eq!(plan.renderables, vec![13]);
    assert_eq!(hooks.updates, 1);
}

#[test]
fn engine_propagates_update_hook_failure() {
    let mut engine = Engine::new();
    let mut scene = Scene::new("game".to_string());
    scene.add_camera(camera_2d());
    engine.scenes.register(1, scene);
    let mut hooks = CountingHooks::new();
    assert!(engine.scenes.set_active(1, &mut hooks).unwrap());

    hooks.fail_update = true;
    let mut frame = empty_frame();
    let r = engine.update(&mut hooks, &mut frame);
    assert!(matches!(r, Err(SceneError::UpdateFailed(_))));
}

/// Hooks that insert a renderable object during the frame.
struct SpawningHooks;

impl SceneHooks for SpawningHooks {
    fn update(&mut self, _tag: u64, scene: &mut Scene) -> Result<(), SceneError> {
        scene.add_object(
            GameObject::new("spawned".to_string())
                .with_component(Component::new(ComponentKind::Renderer(Renderer::new(31)))),
        );
        Ok(())
    }

    fn load_assets(&mut self, _tag: u64) -> Result<(), SceneError> {
        Ok(())
    }

    fn setup(&mut self, _tag: u64, _scene: &mut Scene) -> Result<(), SceneError> {
        Ok(())
    }

    fn exit(&mut self, _tag: u64, _scene: &mut Scene) {}
}

#[test]
fn scene_hooks_update_runs_before_render_collection() {
    let mut scene = Scene::new("demo".to_string());
    scene.add_camera(camera_2d());
    let mut hooks = SpawningHooks;
    let mut frame = empty_frame();
    let plan = scene.full_update(1, &mut hooks, &mut frame).unwrap().unwrap();
    assert_eq!(plan.renderables, vec![31]);
}

#[test]
fn light_builders_produce_exact_descriptions() {
    let ambient = AmbientLight::builder()
        .intensity(750)
        .color(Color { r: 10, g: 20, b: 30, a: 255 })
        .build();
    assert_eq!(ambient.intensity, 750);
    assert_eq!(ambient.color, Color { r: 10, g: 20, b: 30, a: 255 });

    let directional = DirectionalLight::builder().build();
    assert_eq!(directional.intensity, 1000);
    assert_eq!(directional.color, Color::white());
    assert_eq!(directional.direction, Vec3::new(0, -1000, 0));
}

#[test]
fn material_builder_collects_every_setting() {
    let m = Material::builder()
        .transparent()
        .name("glass".to_string())
        .albedo(Color { r: 1, g: 2, b: 3, a: 4 })
        .albedo_texture(10)
        .metallic(250)
        .roughness(500)
        .occlusion_metallic_roughness_texture(11)
        .metallic_roughness_texture(12)
        .occlusion_strength(900)
        .occlusion_texture(13)
        .normal_scale(1100)
        .normal_texture(14)
        .emissive(Color { r: 5, g: 6, b: 7, a: 8 })
        .emissive_texture(15)
        .alpha_cutout(100)
        .lighting_model(LightingModel::Cook)
        .index_of_refraction(1300)
        .transmission(200)
        .transmission_texture(16)
        .build();
    assert_eq!(m.material_type, Some(MaterialType::Transparent));
    assert_eq!(m.name, "glass");
    assert_eq!(m.albedo, Color { r: 1, g: 2, b: 3, a: 4 });
    assert_eq!(m.albedo_texture, Some(10));
    assert_eq!(m.metallic, 250);
    assert_eq!(m.roughness, 500);
    assert_eq!(m.occlusion_metallic_roughness_texture, Some(11));
    assert_eq!(m.metallic_roughness_texture, Some(12));
    assert_eq!(m.occlusion_strength, 900);
    assert_eq!(m.occlusion_texture, Some(13));
    assert_eq!(m.normal_scale, 1100);
    assert_eq!(m.normal_texture, Some(14));
    assert_eq!(m.emissive, Color { r: 5, g: 6, b: 7, a: 8 });
    assert_eq!(m.emissive_texture, Some(15));
    assert_eq!(m.alpha_cutout, Some(100));
    assert_eq!(m.lighting_model, LightingModel::Cook);
    assert_eq!(m.index_of_refraction, 1300);
    assert_eq!(m.transmission, 200);
    assert_eq!(m.transmission_texture, Some(16));
}

#[test]
fn material_builder_defaults_match_plain_surface() {
    let m = Material::builder().build();
    assert_eq!(m.material_type, None);
    assert_eq!(m.name, "default");
    assert_eq!(m.albedo, Color::white());
    assert_eq!(m.metallic, 0);
    assert_eq!(m.roughness, 1000);
    assert_eq!(m.lighting_model, LightingModel::Blinn);
    assert_eq!(m.index_of_refraction, 1500);
}

#[test]
fn model_builder_assembles_parts() {
    let material = Material::builder().opaque().build();
    let m = Model::builder()
        .mesh(3)
        .material(material)
        .transform(Transform::from_translation(Vec3::new(1, 2, 3)))
        .build();
    assert_eq!(m.mesh, 3);
    assert_eq!(m.material.material_type, Some(MaterialType::Opaque));
    assert_eq!(m.transform.translation, Vec3::new(1, 2, 3));
}

#[test]
fn engine_options_defaults() {
    let o = EngineOptions::new();
    assert_eq!(o.title, "Engine");
    assert_eq!(o.min_size, (100, 100));
    assert_eq!(o.max_size, None);
    assert_eq!(o.initial_size, None);
    assert!(!o.borderless);
}

#[test]
fn setup_default_camera_activates_one() {
    let mut scene = Scene::new("demo".to_string());
    let id = scene.setup_default_camera(test_viewport());
    assert_eq!(id, 0);
    assert!(scene.get_active_camera().is_some());
    let id2 = scene.setup_orbit_camera(test_viewport());
    assert_eq!(id2, 1);
}

#[test]
fn active_scene_mut_reaches_the_active_scene() {
    let mut m = SceneManager::new();
    m.register(1, Scene::new("one".to_string()));
    let mut hooks = CountingHooks::new();
    assert!(m.set_active(1, &mut hooks).unwrap());
    {
        let scene = m.active_scene_mut();
        scene.add_object(GameObject::new("prop".to_string()));
    }
    assert_eq!(m.get_mut(1).objects().len(), 1);
}

#[test]
fn bound_frame_is_readable_during_updates() {
    let mut scene = Scene::new("demo".to_string());
    scene.frame = Some(empty_frame());
    assert_eq!(scene.frame().delta_time(), 16);
    assert_eq!(scene.frame().viewport(), test_viewport());
}

#[test]
fn distance_and_top_down_camera_setups() {
    let mut scene = Scene::new("demo".to_string());
    let id = scene.setup_orbit_camera_at_distance(10_000, test_viewport());
    assert!(scene.get_active_camera().is_some());
    let id2 = scene.setup_top_down_camera(5_000, test_viewport());
    assert_eq!((id, id2), (0, 1));
}

#[test]
fn ambient_environment_handle_carries_through() {
    let lit = AmbientLight::builder().environment(5).build();
    assert_eq!(lit.environment, Some(5));
    let plain = AmbientLight::builder().build();
    assert_eq!(plain.environment, None);
}

#[test]
fn render_plan_carries_the_active_camera() {
    let mut scene = Scene::new("demo".to_string());
    let first = camera_2d();
    scene.add_camera(first);
    let mut second = camera_2d();
    second.distance = 4242;
    let id2 = scene.add_camera(second);
    assert!(scene.set_active_camera(id2));

    let mut hooks = NoopHooks;
    let mut frame = empty_frame();
    let plan = scene.full_update(1, &mut hooks, &mut frame).unwrap().unwrap();
    assert_eq!(plan.camera.distance, 4242);
}
