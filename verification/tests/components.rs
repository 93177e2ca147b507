use ciri::component::{
    Component, ComponentError, ComponentKind, ComponentLifecycle, ComponentRequirements,
    Renderer, Rotator, FIRST_MARKER_TAG, RENDERER_TAG, ROTATOR_TAG,
};
use ciri::game_object::GameObject;
use ciri::scene::Scene;

fn marker(tag: u64) -> Component {
    Component::new(ComponentKind::Marker(tag))
}

fn renderer(handle: u64) -> Component {
    Component::new(ComponentKind::Renderer(Renderer::new(handle)))
}

#[test]
fn add_then_get_returns_inserted_instance() {
    let mut g = GameObject::new("thing".to_string());
    g.add_component(renderer(7));
    let got = g.get_component(RENDERER_TAG).unwrap();
    assert!(matches!(got.kind, ComponentKind::Renderer(Renderer { handle: 7 })));
}

#[test]
fn second_add_replaces_without_trace() {
    let mut g = GameObject::new("thing".to_string());
    g.add_component(renderer(7));
    g.add_component(renderer(9));
    let got = g.get_component(RENDERER_TAG).unwrap();
    assert!(matches!(got.kind, ComponentKind::Renderer(Renderer { handle: 9 })));
    assert_eq!(g.get_component_types(), vec![RENDERER_TAG]);
}

#[test]
fn missing_requirement_fails_every_order() {
    let needed = FIRST_MARKER_TAG + 1;
    let wants = Component::with_requirements(
        ComponentKind::Marker(FIRST_MARKER_TAG),
        ComponentRequirements { required: vec![needed], conflicts: Vec::new() },
    );

    // On an empty object.
    let mut g1 = GameObject::new("a".to_string());
    assert_eq!(g1.try_add_component(wants.clone()), Err(ComponentError::MissingRequirement));

    // With unrelated components present first.
    let mut g2 = GameObject::new("b".to_string());
    g2.add_component(marker(FIRST_MARKER_TAG + 2));
    g2.add_component(renderer(1));
    assert_eq!(g2.try_add_component(wants.clone()), Err(ComponentError::MissingRequirement));

    // Once the requirement is present, the add succeeds.
    g2.add_component(marker(needed));
    assert_eq!(g2.try_add_component(wants), Ok(()));
    assert!(g2.has_component(FIRST_MARKER_TAG));
}

#[test]
fn conflicting_component_fails() {
    let enemy = FIRST_MARKER_TAG + 3;
    let loner = Component::with_requirements(
        ComponentKind::Marker(FIRST_MARKER_TAG),
        ComponentRequirements { required: Vec::new(), conflicts: vec![enemy] },
    );
    let mut g = GameObject::new("c".to_string());
    g.add_component(marker(enemy));
    assert_eq!(g.try_add_component(loner.clone()), Err(ComponentError::ConflictPresent));
    g.remove_component(enemy);
    assert_eq!(g.try_add_component(loner), Ok(()));
}

#[test]
fn remove_component_absent_is_silent() {
    let mut g = GameObject::new("d".to_string());
    g.add_component(renderer(4));
    g.remove_component(ROTATOR_TAG);
    assert!(g.has_component(RENDERER_TAG));
    g.remove_component(RENDERER_TAG);
    assert!(!g.has_component(RENDERER_TAG));
}

#[test]
fn has_component_by_id_matches_has_component() {
    let mut g = GameObject::new("e".to_string());
    g.add_component(marker(FIRST_MARKER_TAG));
    assert!(g.has_component_by_id(FIRST_MARKER_TAG));
    assert_eq!(
        g.has_component(FIRST_MARKER_TAG + 1),
        g.has_component_by_id(FIRST_MARKER_TAG + 1)
    );
}

#[test]
fn get_component_mut_rewrites_in_place() {
    let mut g = GameObject::new("f".to_string());
    g.add_component(Component::new(ComponentKind::Rotator(Rotator::new(100))));
    {
        let c = g.get_component_mut(ROTATOR_TAG);
        c.kind = ComponentKind::Rotator(Rotator::new(900));
    }
    let got = g.get_component(ROTATOR_TAG).unwrap();
    assert!(matches!(got.kind, ComponentKind::Rotator(Rotator { speed: 900 })));
}

#[test]
fn lifecycle_reports_requirements() {
    let needed = FIRST_MARKER_TAG + 5;
    let c = Component::with_requirements(
        ComponentKind::Marker(FIRST_MARKER_TAG),
        ComponentRequirements { required: vec![needed], conflicts: Vec::new() },
    );
    let reqs = c.get_requirements();
    assert_eq!(reqs.required, vec![needed]);
    assert!(reqs.conflicts.is_empty());
}

#[test]
fn clone_clears_identity_but_keeps_contents() {
    let mut scene = Scene::new("world".to_string());
    let mut temp = GameObject::new("original".to_string());
    temp.add_component(renderer(11));
    let id = scene.add_object(temp);
    let stored = scene.query(id).unwrap();
    assert_eq!(stored.id, Some(id));
    let copy = stored.clone();
    assert_eq!(copy.id, None);
    assert_eq!(copy.name, "original");
    assert_eq!(copy.active, stored.active);
    let got = copy.get_component(RENDERER_TAG).unwrap();
    assert!(matches!(got.kind, ComponentKind::Renderer(Renderer { handle: 11 })));
}

#[test]
fn renderer_handle_lookup() {
    let mut g = GameObject::new("g".to_string());
    assert_eq!(g.renderer_handle(), None);
    g.add_component(marker(FIRST_MARKER_TAG));
    g.add_component(renderer(21));
    assert_eq!(g.renderer_handle(), Some(21));
}

#[test]
fn with_component_builder_chain() {
    let g = GameObject::new("h".to_string())
        .with_component(renderer(3))
        .with_component(Component::new(ComponentKind::Rotator(Rotator::new(50))));
    assert!(g.has_component(RENDERER_TAG));
    assert!(g.has_component(ROTATOR_TAG));
    assert_eq!(g.get_component_types().len(), 2);
}
