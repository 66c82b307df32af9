//! The component catalog, the preview view, the list row, and the
//! onboarding dialog's state.

use testkit::list_item::{ListItem, ListItemSpacing};
use testkit::modal::{SignInStatus, ZedPredictModal};
use testkit::preview::{ComponentPreview, FocusHandle};
use testkit::registry::{
    components, example_group, example_group_with_title, init, register_component,
    register_component_entry, register_preview, register_preview_entry, single_example,
    AnyElement, Component, ComponentEntry, ComponentExample, ComponentId,
    ComponentPreview as ComponentPreviewTrait, ComponentRegistry, ExampleLabelSide, PreviewId,
};

struct SampleButton;

impl Component for SampleButton {
    fn scope() -> Option<String> {
        Some("input".to_string())
    }

    fn name() -> String {
        "ui::button::Button".to_string()
    }
}

impl ComponentPreviewTrait for SampleButton {
    fn preview() -> PreviewId {
        PreviewId(11)
    }
}

struct SampleLabel;

impl Component for SampleLabel {
    fn scope() -> Option<String> {
        None
    }

    fn name() -> String {
        "Label".to_string()
    }
}

#[test]
fn registry_collects_components_and_previews() {
    let mut registry = ComponentRegistry::new();
    register_component::<SampleButton>(&mut registry);
    register_component::<SampleLabel>(&mut registry);
    register_preview::<SampleButton>(&mut registry);

    let all = components(&registry);
    assert_eq!(all.0.len(), 2);

    let button = all.get(&ComponentId("ui::button::Button".to_string())).unwrap();
    assert_eq!(button.scope().as_deref(), Some("input"));
    assert_eq!(button.preview(), Some(PreviewId(11)));

    let label = all.get(&ComponentId("Label".to_string())).unwrap();
    assert!(label.preview().is_none());
    assert!(label.description().is_none());

    assert!(all.get(&ComponentId("Missing".to_string())).is_none());

    assert_eq!(all.all().len(), 2);
    let previewed = all.all_previews();
    assert_eq!(previewed.len(), 1);
    assert_eq!(previewed[0].name(), "ui::button::Button");
}

#[test]
fn init_builds_the_registry_from_the_collected_lists() {
    let registry = init(
        vec![
            ComponentEntry {
                scope: None,
                name: "A".to_string(),
                description: Some("first".to_string()),
            },
            ComponentEntry { scope: None, name: "B".to_string(), description: None },
        ],
        vec![("A".to_string(), PreviewId(1)), ("B".to_string(), PreviewId(2))],
    );
    let all = components(&registry);
    assert_eq!(all.all_previews().len(), 2);
    let a = all.get(&ComponentId("A".to_string())).unwrap();
    assert_eq!(a.description().as_deref(), Some("first"));
    assert_eq!(a.preview(), Some(PreviewId(1)));
}

#[test]
fn later_registrations_replace_earlier_ones() {
    let mut registry = ComponentRegistry::new();
    register_preview_entry(&mut registry, "A".to_string(), PreviewId(1));
    register_preview_entry(&mut registry, "A".to_string(), PreviewId(2));
    register_component_entry(
        &mut registry,
        ComponentEntry { scope: None, name: "A".to_string(), description: None },
    );
    let all = components(&registry);
    let a = all.get(&ComponentId("A".to_string())).unwrap();
    assert_eq!(a.preview(), Some(PreviewId(2)));
}

#[test]
fn preview_cards_split_the_name_at_the_last_separator() {
    let mut registry = ComponentRegistry::new();
    register_component::<SampleButton>(&mut registry);
    register_preview::<SampleButton>(&mut registry);
    let all = components(&registry);
    let view = ComponentPreview::new(FocusHandle(1));

    let cards = view.render_previews(&all);
    assert_eq!(cards.len(), 1);
    let card = &cards[0];
    assert_eq!(card.title.as_deref(), Some("Button"));
    assert_eq!(card.source.as_deref(), Some("ui::button"));
    assert_eq!(card.preview, Some(PreviewId(11)));
}

#[test]
fn preview_cards_without_separator_have_no_title() {
    let mut registry = ComponentRegistry::new();
    register_component::<SampleLabel>(&mut registry);
    let all = components(&registry);
    let view = ComponentPreview::new(FocusHandle(1));
    let label = all.get(&ComponentId("Label".to_string())).unwrap();
    let card = view.render_preview(label);
    assert!(card.title.is_none());
    assert!(card.source.is_none());
}

#[test]
fn sidebar_lists_every_component_in_order() {
    let mut registry = ComponentRegistry::new();
    register_component::<SampleButton>(&mut registry);
    register_component::<SampleLabel>(&mut registry);
    let all = components(&registry);
    let view = ComponentPreview::new(FocusHandle(1));
    let names = view.render_sidebar(&all);
    assert_eq!(names, vec!["ui::button::Button".to_string(), "Label".to_string()]);
}

#[test]
fn example_builders_record_their_settings() {
    let e = single_example("Default".to_string(), AnyElement { id: 1 });
    assert_eq!(e.variant_name, "Default");
    assert_eq!(e.label_side, ExampleLabelSide::Top);
    assert!(!e.grow);
    let e = e.grow();
    assert!(e.grow);

    let g = example_group(vec![ComponentExample::new(
        "One".to_string(),
        AnyElement { id: 2 },
    )]);
    assert!(g.title.is_none());
    assert_eq!(g.examples.len(), 1);

    let g = example_group_with_title("Sizes".to_string(), vec![]).grow();
    assert_eq!(g.title.as_deref(), Some("Sizes"));
    assert!(g.grow);
}

#[test]
fn list_item_builders_record_their_settings() {
    let item = ListItem::new(3)
        .spacing(ListItemSpacing::Sparse)
        .selectable(false)
        .inset(true)
        .indent_level(2)
        .indent_step_size(16)
        .toggle(Some(true))
        .start_slot(Some(AnyElement { id: 1 }))
        .end_slot(Some(AnyElement { id: 2 }))
        .end_hover_slot(Some(AnyElement { id: 3 }))
        .overflow_x()
        .disabled(true)
        .selected(true);
    assert_eq!(item.id, 3);
    assert_eq!(item.spacing, ListItemSpacing::Sparse);
    assert!(!item.selectable);
    assert!(item.inset);
    assert_eq!(item.indent_level, 2);
    assert_eq!(item.indent_step_size, 16);
    assert_eq!(item.toggle, Some(true));
    assert!(item.disabled);
    assert!(item.selected);
    assert_eq!(item.start_slot, Some(AnyElement { id: 1 }));
}

/// The inline child vector really accumulates what `extend` appends.
#[test]
fn list_item_children_come_back_in_order() {
    let mut item = ListItem::new(1);
    assert!(item.children().is_empty());
    item.extend(vec![AnyElement { id: 10 }, AnyElement { id: 11 }]);
    item.extend(vec![AnyElement { id: 12 }]);
    let children = item.children();
    assert_eq!(
        children,
        vec![AnyElement { id: 10 }, AnyElement { id: 11 }, AnyElement { id: 12 }]
    );
}

#[test]
fn sign_in_status_follows_the_authentication() {
    let mut dialog = ZedPredictModal::new(FocusHandle(4));
    assert_eq!(dialog.sign_in_status, SignInStatus::Idle);
    dialog.sign_in();
    assert_eq!(dialog.sign_in_status, SignInStatus::Waiting);
    dialog.sign_in_finished(false);
    assert_eq!(dialog.sign_in_status, SignInStatus::Idle);
    dialog.sign_in();
    dialog.sign_in_finished(true);
    assert_eq!(dialog.sign_in_status, SignInStatus::SignedIn);
    assert_eq!(dialog.focus_handle(), FocusHandle(4));
}
