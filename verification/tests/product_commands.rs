use ecoach_commands::product_commands::{
    build_capability_registry, get_capability_registry, semantic_confidence_bands, semantic_mastery_bands,
    semantic_readiness_bands, semantic_severity_bands, SemanticBandDto,
};
use ecoach_commands::product_vault::{feature_unlocks_for, push_action_recommendation};
use ecoach_commands::product_commands::ActionRecommendationDto;

#[test]
fn capability_registry_maps_confusion_into_product_tools() {
    let registry = build_capability_registry();
    assert!(registry.iter().any(|item| {
        item.signal_key == "conceptual_confusion" && item.tool_key == "contrast_mode"
    }));
    assert!(
        registry
            .iter()
            .any(|item| item.signal_key == "content_governance")
    );
}

#[test]
fn semantics_registry_exposes_readiness_and_confidence_bands() {
    assert!(!semantic_readiness_bands().is_empty());
    assert!(
        semantic_confidence_bands()
            .iter()
            .any(|band| band.registry_key == "high")
    );
}

fn assert_tiles(bands: &[SemanticBandDto]) {
    assert!(!bands.is_empty());
    assert_eq!(bands[0].min_bp, None);
    assert_eq!(bands[bands.len() - 1].max_bp, Some(10_000));
    for pair in bands.windows(2) {
        assert_eq!(pair[0].max_bp.unwrap() + 1, pair[1].min_bp.unwrap());
    }
}

#[test]
fn semantic_bands_cover_the_basis_point_scale_without_gaps() {
    assert_tiles(&semantic_readiness_bands());
    assert_tiles(&semantic_mastery_bands());
    assert_tiles(&semantic_confidence_bands());
    assert_tiles(&semantic_severity_bands());
    assert!(semantic_confidence_bands().iter().any(|band| band.registry_key == "high"));
}

#[test]
fn capability_registry_wraps_the_mappings() {
    let registry = get_capability_registry().expect("registry should build");
    assert_eq!(registry.mappings.len(), build_capability_registry().len());
    let stamp = registry.generated_at.as_str();
    assert!(stamp.ends_with("+00:00"));
    let t = stamp.find('T').expect("a date and a time");
    assert!(t >= 10);
    assert_eq!(&stamp[t - 6..t - 5], "-");
    assert_eq!(&stamp[t + 3..t + 4], ":");
}

#[test]
fn feature_unlocks_list_each_feature_once() {
    let features = feature_unlocks_for("student", "elite");
    assert!(features.contains(&"learning_workspace".to_string()));
    for (i, a) in features.iter().enumerate() {
        for b in features.iter().skip(i + 1) {
            assert_ne!(a, b);
        }
    }
}

fn recommendation(key: &str) -> ActionRecommendationDto {
    ActionRecommendationDto {
        recommendation_key: key.to_string(),
        audience: "admin".to_string(),
        label: format!("Do {}", key),
        summary: "summary".to_string(),
        route_key: "route".to_string(),
        urgency: "high".to_string(),
        rationale: "because".to_string(),
    }
}

#[test]
fn adding_a_recommendation_twice_keeps_one() {
    let mut items = Vec::new();
    push_action_recommendation(&mut items, recommendation("a"));
    push_action_recommendation(&mut items, recommendation("b"));
    push_action_recommendation(&mut items, recommendation("a"));
    assert_eq!(items.len(), 2);
    assert_eq!(items[0].recommendation_key, "a");
    assert_eq!(items[1].recommendation_key, "b");
}
