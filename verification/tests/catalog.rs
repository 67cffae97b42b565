use opencode_provider::model::{advertised_models, models, resolve, EndpointKind};

#[test]
fn supported_catalog_is_partitioned_by_wire_protocol() {
    let all = models();
    let chat = all
        .iter()
        .filter(|model| model.endpoint == EndpointKind::ChatCompletions)
        .count();
    let messages = all
        .iter()
        .filter(|model| model.endpoint == EndpointKind::Messages)
        .count();
    assert_eq!(chat, 11);
    assert_eq!(messages, 6);
}

#[test]
fn canonical_prefix_resolves_and_unknown_models_do_not() {
    let spec = resolve("opencode-go/minimax-m3").expect("known model");
    assert_eq!(spec.id, "minimax-m3");
    assert_eq!(spec.endpoint, EndpointKind::Messages);
    assert!(resolve("opencode-go/not-a-model").is_none());
}

#[test]
fn conflicting_kimi_id_is_only_advertised_with_prefix() {
    let models = advertised_models();
    assert!(!models.iter().any(|model| model == "kimi-k2.6"));
    assert!(models.iter().any(|model| model == "opencode-go/kimi-k2.6"));
}

#[test]
fn bare_ids_and_canonical_names_resolve_to_the_same_model() {
    for model in models() {
        let bare = resolve(model.id).expect("bare id");
        let canonical = resolve(&format!("opencode-go/{}", model.id)).expect("canonical name");
        assert_eq!(bare, model);
        assert_eq!(canonical, model);
    }
}

#[test]
fn prefix_is_taken_off_once() {
    assert!(resolve("opencode-go/opencode-go/glm-5").is_none());
    assert!(resolve("opencode-go/").is_none());
    assert!(resolve("").is_none());
    assert!(resolve("OpenCode-Go/glm-5").is_none());
    assert!(resolve("glm-5 ").is_none());
    assert!(resolve("glm-5\u{e9}").is_none());
}

#[test]
fn shared_id_still_resolves_without_its_prefix() {
    let spec = resolve("kimi-k2.6").expect("known model");
    assert_eq!(spec.id, "kimi-k2.6");
    assert_eq!(spec.endpoint, EndpointKind::ChatCompletions);
}

#[test]
fn advertised_names_are_sorted_and_complete() {
    let names = advertised_models();
    let mut expected: Vec<String> = Vec::new();
    for model in models() {
        if model.id != "kimi-k2.6" {
            expected.push(model.id.to_string());
        }
        expected.push(format!("opencode-go/{}", model.id));
    }
    expected.sort_unstable();
    assert_eq!(names, expected);
    assert_eq!(names.len(), 33);
    assert_eq!(names[0], "deepseek-v4-flash");
    assert_eq!(names[32], "qwen3.7-plus");
    for name in &names {
        assert!(resolve(name).is_some());
    }
    assert_eq!(opencode_provider::provider::advertised_models(), expected);
}
