use sdkwork_image::generation::{map_create_command, ImageGenerationCommandWire};
use sdkwork_image::runtime::{resolve_fetch_url, ProviderArtifactRef};

#[test]
fn map_create_command_preserves_scene_and_prompt() {
    let command = map_create_command(ImageGenerationCommandWire {
        prompt: "hero".to_string(),
        negative_prompt: None,
        scene: "playground_image".to_string(),
        provider_code: Some("openai".to_string()),
        model: None,
        resolution: None,
        style: None,
        output_count: Some(1),
        reference_images: Vec::new(),
        webhook_url: None,
        idempotency_key: None,
    })
    .expect("command");
    assert_eq!(command.prompt, "hero");
    assert_eq!(command.scene, "playground_image");
}

#[test]
fn rejects_non_http_provider_urls() {
    let artifact = ProviderArtifactRef {
        output_index: 0,
        provider_url: Some("file:///etc/passwd".to_string()),
        provider_uri: None,
        file_name: None,
        mime_type: None,
    };
    assert!(resolve_fetch_url(&artifact).is_err());
}

#[test]
fn accepts_https_provider_urls() {
    let artifact = ProviderArtifactRef {
        output_index: 0,
        provider_url: Some("https://provider.example.com/a.png".to_string()),
        provider_uri: None,
        file_name: None,
        mime_type: None,
    };
    assert!(resolve_fetch_url(&artifact).is_ok());
}
