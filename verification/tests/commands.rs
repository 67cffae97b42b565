use opencode_provider::cli::OpenCodeCli;

#[test]
fn logging_in_points_to_the_configuration() {
    let expected = "OpenCode Go uses an API key; set CCP_OPENCODE_API_KEY, OPENCODE_API_KEY, or opencode.apiKey in config.json";
    assert_eq!(OpenCodeCli.login().unwrap_err(), expected);
    assert_eq!(OpenCodeCli.device().unwrap_err(), expected);
}

#[test]
fn logging_out_points_to_the_configuration() {
    assert_eq!(
        OpenCodeCli.logout().unwrap_err(),
        "OpenCode Go credentials are managed through environment variables or config.json"
    );
}

#[test]
fn status_names_the_source_and_the_base_url() {
    assert_eq!(
        OpenCodeCli.status(Some("environment"), "https://example.com/v1").unwrap(),
        vec![
            "API key configured: true".to_string(),
            "Source: environment".to_string(),
            "Base URL: https://example.com/v1".to_string(),
        ]
    );
    assert_eq!(
        OpenCodeCli.status(None, "https://example.com/v1").unwrap_err(),
        "Not authenticated"
    );
}
