use service_helpers::axum::{
    export_failure, generate_open_api_spec_from_open_api, rendered_spec, ExportErrorKind,
    ExportStep,
};
use service_helpers::failure::Failure;
use utoipa::openapi::{Info, OpenApi, Paths};

fn strings(parts: &[&str]) -> Vec<String> {
    parts.iter().map(|p| p.to_string()).collect()
}

#[test]
fn rendered_description_parses_back_to_itself() {
    let description = OpenApi::new(Info::new("pet api", "0.1.0"), Paths::new());
    let text = generate_open_api_spec_from_open_api(&description).unwrap();
    let parsed: OpenApi = serde_json::from_str(&text).unwrap();
    assert_eq!(parsed.info.title, "pet api");
    assert_eq!(parsed.info.version, "0.1.0");
    assert!(parsed.openapi == description.openapi);
    assert!(parsed.paths.paths == description.paths.paths);
    assert_eq!(generate_open_api_spec_from_open_api(&parsed).unwrap(), text);
}

#[test]
fn rendered_description_is_pretty_printed() {
    let description = OpenApi::new(Info::new("pet api", "0.1.0"), Paths::new());
    let text = generate_open_api_spec_from_open_api(&description).unwrap();
    assert_eq!(text, description.to_pretty_json().unwrap());
    assert_eq!(
        text,
        "{\n  \"openapi\": \"3.1.0\",\n  \"info\": {\n    \"title\": \"pet api\",\n    \"version\": \"0.1.0\"\n  },\n  \"paths\": {}\n}"
    );
    let value: serde_json::Value = serde_json::from_str(&text).unwrap();
    assert_eq!(value["info"]["title"], "pet api");
    assert_eq!(value["openapi"], "3.1.0");
}

#[test]
fn failed_rendering_is_a_serialization_failure() {
    let error = export_failure(ExportStep::Render, Failure::new("key must be a string".to_string()));
    assert_eq!(error.kind, ExportErrorKind::Serialization);
    assert_eq!(
        error.failure.messages(),
        &strings(&["Failed to generate open API spec", "key must be a string"])
    );
}

#[test]
fn failed_creation_is_an_io_failure() {
    let error = export_failure(ExportStep::Create, Failure::new("Permission denied".to_string()));
    assert_eq!(error.kind, ExportErrorKind::Io);
    assert_eq!(
        error.failure.messages(),
        &strings(&["Failed to create open API spec file", "Permission denied"])
    );
}

#[test]
fn failed_write_is_an_io_failure() {
    let cause = Failure::new("No space left on device".to_string());
    let error = export_failure(ExportStep::Write, cause);
    assert_eq!(error.kind, ExportErrorKind::Io);
    assert_eq!(
        error.failure.messages(),
        &strings(&["Failed to write open api spec to file", "No space left on device"])
    );
    assert_eq!(
        error.failure.terse(),
        "Failed to write open api spec to file: No space left on device"
    );
}

#[test]
fn rendered_text_is_handed_on() {
    assert_eq!(rendered_spec(Ok("{}".to_string())).unwrap(), "{}");
}

#[test]
fn renderer_message_becomes_the_cause() {
    let error = rendered_spec(Err("recursion limit exceeded".to_string())).unwrap_err();
    assert_eq!(error.kind, ExportErrorKind::Serialization);
    assert_eq!(
        error.failure.messages(),
        &strings(&["Failed to generate open API spec", "recursion limit exceeded"])
    );
}
