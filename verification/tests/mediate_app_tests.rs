use mediator::provider::MemoryProvider;
use mediator::toggle::{LoadedToggle, ToggleApp, ToggleModule};
use mediator::util::label::IntoLabelled;
use mediator::{mediate_labelled, ConfigParseErr, ConfigProvider, Mediate, Module};

#[test]
fn mediate_app() {
    let app = ToggleApp::new().mediate(ToggleModule.labelled("test"));

    assert!(!app.inited, "inited = {0}", app.inited);

    let mut app = ToggleApp::new();
    app.config_source
        .insert("test".to_string(), serde_json::to_string(&true).unwrap());
    let app = app.mediate(ToggleModule.labelled("test"));

    assert!(app.inited, "inited = {0}", app.inited)
}

#[test]
fn absent_key_degrades_to_default() {
    let app = ToggleApp::new().mediate(ToggleModule.labelled("feature"));

    assert!(!app.inited);
}

#[test]
fn present_key_enables_toggle() {
    let mut app = ToggleApp::new();
    app.config_source
        .insert("feature".to_string(), "true".to_string());
    let app = app.mediate(ToggleModule.labelled("feature"));

    assert!(app.inited);
}

#[test]
fn absent_config_equals_initialize_none() {
    let mediated = ToggleApp::new().mediate(ToggleModule.labelled("x"));
    let direct = ToggleApp::new().mediate(ToggleModule.initialize(None));

    assert_eq!(mediated.inited, direct.inited);
}

#[test]
fn mediate_labelled_fn_matches_method() {
    let mut provider = MemoryProvider::new();
    provider.insert("feature".to_string(), "true".to_string());
    let through_fn = mediate_labelled::<
        ToggleApp,
        &str,
        ToggleModule,
        bool,
        LoadedToggle,
        MemoryProvider,
    >(ToggleApp::new(), &provider, ToggleModule.labelled("feature"));

    assert!(through_fn.inited);
}

#[test]
fn malformed_value_degrades_to_default() {
    let mut app = ToggleApp::new();
    app.config_source
        .insert("feature".to_string(), "maybe".to_string());
    let app = app.mediate(ToggleModule.labelled("feature"));

    assert!(!app.inited);
}

#[test]
fn extract_reports_missing_key() {
    let provider = MemoryProvider::new();
    let result: Result<bool, ConfigParseErr> = provider.extract("nothing");

    assert!(matches!(result, Err(ConfigParseErr::NoKey)));
}

#[test]
fn extract_reports_malformed_value() {
    let mut provider = MemoryProvider::new();
    provider.insert("flag".to_string(), "yes".to_string());
    let result: Result<bool, ConfigParseErr> = provider.extract("flag");

    assert!(matches!(result, Err(ConfigParseErr::DeserializeFail)));
}

#[test]
fn extract_first_entry_wins() {
    let mut provider = MemoryProvider::new();
    provider.insert("flag".to_string(), "true".to_string());
    provider.insert("flag".to_string(), "false".to_string());
    let result: Result<bool, ConfigParseErr> = provider.extract("flag");

    assert!(matches!(result, Ok(true)));
}

#[test]
fn extract_decodes_false() {
    let mut provider = MemoryProvider::new();
    provider.insert("flag".to_string(), "false".to_string());
    let result: Result<bool, ConfigParseErr> = provider.extract("flag");

    assert!(matches!(result, Ok(false)));
}

#[test]
fn other_error_carries_description() {
    let err = ConfigParseErr::Other("backing store unavailable".to_string());

    assert!(matches!(err, ConfigParseErr::Other(msg) if msg == "backing store unavailable"));
}
