use mediator::tracing::{
    parse_directives, parse_level, RuntimeTracingConfigOverride, TraceTargets, TracingConfig,
    TracingLayer, TracingLevel, TracingModule,
};
use mediator::Module;

#[test]
fn parse_bare_level_sets_default() {
    let parsed = parse_directives("info").unwrap();

    assert_eq!(parsed.0, Some(TracingLevel::Info));
    assert!(parsed.1.is_empty());
}

#[test]
fn parse_target_directives() {
    let parsed = parse_directives("foo=debug,bar=warn").unwrap();

    assert_eq!(parsed.0, None);
    assert_eq!(parsed.1.len(), 2);
    assert_eq!(parsed.1[0].0, "foo");
    assert_eq!(parsed.1[0].1, TracingLevel::Debug);
    assert_eq!(parsed.1[1].0, "bar");
    assert_eq!(parsed.1[1].1, TracingLevel::Warn);
}

#[test]
fn parse_mixed_directives() {
    let parsed = parse_directives("error,core=trace").unwrap();

    assert_eq!(parsed.0, Some(TracingLevel::Error));
    assert_eq!(parsed.1.len(), 1);
    assert_eq!(parsed.1[0].0, "core");
    assert_eq!(parsed.1[0].1, TracingLevel::Trace);
}

#[test]
fn parse_rejects_unknown_level() {
    assert!(parse_directives("bogus").is_none());
    assert!(parse_directives("foo=loud").is_none());
}

#[test]
fn parse_rejects_empty_pieces() {
    assert!(parse_directives("").is_none());
    assert!(parse_directives("=debug").is_none());
    assert!(parse_directives("foo=").is_none());
}

#[test]
fn parse_level_names() {
    assert_eq!(parse_level("trace"), Some(TracingLevel::Trace));
    assert_eq!(parse_level("off"), Some(TracingLevel::Off));
    assert_eq!(parse_level("INFO"), None);
}

#[test]
fn default_config_logs_at_info() {
    let config = TracingConfig::default();

    assert_eq!(config.layer, TracingLayer::Log);
    let targets = config.base_targets.unwrap();
    assert_eq!(targets.default_level, Some(TracingLevel::Info));
    assert!(targets.targets.is_empty());
}

#[test]
fn overrides_replace_layer_and_default() {
    let overridden = TracingConfig::default().with_overrides(RuntimeTracingConfigOverride {
        default: Some(TracingLevel::Debug),
        targets: Some(vec![("app".to_string(), TracingLevel::Trace)]),
        layer: Some(TracingLayer::Otel),
    });

    assert_eq!(overridden.layer, TracingLayer::Otel);
    let targets = overridden.base_targets.unwrap();
    assert_eq!(targets.default_level, Some(TracingLevel::Debug));
    assert_eq!(targets.targets.len(), 1);
    assert_eq!(targets.targets[0].0, "app");
    assert_eq!(targets.targets[0].1, TracingLevel::Trace);
}

#[test]
fn empty_override_changes_nothing() {
    let kept = TracingConfig::default().with_overrides(RuntimeTracingConfigOverride {
        default: None,
        targets: None,
        layer: None,
    });

    assert_eq!(kept.layer, TracingLayer::Log);
    let targets = kept.base_targets.unwrap();
    assert_eq!(targets.default_level, Some(TracingLevel::Info));
    assert!(targets.targets.is_empty());
}

#[test]
fn latest_target_entry_wins() {
    let targets = TraceTargets::new()
        .with_target("app".to_string(), TracingLevel::Info)
        .with_target("app".to_string(), TracingLevel::Debug);

    assert_eq!(targets.effective_level("app"), Some(TracingLevel::Debug));
    assert_eq!(targets.effective_level("other"), None);
}

#[test]
fn effective_level_falls_back_to_default() {
    let targets = TraceTargets::new()
        .with_default(TracingLevel::Warn)
        .with_target("noisy".to_string(), TracingLevel::Off);

    assert_eq!(targets.effective_level("noisy"), Some(TracingLevel::Off));
    assert_eq!(targets.effective_level("quiet"), Some(TracingLevel::Warn));
}

#[test]
fn module_initialization_keeps_override() {
    let module = TracingModule::new(None).initialize(Some(RuntimeTracingConfigOverride {
        default: Some(TracingLevel::Error),
        targets: None,
        layer: None,
    }));
    let config = module.resolved_config();

    assert_eq!(config.layer, TracingLayer::Log);
    let targets = config.base_targets.unwrap();
    assert_eq!(targets.default_level, Some(TracingLevel::Error));
}

#[test]
fn module_initialization_without_config_keeps_defaults() {
    let module = TracingModule::new(None).initialize(None);
    let config = module.resolved_config();

    assert_eq!(config.layer, TracingLayer::Log);
    let targets = config.base_targets.unwrap();
    assert_eq!(targets.default_level, Some(TracingLevel::Info));
}
