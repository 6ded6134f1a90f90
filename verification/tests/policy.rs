use phenotype_shared::policy::context::{EvaluationContext, FactValue};
use phenotype_shared::policy::engine::PolicyEngine;
use phenotype_shared::policy::error::PolicyEngineError;
use phenotype_shared::policy::loader::{PoliciesConfigFile, PolicyConfig, RuleConfig, default_true};
use phenotype_shared::policy::policy::{EvaluablePolicy, Policy};
use phenotype_shared::policy::result::{PolicyResult, Severity, Violation};
use phenotype_shared::policy::rule::{Rule, RuleType};

// ---- rules ----

#[test]
fn test_rule_type_display() {
    assert_eq!(RuleType::Allow.as_str(), "Allow");
    assert_eq!(RuleType::Deny.as_str(), "Deny");
    assert_eq!(RuleType::Require.as_str(), "Require");
}

#[test]
fn test_allow_rule_matching() {
    let rule = Rule::new(RuleType::Allow, "status", "^active$");
    let mut ctx = EvaluationContext::new();
    ctx.set_string("status", "active");
    assert!(rule.evaluate(&ctx).unwrap());
}

#[test]
fn test_allow_rule_non_matching() {
    let rule = Rule::new(RuleType::Allow, "status", "^active$");
    let mut ctx = EvaluationContext::new();
    ctx.set_string("status", "inactive");
    assert!(!rule.evaluate(&ctx).unwrap());
}

#[test]
fn test_allow_rule_missing_fact() {
    let rule = Rule::new(RuleType::Allow, "status", "^active$");
    let ctx = EvaluationContext::new();
    assert!(rule.evaluate(&ctx).unwrap());
}

#[test]
fn test_deny_rule_matching() {
    let rule = Rule::new(RuleType::Deny, "status", "^banned$");
    let mut ctx = EvaluationContext::new();
    ctx.set_string("status", "banned");
    assert!(!rule.evaluate(&ctx).unwrap());
}

#[test]
fn test_deny_rule_non_matching() {
    let rule = Rule::new(RuleType::Deny, "status", "^banned$");
    let mut ctx = EvaluationContext::new();
    ctx.set_string("status", "active");
    assert!(rule.evaluate(&ctx).unwrap());
}

#[test]
fn test_require_rule_matching() {
    let rule = Rule::new(RuleType::Require, "email", "^[a-z]+@example\\.com$");
    let mut ctx = EvaluationContext::new();
    ctx.set_string("email", "user@example.com");
    assert!(rule.evaluate(&ctx).unwrap());
}

#[test]
fn test_require_rule_missing() {
    let rule = Rule::new(RuleType::Require, "email", "^[a-z]+@example\\.com$");
    let ctx = EvaluationContext::new();
    assert!(!rule.evaluate(&ctx).unwrap());
}

#[test]
fn test_rule_with_description() {
    let rule = Rule::new(RuleType::Allow, "role", "admin|user")
        .with_description("User must have valid role");
    assert_eq!(rule.description, Some("User must have valid role".to_string()));
}

#[test]
fn test_invalid_regex() {
    let rule = Rule::new(RuleType::Allow, "field", "[invalid");
    let ctx = EvaluationContext::new();
    let result = rule.evaluate(&ctx);
    assert!(result.is_err());
}

#[test]
fn invalid_regex_reports_the_pattern_whatever_the_facts() {
    let rule = Rule::new(RuleType::Require, "field", "(unclosed");
    let mut ctx = EvaluationContext::new();
    ctx.set_string("field", "anything");
    match rule.evaluate(&ctx) {
        Err(PolicyEngineError::RegexCompilationError { pattern, .. }) => {
            assert_eq!(pattern, "(unclosed")
        }
        other => panic!("unexpected {:?}", other),
    }
}

#[test]
fn non_text_fact_counts_as_missing() {
    let mut ctx = EvaluationContext::new();
    ctx.set_bool("status", true);
    assert!(Rule::new(RuleType::Allow, "status", "^active$").evaluate(&ctx).unwrap());
    assert!(Rule::new(RuleType::Deny, "status", ".*").evaluate(&ctx).unwrap());
    assert!(!Rule::new(RuleType::Require, "status", ".*").evaluate(&ctx).unwrap());
}

#[test]
fn pattern_matches_anywhere_in_the_fact() {
    let mut ctx = EvaluationContext::new();
    ctx.set_string("role", "super-admin-user");
    assert!(Rule::new(RuleType::Allow, "role", "admin").evaluate(&ctx).unwrap());
    assert!(!Rule::new(RuleType::Deny, "role", "admin").evaluate(&ctx).unwrap());
}

// ---- context ----

#[test]
fn test_new_context_empty() {
    let ctx = EvaluationContext::new();
    assert!(ctx.facts().is_empty());
}

#[test]
fn test_set_and_get_string() {
    let mut ctx = EvaluationContext::new();
    ctx.set_string("name", "Alice");
    assert_eq!(ctx.get_string("name"), Some("Alice".to_string()));
}

#[test]
fn test_set_and_get_bool() {
    let mut ctx = EvaluationContext::new();
    ctx.set_bool("active", true);
    assert_eq!(ctx.get_bool("active"), Some(true));
}

#[test]
fn test_contains() {
    let mut ctx = EvaluationContext::new();
    ctx.set_string("key", "value");
    assert!(ctx.contains("key"));
    assert!(!ctx.contains("missing"));
}

#[test]
fn test_merge() {
    let mut ctx1 = EvaluationContext::new();
    ctx1.set_string("a", "1");
    let mut ctx2 = EvaluationContext::new();
    ctx2.set_string("b", "2");
    ctx1.merge(ctx2);
    assert_eq!(ctx1.get_string("a"), Some("1".to_string()));
    assert_eq!(ctx1.get_string("b"), Some("2".to_string()));
}

#[test]
fn merge_prefers_the_other_context() {
    let mut ctx1 = EvaluationContext::new();
    ctx1.set_string("a", "mine");
    ctx1.set_string("only", "kept");
    let mut ctx2 = EvaluationContext::new();
    ctx2.set_string("a", "theirs");
    ctx1.merge(ctx2);
    assert_eq!(ctx1.get_string("a"), Some("theirs".to_string()));
    assert_eq!(ctx1.get_string("only"), Some("kept".to_string()));
    assert_eq!(ctx1.facts().len(), 2);
}

#[test]
fn get_string_of_a_boolean_is_none() {
    let mut ctx = EvaluationContext::new();
    ctx.set_bool("flag", false);
    assert_eq!(ctx.get_string("flag"), None);
    assert_eq!(ctx.get_bool("missing"), None);
    ctx.set("flag", FactValue::String("yes".to_string()));
    assert_eq!(ctx.get_string("flag"), Some("yes".to_string()));
    assert_eq!(ctx.get_bool("flag"), None);
}

// ---- results ----

#[test]
fn test_severity_ordering() {
    assert!(Severity::Info < Severity::Warning);
    assert!(Severity::Warning < Severity::Error);
}

#[test]
fn severity_names_and_ranks() {
    assert_eq!(Severity::Info.as_str(), "info");
    assert_eq!(Severity::Warning.as_str(), "warning");
    assert_eq!(Severity::Error.as_str(), "error");
    assert_eq!(Severity::Info.rank(), 0);
    assert_eq!(Severity::Error.rank(), 2);
}

#[test]
fn test_violation_creation() {
    let v = Violation::new("test_policy", "Deny", "pattern", Severity::Error, "Test message");
    assert_eq!(v.policy, "test_policy");
    assert_eq!(v.severity, Severity::Error);
}

#[test]
fn test_policy_result_passed() {
    let result = PolicyResult::passed();
    assert!(result.passed);
    assert!(result.violations.is_empty());
}

#[test]
fn test_policy_result_with_violations() {
    let violations = vec![Violation::new(
        "test_policy",
        "Deny",
        "pattern",
        Severity::Error,
        "Error violation",
    )];
    let result = PolicyResult::with_violations(violations);
    assert!(!result.passed);
    assert_eq!(result.errors().len(), 1);
}

#[test]
fn test_policy_result_summary() {
    let mut result = PolicyResult::passed();
    result.add_violation(Violation::new("p1", "Deny", "pat1", Severity::Error, "e1"));
    result.add_violation(Violation::new("p1", "Allow", "pat2", Severity::Warning, "w1"));
    let summary = result.summary();
    assert!(summary.contains("1 errors"));
    assert!(summary.contains("1 warnings"));
}

#[test]
fn summary_counts_each_level() {
    let mut result = PolicyResult::default();
    result.add_violation(Violation::new("p", "Deny", "a", Severity::Info, "i"));
    result.add_violation(Violation::new("p", "Deny", "b", Severity::Info, "i"));
    result.add_violation(Violation::new("p", "Deny", "c", Severity::Warning, "w"));
    assert_eq!(result.summary(), "Policy evaluation: 0 errors, 1 warnings, 2 infos");
    assert!(result.passed);
    assert!(!result.has_errors());
    assert!(result.has_warnings());
    assert_eq!(result.infos().len(), 2);
    assert_eq!(result.warnings()[0].condition, "c");
}

#[test]
fn warnings_alone_do_not_fail_a_result() {
    let result = PolicyResult::with_violations(vec![Violation::new(
        "p",
        "Allow",
        "x",
        Severity::Warning,
        "w",
    )]);
    assert!(result.passed);
    assert!(result.errors().is_empty());
}

// ---- policies ----

#[test]
fn test_policy_creation() {
    let policy = Policy::new("test_policy");
    assert_eq!(policy.name, "test_policy");
    assert!(policy.enabled);
    assert!(policy.rules.is_empty());
}

#[test]
fn test_policy_with_description() {
    let policy = Policy::new("test_policy").with_description("Test description");
    assert_eq!(policy.description, Some("Test description".to_string()));
}

#[test]
fn test_policy_add_rule() {
    let policy = Policy::new("test_policy")
        .add_rule(Rule::new(RuleType::Allow, "status", "active"))
        .add_rule(Rule::new(RuleType::Deny, "role", "admin"));
    assert_eq!(policy.rules.len(), 2);
}

#[test]
fn test_policy_disabled() {
    let policy = Policy::new("test_policy")
        .set_enabled(false)
        .add_rule(Rule::new(RuleType::Require, "email", ".*"));
    let ctx = EvaluationContext::new();
    let result = policy.evaluate(&ctx).unwrap();
    assert!(result.passed);
}

#[test]
fn test_policy_evaluate_passing() {
    let rule = Rule::new(RuleType::Allow, "status", "^active$");
    let policy = Policy::new("test_policy").add_rule(rule);
    let mut ctx = EvaluationContext::new();
    ctx.set_string("status", "active");
    let result = policy.evaluate(&ctx).unwrap();
    assert!(result.passed);
    assert!(result.violations.is_empty());
}

#[test]
fn test_policy_evaluate_failing() {
    let rule = Rule::new(RuleType::Require, "email", "^[a-z]+@example\\.com$");
    let policy = Policy::new("test_policy").add_rule(rule);
    let ctx = EvaluationContext::new();
    let result = policy.evaluate(&ctx).unwrap();
    assert!(!result.passed);
    assert_eq!(result.violations.len(), 1);
}

#[test]
fn violation_names_policy_rule_and_pattern() {
    let policy = Policy::new("mail").add_rule(Rule::new(RuleType::Require, "email", "@"));
    let result = policy.evaluate(&EvaluationContext::new()).unwrap();
    let v = &result.violations[0];
    assert_eq!(v.policy, "mail");
    assert_eq!(v.rule_type, "Require");
    assert_eq!(v.condition, "@");
    assert_eq!(v.severity, Severity::Error);
    assert_eq!(
        v.message,
        "Policy 'mail' rule Require violated: fact 'email' did not match pattern '@'"
    );
    assert_eq!(policy.name(), "mail");
    assert_eq!(policy.rules().len(), 1);
}

#[test]
fn disabled_policy_ignores_bad_patterns() {
    let policy = Policy::new("p").add_rule(Rule::new(RuleType::Allow, "f", "[")).set_enabled(false);
    assert!(policy.evaluate(&EvaluationContext::new()).is_ok());
    let enabled = policy.set_enabled(true);
    assert!(enabled.evaluate(&EvaluationContext::new()).is_err());
}

#[test]
fn violations_follow_rule_order() {
    let policy = Policy::new("p")
        .add_rule(Rule::new(RuleType::Require, "a", "x"))
        .add_rule(Rule::new(RuleType::Allow, "b", "y"))
        .add_rule(Rule::new(RuleType::Require, "c", "z"));
    let result = policy.evaluate(&EvaluationContext::new()).unwrap();
    assert_eq!(result.violations.len(), 2);
    assert_eq!(result.violations[0].condition, "x");
    assert_eq!(result.violations[1].condition, "z");
}

// ---- engine ----

#[test]
fn test_engine_new() {
    let engine = PolicyEngine::new();
    assert_eq!(engine.policy_count(), 0);
}

#[test]
fn test_engine_add_policy() {
    let mut engine = PolicyEngine::new();
    let policy = Policy::new("test_policy");
    engine.add_policy(policy);
    assert_eq!(engine.policy_count(), 1);
    assert!(engine.get_policy("test_policy").is_some());
}

#[test]
fn test_engine_remove_policy() {
    let mut engine = PolicyEngine::new();
    let policy = Policy::new("test_policy");
    engine.add_policy(policy);
    assert!(engine.remove_policy("test_policy").is_some());
    assert_eq!(engine.policy_count(), 0);
}

#[test]
fn test_engine_with_policies() {
    let policies = vec![Policy::new("policy1"), Policy::new("policy2"), Policy::new("policy3")];
    let engine = PolicyEngine::with_policies(policies);
    assert_eq!(engine.policy_count(), 3);
}

#[test]
fn test_engine_policy_names() {
    let mut engine = PolicyEngine::new();
    engine.add_policy(Policy::new("policy1"));
    engine.add_policy(Policy::new("policy2"));
    let names = engine.policy_names();
    assert_eq!(names.len(), 2);
    assert!(names.contains(&"policy1".to_string()));
    assert!(names.contains(&"policy2".to_string()));
}

#[test]
fn test_engine_evaluate_single_policy() {
    let mut engine = PolicyEngine::new();
    let rule = Rule::new(RuleType::Allow, "status", "^active$");
    let policy = Policy::new("status_policy").add_rule(rule);
    engine.add_policy(policy);
    let mut ctx = EvaluationContext::new();
    ctx.set_string("status", "active");
    let result = engine.evaluate_policy("status_policy", &ctx).unwrap();
    assert!(result.passed);
}

#[test]
fn test_engine_evaluate_all() {
    let mut engine = PolicyEngine::new();
    engine.add_policy(Policy::new("policy1").add_rule(Rule::new(
        RuleType::Allow,
        "status",
        "^active$",
    )));
    engine.add_policy(Policy::new("policy2").add_rule(Rule::new(RuleType::Deny, "role", "^admin$")));
    let mut ctx = EvaluationContext::new();
    ctx.set_string("status", "active");
    ctx.set_string("role", "user");
    let result = engine.evaluate_all(&ctx).unwrap();
    assert!(result.passed);
}

#[test]
fn test_engine_evaluate_subset() {
    let mut engine = PolicyEngine::new();
    engine.add_policy(Policy::new("policy1").add_rule(Rule::new(
        RuleType::Allow,
        "status",
        "^active$",
    )));
    engine.add_policy(Policy::new("policy2").add_rule(Rule::new(RuleType::Deny, "role", "^admin$")));
    engine.add_policy(Policy::new("policy3"));
    let mut ctx = EvaluationContext::new();
    ctx.set_string("status", "active");
    let result = engine.evaluate_subset(&["policy1"], &ctx).unwrap();
    assert!(result.passed);
}

#[test]
fn test_engine_enable_disable() {
    let mut engine = PolicyEngine::new();
    let policy = Policy::new("test_policy")
        .set_enabled(true)
        .add_rule(Rule::new(RuleType::Require, "email", ".*"));
    engine.add_policy(policy);
    engine.disable_policy("test_policy").unwrap();
    let disabled_policy = engine.get_policy("test_policy").unwrap();
    assert!(!disabled_policy.enabled);
    engine.enable_policy("test_policy").unwrap();
    let enabled_policy = engine.get_policy("test_policy").unwrap();
    assert!(enabled_policy.enabled);
}

#[test]
fn test_engine_policy_not_found() {
    let engine = PolicyEngine::new();
    let ctx = EvaluationContext::new();
    let result = engine.evaluate_policy("nonexistent", &ctx);
    assert!(result.is_err());
}

#[test]
fn engine_combines_violations_of_all_policies() {
    let mut engine = PolicyEngine::default();
    engine.add_policy(Policy::new("a").add_rule(Rule::new(RuleType::Require, "x", ".")));
    engine.add_policy(Policy::new("b").add_rule(Rule::new(RuleType::Require, "y", ".")));
    let result = engine.evaluate_all(&EvaluationContext::new()).unwrap();
    assert!(!result.passed);
    assert_eq!(result.violations.len(), 2);
    let subset = engine.evaluate_subset(&["b", "a", "b"], &EvaluationContext::new()).unwrap();
    assert_eq!(subset.violations.len(), 3);
    assert_eq!(subset.violations[0].policy, "b");
    assert_eq!(subset.violations[1].policy, "a");
}

#[test]
fn engine_errors_name_what_is_missing() {
    let mut engine = PolicyEngine::new();
    engine.add_policy(Policy::new("a"));
    match engine.evaluate_subset(&["a", "ghost"], &EvaluationContext::new()) {
        Err(PolicyEngineError::PolicyNotFound { name }) => assert_eq!(name, "ghost"),
        other => panic!("unexpected {:?}", other),
    }
    match engine.enable_policy("ghost") {
        Err(PolicyEngineError::PolicyNotFound { name }) => assert_eq!(name, "ghost"),
        other => panic!("unexpected {:?}", other),
    }
    assert!(engine.remove_policy("ghost").is_none());
    assert_eq!(engine.policy_count(), 1);
}

#[test]
fn adding_a_policy_of_the_same_name_replaces_it() {
    let mut engine = PolicyEngine::new();
    engine.add_policy(Policy::new("p"));
    engine.add_policy(Policy::new("p").with_description("second"));
    assert_eq!(engine.policy_count(), 1);
    assert_eq!(engine.get_policy("p").unwrap().description, Some("second".to_string()));
}

#[test]
fn evaluate_all_reports_a_bad_pattern() {
    let mut engine = PolicyEngine::new();
    engine.add_policy(Policy::new("bad").add_rule(Rule::new(RuleType::Allow, "f", "(")));
    assert!(engine.evaluate_all(&EvaluationContext::new()).is_err());
    engine.disable_policy("bad").unwrap();
    assert!(engine.evaluate_all(&EvaluationContext::new()).unwrap().passed);
}

// ---- loader ----

#[test]
fn test_rule_config_to_rule_allow() {
    let rule_config = RuleConfig {
        rule_type: "Allow".to_string(),
        fact: "status".to_string(),
        pattern: "^active$".to_string(),
        description: Some("Status must be active".to_string()),
    };
    let rule = rule_config.to_rule().unwrap();
    assert_eq!(rule.rule_type, RuleType::Allow);
    assert_eq!(rule.fact, "status");
    assert_eq!(rule.description, Some("Status must be active".to_string()));
}

#[test]
fn test_policy_config_to_policy() {
    let policy_config = PolicyConfig {
        name: "test_policy".to_string(),
        description: Some("A test policy".to_string()),
        rules: vec![RuleConfig {
            rule_type: "Allow".to_string(),
            fact: "status".to_string(),
            pattern: "^active$".to_string(),
            description: None,
        }],
        enabled: true,
    };
    let policy = policy_config.to_policy().unwrap();
    assert_eq!(policy.name, "test_policy");
    assert_eq!(policy.rules.len(), 1);
    assert!(policy.enabled);
}

#[test]
fn test_invalid_rule_type() {
    let rule_config = RuleConfig {
        rule_type: "Invalid".to_string(),
        fact: "field".to_string(),
        pattern: ".*".to_string(),
        description: None,
    };
    let result = rule_config.to_rule();
    assert!(result.is_err());
}

#[test]
fn test_policies_config_to_policies() {
    let policy_config = PoliciesConfigFile {
        version: Some("1.0".to_string()),
        policies: vec![
            PolicyConfig {
                name: "policy1".to_string(),
                description: None,
                rules: vec![],
                enabled: true,
            },
            PolicyConfig {
                name: "policy2".to_string(),
                description: None,
                rules: vec![],
                enabled: false,
            },
        ],
    };
    let policies = policy_config.to_policies().unwrap();
    assert_eq!(policies.len(), 2);
    assert_eq!(policies[0].name, "policy1");
    assert_eq!(policies[1].name, "policy2");
}

#[test]
fn rule_types_are_read_in_any_case() {
    for (name, expected) in [
        ("allow", RuleType::Allow),
        ("DENY", RuleType::Deny),
        ("ReQuIrE", RuleType::Require),
    ] {
        let config = RuleConfig {
            rule_type: name.to_string(),
            fact: "f".to_string(),
            pattern: "p".to_string(),
            description: None,
        };
        assert_eq!(config.to_rule().unwrap().rule_type, expected);
    }
}

#[test]
fn invalid_rule_type_message_names_the_lowercased_type() {
    let config = RuleConfig {
        rule_type: "Permit".to_string(),
        fact: "f".to_string(),
        pattern: "p".to_string(),
        description: None,
    };
    match config.to_rule() {
        Err(PolicyEngineError::InvalidConfiguration(m)) => assert_eq!(
            m,
            "Invalid rule type: 'permit'. Expected 'Allow', 'Deny', or 'Require'."
        ),
        other => panic!("unexpected {:?}", other),
    }
}

#[test]
fn first_invalid_rule_fails_the_whole_file() {
    let bad = RuleConfig {
        rule_type: "nope".to_string(),
        fact: "f".to_string(),
        pattern: "p".to_string(),
        description: None,
    };
    let file = PoliciesConfigFile {
        version: None,
        policies: vec![
            PolicyConfig { name: "ok".to_string(), description: None, rules: vec![], enabled: true },
            PolicyConfig { name: "bad".to_string(), description: None, rules: vec![bad], enabled: default_true() },
        ],
    };
    assert!(file.to_policies().is_err());
}

#[test]
fn policy_errors_read_as_messages() {
    let err = PolicyEngineError::PolicyNotFound { name: "p".to_string() };
    assert_eq!(err.message(), "Policy 'p' not found");
    assert_eq!(PolicyEngineError::Other("x".to_string()).message(), "x");
    assert_eq!(
        PolicyEngineError::InvalidConfiguration("bad".to_string()).message(),
        "Invalid policy configuration: bad"
    );
    let rule = Rule::new(RuleType::Allow, "f", "(");
    let err = rule.evaluate(&EvaluationContext::new()).unwrap_err();
    assert!(err.message().starts_with("Failed to compile regex pattern '(': "));
}

#[test]
fn context_from_entries_later_entry_wins() {
    let ctx = EvaluationContext::from_entries(vec![
        ("a".to_string(), FactValue::String("1".to_string())),
        ("b".to_string(), FactValue::Bool(true)),
        ("a".to_string(), FactValue::String("2".to_string())),
    ]);
    assert_eq!(ctx.get_string("a"), Some("2".to_string()));
    assert_eq!(ctx.get_bool("b"), Some(true));
}

#[test]
fn context_from_json_object_keeps_members() {
    let mut map = serde_json::Map::new();
    map.insert("role".to_string(), serde_json::Value::String("admin".to_string()));
    map.insert("active".to_string(), serde_json::Value::Bool(true));
    map.insert("age".to_string(), serde_json::Value::from(42u64));
    let ctx = EvaluationContext::from_json(serde_json::Value::Object(map));
    assert_eq!(ctx.get_string("role"), Some("admin".to_string()));
    assert_eq!(ctx.get_bool("active"), Some(true));
    assert!(ctx.contains("age"));
    assert_eq!(ctx.get_string("age"), None);
    assert!(!ctx.contains("missing"));

    let other = EvaluationContext::from_json(serde_json::Value::String("x".to_string()));
    assert!(!other.contains("x"));
}

#[test]
fn results_carry_empty_object_metadata() {
    let r = PolicyResult::passed();
    assert_eq!(r.metadata, serde_json::Value::Object(serde_json::Map::new()));
    let d = PolicyResult::default();
    assert!(d.passed);
    assert!(d.violations.is_empty());
}
