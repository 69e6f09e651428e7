use plugin_manifest::error::ErrorKind;
use plugin_manifest::layers::Sources;
use plugin_manifest::manifest::{is_email_shaped, load, Auth, Manifest, VerificationTokens};
use plugin_manifest::settings::Settings;

fn pairs(items: &[(&str, &str)]) -> Vec<(String, String)> {
    items.iter().map(|(k, v)| (k.to_string(), v.to_string())).collect()
}

fn settings_at(url: &str) -> Settings {
    let src = Sources {
        defaults: Vec::new(),
        file: pairs(&[("host", "0.0.0.0:3000"), ("public_url", url)]),
        env: Vec::new(),
    };
    Settings::from_config(&src).ok().unwrap()
}

const BASE: [(&str, &str); 9] = [
    ("schema_version", "v1"),
    ("name_for_human", "Plugin"),
    ("name_for_model", "plugin"),
    ("contact_email", "ops@p.example"),
    ("legal_info_url", "https://p.example/legal"),
    ("api.type", "openapi"),
    ("auth.type", "none"),
    ("description_for_human", "Does things."),
    ("description_for_model", "Use it to do things."),
];

fn base_with(extra: &[(&str, &str)], without: &[&str]) -> Vec<(String, String)> {
    let mut v: Vec<(String, String)> =
        pairs(&BASE).into_iter().filter(|(k, _)| !without.contains(&k.as_str())).collect();
    v.extend(pairs(extra));
    v
}

const OAUTH_FIELDS: [(&str, &str); 6] = [
    ("auth.type", "oauth"),
    ("auth.client_url", "https://auth.example/authorize"),
    ("auth.authorization_url", "https://auth.example/token"),
    ("auth.authorization_content_type", "application/json"),
    ("auth.scope", "read"),
    ("auth.verification_tokens.openai", "SECRET-REDACTED"),
];

#[test]
fn defaults_come_from_public_url() {
    let s = settings_at("https://p.example/");
    let m = Manifest::from_config(&s, base_with(&[], &[]), Vec::new()).ok().unwrap();
    assert_eq!(m.api.url, "https://p.example/openapi.json");
    assert_eq!(m.logo_url, "https://p.example/logo.png");
    assert_eq!(m.schema_version, "v1");
    assert_eq!(m.api.api_type, "openapi");
    assert_eq!(m.description_for_model, "Use it to do things.");
}

#[test]
fn file_overrides_defaults() {
    let s = settings_at("https://p.example/");
    let file = base_with(&[("logo_url", "https://cdn.example/l.png"), ("api.url", "https://p.example/spec")], &[]);
    let m = Manifest::from_config(&s, file, Vec::new()).ok().unwrap();
    assert_eq!(m.logo_url, "https://cdn.example/l.png");
    assert_eq!(m.api.url, "https://p.example/spec");
}

#[test]
fn environment_overrides_file_and_defaults() {
    let s = settings_at("https://p.example/");
    let file = base_with(&[("logo_url", "https://cdn.example/l.png")], &[]);
    let env = pairs(&[
        ("MANIFEST.logo_url", "https://env.example/logo.svg"),
        ("MANIFEST.API.URL", "https://env.example/openapi.json"),
        ("MANIFEST.name_for_human", "Env Plugin"),
        ("APP_HOST", "ignored"),
    ]);
    let m = Manifest::from_config(&s, file, env).ok().unwrap();
    assert_eq!(m.logo_url, "https://env.example/logo.svg");
    assert_eq!(m.api.url, "https://env.example/openapi.json");
    assert_eq!(m.name_for_human, "Env Plugin");
}

#[test]
fn environment_sets_auth_type() {
    let s = settings_at("https://p.example/");
    let env = pairs(&[("MANIFEST.auth.type", "oauth")]);
    let e = Manifest::from_config(&s, base_with(&[], &[]), env).err().unwrap();
    assert_eq!(e.kind, ErrorKind::AuthValidation);
    assert_eq!(e.key, "auth");
}

#[test]
fn oauth_with_all_fields_builds() {
    let s = settings_at("https://p.example/");
    let m = Manifest::from_config(&s, base_with(&OAUTH_FIELDS, &["auth.type"]), Vec::new()).ok().unwrap();
    assert_eq!(m.auth.auth_type, "oauth");
    assert_eq!(m.auth.client_url, Some("https://auth.example/authorize".to_string()));
    assert_eq!(m.auth.scope, Some("read".to_string()));
    assert_eq!(m.auth.verification_tokens.map(|t| t.openai), Some("SECRET-REDACTED".to_string()));
}

#[test]
fn oauth_missing_any_field_fails() {
    let s = settings_at("https://p.example/");
    for missing in 1..OAUTH_FIELDS.len() {
        let fields: Vec<(&str, &str)> =
            OAUTH_FIELDS.iter().enumerate().filter(|(i, _)| *i != missing).map(|(_, f)| *f).collect();
        let e = Manifest::from_config(&s, base_with(&fields, &["auth.type"]), Vec::new()).err().unwrap();
        assert_eq!(e.kind, ErrorKind::AuthValidation);
        assert_eq!(e.message(), "Missing required fields for OAuth in auth");
    }
}

#[test]
fn non_oauth_modes_need_no_optional_fields() {
    let s = settings_at("https://p.example/");
    for mode in ["none", "service_http", "user_http"] {
        let file = base_with(&[("auth.type", mode)], &["auth.type"]);
        let m = Manifest::from_config(&s, file, Vec::new()).ok().unwrap();
        assert_eq!(m.auth.auth_type, mode);
        assert!(m.auth.client_url.is_none());
        assert!(m.auth.authorization_url.is_none());
        assert!(m.auth.authorization_content_type.is_none());
        assert!(m.auth.scope.is_none());
        assert!(m.auth.verification_tokens.is_none());
    }
}

#[test]
fn missing_required_field_is_reported() {
    let s = settings_at("https://p.example/");
    let e = Manifest::from_config(&s, base_with(&[], &["contact_email"]), Vec::new()).err().unwrap();
    assert_eq!(e.kind, ErrorKind::MissingField);
    assert_eq!(e.key, "contact_email");
    let e = Manifest::from_config(&s, base_with(&[], &["schema_version", "auth.type"]), Vec::new()).err().unwrap();
    assert_eq!(e.key, "schema_version");
}

#[test]
fn malformed_url_field_is_reported() {
    let s = settings_at("https://p.example/");
    let e = Manifest::from_config(&s, base_with(&[("api.url", "::nope")], &[]), Vec::new()).err().unwrap();
    assert_eq!(e.kind, ErrorKind::InvalidUrl);
    assert_eq!(e.key, "api.url");
    let e = Manifest::from_config(&s, base_with(&[("auth.client_url", "relative/path")], &[]), Vec::new()).err().unwrap();
    assert_eq!(e.kind, ErrorKind::InvalidUrl);
    assert_eq!(e.key, "auth.client_url");
}

#[test]
fn url_fields_are_normalised() {
    let s = settings_at("https://p.example/");
    let file = base_with(&[("logo_url", "HTTPS://CDN.Example")], &[]);
    let m = Manifest::from_config(&s, file, Vec::new()).ok().unwrap();
    assert_eq!(m.logo_url, "https://cdn.example/");
}

#[test]
fn build_reads_only_the_given_sources() {
    let src = Sources { defaults: Vec::new(), file: base_with(&[], &[]), env: Vec::new() };
    let e = Manifest::build(&src).err().unwrap();
    assert_eq!(e.kind, ErrorKind::MissingField);
    assert_eq!(e.key, "logo_url");
}

#[test]
fn validate_checks_oauth_fields() {
    let mut a = Auth {
        auth_type: "oauth".to_string(),
        client_url: Some("https://a.example/".to_string()),
        authorization_url: Some("https://a.example/t".to_string()),
        authorization_content_type: Some("application/json".to_string()),
        scope: Some("s".to_string()),
        verification_tokens: Some(VerificationTokens { openai: "t".to_string() }),
    };
    assert_eq!(a.validate(), Ok(()));
    a.scope = None;
    assert_eq!(a.validate(), Err("Missing required fields for OAuth".to_string()));
    a.auth_type = "none".to_string();
    assert_eq!(a.validate(), Ok(()));
}

#[test]
fn legal_info_url_must_be_a_url() {
    let s = settings_at("https://p.example/");
    let file = base_with(&[("legal_info_url", "not a url")], &["legal_info_url"]);
    let e = Manifest::from_config(&s, file, Vec::new()).err().unwrap();
    assert_eq!(e.kind, ErrorKind::InvalidUrl);
    assert_eq!(e.key, "legal_info_url");
    assert_eq!(e.message(), "not an absolute URL: legal_info_url");
}

#[test]
fn legal_info_url_is_normalised() {
    let s = settings_at("https://p.example/");
    let file = base_with(&[("legal_info_url", "HTTPS://P.Example")], &["legal_info_url"]);
    let m = Manifest::from_config(&s, file, Vec::new()).ok().unwrap();
    assert_eq!(m.legal_info_url, "https://p.example/");
}

#[test]
fn contact_email_must_be_email_shaped() {
    let s = settings_at("https://p.example/");
    for bad in ["ops", "@p.example", "ops@", "", "@"] {
        let file = base_with(&[("contact_email", bad)], &["contact_email"]);
        let e = Manifest::from_config(&s, file, Vec::new()).err().unwrap();
        assert_eq!(e.kind, ErrorKind::InvalidEmail);
        assert_eq!(e.key, "contact_email");
        assert_eq!(e.message(), "not an email address: contact_email");
    }
    let file = base_with(&[("contact_email", "a@b")], &["contact_email"]);
    let m = Manifest::from_config(&s, file, Vec::new()).ok().unwrap();
    assert_eq!(m.contact_email, "a@b");
}

#[test]
fn email_shape_needs_text_around_at() {
    assert!(is_email_shaped("a@b"));
    assert!(is_email_shaped("ops@p.example"));
    assert!(is_email_shaped("@a@b"));
    assert!(!is_email_shaped("a@"));
    assert!(!is_email_shaped("@a"));
    assert!(!is_email_shaped("ab"));
    assert!(!is_email_shaped(""));
}

#[test]
fn environment_overrides_auth_type_from_file() {
    let s = settings_at("https://p.example/");
    let env = pairs(&[("MANIFEST.auth.type", "service_http")]);
    let m = Manifest::from_config(&s, base_with(&[], &[]), env).ok().unwrap();
    assert_eq!(m.auth.auth_type, "service_http");
    assert_eq!(m.name_for_human, "Plugin");
}

#[test]
fn load_builds_settings_then_manifest() {
    let settings_src = Sources {
        defaults: Vec::new(),
        file: pairs(&[("host", "0.0.0.0:3000"), ("public_url", "https://p.example/")]),
        env: Vec::new(),
    };
    let (s, m) = load(&settings_src, base_with(&[], &[]), pairs(&[("APP_HOST", "x")])).ok().unwrap();
    assert_eq!(s.host, "0.0.0.0:3000");
    assert_eq!(m.api.url, "https://p.example/openapi.json");
    assert_eq!(m.logo_url, "https://p.example/logo.png");
}

#[test]
fn load_reports_settings_error_first() {
    let settings_src = Sources { defaults: Vec::new(), file: pairs(&[("host", "h:1")]), env: Vec::new() };
    let e = load(&settings_src, Vec::new(), Vec::new()).err().unwrap();
    assert_eq!(e.kind, ErrorKind::MissingField);
    assert_eq!(e.key, "public_url");
}

#[test]
fn load_reports_manifest_error() {
    let settings_src = Sources {
        defaults: Vec::new(),
        file: pairs(&[("host", "h:1"), ("public_url", "https://p.example/")]),
        env: Vec::new(),
    };
    let e = load(&settings_src, base_with(&[], &["api.type"]), Vec::new()).err().unwrap();
    assert_eq!(e.kind, ErrorKind::MissingField);
    assert_eq!(e.key, "api.type");
    assert_eq!(e.message(), "missing configuration value: api.type");
}
