use keycloak_builder::basic::KeycloakClientBuilder;
use keycloak_builder::consuming::KeycloakClientBuilderConsumer;
use keycloak_builder::descriptor::BuildError;
use keycloak_builder::multi::KeycloakClientBuilderWithTypestates;
use keycloak_builder::typestate::KeycloakClientBuilderWithTypeState;

#[test]
fn basic_url_only_defaults_to_get() {
    let mut b = KeycloakClientBuilder::new();
    b.url("https://auth");
    let c = b.build().unwrap();
    assert_eq!(c.url, "https://auth");
    assert_eq!(c.method, "GET");
}

#[test]
fn basic_url_and_method() {
    let mut b = KeycloakClientBuilder::new();
    b.url("https://auth");
    b.method("POST");
    let c = b.build().unwrap();
    assert_eq!(c.url, "https://auth");
    assert_eq!(c.method, "POST");
}

#[test]
fn basic_empty_builder_fails_naming_url() {
    let b = KeycloakClientBuilder::new();
    let e = b.build().unwrap_err();
    assert_eq!(e, BuildError::MissingRequiredField("url".to_string()));
}

#[test]
fn basic_method_only_never_builds() {
    let mut b = KeycloakClientBuilder::new();
    b.method("GET");
    b.method("POST");
    b.method("PUT");
    let e = b.build().unwrap_err();
    assert_eq!(e, BuildError::MissingRequiredField("url".to_string()));
}

#[test]
fn basic_last_method_write_wins() {
    let mut b = KeycloakClientBuilder::new();
    b.url("a");
    b.method("GET");
    b.method("POST");
    let c = b.build().unwrap();
    assert_eq!(c.method, "POST");
}

#[test]
fn basic_builder_reusable_after_build() {
    let mut b = KeycloakClientBuilder::new();
    b.url("https://auth");
    b.method("aa");
    let first = b.build().unwrap();
    assert_eq!(first.method, "aa");
    b.method("bb");
    let second = b.build().unwrap();
    assert_eq!(second.method, "bb");
    assert_eq!(second.url, "https://auth");
}

#[test]
fn basic_empty_string_counts_as_set() {
    let mut b = KeycloakClientBuilder::new();
    b.url("");
    let c = b.build().unwrap();
    assert_eq!(c.url, "");
    assert_eq!(c.method, "GET");
}

#[test]
fn consumer_chained_last_write_wins() {
    let c = KeycloakClientBuilderConsumer::new()
        .url("a")
        .method("x")
        .method("y")
        .build()
        .unwrap();
    assert_eq!(c.url, "a");
    assert_eq!(c.method, "y");
}

#[test]
fn consumer_empty_builder_fails_naming_url() {
    let e = KeycloakClientBuilderConsumer::new().build().unwrap_err();
    assert_eq!(e, BuildError::MissingRequiredField("url".to_string()));
}

#[test]
fn consumer_method_only_never_builds() {
    let e = KeycloakClientBuilderConsumer::new()
        .method("GET")
        .method("POST")
        .build()
        .unwrap_err();
    assert_eq!(e, BuildError::MissingRequiredField("url".to_string()));
}

#[test]
fn consumer_url_only_defaults_to_get() {
    let c = KeycloakClientBuilderConsumer::new()
        .url("https://auth")
        .build()
        .unwrap();
    assert_eq!(c.url, "https://auth");
    assert_eq!(c.method, "GET");
}

#[test]
fn consumer_last_url_write_wins() {
    let c = KeycloakClientBuilderConsumer::new()
        .url("http:///")
        .method("GET")
        .url("https://")
        .build()
        .unwrap();
    assert_eq!(c.url, "https://");
    assert_eq!(c.method, "GET");
}

#[test]
fn consumer_url_stays_set_through_method_calls() {
    let c = KeycloakClientBuilderConsumer::new()
        .url("https://auth")
        .method("a")
        .method("b")
        .method("c")
        .build()
        .unwrap();
    assert_eq!(c.url, "https://auth");
    assert_eq!(c.method, "c");
}

#[test]
fn consumer_clone_isolates_duplicate() {
    let shared = KeycloakClientBuilderConsumer::new()
        .url("https://auth")
        .method("GET");
    let branched = shared.clone().method("http://");
    let original = shared.build().unwrap();
    let altered = branched.build().unwrap();
    assert_eq!(original.url, "https://auth");
    assert_eq!(original.method, "GET");
    assert_eq!(altered.url, "https://auth");
    assert_eq!(altered.method, "http://");
}

#[test]
fn typestate_url_then_method_builds() {
    let c = KeycloakClientBuilderWithTypeState::new()
        .url("test")
        .method("get")
        .build()
        .unwrap();
    assert_eq!(c.url, "test");
    assert_eq!(c.method, "get");
}

#[test]
fn typestate_url_only_defaults_to_get() {
    let c = KeycloakClientBuilderWithTypeState::new()
        .url("https://auth")
        .build()
        .unwrap();
    assert_eq!(c.url, "https://auth");
    assert_eq!(c.method, "GET");
}

#[test]
fn typestate_method_before_url_is_kept() {
    let c = KeycloakClientBuilderWithTypeState::new()
        .method("POST")
        .url("https://auth")
        .build()
        .unwrap();
    assert_eq!(c.url, "https://auth");
    assert_eq!(c.method, "POST");
}

#[test]
fn typestate_clone_isolates_duplicate() {
    let shared = KeycloakClientBuilderWithTypeState::new().url("https://auth");
    let branched = shared.clone().method("POST");
    let original = shared.build().unwrap();
    let altered = branched.build().unwrap();
    assert_eq!(original.method, "GET");
    assert_eq!(altered.method, "POST");
    assert_eq!(altered.url, "https://auth");
}

#[test]
fn multi_both_fields_build() {
    let c = KeycloakClientBuilderWithTypestates::new()
        .url("ss")
        .method("gg")
        .build()
        .unwrap();
    assert_eq!(c.url, "ss");
    assert_eq!(c.method, "gg");
}

#[test]
fn multi_setter_order_does_not_matter() {
    let first = KeycloakClientBuilderWithTypestates::new()
        .url("https://auth")
        .method("POST")
        .build()
        .unwrap();
    let second = KeycloakClientBuilderWithTypestates::new()
        .method("POST")
        .url("https://auth")
        .build()
        .unwrap();
    assert_eq!(first.url, second.url);
    assert_eq!(first.method, second.method);
}

#[test]
fn multi_last_method_write_wins() {
    let c = KeycloakClientBuilderWithTypestates::new()
        .url("a")
        .method("x")
        .method("y")
        .build()
        .unwrap();
    assert_eq!(c.url, "a");
    assert_eq!(c.method, "y");
}

#[test]
fn multi_last_url_write_wins() {
    let c = KeycloakClientBuilderWithTypestates::new()
        .url("http:///")
        .method("GET")
        .url("https://")
        .build()
        .unwrap();
    assert_eq!(c.url, "https://");
}

#[test]
fn multi_clone_isolates_duplicate() {
    let shared = KeycloakClientBuilderWithTypestates::new()
        .url("https://auth")
        .method("GET");
    let branched = shared.clone().method("POST");
    let original = shared.build().unwrap();
    let altered = branched.build().unwrap();
    assert_eq!(original.method, "GET");
    assert_eq!(altered.method, "POST");
    assert_eq!(original.url, "https://auth");
    assert_eq!(altered.url, "https://auth");
}
