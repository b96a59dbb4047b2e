use openshard::haproxy::subdomain::{
    api_url, continue_deletion, judge_change, CloudflareProvider, DnsCall, DnsError, DnsProvider,
    DnsRequest, NoopProvider,
};

fn provider() -> CloudflareProvider {
    CloudflareProvider::from_env(
        Some("tok".to_string()),
        Some("zone".to_string()),
        Some("example.org".to_string()),
    )
    .unwrap()
}

fn answer(call: DnsCall, body: &str) -> DnsCall {
    call.resume(Ok(body.to_string()))
}

fn words(call: DnsCall) -> String {
    match call.outcome() {
        Some(Err(e)) => e.message(),
        _ => panic!("the call must fail"),
    }
}

#[test]
fn the_noop_provider_does_nothing() {
    assert!(matches!(NoopProvider.create("a", None).outcome(), Some(Ok(()))));
    assert!(matches!(NoopProvider.delete("a").outcome(), Some(Ok(()))));
}

#[test]
fn all_settings_are_needed() {
    let some = |s: &str| Some(s.to_string());
    assert!(CloudflareProvider::from_env(None, some("z"), some("b")).is_none());
    assert!(CloudflareProvider::from_env(some("t"), None, some("b")).is_none());
    assert!(CloudflareProvider::from_env(some("t"), some("z"), None).is_none());
    assert_eq!(provider().token(), "tok");
}

#[test]
fn creating_asks_for_a_record() {
    let call = provider().create("blog", Some("1.2.3.4".to_string()));
    match call.request() {
        Some(DnsRequest::Create { url, record_type, name, content, ttl, proxied }) => {
            assert_eq!(record_type, "A");
            assert_eq!(ttl, 1);
            assert!(!proxied);
            assert_eq!(url, "https://api.cloudflare.com/client/v4/zones/zone/dns_records");
            assert_eq!(name, "blog.example.org");
            assert_eq!(content, "1.2.3.4");
        }
        _ => panic!("a record is to be created"),
    }
    let done = answer(call, r#"{"success": true, "errors": []}"#);
    assert!(done.request().is_none());
    assert!(matches!(done.outcome(), Some(Ok(()))));
}

#[test]
fn creating_defaults_to_this_machine() {
    match provider().create("blog", None).request() {
        Some(DnsRequest::Create { content, .. }) => assert_eq!(content, "127.0.0.1"),
        _ => panic!("a record is to be created"),
    }
}

#[test]
fn refusals_are_reported() {
    let call = || provider().create("blog", None);
    assert_eq!(
        words(answer(call(), r#"{"success": false, "errors": [{"code": 7}]}"#)),
        r#"cloudflare API error: [{"code":7}]"#
    );
    assert_eq!(words(answer(call(), r#"{"success": "true"}"#)), "cloudflare API error: null");
    assert_eq!(words(answer(call(), "[]")), "cloudflare API error: null");
    assert_eq!(words(answer(call(), "<html>")), "http error: error decoding response body");
    assert_eq!(words(call().resume(Err("refused".to_string()))), "http error: refused");
}

#[test]
fn deleting_finds_the_record_first() {
    let call = provider().delete("blog");
    match call.request() {
        Some(DnsRequest::Find { url }) => assert_eq!(
            url,
            "https://api.cloudflare.com/client/v4/zones/zone/dns_records?type=A&name=blog.example.org"
        ),
        _ => panic!("a record is to be found"),
    }
    let call = answer(call, r#"{"result": [{"id": "r1"}, {"id": "r2"}]}"#);
    match call.request() {
        Some(DnsRequest::Delete { url }) => {
            assert_eq!(url, "https://api.cloudflare.com/client/v4/zones/zone/dns_records/r1")
        }
        _ => panic!("a record is to be deleted"),
    }
    assert!(matches!(answer(call, r#"{"success": true}"#).outcome(), Some(Ok(()))));
}

#[test]
fn deleting_what_is_not_there_succeeds() {
    for body in [r#"{"result": []}"#, r#"{}"#, r#"{"result": [{"id": 5}]}"#, r#"{"result": 1}"#, "3"] {
        assert!(matches!(answer(provider().delete("blog"), body).outcome(), Some(Ok(()))));
    }
    assert_eq!(
        words(answer(provider().delete("blog"), "?")),
        "http error: error decoding response body"
    );
    assert_eq!(
        words(provider().delete("blog").resume(Err("down".to_string()))),
        "http error: down"
    );
}

#[test]
fn verdicts_on_answers() {
    assert!(judge_change(Some(Some(true)), Some("null".to_string())).is_ok());
    assert!(matches!(
        judge_change(Some(None), Some("x".to_string())),
        Err(DnsError::Api(_))
    ));
    assert!(matches!(judge_change(None, None), Err(DnsError::Http(_))));
    assert!(matches!(continue_deletion("z", Some(None)).outcome(), Some(Ok(()))));
    assert!(continue_deletion("z", Some(Some("r".to_string()))).outcome().is_none());
    assert_eq!(api_url("/x"), "https://api.cloudflare.com/client/v4/x");
}
