use aether::doh::{
    client, client_settings, enabled, endpoint, insecure, new_client, post, request, resolve, Action,
    Event,
};
use aether::environment::Environment;
use aether::sysprofile::flag_value;

fn environment(key: &str, value: &str) -> Environment {
    let mut env = Environment::new();
    env.set(key.to_string(), value.to_string());
    env
}

#[test]
fn doh_is_on_unless_it_is_switched_off() {
    assert!(enabled(&Environment::new()));
    for value in ["off", "0", "false", "no", " OFF ", "False", "nO\n"] {
        assert!(!enabled(&environment("AETHER_DOH", value)));
    }
    for value in ["on", "1", "", "maybe", "offf"] {
        assert!(enabled(&environment("AETHER_DOH", value)));
    }
}

#[test]
fn doh_is_a_knob_like_the_others() {
    for value in ["off", "0", "FALSE", "no", "on", "1", "true", "Yes", "", "junk"] {
        assert_eq!(enabled(&environment("AETHER_DOH", value)), flag_value(value, true));
    }
}

#[test]
fn the_endpoint_is_an_address_by_default() {
    let default = "https://1.1.1.1/dns-query";
    assert_eq!(endpoint(&Environment::new()), default);
    assert_eq!(endpoint(&environment("AETHER_DOH_URL", "")), default);
    assert_eq!(endpoint(&environment("AETHER_DOH_URL", " \t\n")), default);
    assert_eq!(
        endpoint(&environment("AETHER_DOH_URL", "  https://9.9.9.9/dns-query\n")),
        "https://9.9.9.9/dns-query"
    );
}

#[test]
fn certificates_are_checked_unless_told_otherwise_to_the_letter() {
    assert!(!insecure(&Environment::new()));
    for value in ["1", "true", "yes", "on"] {
        assert!(insecure(&environment("AETHER_DOH_INSECURE", value)));
    }
    for value in ["", "0", "off", "TRUE", " 1", "on ", "y"] {
        assert!(!insecure(&environment("AETHER_DOH_INSECURE", value)));
    }
}

#[test]
fn the_client_and_the_request_are_laid_down() {
    let settings = client_settings(&environment("AETHER_DOH_INSECURE", "yes"));
    assert_eq!(settings.timeout_secs, 4);
    assert_eq!(settings.user_agent, "mnx-guard-doh/1");
    assert!(settings.accept_invalid_certs);
    assert!(!client_settings(&Environment::new()).accept_invalid_certs);
    let request = post(&environment("AETHER_DOH_URL", "https://8.8.8.8/dns-query"));
    assert_eq!(request.url, "https://8.8.8.8/dns-query");
    assert_eq!(request.content_type, "application/dns-message");
    assert_eq!(request.accept, "application/dns-message");
}

#[test]
fn the_client_is_built_as_laid_down() {
    let strict = new_client(&Environment::new()).unwrap();
    let shown = format!("{strict:?}");
    assert!(shown.contains("4s"));
    assert!(shown.contains("mnx-guard-doh/1"));
    assert!(new_client(&environment("AETHER_DOH_INSECURE", "1")).is_ok());
}

#[test]
fn the_client_is_built_once() {
    let mut slot = None;
    assert!(client(&mut slot, || environment("AETHER_DOH", "on")).is_some());
    assert!(matches!(slot, Some(Ok(_))));
    assert!(client(&mut slot, || panic!("the client is there")).is_some());
}

#[test]
fn a_client_that_could_not_be_built_is_not_tried_again() {
    let failure = new_client(&Environment::new()).unwrap().get("not a url").build();
    let Err(error) = failure else {
        panic!("that is no URL")
    };
    let mut slot = Some(Err(error));
    assert!(client(&mut slot, || panic!("the failure is there")).is_none());
    assert!(matches!(slot, Some(Err(_))));
}

#[test]
fn the_query_is_posted_as_a_dns_message() {
    let env = environment("AETHER_DOH_URL", " https://9.9.9.9/dns-query ");
    let http = new_client(&env).unwrap();
    let built = request(&env, &http, vec![1, 2, 3]).build().unwrap();
    assert_eq!(built.method().as_str(), "POST");
    assert_eq!(built.url().as_str(), "https://9.9.9.9/dns-query");
    assert_eq!(built.headers()["content-type"], "application/dns-message");
    assert_eq!(built.headers()["accept"], "application/dns-message");
    assert_eq!(built.body().and_then(|body| body.as_bytes()), Some(&[1u8, 2, 3][..]));
    let odd = environment("AETHER_DOH_URL", "not a url");
    assert!(request(&odd, &http, vec![]).build().is_err());
}

#[test]
fn a_resolution_that_meets_no_failure_ends_in_the_address() {
    let env = Environment::new();
    let asked: Action<u32> = resolve(&env, Event::Asked);
    assert_eq!(asked, Action::GetClient);
    assert_eq!(resolve::<u32>(&env, Event::Client { ready: true }), Action::PostQuery);
    for code in [200, 204, 299] {
        assert_eq!(
            resolve::<u32>(&env, Event::Responded { status: Some(code) }),
            Action::ReadBody
        );
    }
    assert_eq!(resolve::<u32>(&env, Event::Body { read: true }), Action::MatchBody);
    assert_eq!(resolve::<u32>(&env, Event::Matched { answers: true }), Action::ParseBody);
    assert_eq!(
        resolve(&env, Event::Parsed { address: Some(7u32) }),
        Action::Finish(Some(7))
    );
}

#[test]
fn every_failure_ends_in_no_address() {
    let on = Environment::new();
    let off = environment("AETHER_DOH", "off");
    let end: Action<u32> = Action::Finish(None);
    assert_eq!(resolve(&off, Event::Asked), end);
    assert_eq!(resolve(&on, Event::Client { ready: false }), end);
    assert_eq!(resolve(&on, Event::Responded { status: None }), end);
    for code in [100, 199, 300, 404, 500] {
        assert_eq!(resolve(&on, Event::Responded { status: Some(code) }), end);
    }
    assert_eq!(resolve(&on, Event::Body { read: false }), end);
    assert_eq!(resolve(&on, Event::Matched { answers: false }), end);
    assert_eq!(resolve(&on, Event::Parsed { address: None }), end);
}
