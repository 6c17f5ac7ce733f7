use cr_api::configuration::{EmailClientSettings, Environment};

fn email_settings(sender: &str) -> EmailClientSettings {
    EmailClientSettings {
        base_url: "https://mail.example.com".to_string(),
        sender_email: sender.to_string(),
        authorization_token: "SECRET-REDACTED".to_string(),
        timeout_milliseconds: 10_000,
    }
}

#[test]
fn environment_names_parse_ignoring_case() {
    assert_eq!(Environment::try_from("local".to_string()).unwrap(), Environment::Local);
    assert_eq!(Environment::try_from("LOCAL".to_string()).unwrap(), Environment::Local);
    assert_eq!(
        Environment::try_from("Production".to_string()).unwrap(),
        Environment::Production
    );
    let err = Environment::try_from("staging".to_string()).unwrap_err();
    assert_eq!(
        err,
        "staging is not a supported environment. Use either `local` or `production`."
    );
}

#[test]
fn environment_names_round_trip() {
    assert_eq!(Environment::Local.as_str(), "local");
    assert_eq!(Environment::Production.as_str(), "production");
}

#[test]
fn sender_requires_a_valid_address() {
    assert_eq!(
        email_settings("news@example.com").sender().unwrap().as_ref(),
        "news@example.com"
    );
    assert!(email_settings("not-an-address").sender().is_err());
}

#[test]
fn timeout_is_the_configured_milliseconds() {
    assert_eq!(email_settings("news@example.com").timeout(), 10_000);
}
