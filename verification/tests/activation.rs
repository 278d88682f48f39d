use rocket::http::uri::Absolute;
use user_registration::activation::{
    address_from, build_activation_url, parse_url, validate_url, ActivationEmail,
};
use user_registration::dto::ActiveEmailDTO;
use user_registration::error::UserCreationError;

const TOKEN: u128 = 0x11111111_2222_4333_8444_555555555555;
const USER: u128 = 0xaaaaaaaa_bbbb_4ccc_9ddd_eeeeeeeeeeee;

#[test]
fn activation_url_has_two_query_parameters() {
    let link = ActiveEmailDTO { token: TOKEN, user_id: USER };
    assert_eq!(
        build_activation_url("https://app.example.com", &link),
        "https://app.example.com/user/activate?token=11111111-2222-4333-8444-555555555555&user_id=aaaaaaaa-bbbb-4ccc-9ddd-eeeeeeeeeeee"
    );
}

#[test]
fn activation_url_under_an_empty_base() {
    let link = ActiveEmailDTO { token: 0, user_id: 1 };
    assert_eq!(
        build_activation_url("", &link),
        "/user/activate?token=00000000-0000-0000-0000-000000000000&user_id=00000000-0000-0000-0000-000000000001"
    );
}

#[test]
fn absolute_url_is_accepted_as_written() {
    let link = ActiveEmailDTO { token: TOKEN, user_id: USER };
    let url = build_activation_url("https://app.example.com", &link);
    match validate_url(&url) {
        Ok(address) => assert_eq!(address, url),
        Err(_) => panic!("expected an address"),
    }
}

#[test]
fn validate_url_is_what_rocket_parses() {
    let url = "http://localhost:8000/user/activate?token=a&user_id=b";
    let expected = Absolute::parse(url).unwrap().to_string();
    match validate_url(url) {
        Ok(address) => assert_eq!(address, expected),
        Err(_) => panic!("expected an address"),
    }
}

#[test]
fn relative_url_is_a_send_email_error() {
    let link = ActiveEmailDTO { token: TOKEN, user_id: USER };
    let url = build_activation_url("", &link);
    let expected = Absolute::parse(&url).unwrap_err().to_string();
    match validate_url(&url) {
        Err(UserCreationError::SendEmailError(message)) => assert_eq!(message, expected),
        _ => panic!("expected SendEmailError"),
    }
}

#[test]
fn garbage_base_is_a_send_email_error() {
    let link = ActiveEmailDTO { token: TOKEN, user_id: USER };
    let url = build_activation_url("not a url", &link);
    assert!(matches!(validate_url(&url), Err(UserCreationError::SendEmailError(_))));
}

#[test]
fn address_from_keeps_a_parsed_address() {
    match address_from(Ok(String::from("https://a.example/x"))) {
        Ok(address) => assert_eq!(address, "https://a.example/x"),
        Err(_) => panic!("expected an address"),
    }
}

#[test]
fn address_from_wraps_the_parser_message() {
    match address_from(Err(String::from("expected token ':' at index 3"))) {
        Err(UserCreationError::SendEmailError(message)) => {
            assert_eq!(message, "expected token ':' at index 3")
        }
        _ => panic!("expected SendEmailError"),
    }
}

#[test]
fn welcome_mail_names_subject_and_template() {
    let mail = ActivationEmail::compose(
        String::from("alice@example.com"),
        String::from("alice"),
        String::from("https://app.example.com/x"),
    );
    assert_eq!(mail.to, "alice@example.com");
    assert_eq!(mail.subject, "Welcome to the Meisaku!");
    assert_eq!(mail.template, "sign_up");
    assert_eq!(mail.user_name, "alice");
    assert_eq!(mail.activation_url, "https://app.example.com/x");
    assert_eq!(
        mail.template_data(),
        vec![
            ("user_name", String::from("alice")),
            ("activation_url", String::from("https://app.example.com/x"))
        ]
    );
}

#[test]
fn parse_url_is_what_rocket_parses() {
    assert_eq!(parse_url("https://rocket.rs"), Ok(String::from("https://rocket.rs")));
    let expected = Absolute::parse("/relative").unwrap_err().to_string();
    assert_eq!(parse_url("/relative"), Err(expected));
    assert!(parse_url("").is_err());
}
