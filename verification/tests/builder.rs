use session_store::address::{IpAddress, IpNetwork};
use session_store::new_session::{NewSessionBuilder, ValidationError};
use session_store::session::Session;

#[test]
fn build_succeeds_when_every_field_is_set() {
    let new_session = Session::new()
        .user_id(7)
        .token("secret")
        .last_ip_address(IpAddress::v4(10, 0, 0, 1))
        .last_user_agent("agent/1.0")
        .build()
        .unwrap();
    assert_eq!(new_session.user_id(), 7);
    assert_eq!(new_session.hashed_token(), &Session::hash_token("secret"));
    assert_eq!(
        new_session.last_ip_address(),
        IpNetwork { address: IpAddress::V4(0x0a00_0001), prefix: 32 }
    );
    assert_eq!(new_session.last_user_agent(), "agent/1.0");
}

#[test]
fn build_does_not_depend_on_the_order_of_the_setters() {
    let mut forward = Session::new();
    forward
        .user_id(1)
        .token("t")
        .last_ip_address(IpAddress::V6(1))
        .last_user_agent("ua");
    let mut backward = NewSessionBuilder::new();
    backward
        .last_user_agent("ua")
        .last_ip_address(IpAddress::V6(1))
        .token("t")
        .user_id(1);
    assert_eq!(forward.build().unwrap(), backward.build().unwrap());
    assert_eq!(forward, backward);
}

#[test]
fn build_keeps_the_digest_not_the_token() {
    let token = "0123456789abcdef0123456789abcdef";
    let new_session = Session::new()
        .user_id(1)
        .token(token)
        .last_ip_address(IpAddress::v4(127, 0, 0, 1))
        .last_user_agent("ua")
        .build()
        .unwrap();
    assert_eq!(new_session.hashed_token().len(), 32);
    assert_ne!(new_session.hashed_token().as_slice(), token.as_bytes());
    assert!(!format!("{:?}", new_session).contains(token));
}

#[test]
fn a_later_setter_call_replaces_the_earlier_value() {
    let new_session = Session::new()
        .user_id(1)
        .user_id(2)
        .token("first")
        .token("second")
        .last_ip_address(IpAddress::v4(1, 1, 1, 1))
        .last_ip_address(IpAddress::v4(2, 2, 2, 2))
        .last_user_agent("a")
        .last_user_agent("b")
        .build()
        .unwrap();
    assert_eq!(new_session.user_id(), 2);
    assert_eq!(new_session.hashed_token(), &Session::hash_token("second"));
    assert_eq!(new_session.last_ip_address().address, IpAddress::v4(2, 2, 2, 2));
    assert_eq!(new_session.last_user_agent(), "b");
}

#[test]
fn build_fails_on_an_empty_builder_with_the_first_field() {
    assert_eq!(Session::new().build(), Err(ValidationError::MissingUserId));
}

#[test]
fn build_reports_a_missing_user_id() {
    let result = Session::new()
        .token("t")
        .last_ip_address(IpAddress::v4(1, 2, 3, 4))
        .last_user_agent("ua")
        .build();
    assert_eq!(result, Err(ValidationError::MissingUserId));
}

#[test]
fn build_reports_a_missing_token() {
    let result = Session::new()
        .user_id(1)
        .last_ip_address(IpAddress::v4(1, 2, 3, 4))
        .last_user_agent("ua")
        .build();
    assert_eq!(result, Err(ValidationError::MissingToken));
}

#[test]
fn build_reports_a_missing_ip_address() {
    let result = Session::new().user_id(1).token("t").last_user_agent("ua").build();
    assert_eq!(result, Err(ValidationError::MissingIpAddress));
}

#[test]
fn build_reports_a_missing_user_agent() {
    let result = Session::new()
        .user_id(1)
        .token("t")
        .last_ip_address(IpAddress::v4(1, 2, 3, 4))
        .build();
    assert_eq!(result, Err(ValidationError::MissingUserAgent));
}

#[test]
fn build_reports_the_first_of_several_missing_fields() {
    let result = Session::new().user_id(1).last_user_agent("ua").build();
    assert_eq!(result, Err(ValidationError::MissingToken));
    let result = Session::new().user_id(1).token("t").build();
    assert_eq!(result, Err(ValidationError::MissingIpAddress));
}

#[test]
fn build_can_be_called_again_after_a_failure() {
    let mut builder = Session::new();
    builder.user_id(3).token("t");
    assert_eq!(builder.build(), Err(ValidationError::MissingIpAddress));
    builder.last_ip_address(IpAddress::v4(8, 8, 8, 8));
    assert_eq!(builder.build(), Err(ValidationError::MissingUserAgent));
    builder.last_user_agent("");
    let new_session = builder.build().unwrap();
    assert_eq!(new_session.last_user_agent(), "");
    assert_eq!(builder.build().unwrap(), new_session.clone());
}

#[test]
fn user_agent_is_stored_as_given() {
    let user_agent = "  Mozilla/5.0 \u{1f980} (X11; Linux x86_64)\t";
    let new_session = Session::new()
        .user_id(1)
        .token("t")
        .last_ip_address(IpAddress::v4(1, 2, 3, 4))
        .last_user_agent(user_agent)
        .build()
        .unwrap();
    assert_eq!(new_session.last_user_agent(), user_agent);
}
