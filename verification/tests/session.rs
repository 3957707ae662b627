use session_store::address::IpAddress;
use session_store::session::Session;
use session_store::table::SessionTable;

#[test]
fn test_session() {
    let mut conn = SessionTable::new();

    // register a user so that the foreign key works
    let user_id = 42;
    conn.add_user(user_id);

    // insert a new session
    let ip_addr = IpAddress::v4(192, 168, 0, 42);
    let user_agent = "Mozilla/5.0 (X11; Linux x86_64) AppleWebKit/537.36 (KHTML, like Gecko) Chrome/51.0.2704.103 Safari/537.36";

    let token = Session::generate_token();
    let new_session = Session::new()
        .user_id(user_id)
        .token(&token)
        .last_ip_address(ip_addr)
        .last_user_agent(user_agent)
        .build()
        .unwrap();

    let session = new_session.insert(&mut conn).unwrap();
    assert_eq!(session.user_id, user_id);
    assert_eq!(session.hashed_token, Session::hash_token(&token).to_vec());
    assert_eq!(session.revoked, false);
    assert_eq!(session.last_ip_address(), ip_addr);
    assert_eq!(session.last_user_agent, user_agent);

    // query the session by `token`
    let ip_addr = IpAddress::v4(192, 168, 0, 1);
    let user_agent =
        "Mozilla/5.0 (Macintosh; Intel Mac OS X x.y; rv:42.0) Gecko/20100101 Firefox/42.0";

    let query_result =
        Session::find_by_token_and_update(&mut conn, &token, ip_addr, user_agent).unwrap();
    let session = query_result.unwrap();
    assert_eq!(session.user_id, user_id);
    assert_eq!(session.hashed_token, Session::hash_token(&token).to_vec());
    assert_eq!(session.revoked, false);
    assert_eq!(session.last_ip_address(), ip_addr);
    assert_eq!(session.last_user_agent, user_agent);

    // query the session by an unknown `token`
    let query_result =
        Session::find_by_token_and_update(&mut conn, "some-other-token", ip_addr, user_agent)
            .unwrap();
    assert!(query_result.is_none());

    // find all session by `user_id`
    let query_result = Session::find_by_user_id(&conn, user_id).unwrap();
    assert_eq!(query_result.len(), 1);

    // revoke the session
    assert_eq!(Session::revoke(&mut conn, user_id, session.id).unwrap(), true);

    // query the revoked session
    let query_result =
        Session::find_by_token_and_update(&mut conn, &token, ip_addr, user_agent).unwrap();
    assert!(query_result.is_none());

    // try to revoke the session again
    assert_eq!(Session::revoke(&mut conn, user_id, session.id).unwrap(), false);

    // try to revoke a different session
    assert_eq!(
        Session::revoke(&mut conn, user_id, session.id + 42).unwrap(),
        false
    );

    // find all session by `user_id`
    let query_result = Session::find_by_user_id(&conn, user_id).unwrap();
    assert_eq!(query_result.len(), 0);
}
