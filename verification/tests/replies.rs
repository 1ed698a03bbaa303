use iterm2_client::response::Response;
use iterm2_client::session::{
    activate_reply, buffer_lines_reply, check_buffer_status, check_split_status, check_status_i32,
    check_variable_status, close_reply, get_profile_property_reply, get_prompt_reply,
    get_variable_reply, inject_reply, restart_reply, send_text_reply, set_profile_property_reply,
    set_variable_reply, split_reply,
};
use iterm2_client::{Error, Session, Tab};

type R = Response<(String, String), u32>;

fn status_text<T: std::fmt::Debug>(r: Result<T, Error>) -> String {
    match r {
        Err(Error::Status(m)) => m,
        other => panic!("expected a status error, got {:?}", other),
    }
}

fn expected_kind<T: std::fmt::Debug>(r: Result<T, Error>) -> &'static str {
    match r {
        Err(Error::UnexpectedResponse { expected }) => expected,
        other => panic!("expected an unexpected-response error, got {:?}", other),
    }
}

#[test]
fn status_none_and_zero_are_ok() {
    check_status_i32(None, "Op").unwrap();
    check_status_i32(Some(0), "Op").unwrap();
}

#[test]
fn status_codes_are_reported_with_the_operation() {
    assert_eq!(status_text(check_status_i32(Some(3), "SendText")), "SendText returned status 3");
    assert_eq!(status_text(check_status_i32(Some(-7), "Op")), "Op returned status -7");
    assert_eq!(
        status_text(check_status_i32(Some(i32::MIN), "Op")),
        "Op returned status -2147483648"
    );
    assert_eq!(
        status_text(check_status_i32(Some(i32::MAX), "Op")),
        "Op returned status 2147483647"
    );
    assert_eq!(status_text(check_buffer_status(Some(1))), "GetBuffer returned status 1");
    assert_eq!(status_text(check_split_status(Some(2))), "SplitPane returned status 2");
    assert_eq!(status_text(check_variable_status(Some(10))), "Variable returned status 10");
    assert_eq!(
        check_status_i32(Some(120), "Activate").unwrap_err().to_string(),
        "Non-OK status: Activate returned status 120"
    );
}

#[test]
fn send_text_reply_is_read() {
    send_text_reply(R::SendText { status: None }).unwrap();
    assert_eq!(
        status_text(send_text_reply(R::SendText { status: Some(1) })),
        "SendText returned status 1"
    );
    assert_eq!(expected_kind(send_text_reply(R::Close)), "SendTextResponse");
}

#[test]
fn buffer_lines_default_to_empty_text() {
    let r = R::GetBuffer {
        status: Some(0),
        lines: vec![Some("$ ls".to_string()), None, Some("a b".to_string())],
    };
    assert_eq!(buffer_lines_reply(r).unwrap(), vec!["$ ls".to_string(), String::new(), "a b".to_string()]);
    assert!(buffer_lines_reply(R::GetBuffer { status: None, lines: vec![] }).unwrap().is_empty());
    assert_eq!(
        status_text(buffer_lines_reply(R::GetBuffer { status: Some(4), lines: vec![Some("x".into())] })),
        "GetBuffer returned status 4"
    );
    assert_eq!(expected_kind(buffer_lines_reply(R::Other)), "GetBufferResponse");
}

#[test]
fn split_reply_returns_new_sessions() {
    let ids = vec!["s1".to_string(), "s2".to_string()];
    assert_eq!(split_reply(R::SplitPane { status: None, session_ids: ids.clone() }).unwrap(), ids);
    assert_eq!(
        status_text(split_reply(R::SplitPane { status: Some(2), session_ids: ids })),
        "SplitPane returned status 2"
    );
    assert_eq!(expected_kind(split_reply(R::Close)), "SplitPaneResponse");
}

#[test]
fn variable_replies_are_read() {
    let r = R::Variable { status: Some(0), values: vec!["\"a\"".into(), "\"b\"".into()] };
    assert_eq!(get_variable_reply(r).unwrap(), Some("\"a\"".to_string()));
    assert_eq!(get_variable_reply(R::Variable { status: None, values: vec![] }).unwrap(), None);
    assert_eq!(
        status_text(get_variable_reply(R::Variable { status: Some(1), values: vec![] })),
        "Variable returned status 1"
    );
    set_variable_reply(R::Variable { status: None, values: vec![] }).unwrap();
    assert_eq!(
        status_text(set_variable_reply(R::Variable { status: Some(3), values: vec![] })),
        "Variable returned status 3"
    );
    assert_eq!(expected_kind(get_variable_reply(R::SendText { status: None })), "VariableResponse");
    assert_eq!(expected_kind(set_variable_reply(R::Other)), "VariableResponse");
}

#[test]
fn profile_property_replies_are_read() {
    let props = vec![("Name".to_string(), "\"Default\"".to_string())];
    assert_eq!(
        get_profile_property_reply(R::GetProfileProperty { status: None, properties: props.clone() })
            .unwrap(),
        props
    );
    assert_eq!(
        status_text(get_profile_property_reply(R::GetProfileProperty { status: Some(5), properties: props })),
        "GetProfileProperty returned status 5"
    );
    set_profile_property_reply(R::SetProfileProperty { status: Some(0) }).unwrap();
    assert_eq!(
        status_text(set_profile_property_reply(R::SetProfileProperty { status: Some(1) })),
        "SetProfileProperty returned status 1"
    );
    assert_eq!(expected_kind(get_profile_property_reply(R::Close)), "GetProfilePropertyResponse");
    assert_eq!(expected_kind(set_profile_property_reply(R::Close)), "SetProfilePropertyResponse");
}

#[test]
fn inject_reports_first_failed_status() {
    inject_reply(R::Inject { statuses: vec![] }).unwrap();
    inject_reply(R::Inject { statuses: vec![0, 0] }).unwrap();
    assert_eq!(
        status_text(inject_reply(R::Inject { statuses: vec![0, 1, 2] })),
        "Inject failed with status: 1"
    );
    assert_eq!(expected_kind(inject_reply(R::Close)), "InjectResponse");
}

#[test]
fn other_replies_are_read() {
    restart_reply(R::RestartSession { status: None }).unwrap();
    assert_eq!(
        status_text(restart_reply(R::RestartSession { status: Some(1) })),
        "RestartSession returned status 1"
    );
    close_reply(R::Close).unwrap();
    assert_eq!(expected_kind(close_reply(R::Other)), "CloseResponse");
    activate_reply(R::Activate { status: Some(0) }).unwrap();
    assert_eq!(
        status_text(activate_reply(R::Activate { status: Some(2) })),
        "Activate returned status 2"
    );
    assert_eq!(expected_kind(activate_reply(R::Close)), "ActivateResponse");
    assert_eq!(get_prompt_reply(R::GetPrompt(7)).unwrap(), 7);
    assert_eq!(expected_kind(get_prompt_reply(R::Other)), "GetPromptResponse");
    assert_eq!(expected_kind(restart_reply(R::Other)), "RestartSessionResponse");
}

#[test]
fn handles_validate_their_identifiers() {
    let s = Session::new("w0t0p0:ABC".to_string(), Some("zsh".to_string()), 17u8).unwrap();
    assert_eq!(s.id, "w0t0p0:ABC");
    assert_eq!(s.title.as_deref(), Some("zsh"));
    assert_eq!(*s.connection(), 17);
    assert!(Session::new("bad\0id".to_string(), None, ()).is_err());
    let t = Tab::new("7".to_string(), "conn").unwrap();
    assert_eq!(t.id, "7");
    assert_eq!(*t.connection(), "conn");
    let err = Tab::new("x".repeat(300), ()).err().unwrap();
    assert_eq!(err.to_string(), "API error from server: tab ID too long (300 bytes, max 256)");
    let u = Session::new_unchecked("bad\0id".to_string(), None, 1u8);
    assert_eq!(u.id, "bad\0id");
    let v = Tab::new_unchecked(String::new(), 2u8);
    assert_eq!(*v.connection(), 2);
}
