use audiocloud::ids::{
    AppId, AppMediaObjectId, AppTaskId, ClientId, ClientSocketId, EngineId, FixedInstanceId,
    IdParseError, IdValidationError, MediaObjectId, ModelId, SocketId, TaskId, Tuple2Visitor,
};

fn fixed(m: &str, n: &str, i: &str) -> FixedInstanceId {
    FixedInstanceId::new(m.to_string(), n.to_string(), i.to_string())
}

#[test]
fn fixed_instance_id_text_form() {
    let id = fixed("distopik", "dual1084", "1");
    assert_eq!(id.to_string(), "distopik/dual1084/1");
}

#[test]
fn fixed_instance_id_round_trip() {
    let id = fixed("elysia", "karacter", "2");
    let text = id.to_string();
    assert_eq!(FixedInstanceId::parse(&text), Ok(id));
}

#[test]
fn fixed_instance_id_parse_ignores_text_after_third_slash() {
    assert_eq!(FixedInstanceId::parse("a/b/c/d"), Ok(fixed("a", "b", "c")));
}

#[test]
fn fixed_instance_id_parse_missing_parts() {
    assert_eq!(FixedInstanceId::parse("distopik"), Err(IdParseError::MissingName));
    assert_eq!(FixedInstanceId::parse("distopik/dual1084"), Err(IdParseError::MissingInstance));
    assert_eq!(FixedInstanceId::parse(""), Err(IdParseError::MissingName));
    assert_eq!(FixedInstanceId::parse("a//"), Ok(fixed("a", "", "")));
}

#[test]
fn parse_error_messages() {
    assert_eq!(IdParseError::MissingName.message(), "expected manufacturer");
    assert_eq!(IdParseError::MissingInstance.message(), "expected instance");
    assert_eq!(IdParseError::MissingSecond.message(), "could not extract second string");
}

#[test]
fn fixed_instance_id_subject_and_model() {
    let id = fixed("distopik", "dual1084", "1");
    assert_eq!(id.driver_event_subject(), "ac.inst.distopik.dual1084.1.evts");
    let model = id.model_id();
    assert_eq!(model, ModelId::new("distopik".to_string(), "dual1084".to_string()));
    assert_eq!(FixedInstanceId::from_model_id(model.clone(), "1".to_string()), id);
    assert_eq!(model.instance("1".to_string()), id);
}

#[test]
fn model_id_text_form_and_parse() {
    let model = ModelId::new("distopik".to_string(), "dual1084".to_string());
    assert_eq!(model.to_string(), "distopik:dual1084");
    assert_eq!(ModelId::parse("distopik:dual1084"), Ok(model.clone()));
    assert_eq!(ModelId::parse("distopik:dual1084:extra"), Ok(model));
    assert_eq!(ModelId::parse("distopik"), Err(IdParseError::MissingSecond));
    let from_pair: ModelId = ModelId::from(("a".to_string(), "b".to_string()));
    assert_eq!(from_pair, ModelId::new("a".to_string(), "b".to_string()));
}

#[test]
fn tuple_visitor_splits_on_colons() {
    let v = Tuple2Visitor::new();
    assert_eq!(v.visit_str("x:y"), Ok(("x".to_string(), "y".to_string())));
    assert_eq!(v.visit_str(":"), Ok((String::new(), String::new())));
    assert_eq!(v.visit_str("xy"), Err(IdParseError::MissingSecond));
}

#[test]
fn app_ids() {
    assert!(AppId::admin().is_admin());
    assert!(!AppId::test().is_admin());
    assert_eq!(AppId::test().as_str(), "test");
    assert!(AppId::new("admin".to_string()).is_admin());
}

#[test]
fn engine_subjects() {
    let e = EngineId::new("e1".to_string());
    assert_eq!(e.engine_command_subject(), "ac.engn.e1.cmds");
    assert_eq!(e.engine_event_subject(), "ac.engn.e1.evts");
}

#[test]
fn client_socket_text_form() {
    let id = ClientSocketId::new(ClientId::new("c".to_string()), SocketId::new("s".to_string()));
    assert_eq!(id.to_string(), "c.s");
}

#[test]
fn app_task_id_round_trip() {
    let id = AppTaskId::new(AppId::new("app".to_string()), TaskId::new("task".to_string()));
    assert_eq!(id.to_string(), "app:task");
    assert_eq!(AppTaskId::from_str("app:task"), Ok(id.clone()));
    assert_eq!(AppTaskId::from_str("apptask"), Err(IdParseError::MissingSecond));
    let from_pair = AppTaskId::from((AppId::new("app".to_string()), TaskId::new("task".to_string())));
    assert_eq!(from_pair, id);
}

#[test]
fn app_media_object_id_forms() {
    let id = MediaObjectId::new("m1".to_string()).for_app(AppId::new("app".to_string()));
    assert_eq!(id, AppMediaObjectId::new(AppId::new("app".to_string()), MediaObjectId::new("m1".to_string())));
    assert_eq!(id.to_string(), "app:m1");
    assert_eq!(id.slashed(), "app/m1");
    assert_eq!(AppMediaObjectId::from_str("app:m1"), Ok(id.clone()));
    assert_eq!(AppMediaObjectId::from_str("app"), Err(IdParseError::MissingSecond));
    let from_pair =
        AppMediaObjectId::from((AppId::new("app".to_string()), MediaObjectId::new("m1".to_string())));
    assert_eq!(from_pair, id);
}

#[test]
fn task_id_validation() {
    let ok = TaskId::new("task_1-A".to_string());
    assert_eq!(ok.clone().validate(), Ok(ok));
    assert_eq!(
        TaskId::new("bad id".to_string()).validate(),
        Err(IdValidationError::InvalidAppTaskId { task_id: "bad id".to_string() })
    );
    assert_eq!(
        TaskId::new(String::new()).validate(),
        Err(IdValidationError::InvalidAppTaskId { task_id: String::new() })
    );
    assert_eq!(
        TaskId::new("tä".to_string()).validate(),
        Err(IdValidationError::InvalidAppTaskId { task_id: "tä".to_string() })
    );
}

#[test]
fn media_object_id_validation() {
    let ok = MediaObjectId::new("abc123".to_string());
    assert_eq!(ok.clone().validate(), Ok(ok));
    assert_eq!(
        MediaObjectId::new("a/b".to_string()).validate(),
        Err(IdValidationError::InvalidAppMediaObjectId { object_id: "a/b".to_string() })
    );
    assert_eq!(
        MediaObjectId::new("x\n".to_string()).validate(),
        Err(IdValidationError::InvalidAppMediaObjectId { object_id: "x\n".to_string() })
    );
}

#[test]
fn validation_error_messages() {
    assert_eq!(
        IdValidationError::InvalidAppTaskId { task_id: "a b".to_string() }.message(),
        "a b is an invalid app task ID"
    );
    assert_eq!(
        IdValidationError::InvalidAppMediaObjectId { object_id: "x/y".to_string() }.message(),
        "x/y is an invalid app media object ID"
    );
}
