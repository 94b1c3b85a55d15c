use kraken::gql_model::ApplicationStatus;
use kraken::rabbit::deployment_message::DeploymentMessage;
use kraken::rabbit::log_message::LogMessage;
use kraken::rabbit::sysinfo_message::SysinfoMessage;
use kraken::rabbit::work_request_message::{WorkRequestMessage, WorkRequestType};
use kraken::rabbit::QueueLabel;

#[test]
fn deploymentmessage_is_invertible() {
    let mut left = DeploymentMessage::new("sysid", "deployid");
    left.update_message(ApplicationStatus::Running, "deployment is running", None);
    let data = left.build_message();

    let (id, right) = DeploymentMessage::deconstruct_message(&data);
    assert_eq!(id, "sysid");
    assert_eq!(left, right);
}

#[test]
fn logmessage_is_invertible() {
    let mut left = LogMessage::new("deployid");
    left.update_message("deployment is running");
    let data = left.build_message();

    let (id, right) = LogMessage::deconstruct_message(&data);
    assert_eq!(id, "deployid");
    assert_eq!(left, right);
}

#[test]
fn log_message_wire_format() {
    let mut m = LogMessage::new("abc");
    m.update_message("hello");
    assert_eq!(m.build_message(), b"abc|hello".to_vec());
}

#[test]
fn log_message_keeps_separators_in_message() {
    let mut m = LogMessage::new("dep");
    m.update_message("a|b||c|");
    let (id, back) = LogMessage::deconstruct_message(&m.build_message());
    assert_eq!(id, "dep");
    assert_eq!(back, m);
    let (id, back) = LogMessage::deconstruct_message(&b"d|a|b".to_vec());
    assert_eq!(id, "d");
    assert_eq!(back.message, "a|b");
}

#[test]
fn log_message_without_separator() {
    let (id, back) = LogMessage::deconstruct_message(&b"just-an-id".to_vec());
    assert_eq!(id, "just-an-id");
    assert_eq!(back.deployment_identifier, "just-an-id");
    assert_eq!(back.message, "");
}

#[test]
fn log_message_invalid_utf8_is_read_lossily() {
    let data = vec![b'i', b'd', b'|', 0xff, b'x'];
    let (id, back) = LogMessage::deconstruct_message(&data);
    assert_eq!(id, "id");
    assert_eq!(back.message, "\u{fffd}x");
}

#[test]
fn log_message_non_ascii_roundtrip() {
    let mut m = LogMessage::new("déploiement");
    m.update_message("überprüft ✓");
    let (id, back) = LogMessage::deconstruct_message(&m.build_message());
    assert_eq!(id, "déploiement");
    assert_eq!(back, m);
}

#[test]
fn deployment_message_wire_format() {
    let mut m = DeploymentMessage::new("sys", "dep");
    m.update_message(ApplicationStatus::Errored, "oops", None);
    assert_eq!(m.build_message(), b"sys|dep|Errored|oops|null".to_vec());
}

#[test]
fn deployment_message_with_container_status_roundtrip() {
    let mut m = DeploymentMessage::new("sys", "dep");
    let json = String::from("{\"size\":1,\"mem_mb\":2,\"mem_max_mb\":3,\"cpu_usage\":0.5,\"state\":\"running\"}");
    m.update_message(ApplicationStatus::Running, "ok", Some(json.clone()));
    let (id, back) = DeploymentMessage::deconstruct_message(&m.build_message());
    assert_eq!(id, "sys");
    assert_eq!(back.container_status, Some(json));
    assert_eq!(back, m);
}

#[test]
fn deployment_message_update_keeps_container_status_when_none_given() {
    let mut m = DeploymentMessage::new("sys", "dep");
    m.update_message(ApplicationStatus::Running, "ok", Some(String::from("{}")));
    m.update_message(ApplicationStatus::Errored, "bad", None);
    assert_eq!(m.container_status, Some(String::from("{}")));
    assert_eq!(m.deployment_status, ApplicationStatus::Errored);
}

#[test]
fn deployment_message_with_two_fields_is_fresh() {
    let (id, m) = DeploymentMessage::deconstruct_message(&b"sys|dep".to_vec());
    assert_eq!(id, "sys");
    assert_eq!(m, DeploymentMessage::new("sys", "dep"));
}

#[test]
fn deployment_message_unreadable_texts() {
    assert!(DeploymentMessage::try_deconstruct_message(&b"only-one-field".to_vec()).is_none());
    assert!(DeploymentMessage::try_deconstruct_message(&b"a|b|NotAStatus|d|null".to_vec()).is_none());
    let ok = DeploymentMessage::try_deconstruct_message(&b"a|b|Destroyed|d|null".to_vec());
    let (id, m) = ok.unwrap();
    assert_eq!(id, "a");
    assert_eq!(m.deployment_status, ApplicationStatus::Destroyed);
    assert_eq!(m.deployment_status_description, "d");
    assert_eq!(m.container_status, None);
}

#[test]
fn work_request_deployment_roundtrip() {
    let m = WorkRequestMessage::new(
        WorkRequestType::RequestDeployment,
        Some("dep-1"),
        Some("https://github.com/ethanshry/scapenode"),
        None,
    );
    let data = m.build_message();
    assert_eq!(data, b"request_deployment|dep-1|https://github.com/ethanshry/scapenode".to_vec());
    let (kind, back) = WorkRequestMessage::deconstruct_message(&data);
    assert_eq!(kind, "request_deployment");
    assert_eq!(back, m);
}

#[test]
fn work_request_cancel_roundtrip() {
    let m = WorkRequestMessage::new(WorkRequestType::CancelDeployment, Some("dep-2"), None, None);
    let data = m.build_message();
    assert_eq!(data, b"cancel_deployment|dep-2".to_vec());
    let (kind, back) = WorkRequestMessage::deconstruct_message(&data);
    assert_eq!(kind, "cancel_deployment");
    assert_eq!(back, m);
}

#[test]
fn work_request_priority_roundtrip() {
    for p in [0i16, 7, -7, 32767, -32768, 100] {
        let m = WorkRequestMessage::new(WorkRequestType::SetPromotionPriority, None, None, Some(p));
        let data = m.build_message();
        assert_eq!(data, format!("set_promotion_priority|{}", p).into_bytes());
        let (kind, back) = WorkRequestMessage::deconstruct_message(&data);
        assert_eq!(kind, "set_promotion_priority");
        assert_eq!(back, m);
    }
}

#[test]
fn work_request_unknown_type_is_priority() {
    assert_eq!(WorkRequestType::from_str("whatever"), WorkRequestType::SetPromotionPriority);
    assert_eq!(WorkRequestType::from_str("cancel_deployment"), WorkRequestType::CancelDeployment);
    assert_eq!(WorkRequestType::RequestDeployment.as_str(), "request_deployment");
    let (kind, back) = WorkRequestMessage::deconstruct_message(&b"other|+12".to_vec());
    assert_eq!(kind, "other");
    assert_eq!(back.priority, Some(12));
}

#[test]
fn work_request_unreadable_texts() {
    assert!(WorkRequestMessage::try_deconstruct_message(&b"request_deployment|id".to_vec()).is_none());
    assert!(WorkRequestMessage::try_deconstruct_message(&b"cancel_deployment".to_vec()).is_none());
    assert!(WorkRequestMessage::try_deconstruct_message(&b"set_promotion_priority|40000".to_vec()).is_none());
    assert!(WorkRequestMessage::try_deconstruct_message(&b"set_promotion_priority|x1".to_vec()).is_none());
    assert!(WorkRequestMessage::try_deconstruct_message(&b"set_promotion_priority|-".to_vec()).is_none());
    assert!(WorkRequestMessage::try_deconstruct_message(&b"cancel_deployment|x".to_vec()).is_some());
}

#[test]
fn queue_labels() {
    assert_eq!(QueueLabel::Sysinfo.as_str(), "sysinfo");
    assert_eq!(QueueLabel::Deployment.as_str(), "deployment");
    assert_eq!(QueueLabel::Log.as_str(), "log");
}

#[test]
fn sysinfomessage_is_invertible() {
    let mut left = SysinfoMessage::new("id", "127.0.0.1");
    left.update_message(15, 15, 15, &1.5f32.to_string());
    let data = left.build_message();

    let (id, right) = SysinfoMessage::deconstruct_message(&data);
    assert_eq!(id, "id");
    assert_eq!(left, right);
}

#[test]
fn sysinfo_message_wire_format() {
    let mut m = SysinfoMessage::new("node", "10.0.0.3");
    assert_eq!(m.build_message(), b"node|10.0.0.3|0|0|0|0".to_vec());
    m.update_message(18446744073709551615, 2, 3, "0.25");
    assert_eq!(m.build_message(), b"node|10.0.0.3|18446744073709551615|2|3|0.25".to_vec());
    assert_eq!(m.load_avg_5.parse::<f32>().unwrap(), 0.25f32);
}

#[test]
fn sysinfo_message_reads_partial_texts() {
    let (id, m) = SysinfoMessage::deconstruct_message(&b"n|addr".to_vec());
    assert_eq!(id, "n");
    assert_eq!(m, SysinfoMessage::new("n", "addr"));
    let (_, m) = SysinfoMessage::deconstruct_message(&b"n|addr|x|18446744073709551616|7|1.5".to_vec());
    assert_eq!((m.ram_free, m.ram_used, m.uptime), (0, 0, 7));
    assert_eq!(m.load_avg_5, "1.5");
    assert!(SysinfoMessage::try_deconstruct_message(&b"lonely".to_vec()).is_none());
    assert!(SysinfoMessage::try_deconstruct_message(&b"a|b|1".to_vec()).is_some());
}
