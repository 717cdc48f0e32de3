use kovel::forward::ForwardSelection;
use kovel::model::{disconnect_all_label, kill_message, log_line, ApplicationModel};

fn model() -> ApplicationModel {
    let mut m = ApplicationModel::default();
    m.set_namespaces(vec!["default".to_string(), "prod".to_string()]);
    m.handle_service_message(&vec![Some("api".to_string()), Some("web".to_string())]);
    m.handle_pods_message(&vec![Some("api-0".to_string())]);
    m.ports_values = vec!["80".to_string(), "443".to_string()];
    m
}

fn selection(ns: u32, svc: u32, pod: u32, svc_active: bool, pod_active: bool, port: u32, text: &str) -> ForwardSelection {
    ForwardSelection {
        ns_selected: ns,
        svc_selected: svc,
        pod_selected: pod,
        svc_active,
        pod_active,
        local_port: "8080".to_string(),
        port_selected: port,
        port_text: text.to_string(),
    }
}

#[test]
fn nothing_happens_without_a_namespace_or_resource() {
    let m = model();
    for sel in [selection(0, 1, 1, true, false, 0, ""), selection(2, 0, 0, true, false, 0, "")] {
        assert!(m.can_plan_port_forward(&sel));
        let plan = m.plan_port_forward(&sel);
        assert!(plan.logs.is_empty());
        assert!(plan.launch.is_none());
    }
}

#[test]
fn forwards_a_service_to_the_selected_port() {
    let m = model();
    let sel = selection(2, 2, 0, true, false, 1, "");
    assert!(m.can_plan_port_forward(&sel));
    let plan = m.plan_port_forward(&sel);
    assert_eq!(plan.logs, vec!["k8s port: 8080".to_string(), "selected service: api".to_string()]);
    let launch = plan.launch.unwrap();
    assert_eq!(launch.program, "kubectl");
    assert_eq!(launch.args, vec!["-n", "prod", "port-forward", "svc/web", "8080:443"]);
    assert_eq!(launch.label, "service web");
}

#[test]
fn typed_port_wins_over_the_selected_one() {
    let m = model();
    let sel = selection(1, 0, 1, false, true, 7, "9090");
    assert!(m.can_plan_port_forward(&sel));
    let plan = m.plan_port_forward(&sel);
    assert_eq!(plan.logs, vec!["k8s port: 8080".to_string(), "selected pod: -- select pod --".to_string()]);
    let launch = plan.launch.unwrap();
    assert_eq!(launch.args, vec!["-n", "default", "port-forward", "pod/api-0", "8080:9090"]);
    assert_eq!(launch.label, "pod api-0");
}

#[test]
fn no_port_at_all_logs_nothing_selected() {
    let mut m = model();
    m.ports_values.clear();
    let sel = selection(1, 1, 0, true, false, 0, "");
    assert!(m.can_plan_port_forward(&sel));
    let plan = m.plan_port_forward(&sel);
    assert_eq!(plan.logs, vec!["k8s port: 8080".to_string(), "nothing selected...".to_string()]);
    assert!(plan.launch.is_none());
}

#[test]
fn no_kind_chosen_logs_nothing_selected() {
    let m = model();
    let sel = selection(1, 1, 0, false, false, 0, "");
    let plan = m.plan_port_forward(&sel);
    assert_eq!(plan.logs, vec!["k8s port: 8080".to_string(), "nothing selected...".to_string()]);
    assert!(plan.launch.is_none());
}

#[test]
fn positions_out_of_range_are_not_plannable() {
    let m = model();
    assert!(!m.can_plan_port_forward(&selection(3, 1, 0, true, false, 0, "")));
    assert!(!m.can_plan_port_forward(&selection(1, 3, 0, true, false, 0, "")));
    assert!(!m.can_plan_port_forward(&selection(1, 0, 1, true, false, 0, "")));
    assert!(!m.can_plan_port_forward(&selection(1, 1, 0, true, false, 2, "")));
    assert!(m.can_plan_port_forward(&selection(1, 1, 0, true, false, 2, "22")));
}

#[test]
fn labels_and_log_lines() {
    assert_eq!(disconnect_all_label(0), "Disconnect all");
    assert_eq!(disconnect_all_label(1), "Disconnect all (1)");
    assert_eq!(disconnect_all_label(12), "Disconnect all (12)");
    assert_eq!(kill_message(4242), "killed pid #4242");
    assert_eq!(log_line("hello"), "hello\n");
}

#[test]
fn register_then_disconnect_one() {
    let mut m = model();
    m.register_forward("service web".to_string(), 100);
    m.register_forward("pod api-0".to_string(), 200);
    assert_eq!(m.forward_labels(), vec!["service web".to_string(), "pod api-0".to_string()]);
    assert!(m.finish_disconnect_one(0, false).is_none());
    assert_eq!(m.running_children.len(), 2);
    let d = m.finish_disconnect_one(1, true).unwrap();
    assert_eq!(d.log, "killed pid #200");
    assert_eq!(d.label, "Disconnect all (1)");
    assert_eq!(m.forward_labels(), vec!["service web".to_string()]);
    let d = m.finish_disconnect_one(0, true).unwrap();
    assert_eq!(d.label, "Disconnect all");
    assert!(m.running_children.is_empty());
}

#[test]
fn disconnect_all_logs_each_stopped_forward() {
    let mut m = model();
    m.register_forward("service web".to_string(), 1);
    m.register_forward("service api".to_string(), 2);
    m.register_forward("pod api-0".to_string(), 3);
    let report = m.finish_disconnect_all(&vec![true, false, true]);
    assert_eq!(report.logs, vec!["killed pid #1".to_string(), "killed pid #3".to_string()]);
    assert!(report.reset_label);
    assert!(m.running_children.is_empty());
    m.register_forward("service web".to_string(), 9);
    let report = m.finish_disconnect_all(&vec![false]);
    assert!(report.logs.is_empty());
    assert!(!report.reset_label);
    assert!(m.running_children.is_empty());
}

#[test]
fn clearing_forgets_every_forward() {
    let mut m = model();
    m.register_forward("service web".to_string(), 1);
    m.clear_forwards();
    assert!(m.forward_labels().is_empty());
    assert_eq!(m.svc_values.len(), 3);
}
