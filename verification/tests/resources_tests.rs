use kovel::model::ApplicationModel;
use kovel::resources::{
    pod_port_values, service_port_values, ContainerInfo, ContainerPortInfo, IntOrString, PodInfo,
    PodSpecInfo, ServiceInfo, ServicePortInfo, ServiceSpecInfo,
};

fn service(ports: Option<Vec<IntOrString>>) -> ServiceInfo {
    ServiceInfo {
        spec: Some(ServiceSpecInfo {
            ports: ports.map(|ps| ps.into_iter().map(|t| ServicePortInfo { target_port: Some(t) }).collect()),
        }),
    }
}

fn container(ports: Option<Vec<(i32, Option<i32>)>>) -> ContainerInfo {
    ContainerInfo {
        ports: ports.map(|ps| {
            ps.into_iter()
                .map(|(c, h)| ContainerPortInfo { container_port: c, host_port: h })
                .collect()
        }),
    }
}

#[test]
fn service_ports_by_number_and_by_name() {
    let svc = service(Some(vec![
        IntOrString::Int(8080),
        IntOrString::Str("http".to_string()),
        IntOrString::Int(-1),
    ]));
    assert_eq!(service_port_values(&svc), vec!["8080".to_string(), "http".to_string(), "-1".to_string()]);
}

#[test]
fn service_without_ports_offers_none() {
    assert!(service_port_values(&service(None)).is_empty());
    assert!(service_port_values(&service(Some(vec![]))).is_empty());
}

#[test]
fn pod_ports_prefer_the_host_port() {
    let pod = PodInfo {
        spec: Some(PodSpecInfo {
            containers: vec![
                container(Some(vec![(80, None), (443, Some(8443))])),
                container(None),
                container(Some(vec![(5432, None)])),
            ],
        }),
    };
    assert_eq!(
        pod_port_values(&pod),
        vec!["80".to_string(), "8443".to_string(), "5432".to_string()]
    );
}

#[test]
fn pod_without_containers_offers_no_ports() {
    let pod = PodInfo { spec: Some(PodSpecInfo { containers: vec![] }) };
    assert!(pod_port_values(&pod).is_empty());
}

#[test]
fn model_port_list_follows_the_last_resource() {
    let mut m = ApplicationModel::default();
    m.handle_svc_port(&service(Some(vec![IntOrString::Int(9000)])));
    assert_eq!(m.ports_values, vec!["9000".to_string()]);
    let pod = PodInfo { spec: Some(PodSpecInfo { containers: vec![container(Some(vec![(3000, None)]))] }) };
    m.handle_pod_port(&pod);
    assert_eq!(m.ports_values, vec!["3000".to_string()]);
}

#[test]
fn loaded_services_are_selectable_after_the_placeholder() {
    let mut m = ApplicationModel::default();
    m.handle_service_message(&vec![Some("api".to_string()), Some("web".to_string())]);
    assert_eq!(
        m.svc_values,
        vec!["-- select service --".to_string(), "api".to_string(), "web".to_string()]
    );
    assert_eq!(m.selected_service(0), "-- select service --");
    assert_eq!(m.selected_service(2), "web");
    m.handle_pods_message(&vec![Some("api-0".to_string())]);
    assert_eq!(m.pod_values, vec!["-- select pod --".to_string(), "api-0".to_string()]);
    assert_eq!(m.selected_pod(1), "api-0");
    m.handle_service_message(&vec![]);
    assert_eq!(m.svc_values, vec!["-- select service --".to_string()]);
}
