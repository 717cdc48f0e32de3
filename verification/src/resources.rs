use vstd::prelude::*;
use crate::decimal::{int_decimal, signed_to_decimal};

verus! {

/// A port given either by number or by name, as Kubernetes writes a
/// service's target port.
pub enum IntOrString {
    Int(i32),
    Str(String),
}

/// The part of a Kubernetes service port that the port list reads.
pub struct ServicePortInfo {
    pub target_port: Option<IntOrString>,
}

/// The part of a Kubernetes service spec that the port list reads.
pub struct ServiceSpecInfo {
    pub ports: Option<Vec<ServicePortInfo>>,
}

/// The part of a Kubernetes service that the port list reads.
pub struct ServiceInfo {
    pub spec: Option<ServiceSpecInfo>,
}

/// The part of a Kubernetes container port that the port list reads.
pub struct ContainerPortInfo {
    pub container_port: i32,
    pub host_port: Option<i32>,
}

/// The part of a Kubernetes container that the port list reads.
pub struct ContainerInfo {
    pub ports: Option<Vec<ContainerPortInfo>>,
}

/// The part of a Kubernetes pod spec that the port list reads.
pub struct PodSpecInfo {
    pub containers: Vec<ContainerInfo>,
}

/// The part of a Kubernetes pod that the port list reads.
pub struct PodInfo {
    pub spec: Option<PodSpecInfo>,
}

/// How a target port is offered in the port list: its number in decimal, or its name.
pub open spec fn target_port_label(t: IntOrString) -> Seq<char> {
    match t {
        IntOrString::Int(n) => int_decimal(n as int),
        IntOrString::Str(s) => s@,
    }
}

/// A service can be listed when it has a spec and each of its ports names a target port.
pub open spec fn service_ports_listable(svc: ServiceInfo) -> bool {
    &&& svc.spec is Some
    &&& svc.spec->0.ports matches Some(ps) ==> forall|i: int|
        0 <= i < ps@.len() ==> (#[trigger] ps@[i]).target_port is Some
}

/// The port list of a service: the target port of each of its ports, in order.
pub open spec fn service_port_labels(svc: ServiceInfo) -> Seq<Seq<char>> {
    match svc.spec->0.ports {
        Some(ps) => ps@.map_values(|p: ServicePortInfo| target_port_label(p.target_port->0)),
        None => Seq::empty(),
    }
}

/// How a container port is offered in the port list: the host port when there
/// is one, else the container port, in decimal.
pub open spec fn container_port_label(p: ContainerPortInfo) -> Seq<char> {
    match p.host_port {
        Some(h) => int_decimal(h as int),
        None => int_decimal(p.container_port as int),
    }
}

/// The port list of one container.
pub open spec fn container_port_labels(c: ContainerInfo) -> Seq<Seq<char>> {
    match c.ports {
        Some(ps) => ps@.map_values(|p: ContainerPortInfo| container_port_label(p)),
        None => Seq::empty(),
    }
}

/// The port list of a sequence of containers: each container's list in turn.
pub open spec fn containers_port_labels(cs: Seq<ContainerInfo>) -> Seq<Seq<char>>
    decreases cs.len(),
{
    if cs.len() == 0 {
        Seq::empty()
    } else {
        containers_port_labels(cs.drop_last()) + container_port_labels(cs.last())
    }
}

/// The port list of a pod: the ports of its containers, container by container.
pub open spec fn pod_port_labels(pod: PodInfo) -> Seq<Seq<char>> {
    containers_port_labels(pod.spec->0.containers@)
}

/// How a target port is offered in the port list.
pub fn target_port_value(t: &IntOrString) -> (r: String)
    ensures
        r@ == target_port_label(*t),
        t matches IntOrString::Int(n) ==> r@ == int_decimal(n as int),
        t matches IntOrString::Str(name) ==> r@ == name@,
{
    match t {
        IntOrString::Int(n) => signed_to_decimal(*n),
        IntOrString::Str(s) => s.clone(),
    }
}

/// The ports that a service offers for forwarding: the target port of each
/// of its ports, in order.
pub fn service_port_values(svc: &ServiceInfo) -> (r: Vec<String>)
    requires
        service_ports_listable(*svc),
    ensures
        r.deep_view() == service_port_labels(*svc),
        svc.spec->0.ports is None ==> r@.len() == 0,
        svc.spec->0.ports matches Some(ps) ==> (r@.len() == ps@.len() && forall|i: int|
            0 <= i < ps@.len() ==> (#[trigger] r@[i])@ == target_port_label(
                ps@[i].target_port->0,
            )),
{
    let mut r: Vec<String> = Vec::new();
    let spec_ref = svc.spec.as_ref().unwrap();
    match &spec_ref.ports {
        None => {},
        Some(ps) => {
            let n = ps.len();
            for i in 0..n
                invariant
                    n == ps@.len(),
                    svc.spec->0.ports == Some(*ps),
                    service_ports_listable(*svc),
                    r.deep_view() =~= service_port_labels(*svc).take(i as int),
            {
                assert(ps@[i as int].target_port is Some);
                let t = ps[i].target_port.as_ref().unwrap();
                r.push(target_port_value(t));
                assert(service_port_labels(*svc).take(i + 1) =~= service_port_labels(*svc).take(
                    i as int,
                ).push(target_port_label(ps@[i as int].target_port->0)));
            }
            assert(service_port_labels(*svc).take(n as int) =~= service_port_labels(*svc));
            assert(r.deep_view().len() == r@.len());
            assert forall|i: int| 0 <= i < ps@.len() implies (#[trigger] r@[i])@ == target_port_label(
                ps@[i].target_port->0,
            ) by {
                assert(r.deep_view()[i] == r@[i]@);
            }
        },
    }
    r
}

/// How a container port is offered in the port list.
pub fn container_port_value(p: &ContainerPortInfo) -> (r: String)
    ensures
        r@ == container_port_label(*p),
        p.host_port matches Some(h) ==> r@ == int_decimal(h as int),
        p.host_port is None ==> r@ == int_decimal(p.container_port as int),
{
    match p.host_port {
        Some(h) => signed_to_decimal(h),
        None => signed_to_decimal(p.container_port),
    }
}

fn push_container_ports(out: &mut Vec<String>, c: &ContainerInfo)
    ensures
        final(out).deep_view() == old(out).deep_view() + container_port_labels(*c),
{
    let ghost start = out.deep_view();
    match &c.ports {
        None => {
            assert(start + container_port_labels(*c) =~= start);
        },
        Some(ps) => {
            let n = ps.len();
            for i in 0..n
                invariant
                    n == ps@.len(),
                    c.ports == Some(*ps),
                    out.deep_view() =~= start + container_port_labels(*c).take(i as int),
            {
                let ghost before = out.deep_view();
                let v = container_port_value(&ps[i]);
                out.push(v);
                assert(out.deep_view() =~= before.push(v@));
                assert(container_port_labels(*c)[i as int] == container_port_label(ps@[i as int]));
                assert(container_port_labels(*c).take(i + 1) =~= container_port_labels(*c).take(
                    i as int,
                ).push(container_port_label(ps@[i as int])));
            }
            assert(container_port_labels(*c).take(n as int) =~= container_port_labels(*c));
        },
    }
}

/// The ports that a pod offers for forwarding: for each container in turn,
/// each of its ports, given by its host port when it has one and by its
/// container port otherwise.
pub fn pod_port_values(pod: &PodInfo) -> (r: Vec<String>)
    requires
        pod.spec is Some,
    ensures
        r.deep_view() == pod_port_labels(*pod),
{
    let mut r: Vec<String> = Vec::new();
    let cs = &pod.spec.as_ref().unwrap().containers;
    let n = cs.len();
    for i in 0..n
        invariant
            n == cs@.len(),
            pod.spec->0.containers == *cs,
            r.deep_view() =~= containers_port_labels(cs@.take(i as int)),
    {
        push_container_ports(&mut r, &cs[i]);
        assert(cs@.take(i + 1).drop_last() =~= cs@.take(i as int));
    }
    assert(cs@.take(n as int) =~= cs@);
    r
}

} // verus!
