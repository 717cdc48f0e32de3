use vstd::prelude::*;
use crate::decimal::{nat_decimal, push_decimal};
use crate::model::ApplicationModel;

verus! {

/// What the window shows when "Port forward" is pressed: the positions
/// selected in the namespace, service, pod and port drop-downs (position 0 is
/// the placeholder entry), which of the two resource kinds is chosen, the
/// local port typed in, and the cluster port typed in (empty when none).
pub struct ForwardSelection {
    pub ns_selected: u32,
    pub svc_selected: u32,
    pub pod_selected: u32,
    pub svc_active: bool,
    pub pod_active: bool,
    pub local_port: String,
    pub port_selected: u32,
    pub port_text: String,
}

/// A `kubectl port-forward` to start: the program, its arguments, and the
/// label under which the running forward is listed.
pub struct ForwardLaunch {
    pub program: String,
    pub args: Vec<String>,
    pub label: String,
}

/// What pressing "Port forward" does: the lines to log, in order, and the
/// forward to start, if any.
pub struct ForwardPlan {
    pub logs: Vec<String>,
    pub launch: Option<ForwardLaunch>,
}

/// The view of a launch: program, arguments, label.
pub type LaunchView = (Seq<char>, Seq<Seq<char>>, Seq<char>);

/// The view of a plan: log lines and launch.
pub type PlanView = (Seq<Seq<char>>, Option<LaunchView>);

impl View for ForwardLaunch {
    type V = LaunchView;

    open spec fn view(&self) -> LaunchView {
        (self.program@, self.args.deep_view(), self.label@)
    }
}

impl View for ForwardPlan {
    type V = PlanView;

    open spec fn view(&self) -> PlanView {
        (
            self.logs.deep_view(),
            match self.launch {
                Some(l) => Some(l@),
                None => None,
            },
        )
    }
}

/// Pressing "Port forward" does nothing at all when no namespace is
/// selected, or when neither a service nor a pod is.
pub open spec fn forward_ignored(sel: ForwardSelection) -> bool {
    sel.ns_selected == 0 || (sel.svc_selected == 0 && sel.pod_selected == 0)
}

/// No cluster port can be had: the port list is empty and none was typed in.
pub open spec fn no_cluster_port(m: ApplicationModel, sel: ForwardSelection) -> bool {
    m.ports_values@.len() == 0 && sel.port_text@.len() == 0
}

/// The cluster port to forward to: the one typed in, else the one selected.
pub open spec fn chosen_cluster_port(m: ApplicationModel, sel: ForwardSelection) -> Seq<char> {
    if sel.port_text@.len() == 0 {
        m.ports_values@[sel.port_selected as int]@
    } else {
        sel.port_text@
    }
}

/// The arguments of `kubectl` that forward `local` to port `remote` of
/// `target` in namespace `ns`.
pub open spec fn kubectl_args(ns: Seq<char>, target: Seq<char>, local: Seq<char>, remote: Seq<char>) -> Seq<Seq<char>> {
    seq!["-n"@, ns, "port-forward"@, target, local + ":"@ + remote]
}

/// The plan for a selected resource whose list is `values`: `kind_log`
/// opens the log line, `target_prefix` opens the kubectl target and
/// `label_prefix` the label.
pub open spec fn resource_plan(
    m: ApplicationModel,
    sel: ForwardSelection,
    values: Seq<String>,
    position: u32,
    kind_log: Seq<char>,
    target_prefix: Seq<char>,
    label_prefix: Seq<char>,
) -> PlanView {
    let first = "k8s port: "@ + sel.local_port@;
    if no_cluster_port(m, sel) {
        (seq![first, "nothing selected..."@], None)
    } else {
        let ns = m.ns_values@[sel.ns_selected - 1]@;
        let name = values[position as int]@;
        (
            seq![first, kind_log + values[position - 1]@],
            Some(
                (
                    "kubectl"@,
                    kubectl_args(ns, target_prefix + name, sel.local_port@, chosen_cluster_port(m, sel)),
                    label_prefix + name,
                ),
            ),
        )
    }
}

/// What pressing "Port forward" does.
pub open spec fn forward_plan(m: ApplicationModel, sel: ForwardSelection) -> PlanView {
    if forward_ignored(sel) {
        (Seq::empty(), None)
    } else if sel.svc_active {
        resource_plan(
            m,
            sel,
            m.svc_values@,
            sel.svc_selected,
            "selected service: "@,
            "svc/"@,
            "service "@,
        )
    } else if sel.pod_active {
        resource_plan(m, sel, m.pod_values@, sel.pod_selected, "selected pod: "@, "pod/"@, "pod "@)
    } else {
        (seq!["k8s port: "@ + sel.local_port@, "nothing selected..."@], None)
    }
}

/// The selected positions exist where the plan reads them.
pub open spec fn resource_positions_valid(
    m: ApplicationModel,
    sel: ForwardSelection,
    values_len: nat,
    position: u32,
) -> bool {
    no_cluster_port(m, sel) || (1 <= position < values_len && (sel.port_text@.len() == 0
        ==> sel.port_selected < m.ports_values@.len()))
}

/// The inputs on which pressing "Port forward" is defined: every position
/// that the plan reads lies in its list.
pub open spec fn forward_plan_defined(m: ApplicationModel, sel: ForwardSelection) -> bool {
    forward_ignored(sel) || (sel.ns_selected <= m.ns_values@.len() && if sel.svc_active {
        resource_positions_valid(m, sel, m.svc_values@.len(), sel.svc_selected)
    } else if sel.pod_active {
        resource_positions_valid(m, sel, m.pod_values@.len(), sel.pod_selected)
    } else {
        true
    })
}

/// What selecting a namespace does: the line to log and the namespace whose
/// services and pods are then loaded.
pub struct NamespaceSelection {
    pub log: String,
    pub namespace: String,
}

fn concat_str(prefix: &str, rest: &str) -> (r: String)
    ensures
        r@ == prefix@ + rest@,
{
    let mut r = String::from_str(prefix);
    r.append(rest);
    r
}

impl ApplicationModel {
    /// Whether pressing "Port forward" is defined on these inputs.
    pub fn can_plan_port_forward(&self, sel: &ForwardSelection) -> (b: bool)
        ensures
            b == forward_plan_defined(*self, *sel),
    {
        if sel.ns_selected == 0 || (sel.svc_selected == 0 && sel.pod_selected == 0) {
            return true;
        }
        if sel.ns_selected as usize > self.ns_values.len() {
            return false;
        }
        let (values_len, position) = if sel.svc_active {
            (self.svc_values.len(), sel.svc_selected)
        } else if sel.pod_active {
            (self.pod_values.len(), sel.pod_selected)
        } else {
            return true;
        };
        if self.ports_values.len() == 0 && sel.port_text.as_str().is_empty() {
            return true;
        }
        1 <= position && (position as usize) < values_len && (!sel.port_text.as_str().is_empty()
            || (sel.port_selected as usize) < self.ports_values.len())
    }

    fn plan_for_resource(
        &self,
        sel: &ForwardSelection,
        values: &Vec<String>,
        position: u32,
        kind_log: &str,
        target_prefix: &str,
        label_prefix: &str,
    ) -> (plan: ForwardPlan)
        requires
            !forward_ignored(*sel),
            sel.ns_selected <= self.ns_values@.len(),
            resource_positions_valid(*self, *sel, values@.len(), position),
        ensures
            plan@ == resource_plan(
                *self,
                *sel,
                values@,
                position,
                kind_log@,
                target_prefix@,
                label_prefix@,
            ),
    {
        let mut logs: Vec<String> = Vec::new();
        logs.push(concat_str("k8s port: ", sel.local_port.as_str()));
        if self.ports_values.len() == 0 && sel.port_text.as_str().is_empty() {
            logs.push(String::from_str("nothing selected..."));
            assert(logs.deep_view() =~= seq!["k8s port: "@ + sel.local_port@, "nothing selected..."@]);
            return ForwardPlan { logs, launch: None };
        }
        logs.push(concat_str(kind_log, values[(position - 1) as usize].as_str()));
        let name = values[position as usize].as_str();
        let remote: &str = if sel.port_text.as_str().is_empty() {
            self.ports_values[sel.port_selected as usize].as_str()
        } else {
            sel.port_text.as_str()
        };
        let mut forward = concat_str(sel.local_port.as_str(), ":");
        forward.append(remote);
        let mut args: Vec<String> = Vec::new();
        args.push(String::from_str("-n"));
        args.push(self.ns_values[(sel.ns_selected - 1) as usize].clone());
        args.push(String::from_str("port-forward"));
        args.push(concat_str(target_prefix, name));
        args.push(forward);
        let launch = ForwardLaunch {
            program: String::from_str("kubectl"),
            args,
            label: concat_str(label_prefix, name),
        };
        proof {
            let ns = self.ns_values@[sel.ns_selected - 1]@;
            assert(launch.args.deep_view() =~= kubectl_args(
                ns,
                target_prefix@ + values@[position as int]@,
                sel.local_port@,
                chosen_cluster_port(*self, *sel),
            ));
            assert(logs.deep_view() =~= seq![
                "k8s port: "@ + sel.local_port@,
                kind_log@ + values@[position - 1]@,
            ]);
        }
        ForwardPlan { logs, launch: Some(launch) }
    }

    /// What pressing "Port forward" does with these inputs.
    pub fn plan_port_forward(&self, sel: &ForwardSelection) -> (plan: ForwardPlan)
        requires
            forward_plan_defined(*self, *sel),
        ensures
            plan@ == forward_plan(*self, *sel),
            plan.launch matches Some(l) ==> (l.args@.len() == 5 && (sel.port_text@.len() > 0
                ==> l.args@[4]@ == sel.local_port@ + ":"@ + sel.port_text@) && (
            sel.port_text@.len() == 0 ==> l.args@[4]@ == sel.local_port@ + ":"@
                + self.ports_values@[sel.port_selected as int]@)),
    {
        if sel.ns_selected == 0 || (sel.svc_selected == 0 && sel.pod_selected == 0) {
            return ForwardPlan { logs: Vec::new(), launch: None };
        }
        let plan = if sel.svc_active {
            self.plan_for_resource(
                sel,
                &self.svc_values,
                sel.svc_selected,
                "selected service: ",
                "svc/",
                "service ",
            )
        } else if sel.pod_active {
            self.plan_for_resource(
                sel,
                &self.pod_values,
                sel.pod_selected,
                "selected pod: ",
                "pod/",
                "pod ",
            )
        } else {
            let mut logs: Vec<String> = Vec::new();
            logs.push(concat_str("k8s port: ", sel.local_port.as_str()));
            logs.push(String::from_str("nothing selected..."));
            assert(logs.deep_view() =~= seq!["k8s port: "@ + sel.local_port@, "nothing selected..."@]);
            ForwardPlan { logs, launch: None }
        };
        proof {
            if plan.launch is Some {
                let l = plan.launch->0;
                assert(l.args.deep_view().len() == l.args@.len());
                assert(l.args.deep_view()[4] == l.args@[4]@);
            }
        }
        plan
    }

    /// What selecting the namespace at a drop-down position does: nothing for
    /// the placeholder entry; otherwise a log line with the position and the
    /// namespace to load.
    pub fn namespace_selected(&self, selected: u32) -> (r: Option<NamespaceSelection>)
        requires
            selected <= self.ns_values@.len(),
        ensures
            selected == 0 ==> r is None,
            selected != 0 ==> (r matches Some(s) && s.log@ == "selected NS idx: #"@ + nat_decimal(
                selected as nat,
            ) && s.namespace@ == self.ns_values@[selected - 1]@),
    {
        if selected == 0 {
            return None;
        }
        let mut log = String::from_str("selected NS idx: #");
        push_decimal(&mut log, selected as u64);
        Some(NamespaceSelection { log, namespace: self.ns_values[(selected - 1) as usize].clone() })
    }

    /// What selecting a service or pod at a drop-down position asks for: the
    /// namespace and the position whose ports are then loaded; nothing while
    /// the namespace or the resource is the placeholder entry.
    pub fn port_query(&self, ns_selected: u32, item_selected: u32) -> (r: Option<(String, u32)>)
        requires
            ns_selected == 0 || item_selected == 0 || ns_selected <= self.ns_values@.len(),
        ensures
            (ns_selected == 0 || item_selected == 0) ==> r is None,
            (ns_selected != 0 && item_selected != 0) ==> (r matches Some(q) && q.0@
                == self.ns_values@[ns_selected - 1]@ && q.1 == item_selected),
    {
        if ns_selected == 0 || item_selected == 0 {
            return None;
        }
        Some((self.ns_values[(ns_selected - 1) as usize].clone(), item_selected))
    }
}

} // verus!
