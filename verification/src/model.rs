use vstd::prelude::*;
use crate::decimal::{decimal_value, lemma_nat_decimal_reads_back, nat_decimal, push_decimal};
use crate::resources::{
    PodInfo, ServiceInfo, pod_port_labels, pod_port_values, service_port_labels,
    service_port_values, service_ports_listable,
};

verus! {

/// A running `kubectl port-forward`: the label shown for it and its process id.
pub struct ForwardEntry {
    pub label: String,
    pub pid: u32,
}

impl View for ForwardEntry {
    type V = (Seq<char>, u32);

    open spec fn view(&self) -> (Seq<char>, u32) {
        (self.label@, self.pid)
    }
}

/// The state behind the window: the namespaces read at start, the entries of
/// the service, pod and port drop-downs, and the running forwards.
pub struct ApplicationModel {
    pub ns_values: Vec<String>,
    pub svc_values: Vec<String>,
    pub pod_values: Vec<String>,
    pub ports_values: Vec<String>,
    pub running_children: Vec<ForwardEntry>,
}

/// The texts of a list of names that are all present.
pub open spec fn present_names(names: Seq<Option<String>>) -> Seq<Seq<char>> {
    names.map_values(|n: Option<String>| n->0@)
}

/// Every name of the list is present.
pub open spec fn all_present(names: Seq<Option<String>>) -> bool {
    forall|i: int| 0 <= i < names.len() ==> (#[trigger] names[i]) is Some
}

/// The views of the running forwards.
pub open spec fn forward_views(entries: Seq<ForwardEntry>) -> Seq<(Seq<char>, u32)> {
    entries.map_values(|e: ForwardEntry| e@)
}

/// The log line for a forward whose process was killed.
pub open spec fn kill_log(pid: u32) -> Seq<char> {
    "killed pid #"@ + nat_decimal(pid as nat)
}

/// The log lines of a "disconnect all": one for each forward whose process
/// was killed, in order.
pub open spec fn kill_logs(entries: Seq<ForwardEntry>, killed: Seq<bool>) -> Seq<Seq<char>>
    decreases entries.len(),
{
    if entries.len() == 0 {
        Seq::empty()
    } else {
        let rest = kill_logs(entries.drop_last(), killed.take(entries.len() - 1));
        if killed[entries.len() - 1] {
            rest.push(kill_log(entries.last().pid))
        } else {
            rest
        }
    }
}

/// The label of the "disconnect all" button for a number of running forwards.
pub open spec fn disconnect_all_text(count: nat) -> Seq<char> {
    if count == 0 {
        "Disconnect all"@
    } else {
        "Disconnect all ("@ + nat_decimal(count) + ")"@
    }
}

/// What a "disconnect all" leaves to show: the log lines, and whether the
/// button's label goes back to its plain text.
pub struct DisconnectReport {
    pub logs: Vec<String>,
    pub reset_label: bool,
}

/// What a successful single disconnect leaves to show.
pub struct DisconnectOne {
    pub log: String,
    pub label: String,
}

/// The line that the log view shows for a message.
pub fn log_line(message: &str) -> (r: String)
    ensures
        r@ == message@ + "\n"@,
{
    let mut r = String::from_str(message);
    r.append("\n");
    r
}

/// The label of the "disconnect all" button when `count` forwards run.
pub fn disconnect_all_label(count: usize) -> (r: String)
    ensures
        r@ == disconnect_all_text(count as nat),
{
    if count == 0 {
        String::from_str("Disconnect all")
    } else {
        let mut r = String::from_str("Disconnect all (");
        push_decimal(&mut r, count as u64);
        r.append(")");
        r
    }
}

/// The log line for a forward whose process was killed.
pub fn kill_message(pid: u32) -> (r: String)
    ensures
        r@ == kill_log(pid),
        r@.len() > 12,
        r@.subrange(0, 12) == "killed pid #"@,
        decimal_value(r@.subrange(12, r@.len() as int)) == pid,
{
    let mut r = String::from_str("killed pid #");
    push_decimal(&mut r, pid as u64);
    proof {
        reveal_strlit("killed pid #");
        lemma_nat_decimal_reads_back(pid as nat);
        assert(r@.subrange(0, 12) =~= "killed pid #"@);
        assert(r@.subrange(12, r@.len() as int) =~= nat_decimal(pid as nat));
    }
    r
}

fn fill_dropdown(values: &mut Vec<String>, placeholder: &str, names: &Vec<Option<String>>)
    requires
        all_present(names@),
    ensures
        final(values).deep_view() == seq![placeholder@] + present_names(names@),
{
    values.clear();
    values.push(String::from_str(placeholder));
    let n = names.len();
    for i in 0..n
        invariant
            n == names@.len(),
            all_present(names@),
            values.deep_view() =~= seq![placeholder@] + present_names(names@).take(i as int),
    {
        assert(names@[i as int] is Some);
        let name = names[i].as_ref().unwrap().clone();
        let ghost before = values.deep_view();
        values.push(name);
        assert(values.deep_view() =~= before.push(names@[i as int]->0@));
        assert(present_names(names@).take(i + 1) =~= present_names(names@).take(i as int).push(
            names@[i as int]->0@,
        ));
    }
    assert(present_names(names@).take(n as int) =~= present_names(names@));
}

impl Default for ApplicationModel {
    fn default() -> (m: Self)
        ensures
            m.ns_values@.len() == 0,
            m.svc_values@.len() == 0,
            m.pod_values@.len() == 0,
            m.ports_values@.len() == 0,
            m.running_children@.len() == 0,
    {
        ApplicationModel {
            ns_values: Vec::new(),
            svc_values: Vec::new(),
            pod_values: Vec::new(),
            ports_values: Vec::new(),
            running_children: Vec::new(),
        }
    }
}

impl ApplicationModel {
    /// Sets the namespaces offered by the namespace drop-down.
    pub fn set_namespaces(&mut self, names: Vec<String>)
        ensures
            final(self).ns_values@ == names@,
            final(self).svc_values == old(self).svc_values,
            final(self).pod_values == old(self).pod_values,
            final(self).ports_values == old(self).ports_values,
            final(self).running_children == old(self).running_children,
    {
        self.ns_values = names;
    }

    /// The entries of the namespace drop-down: the placeholder, then each namespace.
    pub fn namespace_options(&self) -> (r: Vec<String>)
        ensures
            r.deep_view() == seq!["-- select namespace --"@] + self.ns_values.deep_view(),
    {
        let mut r: Vec<String> = Vec::new();
        r.push(String::from_str("-- select namespace --"));
        let n = self.ns_values.len();
        for i in 0..n
            invariant
                n == self.ns_values@.len(),
                r.deep_view() =~= seq!["-- select namespace --"@] + self.ns_values.deep_view().take(
                    i as int,
                ),
        {
            let ghost before = r.deep_view();
            r.push(self.ns_values[i].clone());
            assert(r.deep_view() =~= before.push(self.ns_values@[i as int]@));
        }
        assert(self.ns_values.deep_view().take(n as int) =~= self.ns_values.deep_view());
        r
    }

    /// Refills the service list with the names of the services of the chosen
    /// namespace, after the placeholder entry.
    pub fn handle_service_message(&mut self, names: &Vec<Option<String>>)
        requires
            all_present(names@),
        ensures
            final(self).svc_values.deep_view() == seq!["-- select service --"@] + present_names(
                names@,
            ),
            final(self).ns_values == old(self).ns_values,
            final(self).pod_values == old(self).pod_values,
            final(self).ports_values == old(self).ports_values,
            final(self).running_children == old(self).running_children,
    {
        fill_dropdown(&mut self.svc_values, "-- select service --", names);
    }

    /// Refills the pod list with the names of the pods of the chosen
    /// namespace, after the placeholder entry.
    pub fn handle_pods_message(&mut self, names: &Vec<Option<String>>)
        requires
            all_present(names@),
        ensures
            final(self).pod_values.deep_view() == seq!["-- select pod --"@] + present_names(names@),
            final(self).ns_values == old(self).ns_values,
            final(self).svc_values == old(self).svc_values,
            final(self).ports_values == old(self).ports_values,
            final(self).running_children == old(self).running_children,
    {
        fill_dropdown(&mut self.pod_values, "-- select pod --", names);
    }

    /// The entry of the service list at a drop-down position.
    pub fn selected_service(&self, position: u32) -> (r: String)
        requires
            position < self.svc_values@.len(),
        ensures
            r@ == self.svc_values@[position as int]@,
    {
        self.svc_values[position as usize].clone()
    }

    /// The entry of the pod list at a drop-down position.
    pub fn selected_pod(&self, position: u32) -> (r: String)
        requires
            position < self.pod_values@.len(),
        ensures
            r@ == self.pod_values@[position as int]@,
    {
        self.pod_values[position as usize].clone()
    }

    /// Replaces the port list with the ports of a service.
    pub fn handle_svc_port(&mut self, svc: &ServiceInfo)
        requires
            service_ports_listable(*svc),
        ensures
            final(self).ports_values.deep_view() == service_port_labels(*svc),
            final(self).ns_values == old(self).ns_values,
            final(self).svc_values == old(self).svc_values,
            final(self).pod_values == old(self).pod_values,
            final(self).running_children == old(self).running_children,
    {
        self.ports_values = service_port_values(svc);
    }

    /// Replaces the port list with the ports of a pod.
    pub fn handle_pod_port(&mut self, pod: &PodInfo)
        requires
            pod.spec is Some,
        ensures
            final(self).ports_values.deep_view() == pod_port_labels(*pod),
            final(self).ns_values == old(self).ns_values,
            final(self).svc_values == old(self).svc_values,
            final(self).pod_values == old(self).pod_values,
            final(self).running_children == old(self).running_children,
    {
        self.ports_values = pod_port_values(pod);
    }

    /// Records a forward that was just started.
    pub fn register_forward(&mut self, label: String, pid: u32)
        ensures
            forward_views(final(self).running_children@) == forward_views(
                old(self).running_children@,
            ).push((label@, pid)),
            final(self).ns_values == old(self).ns_values,
            final(self).svc_values == old(self).svc_values,
            final(self).pod_values == old(self).pod_values,
            final(self).ports_values == old(self).ports_values,
    {
        self.running_children.push(ForwardEntry { label, pid });
        assert(forward_views(self.running_children@) =~= forward_views(
            old(self).running_children@,
        ).push((label@, pid)));
    }

    /// The labels of the running forwards, in order (the entries of the
    /// "disconnect..." menu).
    pub fn forward_labels(&self) -> (r: Vec<String>)
        ensures
            r.deep_view() == forward_views(self.running_children@).map_values(
                |v: (Seq<char>, u32)| v.0,
            ),
    {
        let mut r: Vec<String> = Vec::new();
        let n = self.running_children.len();
        for i in 0..n
            invariant
                n == self.running_children@.len(),
                r.deep_view() =~= forward_views(self.running_children@).map_values(
                    |v: (Seq<char>, u32)| v.0,
                ).take(i as int),
        {
            let ghost before = r.deep_view();
            r.push(self.running_children[i].label.clone());
            assert(r.deep_view() =~= before.push(self.running_children@[i as int].label@));
        }
        r
    }

    /// Forgets all running forwards.
    pub fn clear_forwards(&mut self)
        ensures
            final(self).running_children@.len() == 0,
            final(self).ns_values == old(self).ns_values,
            final(self).svc_values == old(self).svc_values,
            final(self).pod_values == old(self).pod_values,
            final(self).ports_values == old(self).ports_values,
    {
        self.running_children.clear();
    }

    /// After the process of each running forward was asked to stop
    /// (`killed[i]` tells whether the i-th one was), reports what to log and
    /// forgets every forward.
    pub fn finish_disconnect_all(&mut self, killed: &Vec<bool>) -> (r: DisconnectReport)
        requires
            killed@.len() == old(self).running_children@.len(),
        ensures
            r.logs.deep_view() == kill_logs(old(self).running_children@, killed@),
            r.reset_label == exists|i: int| 0 <= i < killed@.len() && killed@[i],
            final(self).running_children@.len() == 0,
            final(self).ns_values == old(self).ns_values,
            final(self).svc_values == old(self).svc_values,
            final(self).pod_values == old(self).pod_values,
            final(self).ports_values == old(self).ports_values,
    {
        let mut logs: Vec<String> = Vec::new();
        let mut reset_label = false;
        let n = self.running_children.len();
        for i in 0..n
            invariant
                n == self.running_children@.len(),
                killed@.len() == n,
                *self == *old(self),
                logs.deep_view() == kill_logs(
                    self.running_children@.take(i as int),
                    killed@.take(i as int),
                ),
                reset_label == exists|j: int| 0 <= j < i && killed@[j],
        {
            let ghost entries = self.running_children@.take(i + 1);
            let ghost flags = killed@.take(i + 1);
            assert(entries.drop_last() =~= self.running_children@.take(i as int));
            assert(flags.take(entries.len() - 1) =~= killed@.take(i as int));
            if killed[i] {
                logs.push(kill_message(self.running_children[i].pid));
                reset_label = true;
            }
        }
        assert(self.running_children@.take(n as int) =~= self.running_children@);
        assert(killed@.take(n as int) =~= killed@);
        self.running_children.clear();
        DisconnectReport { logs, reset_label }
    }

    /// After the process of the forward at `position` was asked to stop:
    /// when it was, forgets that forward and reports the log line and the new
    /// label of the "disconnect all" button; otherwise changes nothing.
    pub fn finish_disconnect_one(&mut self, position: usize, killed: bool) -> (r: Option<
        DisconnectOne,
    >)
        requires
            killed ==> position < old(self).running_children@.len(),
        ensures
            killed ==> (r matches Some(d) && {
                &&& d.log@ == kill_log(old(self).running_children@[position as int].pid)
                &&& forward_views(final(self).running_children@) == forward_views(
                    old(self).running_children@,
                ).remove(position as int)
                &&& d.label@ == disconnect_all_text(final(self).running_children@.len())
            }),
            !killed ==> r is None && final(self).running_children == old(
                self,
            ).running_children,
            final(self).ns_values == old(self).ns_values,
            final(self).svc_values == old(self).svc_values,
            final(self).pod_values == old(self).pod_values,
            final(self).ports_values == old(self).ports_values,
    {
        if !killed {
            return None;
        }
        let log = kill_message(self.running_children[position].pid);
        self.running_children.remove(position);
        assert(forward_views(self.running_children@) =~= forward_views(
            old(self).running_children@,
        ).remove(position as int));
        let label = disconnect_all_label(self.running_children.len());
        Some(DisconnectOne { log, label })
    }
}

} // verus!
