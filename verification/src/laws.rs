use vstd::prelude::*;
use crate::decimal::{
    decimal_value, int_decimal, lemma_int_decimal_injective, lemma_nat_decimal_reads_back,
    nat_decimal,
};
use crate::forward::{ForwardSelection, forward_ignored, forward_plan};
use crate::json::{array_texts, is_string_array};
use crate::resources::{
    ContainerInfo, IntOrString, PodInfo, ServiceInfo, containers_port_labels, pod_port_labels,
    service_port_labels, service_ports_listable,
};
use crate::model::{
    ApplicationModel, ForwardEntry, all_present, disconnect_all_text, forward_views, kill_log,
    kill_logs, present_names,
};

verus! {

/// Distinct numbers are rendered as distinct texts, so a port, a process id
/// or a count can be told from its rendering.
pub proof fn law_rendering_is_injective(a: int, b: int)
    requires
        a != b,
    ensures
        int_decimal(a) != int_decimal(b),
{
    if int_decimal(a) == int_decimal(b) {
        lemma_int_decimal_injective(a, b);
    }
}

/// After a list of names is loaded into a drop-down, its entry 0 is the
/// placeholder and its entry `i` (for `i >= 1`) is the `i`-th loaded name:
/// a selection at position `i` reads back the name loaded there.
pub proof fn law_loaded_names_are_selectable(
    values: Seq<Seq<char>>,
    placeholder: Seq<char>,
    names: Seq<Option<String>>,
    position: int,
)
    requires
        all_present(names),
        values == seq![placeholder] + present_names(names),
        1 <= position <= names.len(),
    ensures
        values.len() == names.len() + 1,
        values[0] == placeholder,
        names[position - 1] is Some,
        values[position] == names[position - 1]->0@,
{
}

/// The namespace drop-down shows the placeholder at position 0 and the
/// namespace `ns[i - 1]` at position `i`, which is the namespace that a
/// selection at that position loads and queries.
pub proof fn law_namespace_position_names_the_queried_namespace(
    options: Seq<Seq<char>>,
    ns: Seq<Seq<char>>,
    position: int,
)
    requires
        options == seq!["-- select namespace --"@] + ns,
        1 <= position <= ns.len(),
    ensures
        options.len() == ns.len() + 1,
        options[0] == "-- select namespace --"@,
        options[position] == ns[position - 1],
{
}

/// The "disconnect all" label names no count exactly when no forward runs,
/// and different numbers of running forwards give different labels.
pub proof fn law_disconnect_label_tracks_count(m: nat, n: nat)
    ensures
        (disconnect_all_text(n) == "Disconnect all"@) <==> n == 0,
        m != n ==> disconnect_all_text(m) != disconnect_all_text(n),
{
    let plain = "Disconnect all"@;
    let open = "Disconnect all ("@;
    if n != 0 {
        reveal_strlit("Disconnect all");
        reveal_strlit("Disconnect all (");
        reveal_strlit(")");
        assert(disconnect_all_text(n).len() > plain.len());
    }
    if m != n && disconnect_all_text(m) == disconnect_all_text(n) {
        reveal_strlit("Disconnect all");
        reveal_strlit("Disconnect all (");
        reveal_strlit(")");
        if m == 0 || n == 0 {
            assert(disconnect_all_text(m).len() != disconnect_all_text(n).len());
        } else {
            let tm = disconnect_all_text(m);
            let tn = disconnect_all_text(n);
            assert(tm.subrange(open.len() as int, tm.len() - 1) =~= nat_decimal(m));
            assert(tn.subrange(open.len() as int, tn.len() - 1) =~= nat_decimal(n));
            assert(int_decimal(m as int) == nat_decimal(m));
            assert(int_decimal(n as int) == nat_decimal(n));
            lemma_int_decimal_injective(m as int, n as int);
        }
    }
}

/// Registering a forward and then disconnecting the forward at the last
/// position gives back the list of forwards as it was.
pub proof fn law_disconnect_undoes_register(
    before: Seq<ForwardEntry>,
    registered: Seq<ForwardEntry>,
    after: Seq<ForwardEntry>,
    label: Seq<char>,
    pid: u32,
)
    requires
        forward_views(registered) == forward_views(before).push((label, pid)),
        forward_views(after) == forward_views(registered).remove(before.len() as int),
    ensures
        forward_views(after) == forward_views(before),
{
    assert(forward_views(before).push((label, pid)).remove(before.len() as int) =~= forward_views(
        before,
    ));
}

/// When every forward was stopped, "disconnect all" logs one line per
/// forward, in order, naming its process id.
pub proof fn law_disconnect_all_logs_each_killed_forward(entries: Seq<ForwardEntry>, killed: Seq<bool>)
    requires
        killed.len() == entries.len(),
        forall|i: int| 0 <= i < killed.len() ==> #[trigger] killed[i],
    ensures
        kill_logs(entries, killed) == entries.map_values(|e: ForwardEntry| kill_log(e.pid)),
    decreases entries.len(),
{
    if entries.len() > 0 {
        let k = killed.take(entries.len() - 1);
        assert forall|i: int| 0 <= i < k.len() implies #[trigger] k[i] by {
            assert(k[i] == killed[i]);
        }
        law_disconnect_all_logs_each_killed_forward(entries.drop_last(), k);
        assert(killed[entries.len() - 1]);
        assert(entries.map_values(|e: ForwardEntry| kill_log(e.pid)) =~= entries.drop_last().map_values(
            |e: ForwardEntry| kill_log(e.pid),
        ).push(kill_log(entries.last().pid)));
    } else {
        assert(entries.map_values(|e: ForwardEntry| kill_log(e.pid)) =~= Seq::<Seq<char>>::empty());
    }
}

/// A forward is started only when a namespace and a resource of the chosen
/// kind are selected; it is then started in the selected namespace, and the
/// label under which it is listed names the very resource that `kubectl` is
/// asked to forward to.
pub proof fn law_launch_matches_selection(m: ApplicationModel, sel: ForwardSelection)
    requires
        forward_plan(m, sel).1 is Some,
    ensures
        !forward_ignored(sel),
        sel.svc_active || sel.pod_active,
        ({
            let launch = forward_plan(m, sel).1->0;
            &&& launch.0 == "kubectl"@
            &&& launch.1[1] == m.ns_values@[sel.ns_selected - 1]@
            &&& sel.svc_active ==> ({
                let name = m.svc_values@[sel.svc_selected as int]@;
                launch.2 == "service "@ + name && launch.1[3] == "svc/"@ + name
            })
            &&& !sel.svc_active ==> ({
                let name = m.pod_values@[sel.pod_selected as int]@;
                launch.2 == "pod "@ + name && launch.1[3] == "pod/"@ + name
            })
        }),
{
}

/// Pressing "Port forward" starts a forward exactly when a namespace is
/// selected, a service or a pod is selected, one of the two kinds is chosen
/// and a cluster port can be had (one is typed in or the port list is not
/// empty).
pub proof fn law_forward_starts_exactly_when_possible(m: ApplicationModel, sel: ForwardSelection)
    ensures
        forward_plan(m, sel).1 is Some <==> (sel.ns_selected != 0 && (sel.svc_selected != 0
            || sel.pod_selected != 0) && (sel.svc_active || sel.pod_active) && (
        m.ports_values@.len() != 0 || sel.port_text@.len() != 0)),
{
}

/// The forward that is started runs `kubectl -n <ns> port-forward <target>
/// <local>:<remote>`, where `<remote>` is the cluster port typed in whenever
/// one is typed in, whatever the port drop-down shows, and the port selected
/// in the drop-down otherwise.
pub proof fn law_typed_cluster_port_wins(m: ApplicationModel, sel: ForwardSelection)
    requires
        forward_plan(m, sel).1 is Some,
    ensures
        ({
            let launch = forward_plan(m, sel).1->0;
            let args = launch.1;
            &&& args.len() == 5
            &&& args[0] == "-n"@
            &&& args[1] == m.ns_values@[sel.ns_selected - 1]@
            &&& args[2] == "port-forward"@
            &&& sel.port_text@.len() > 0 ==> args[4] == sel.local_port@ + ":"@ + sel.port_text@
            &&& sel.port_text@.len() == 0 ==> args[4] == sel.local_port@ + ":"@
                + m.ports_values@[sel.port_selected as int]@
        }),
{
}

/// The port list of a service has one entry per port of the service, in
/// order: a port given by number shows that number in decimal, a port given by
/// name shows the name.
pub proof fn law_service_port_list(svc: ServiceInfo)
    requires
        service_ports_listable(svc),
    ensures
        svc.spec->0.ports is None ==> service_port_labels(svc).len() == 0,
        svc.spec->0.ports matches Some(ps) ==> ({
            &&& service_port_labels(svc).len() == ps@.len()
            &&& forall|i: int|
                0 <= i < ps@.len() ==> {
                    &&& (ps@[i].target_port->0 matches IntOrString::Int(n)
                        ==> #[trigger] service_port_labels(svc)[i] == int_decimal(n as int))
                    &&& (ps@[i].target_port->0 matches IntOrString::Str(name)
                        ==> service_port_labels(svc)[i] == name@)
                }
        }),
{
}

/// The port list of a pod whose single container lists ports has one entry
/// per port, in order: the host port in decimal whenever the port has one
/// (whatever its container port), else the container port in decimal.
pub proof fn law_pod_port_list_of_one_container(pod: PodInfo)
    requires
        pod.spec is Some,
        pod.spec->0.containers@.len() == 1,
        pod.spec->0.containers@[0].ports is Some,
    ensures
        ({
            let ps = pod.spec->0.containers@[0].ports->0@;
            &&& pod_port_labels(pod).len() == ps.len()
            &&& forall|i: int|
                0 <= i < ps.len() ==> {
                    &&& (ps[i].host_port matches Some(h) ==> #[trigger] pod_port_labels(pod)[i]
                        == int_decimal(h as int))
                    &&& (ps[i].host_port is None ==> pod_port_labels(pod)[i] == int_decimal(
                        ps[i].container_port as int,
                    ))
                }
        }),
{
    let cs = pod.spec->0.containers@;
    assert(cs.drop_last() =~= Seq::<ContainerInfo>::empty());
    assert(containers_port_labels(cs.drop_last()) == Seq::<Seq<char>>::empty());
    assert(pod_port_labels(pod) =~= Seq::<Seq<char>>::empty() + crate::resources::container_port_labels(
        cs[0],
    ));
}

/// The port list of a pod lists the ports of its containers one container
/// after the other: the list for containers `a` followed by `b` is the list
/// for `a` followed by the list for `b`.
pub proof fn law_pod_port_list_concatenates(a: Seq<ContainerInfo>, b: Seq<ContainerInfo>)
    ensures
        containers_port_labels(a + b) == containers_port_labels(a) + containers_port_labels(b),
    decreases b.len(),
{
    if b.len() == 0 {
        assert(a + b =~= a);
        assert(containers_port_labels(a) + containers_port_labels(b) =~= containers_port_labels(a));
    } else {
        law_pod_port_list_concatenates(a, b.drop_last());
        assert((a + b).drop_last() =~= a + b.drop_last());
        assert((a + b).last() == b.last());
        assert(containers_port_labels(a + b) =~= containers_port_labels(a) + containers_port_labels(b));
    }
}

/// The namespaces read from a JSON array of strings are the array's strings:
/// as many as the array has items, the i-th being the text of the i-th item.
pub proof fn law_namespace_list_is_the_array(items: Seq<Option<Seq<char>>>)
    requires
        is_string_array(Some(items)),
    ensures
        array_texts(items).len() == items.len(),
        forall|i: int| 0 <= i < items.len() ==> items[i] == Some(#[trigger] array_texts(items)[i]),
{
    assert forall|i: int| 0 <= i < items.len() implies items[i] == Some(
        #[trigger] array_texts(items)[i],
    ) by {
        assert(items[i] is Some);
    }
}

/// The log line of a killed forward is "killed pid #" followed by digits
/// that read back as the full process id.
pub proof fn law_kill_log_names_the_pid(pid: u32)
    ensures
        kill_log(pid).len() > 12,
        kill_log(pid).subrange(0, 12) == "killed pid #"@,
        decimal_value(kill_log(pid).subrange(12, kill_log(pid).len() as int)) == pid,
{
    reveal_strlit("killed pid #");
    lemma_nat_decimal_reads_back(pid as nat);
    assert(kill_log(pid).subrange(0, 12) =~= "killed pid #"@);
    assert(kill_log(pid).subrange(12, kill_log(pid).len() as int) =~= nat_decimal(pid as nat));
}

/// The decimal rendering is the usual one, character by character: the last
/// character is the ASCII digit of `n % 10`, and what precedes it renders
/// `n / 10` when `n >= 10`, nothing otherwise.
pub proof fn law_decimal_digits(n: nat)
    ensures
        nat_decimal(n).len() >= 1,
        nat_decimal(n).last() as int == 48 + n % 10,
        n < 10 ==> nat_decimal(n).len() == 1,
        n >= 10 ==> nat_decimal(n).drop_last() == nat_decimal(n / 10),
{
    if n >= 10 {
        assert(nat_decimal(n).drop_last() =~= nat_decimal(n / 10));
    }
    let d = n % 10;
    assert(('0' as int) == 48 && ('1' as int) == 49 && ('2' as int) == 50 && ('3' as int) == 51
        && ('4' as int) == 52 && ('5' as int) == 53 && ('6' as int) == 54 && ('7' as int) == 55
        && ('8' as int) == 56 && ('9' as int) == 57);
}

/// The log lines of "Port forward": nothing when no namespace or no resource
/// is selected; otherwise first the local port, then either the selected
/// resource's log line (the list entry just before the forwarded one) or
/// "nothing selected..." when no forward can start.
pub proof fn law_forward_log_lines(m: ApplicationModel, sel: ForwardSelection)
    ensures
        (sel.ns_selected == 0 || (sel.svc_selected == 0 && sel.pod_selected == 0)) ==> forward_plan(
            m,
            sel,
        ).0.len() == 0,
        !(sel.ns_selected == 0 || (sel.svc_selected == 0 && sel.pod_selected == 0)) ==> ({
            let logs = forward_plan(m, sel).0;
            &&& logs.len() == 2
            &&& logs[0] == "k8s port: "@ + sel.local_port@
            &&& forward_plan(m, sel).1 is None ==> logs[1] == "nothing selected..."@
            &&& (forward_plan(m, sel).1 is Some && sel.svc_active) ==> logs[1]
                == "selected service: "@ + m.svc_values@[sel.svc_selected - 1]@
            &&& (forward_plan(m, sel).1 is Some && !sel.svc_active) ==> logs[1]
                == "selected pod: "@ + m.pod_values@[sel.pod_selected - 1]@
        }),
{
}

/// "Disconnect all" logs a line for a forward exactly when its process was
/// killed: each line names a killed forward, each killed forward is named,
/// and nothing is logged when no process was killed.
pub proof fn law_disconnect_all_logs_killed_forwards(entries: Seq<ForwardEntry>, killed: Seq<bool>)
    requires
        killed.len() == entries.len(),
    ensures
        (forall|i: int| 0 <= i < killed.len() ==> !#[trigger] killed[i]) ==> kill_logs(
            entries,
            killed,
        ).len() == 0,
        kill_logs(entries, killed).len() <= entries.len(),
        forall|i: int|
            0 <= i < entries.len() && #[trigger] killed[i] ==> kill_logs(entries, killed).contains(
                kill_log(entries[i].pid),
            ),
        forall|j: int|
            0 <= j < kill_logs(entries, killed).len() ==> exists|i: int|
                0 <= i < entries.len() && killed[i] && #[trigger] kill_logs(entries, killed)[j]
                    == kill_log(entries[i].pid),
    decreases entries.len(),
{
    if entries.len() > 0 {
        let last = entries.len() - 1;
        let es = entries.drop_last();
        let ks = killed.take(last);
        law_disconnect_all_logs_killed_forwards(es, ks);
        let rest = kill_logs(es, ks);
        let all = kill_logs(entries, killed);
        assert forall|i: int| 0 <= i < ks.len() implies ks[i] == killed[i] by {}
        assert forall|i: int| 0 <= i < es.len() implies es[i] == entries[i] by {}
        if forall|i: int| 0 <= i < killed.len() ==> !#[trigger] killed[i] {
            assert(!killed[last]);
            assert forall|i: int| 0 <= i < ks.len() implies !#[trigger] ks[i] by {
                assert(!killed[i]);
            }
        }
        assert forall|i: int| 0 <= i < entries.len() && #[trigger] killed[i] implies all.contains(
            kill_log(entries[i].pid),
        ) by {
            if i == last {
                assert(all[all.len() - 1] == kill_log(entries[i].pid));
            } else {
                assert(ks[i]);
                assert(rest.contains(kill_log(es[i].pid)));
                let j = choose|j: int| 0 <= j < rest.len() && rest[j] == kill_log(es[i].pid);
                assert(all[j] == rest[j]);
            }
        }
        assert forall|j: int| 0 <= j < all.len() implies exists|i: int|
            0 <= i < entries.len() && killed[i] && #[trigger] all[j] == kill_log(entries[i].pid) by {
            if j < rest.len() {
                assert(all[j] == rest[j]);
                let i = choose|i: int|
                    0 <= i < es.len() && ks[i] && #[trigger] rest[j] == kill_log(es[i].pid);
                assert(killed[i] && entries[i] == es[i]);
            } else {
                assert(killed[last]);
                assert(all[j] == kill_log(entries[last].pid));
            }
        }
    }
}

} // verus!
