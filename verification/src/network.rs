//! Services and ingresses.
use crate::model::{
    IngressInfo, IngressInfoView, IngressRuleInfo, IngressRuleInfoView, IngressTlsInfo, IngressTlsInfoView,
    KV, KVView, ServiceInfo, ServiceInfoView, ServicePortInfo, ServicePortInfoView,
};
use crate::objects;
use crate::objects::{
    HttpIngressPath, HttpIngressPathView, Ingress, IngressRule, IngressRuleView, IngressSpecView,
    IngressTls, IngressTlsView, IngressView, IntOrString, IntOrStringView, LoadBalancerIngress,
    LoadBalancerIngressView, meta_precedes, Service, ServiceBackendPortView, ServicePort, ServicePortView,
    ServiceSpecView, ServiceView,
};
use crate::order;
use crate::order::{list_le, opt_str_eq, opt_str_le, sort_distinct, sort_in_order, sort_texts, str_eq, str_le};
use crate::text;
use crate::text::{owned, signed_decimal};
use crate::views;
use crate::views::{append_cloned, DeepClone, filter_map_items, map_items, opt_list, opt_str};
use vstd::prelude::*;

verus! {

/// The services in the order of a snapshot.
pub fn sort_services_for_snapshot(services: &mut Vec<Service>)
    ensures
        final(services).deep_view() == order::in_order(old(services).deep_view(), objects::by_place(|s: ServiceView| s.metadata)),
{
    let mut all: Vec<Service> = Vec::new();
    std::mem::swap(&mut all, services);
    let precedes = |a: &Service, b: &Service| -> (r: bool)
        ensures
            r == objects::meta_le(a.deep_view().metadata, b.deep_view().metadata),
        { meta_precedes(&a.metadata, &b.metadata) };
    *services = sort_in_order(all, precedes, Ghost(objects::by_place(|s: ServiceView| s.metadata)));
}

/// The ingresses in the order of a snapshot.
pub fn sort_ingresses_for_snapshot(ingresses: &mut Vec<Ingress>)
    ensures
        final(ingresses).deep_view() == order::in_order(old(ingresses).deep_view(), objects::by_place(|i: IngressView| i.metadata)),
{
    let mut all: Vec<Ingress> = Vec::new();
    std::mem::swap(&mut all, ingresses);
    let precedes = |a: &Ingress, b: &Ingress| -> (r: bool)
        ensures
            r == objects::meta_le(a.deep_view().metadata, b.deep_view().metadata),
        { meta_precedes(&a.metadata, &b.metadata) };
    *ingresses = sort_in_order(all, precedes, Ghost(objects::by_place(|i: IngressView| i.metadata)));
}

/// A number or a name, as a text.
pub open spec fn int_or_string_text(value: IntOrStringView) -> Seq<char> {
    match value {
        IntOrStringView::Int(number) => text::signed_decimal_of(number as int),
        IntOrStringView::String(text) => text,
    }
}

/// A number or a name, as a text.
pub fn format_int_or_string(value: &IntOrString) -> (r: String)
    ensures
        r@ == int_or_string_text(value.deep_view()),
{
    match value {
        IntOrString::Int(number) => signed_decimal(*number as i128),
        IntOrString::String(text) => text.clone(),
    }
}

/// A text that is there and not empty.
pub open spec fn non_empty(text: Option<Seq<char>>) -> Option<Seq<char>> {
    match text {
        Some(t) if t.len() > 0 => Some(t),
        _ => None,
    }
}

/// The first of two optional texts that is there.
pub open spec fn or_else(first: Option<Seq<char>>, second: Option<Seq<char>>) -> Option<Seq<char>> {
    match first {
        Some(text) => Some(text),
        None => second,
    }
}

fn first_present(first: &Option<String>, second: &Option<String>) -> (r: Option<String>)
    ensures
        r.deep_view() == or_else(first.deep_view(), second.deep_view()),
{
    match first {
        Some(text) => Some(text.clone()),
        None => second.deep_clone(),
    }
}

fn keep_non_empty(text: Option<String>) -> (r: Option<String>)
    ensures
        r.deep_view() == non_empty(text.deep_view()),
{
    match text {
        Some(t) => if t.as_str().unicode_len() > 0 {
            Some(t)
        } else {
            None
        },
        None => None,
    }
}

// ------------------------------------------------------------------- services

/// One pair may precede another: by key, then by value.
pub open spec fn pair_le(a: KVView, b: KVView) -> bool {
    if a.key == b.key {
        order::text_le(a.value, b.value)
    } else {
        order::text_le(a.key, b.key)
    }
}

fn pair_precedes(a: &KV, b: &KV) -> (r: bool)
    ensures
        r == pair_le(a.deep_view(), b.deep_view()),
{
    if str_eq(a.key.as_str(), b.key.as_str()) {
        str_le(a.value.as_str(), b.value.as_str())
    } else {
        str_le(a.key.as_str(), b.key.as_str())
    }
}

/// What a snapshot shows of a port.
pub open spec fn port_info(port: ServicePortView) -> ServicePortInfoView {
    ServicePortInfoView {
        name: port.name,
        protocol: port.protocol,
        port: port.port,
        target_port: match port.target_port {
            Some(target) => Some(int_or_string_text(target)),
            None => None,
        },
        node_port: port.node_port,
    }
}

fn map_port(port: &ServicePort) -> (r: ServicePortInfo)
    ensures
        r.deep_view() == port_info(port.deep_view()),
{
    let target_port = match &port.target_port {
        Some(target) => Some(format_int_or_string(target)),
        None => None,
    };
    ServicePortInfo {
        name: port.name.deep_clone(),
        protocol: port.protocol.deep_clone(),
        port: port.port,
        target_port,
        node_port: port.node_port,
    }
}

/// One port may precede another: by number, then by name, then by protocol.
pub open spec fn port_le(a: ServicePortInfoView, b: ServicePortInfoView) -> bool {
    if a.port != b.port {
        a.port < b.port
    } else if a.name != b.name {
        order::opt_text_le(a.name, b.name)
    } else {
        order::opt_text_le(a.protocol, b.protocol)
    }
}

fn port_precedes(a: &ServicePortInfo, b: &ServicePortInfo) -> (r: bool)
    ensures
        r == port_le(a.deep_view(), b.deep_view()),
{
    if a.port != b.port {
        a.port < b.port
    } else if !opt_str_eq(&a.name, &b.name) {
        opt_str_le(&a.name, &b.name)
    } else {
        opt_str_le(&a.protocol, &b.protocol)
    }
}

/// The way in to a service that a load balancer gives: a host name, or else an address, or else
/// its mode.
pub open spec fn service_way_in(entry: LoadBalancerIngressView) -> Option<Seq<char>> {
    non_empty(or_else(or_else(entry.hostname, entry.ip), entry.ip_mode))
}

/// What a snapshot shows of a service.
pub open spec fn service_info(service: ServiceView) -> ServiceInfoView {
    let spec = match service.spec {
        Some(spec) => spec,
        None => ServiceSpecView { type_: None, cluster_ip: None, external_ips: None, selector: None, ports: None },
    };
    ServiceInfoView {
        namespace: views::text_or(service.metadata.namespace, ""@),
        name: views::text_or(service.metadata.name, ""@),
        type_: views::text_or(spec.type_, "ClusterIP"@),
        cluster_ip: spec.cluster_ip,
        external_ips: order::sorted_texts(views::list_or_none(spec.external_ips)),
        selector: order::in_order(views::list_or_none(spec.selector), |a: KVView, b: KVView| pair_le(a, b)),
        ports: order::in_order(
            views::list_or_none(spec.ports).map_values(|p: ServicePortView| port_info(p)),
            |a: ServicePortInfoView, b: ServicePortInfoView| port_le(a, b),
        ),
        load_balancer_ingress: order::sorted_texts(
            views::list_or_none(service.load_balancer).filter_map(|e: LoadBalancerIngressView| service_way_in(e)),
        ),
    }
}

fn sort_pairs(pairs: Vec<KV>) -> (r: Vec<KV>)
    ensures
        r.deep_view() == order::in_order(pairs.deep_view(), |a: KVView, b: KVView| pair_le(a, b)),
{
    let precedes = |a: &KV, b: &KV| -> (r: bool)
        ensures
            r == pair_le(a.deep_view(), b.deep_view()),
        { pair_precedes(a, b) };
    sort_in_order(pairs, precedes, Ghost(|a: KVView, b: KVView| pair_le(a, b)))
}

fn map_ports(ports: &Vec<ServicePort>) -> (r: Vec<ServicePortInfo>)
    ensures
        r.deep_view() == order::in_order(
            ports.deep_view().map_values(|p: ServicePortView| port_info(p)),
            |a: ServicePortInfoView, b: ServicePortInfoView| port_le(a, b),
        ),
{
    let image = |p: &ServicePort| -> (r: ServicePortInfo)
        ensures
            r.deep_view() == port_info(p.deep_view()),
        { map_port(p) };
    let precedes = |a: &ServicePortInfo, b: &ServicePortInfo| -> (r: bool)
        ensures
            r == port_le(a.deep_view(), b.deep_view()),
        { port_precedes(a, b) };
    let infos = map_items(ports, image, Ghost(|p: ServicePortView| port_info(p)));
    sort_in_order(infos, precedes, Ghost(|a: ServicePortInfoView, b: ServicePortInfoView| port_le(a, b)))
}

/// What a snapshot shows of a service.
pub fn map_service(service: &Service) -> (r: ServiceInfo)
    ensures
        r.deep_view() == service_info(service.deep_view()),
{
    let way_in = |e: &LoadBalancerIngress| -> (r: Option<String>)
        ensures
            r.deep_view() == service_way_in(e.deep_view()),
        { keep_non_empty(first_present(&first_present(&e.hostname, &e.ip), &e.ip_mode)) };
    let entries = opt_list(&service.load_balancer);
    let ways_in = filter_map_items(&entries, way_in, Ghost(|e: LoadBalancerIngressView| service_way_in(e)));
    let (type_, cluster_ip, external_ips, selector, ports) = match &service.spec {
        Some(spec) => (
            owned(opt_str(&spec.type_, "ClusterIP")),
            spec.cluster_ip.deep_clone(),
            opt_list(&spec.external_ips),
            opt_list(&spec.selector),
            opt_list(&spec.ports),
        ),
        None => {
            let (ips, pairs, ports): (Vec<String>, Vec<KV>, Vec<ServicePort>) = (Vec::new(), Vec::new(), Vec::new());
            assert(ips.deep_view() =~= seq![] && pairs.deep_view() =~= seq![] && ports.deep_view() =~= seq![]);
            (owned("ClusterIP"), None, ips, pairs, ports)
        },
    };
    ServiceInfo {
        namespace: owned(opt_str(&service.metadata.namespace, "")),
        name: owned(opt_str(&service.metadata.name, "")),
        type_,
        cluster_ip,
        external_ips: sort_texts(external_ips),
        selector: sort_pairs(selector),
        ports: map_ports(&ports),
        load_balancer_ingress: sort_texts(ways_in),
    }
}

// ------------------------------------------------------------------ ingresses

/// The port of a backend: its name, or else its number.
pub open spec fn backend_port_text(port: ServiceBackendPortView) -> Option<Seq<char>> {
    match (port.name, port.number) {
        (Some(name), _) => non_empty(Some(name)),
        (None, Some(number)) => Some(text::signed_decimal_of(number as int)),
        (None, None) => None,
    }
}

/// What a snapshot shows of a path of an ingress.
pub open spec fn path_info(host: Option<Seq<char>>, path: HttpIngressPathView) -> IngressRuleInfoView {
    IngressRuleInfoView {
        host,
        path: path.path,
        path_type: Some(path.path_type),
        backend_service: match path.service {
            Some(service) => Some(service.name),
            None => None,
        },
        backend_port: match path.service {
            Some(service) => match service.port {
                Some(port) => backend_port_text(port),
                None => None,
            },
            None => None,
        },
    }
}

/// What a snapshot shows of a rule of an ingress: one line for each path, or one for the host
/// where the rule has no paths at all.
pub open spec fn rule_infos(rule: IngressRuleView) -> Seq<IngressRuleInfoView> {
    match rule.paths {
        Some(paths) => paths.map_values(|p: HttpIngressPathView| path_info(rule.host, p)),
        None => seq![
            IngressRuleInfoView {
                host: rule.host,
                path: None,
                path_type: None,
                backend_service: None,
                backend_port: None,
            },
        ],
    }
}

/// What a snapshot shows of the rules of an ingress, rule by rule.
pub open spec fn all_rule_infos(rules: Seq<IngressRuleView>) -> Seq<IngressRuleInfoView>
    decreases rules.len(),
{
    if rules.len() == 0 {
        seq![]
    } else {
        all_rule_infos(rules.drop_last()) + rule_infos(rules.last())
    }
}

/// One line may precede another: by host, path, service and port.
pub open spec fn rule_le(a: IngressRuleInfoView, b: IngressRuleInfoView) -> bool {
    if a.host != b.host {
        order::opt_text_le(a.host, b.host)
    } else if a.path != b.path {
        order::opt_text_le(a.path, b.path)
    } else if a.backend_service != b.backend_service {
        order::opt_text_le(a.backend_service, b.backend_service)
    } else {
        order::opt_text_le(a.backend_port, b.backend_port)
    }
}

fn rule_precedes(a: &IngressRuleInfo, b: &IngressRuleInfo) -> (r: bool)
    ensures
        r == rule_le(a.deep_view(), b.deep_view()),
{
    if !opt_str_eq(&a.host, &b.host) {
        opt_str_le(&a.host, &b.host)
    } else if !opt_str_eq(&a.path, &b.path) {
        opt_str_le(&a.path, &b.path)
    } else if !opt_str_eq(&a.backend_service, &b.backend_service) {
        opt_str_le(&a.backend_service, &b.backend_service)
    } else {
        opt_str_le(&a.backend_port, &b.backend_port)
    }
}

fn map_path(host: &Option<String>, path: &HttpIngressPath) -> (r: IngressRuleInfo)
    ensures
        r.deep_view() == path_info(host.deep_view(), path.deep_view()),
{
    let (backend_service, backend_port) = match &path.service {
        Some(service) => {
            let port = match &service.port {
                Some(port) => match (&port.name, port.number) {
                    (Some(name), _) => keep_non_empty(Some(name.clone())),
                    (None, Some(number)) => Some(signed_decimal(number as i128)),
                    (None, None) => None,
                },
                None => None,
            };
            (Some(service.name.clone()), port)
        },
        None => (None, None),
    };
    IngressRuleInfo {
        host: host.deep_clone(),
        path: path.path.deep_clone(),
        path_type: Some(path.path_type.clone()),
        backend_service,
        backend_port,
    }
}

fn map_rule(rule: &IngressRule) -> (r: Vec<IngressRuleInfo>)
    ensures
        r.deep_view() == rule_infos(rule.deep_view()),
{
    match &rule.paths {
        Some(paths) => {
            let ghost host = rule.deep_view().host;
            let image = |p: &HttpIngressPath| -> (r: IngressRuleInfo)
                ensures
                    r.deep_view() == path_info(rule.deep_view().host, p.deep_view()),
                { map_path(&rule.host, p) };
            map_items(paths, image, Ghost(|p: HttpIngressPathView| path_info(host, p)))
        },
        None => {
            let mut r: Vec<IngressRuleInfo> = Vec::new();
            r.push(
                IngressRuleInfo {
                    host: rule.host.deep_clone(),
                    path: None,
                    path_type: None,
                    backend_service: None,
                    backend_port: None,
                },
            );
            assert(r.deep_view() =~= rule_infos(rule.deep_view()));
            r
        },
    }
}

fn map_rules(rules: &Vec<IngressRule>) -> (r: Vec<IngressRuleInfo>)
    ensures
        r.deep_view() == all_rule_infos(rules.deep_view()),
{
    let ghost all = rules.deep_view();
    let mut r: Vec<IngressRuleInfo> = Vec::new();
    let mut i: usize = 0;
    assert(r.deep_view() =~= all_rule_infos(all.take(0)));
    while i < rules.len()
        invariant
            i <= rules.len(),
            all == rules.deep_view(),
            r.deep_view() == all_rule_infos(all.take(i as int)),
        decreases rules.len() - i,
    {
        let lines = map_rule(&rules[i]);
        append_cloned(&mut r, &lines);
        assert(all.take(i + 1).drop_last() =~= all.take(i as int));
        assert(all.take(i + 1).last() == rules@[i as int].deep_view());
        i += 1;
    }
    assert(all.take(all.len() as int) =~= all);
    r
}

/// What a snapshot shows of a TLS entry.
pub open spec fn tls_info(entry: IngressTlsView) -> IngressTlsInfoView {
    IngressTlsInfoView { hosts: order::sorted_texts(views::list_or_none(entry.hosts)), secret_name: entry.secret_name }
}

/// One TLS entry may precede another: by secret, then by hosts.
pub open spec fn tls_le(a: IngressTlsInfoView, b: IngressTlsInfoView) -> bool {
    if a.secret_name != b.secret_name {
        order::opt_text_le(a.secret_name, b.secret_name)
    } else {
        order::texts_le(a.hosts, b.hosts)
    }
}

fn tls_precedes(a: &IngressTlsInfo, b: &IngressTlsInfo) -> (r: bool)
    ensures
        r == tls_le(a.deep_view(), b.deep_view()),
{
    if !opt_str_eq(&a.secret_name, &b.secret_name) {
        opt_str_le(&a.secret_name, &b.secret_name)
    } else {
        list_le(&a.hosts, &b.hosts)
    }
}

fn map_tls(entries: &Vec<IngressTls>) -> (r: Vec<IngressTlsInfo>)
    ensures
        r.deep_view() == order::in_order(
            entries.deep_view().map_values(|e: IngressTlsView| tls_info(e)),
            |a: IngressTlsInfoView, b: IngressTlsInfoView| tls_le(a, b),
        ),
{
    let image = |e: &IngressTls| -> (r: IngressTlsInfo)
        ensures
            r.deep_view() == tls_info(e.deep_view()),
        { IngressTlsInfo { hosts: sort_texts(opt_list(&e.hosts)), secret_name: e.secret_name.deep_clone() } };
    let precedes = |a: &IngressTlsInfo, b: &IngressTlsInfo| -> (r: bool)
        ensures
            r == tls_le(a.deep_view(), b.deep_view()),
        { tls_precedes(a, b) };
    let infos = map_items(entries, image, Ghost(|e: IngressTlsView| tls_info(e)));
    sort_in_order(infos, precedes, Ghost(|a: IngressTlsInfoView, b: IngressTlsInfoView| tls_le(a, b)))
}

/// The way in to an ingress that a load balancer gives: a host name, or else an address.
pub open spec fn ingress_way_in(entry: LoadBalancerIngressView) -> Option<Seq<char>> {
    non_empty(or_else(entry.hostname, entry.ip))
}

/// What a snapshot shows of an ingress.
pub open spec fn ingress_info(ingress: IngressView) -> IngressInfoView {
    let spec = match ingress.spec {
        Some(spec) => spec,
        None => IngressSpecView { ingress_class_name: None, rules: None, tls: None },
    };
    let rules = views::list_or_none(spec.rules);
    IngressInfoView {
        namespace: views::text_or(ingress.metadata.namespace, ""@),
        name: views::text_or(ingress.metadata.name, ""@),
        class_name: spec.ingress_class_name,
        hosts: order::distinct_texts(rules.filter_map(|r: IngressRuleView| r.host)),
        rules: order::in_order(all_rule_infos(rules), |a: IngressRuleInfoView, b: IngressRuleInfoView| rule_le(a, b)),
        tls: order::in_order(
            views::list_or_none(spec.tls).map_values(|e: IngressTlsView| tls_info(e)),
            |a: IngressTlsInfoView, b: IngressTlsInfoView| tls_le(a, b),
        ),
        load_balancer_ingress: order::sorted_texts(
            views::list_or_none(ingress.load_balancer).filter_map(|e: LoadBalancerIngressView| ingress_way_in(e)),
        ),
    }
}

/// What a snapshot shows of an ingress.
pub fn map_ingress(ingress: &Ingress) -> (r: IngressInfo)
    ensures
        r.deep_view() == ingress_info(ingress.deep_view()),
{
    let (class_name, rules, tls) = match &ingress.spec {
        Some(spec) => (spec.ingress_class_name.deep_clone(), opt_list(&spec.rules), opt_list(&spec.tls)),
        None => {
            let (rules, tls): (Vec<IngressRule>, Vec<IngressTls>) = (Vec::new(), Vec::new());
            assert(rules.deep_view() =~= seq![] && tls.deep_view() =~= seq![]);
            (None, rules, tls)
        },
    };
    let host = |r: &IngressRule| -> (h: Option<String>)
        ensures
            h.deep_view() == r.deep_view().host,
        { r.host.deep_clone() };
    let hosts = filter_map_items(&rules, host, Ghost(|r: IngressRuleView| r.host));
    let precedes = |a: &IngressRuleInfo, b: &IngressRuleInfo| -> (r: bool)
        ensures
            r == rule_le(a.deep_view(), b.deep_view()),
        { rule_precedes(a, b) };
    let way_in = |e: &LoadBalancerIngress| -> (r: Option<String>)
        ensures
            r.deep_view() == ingress_way_in(e.deep_view()),
        { keep_non_empty(first_present(&e.hostname, &e.ip)) };
    let entries = opt_list(&ingress.load_balancer);
    let ways_in = filter_map_items(&entries, way_in, Ghost(|e: LoadBalancerIngressView| ingress_way_in(e)));
    IngressInfo {
        namespace: owned(opt_str(&ingress.metadata.namespace, "")),
        name: owned(opt_str(&ingress.metadata.name, "")),
        class_name,
        hosts: sort_distinct(hosts),
        rules: sort_in_order(
            map_rules(&rules),
            precedes,
            Ghost(|a: IngressRuleInfoView, b: IngressRuleInfoView| rule_le(a, b)),
        ),
        tls: map_tls(&tls),
        load_balancer_ingress: sort_texts(ways_in),
    }
}

// ----------------------------------------------------------------------- laws

/// The ports, the addresses and the ways in of a service stand in order in a snapshot.
pub proof fn lemma_service_in_order(service: ServiceView)
    ensures
        order::is_sorted(
            service_info(service).ports,
            |a: ServicePortInfoView, b: ServicePortInfoView| port_le(a, b),
        ),
        order::is_sorted(service_info(service).external_ips, |a: Seq<char>, b: Seq<char>| order::text_le(a, b)),
        order::is_sorted(service_info(service).load_balancer_ingress, |a: Seq<char>, b: Seq<char>| order::text_le(a, b)),
{
    let le = |a: ServicePortInfoView, b: ServicePortInfoView| port_le(a, b);
    assert forall|a: ServicePortInfoView, b: ServicePortInfoView| #[trigger] le(a, b) || le(b, a) by {
        order::lemma_opt_text_le(a.name, b.name, None);
        order::lemma_opt_text_le(a.protocol, b.protocol, None);
    }
    assert forall|a: ServicePortInfoView, b: ServicePortInfoView, c: ServicePortInfoView| #[trigger]
        le(a, b) && #[trigger] le(b, c) implies le(a, c) by {
        order::lemma_opt_text_le(a.name, b.name, c.name);
        order::lemma_opt_text_le(b.name, c.name, None);
        order::lemma_opt_text_le(a.protocol, b.protocol, c.protocol);
    }
    let spec = match service.spec {
        Some(spec) => spec,
        None => ServiceSpecView { type_: None, cluster_ip: None, external_ips: None, selector: None, ports: None },
    };
    let texts = |a: Seq<char>, b: Seq<char>| order::text_le(a, b);
    order::lemma_in_order_sorted(views::list_or_none(spec.ports).map_values(|p: ServicePortView| port_info(p)), le);
    order::lemma_text_ordering();
    order::lemma_in_order_sorted(views::list_or_none(spec.external_ips), texts);
    order::lemma_in_order_sorted(
        views::list_or_none(service.load_balancer).filter_map(|e: LoadBalancerIngressView| service_way_in(e)),
        texts,
    );
}

/// The lines and TLS entries of an ingress stand in order in a snapshot, and so do its hosts, each
/// of them once.
pub proof fn lemma_ingress_in_order(ingress: IngressView)
    ensures
        order::is_sorted(
            ingress_info(ingress).rules,
            |a: IngressRuleInfoView, b: IngressRuleInfoView| rule_le(a, b),
        ),
        order::is_sorted(ingress_info(ingress).tls, |a: IngressTlsInfoView, b: IngressTlsInfoView| tls_le(a, b)),
        order::is_sorted(ingress_info(ingress).hosts, |a: Seq<char>, b: Seq<char>| order::text_le(a, b)),
        ingress_info(ingress).hosts.no_duplicates(),
{
    let spec = match ingress.spec {
        Some(spec) => spec,
        None => IngressSpecView { ingress_class_name: None, rules: None, tls: None },
    };
    let rules = views::list_or_none(spec.rules);
    let le = |a: IngressRuleInfoView, b: IngressRuleInfoView| rule_le(a, b);
    assert forall|a: IngressRuleInfoView, b: IngressRuleInfoView| #[trigger] le(a, b) || le(b, a) by {
        order::lemma_opt_text_le(a.host, b.host, None);
        order::lemma_opt_text_le(a.path, b.path, None);
        order::lemma_opt_text_le(a.backend_service, b.backend_service, None);
        order::lemma_opt_text_le(a.backend_port, b.backend_port, None);
    }
    assert forall|a: IngressRuleInfoView, b: IngressRuleInfoView, c: IngressRuleInfoView| #[trigger]
        le(a, b) && #[trigger] le(b, c) implies le(a, c) by {
        order::lemma_opt_text_le(a.host, b.host, c.host);
        order::lemma_opt_text_le(b.host, c.host, None);
        order::lemma_opt_text_le(a.path, b.path, c.path);
        order::lemma_opt_text_le(b.path, c.path, None);
        order::lemma_opt_text_le(a.backend_service, b.backend_service, c.backend_service);
        order::lemma_opt_text_le(b.backend_service, c.backend_service, None);
        order::lemma_opt_text_le(a.backend_port, b.backend_port, c.backend_port);
    }
    order::lemma_in_order_sorted(all_rule_infos(rules), le);
    let tle = |a: IngressTlsInfoView, b: IngressTlsInfoView| tls_le(a, b);
    assert forall|a: IngressTlsInfoView, b: IngressTlsInfoView| #[trigger] tle(a, b) || tle(b, a) by {
        order::lemma_opt_text_le(a.secret_name, b.secret_name, None);
        order::lemma_texts_le(a.hosts, b.hosts, seq![]);
    }
    assert forall|a: IngressTlsInfoView, b: IngressTlsInfoView, c: IngressTlsInfoView| #[trigger]
        tle(a, b) && #[trigger] tle(b, c) implies tle(a, c) by {
        order::lemma_opt_text_le(a.secret_name, b.secret_name, c.secret_name);
        order::lemma_opt_text_le(b.secret_name, c.secret_name, None);
        order::lemma_texts_le(a.hosts, b.hosts, c.hosts);
    }
    order::lemma_in_order_sorted(views::list_or_none(spec.tls).map_values(|e: IngressTlsView| tls_info(e)), tle);
    order::lemma_distinct_texts(rules.filter_map(|r: IngressRuleView| r.host));
}

// ------------------------------------------------------------- what it is for

/// What is shown of a service is its own; it is of the plain type where it names none, and every
/// port, selector and outside address of it is shown.
pub proof fn lemma_service_is_shown(service: ServiceView, spec: ServiceSpecView, port: ServicePortView, ip: Seq<char>, pair: KVView)
    requires
        service.spec == Some(spec),
    ensures
        ({
            let shown = service_info(service);
            &&& service.metadata.namespace matches Some(n) ==> shown.namespace == n
            &&& service.metadata.name matches Some(n) ==> shown.name == n
            &&& spec.type_ matches Some(t) ==> shown.type_ == t
            &&& spec.type_ is None ==> shown.type_ == "ClusterIP"@
            &&& shown.cluster_ip == spec.cluster_ip
            &&& spec.external_ips matches Some(ips) ==> (shown.external_ips.contains(ip) <==> ips.contains(ip))
            &&& spec.selector matches Some(pairs) ==> (shown.selector.contains(pair) <==> pairs.contains(pair))
            &&& spec.ports matches Some(ports) ==> shown.ports.len() == ports.len() && (ports.contains(port)
                ==> shown.ports.contains(port_info(port)))
            &&& spec.ports is None ==> shown.ports.len() == 0
        }),
{
    let ports = views::list_or_none(spec.ports);
    let infos = ports.map_values(|p: ServicePortView| port_info(p));
    order::lemma_in_order_has(infos, |a: ServicePortInfoView, b: ServicePortInfoView| port_le(a, b), port_info(port));
    order::lemma_in_order_has(views::list_or_none(spec.selector), |a: KVView, b: KVView| pair_le(a, b), pair);
    order::lemma_sorted_has(views::list_or_none(spec.external_ips), ip);
    if ports.contains(port) {
        let i = choose|i: int| 0 <= i < ports.len() && ports[i] == port;
        assert(infos[i] == port_info(port));
    }
}

/// A port is shown with its own number, name, protocol and node port, and its target as text.
pub proof fn lemma_port_is_shown(port: ServicePortView)
    ensures
        ({
            let shown = port_info(port);
            &&& shown.port == port.port && shown.name == port.name && shown.protocol == port.protocol
            &&& shown.node_port == port.node_port
            &&& port.target_port is None ==> shown.target_port is None
            &&& port.target_port matches Some(target) ==> (target matches IntOrStringView::String(text)
                ==> shown.target_port == Some(text))
            &&& port.target_port matches Some(target) ==> (target matches IntOrStringView::Int(number)
                ==> shown.target_port == Some(text::signed_decimal_of(number as int)))
        }),
{
}

/// A way in is shown by its host name, or else by its address; an empty one is not shown.
pub proof fn lemma_ways_in(entry: LoadBalancerIngressView)
    ensures
        entry.hostname matches Some(h) ==> h.len() > 0 ==> service_way_in(entry) == Some(h) && ingress_way_in(entry)
            == Some(h),
        entry.hostname is None && entry.ip is Some && entry.ip->0.len() > 0 ==> service_way_in(entry) == entry.ip
            && ingress_way_in(entry) == entry.ip,
        entry.hostname is None && entry.ip is None ==> ingress_way_in(entry) is None,
        entry.hostname is None && entry.ip is None && entry.ip_mode is Some && entry.ip_mode->0.len() > 0
            ==> service_way_in(entry) == entry.ip_mode,
        service_way_in(entry) matches Some(t) ==> t.len() > 0,
        ingress_way_in(entry) matches Some(t) ==> t.len() > 0,
{
}

/// Every way into a service is shown.
pub proof fn lemma_every_way_in_is_shown(service: ServiceView, entries: Seq<LoadBalancerIngressView>, i: int)
    requires
        service.load_balancer == Some(entries),
        0 <= i < entries.len(),
    ensures
        entries[i].hostname matches Some(h) ==> h.len() > 0 ==> service_info(service).load_balancer_ingress.contains(h),
        entries[i].hostname is None && entries[i].ip is Some && entries[i].ip->0.len() > 0 ==> service_info(
            service,
        ).load_balancer_ingress.contains(entries[i].ip->0),
{
    let f = |e: LoadBalancerIngressView| service_way_in(e);
    if service_way_in(entries[i]) is Some {
        views::lemma_filter_map_has(entries, f, i);
        order::lemma_sorted_has(entries.filter_map(f), service_way_in(entries[i])->0);
    }
}

/// Each path of a rule is shown, with the rule's host and the path's own service and port.
pub proof fn lemma_paths_are_shown(rule: IngressRuleView, paths: Seq<HttpIngressPathView>, i: int)
    requires
        rule.paths == Some(paths),
        0 <= i < paths.len(),
    ensures
        rule_infos(rule).len() == paths.len(),
        ({
            let shown = rule_infos(rule)[i];
            let path = paths[i];
            &&& shown.host == rule.host && shown.path == path.path && shown.path_type == Some(path.path_type)
            &&& path.service is None ==> shown.backend_service is None && shown.backend_port is None
            &&& path.service matches Some(service) ==> shown.backend_service == Some(service.name)
            &&& path.service matches Some(service) ==> (service.port matches Some(port) ==> (port.name matches Some(name)
                ==> name.len() > 0 ==> shown.backend_port == Some(name)))
            &&& path.service matches Some(service) ==> (service.port matches Some(port) ==> (port.number matches Some(
                number,
            ) ==> port.name is None ==> shown.backend_port == Some(text::signed_decimal_of(number as int))))
        }),
{
}

proof fn lemma_all_rules_shown(rules: Seq<IngressRuleView>, i: int, x: IngressRuleInfoView)
    requires
        0 <= i < rules.len(),
        rule_infos(rules[i]).contains(x),
    ensures
        all_rule_infos(rules).contains(x),
    decreases rules.len(),
{
    let rest = rules.drop_last();
    let before = all_rule_infos(rest);
    let last = rule_infos(rules.last());
    if i < rest.len() {
        assert(rest[i] == rules[i]);
        lemma_all_rules_shown(rest, i, x);
        let k = choose|k: int| 0 <= k < before.len() && before[k] == x;
        assert((before + last)[k] == x);
    } else {
        let k = choose|k: int| 0 <= k < last.len() && last[k] == x;
        assert((before + last)[before.len() + k] == x);
    }
}

/// An ingress shows its class, each host of its rules, everything that its rules say, and each of
/// its certificates.
pub proof fn lemma_ingress_is_shown(ingress: IngressView, spec: IngressSpecView, rules: Seq<IngressRuleView>, i: int, j: int)
    requires
        ingress.spec == Some(spec),
        spec.rules == Some(rules),
        0 <= i < rules.len(),
        0 <= j < rule_infos(rules[i]).len(),
    ensures
        ingress.metadata.namespace matches Some(n) ==> ingress_info(ingress).namespace == n,
        ingress.metadata.name matches Some(n) ==> ingress_info(ingress).name == n,
        ingress_info(ingress).class_name == spec.ingress_class_name,
        rules[i].host matches Some(host) ==> ingress_info(ingress).hosts.contains(host),
        ingress_info(ingress).rules.contains(rule_infos(rules[i])[j]),
        spec.tls matches Some(tls) ==> ingress_info(ingress).tls.len() == tls.len(),
{
    let f = |r: IngressRuleView| r.host;
    let hosts = rules.filter_map(f);
    order::lemma_distinct_texts(hosts);
    if rules[i].host is Some {
        views::lemma_filter_map_has(rules, f, i);
        assert(hosts.contains(rules[i].host->0));
    }
    let x = rule_infos(rules[i])[j];
    lemma_all_rules_shown(rules, i, x);
    order::lemma_in_order_has(all_rule_infos(rules), |a: IngressRuleInfoView, b: IngressRuleInfoView| rule_le(a, b), x);
    let entries = views::list_or_none(spec.tls).map_values(|e: IngressTlsView| tls_info(e));
    let any: IngressTlsInfoView = arbitrary();
    order::lemma_in_order_has(entries, |a: IngressTlsInfoView, b: IngressTlsInfoView| tls_le(a, b), any);
}

} // verus!
