//! Config maps and secrets, without their values.
use crate::config;
use crate::config::agent_configured_env;
use crate::model::{ConfigMapInfo, ConfigMapInfoView, KV, KVView, SecretInfo, SecretInfoView};
use crate::objects;
use crate::objects::{ConfigMap, ConfigMapView, map_metadata_pairs, meta_precedes, Secret, SecretView};
use crate::order;
use crate::order::{sort_in_order, str_eq};
use crate::text::owned;
use crate::views;
use crate::views::{DeepClone, find_item, map_items, opt_list, opt_str};
use vstd::prelude::*;

verus! {

/// The config map that holds the agent's own settings.
pub const AGENT_CONFIGMAP_NAME: &'static str = "sentinella-hub-k8s-agent-config";

/// The config maps in the order of a snapshot.
pub fn sort_configmaps_for_snapshot(configmaps: &mut Vec<ConfigMap>)
    ensures
        final(configmaps).deep_view() == order::in_order(old(configmaps).deep_view(), objects::by_place(|c: ConfigMapView| c.metadata)),
{
    let mut all: Vec<ConfigMap> = Vec::new();
    std::mem::swap(&mut all, configmaps);
    let precedes = |a: &ConfigMap, b: &ConfigMap| -> (r: bool)
        ensures
            r == objects::meta_le(a.deep_view().metadata, b.deep_view().metadata),
        { meta_precedes(&a.metadata, &b.metadata) };
    *configmaps = sort_in_order(all, precedes, Ghost(objects::by_place(|c: ConfigMapView| c.metadata)));
}

/// The secrets in the order of a snapshot.
pub fn sort_secrets_for_snapshot(secrets: &mut Vec<Secret>)
    ensures
        final(secrets).deep_view() == order::in_order(old(secrets).deep_view(), objects::by_place(|s: SecretView| s.metadata)),
{
    let mut all: Vec<Secret> = Vec::new();
    std::mem::swap(&mut all, secrets);
    let precedes = |a: &Secret, b: &Secret| -> (r: bool)
        ensures
            r == objects::meta_le(a.deep_view().metadata, b.deep_view().metadata),
        { meta_precedes(&a.metadata, &b.metadata) };
    *secrets = sort_in_order(all, precedes, Ghost(objects::by_place(|s: SecretView| s.metadata)));
}

/// The keys of the entries of a config map, without the values.
pub open spec fn data_keys_of(data: Option<Seq<KVView>>) -> Seq<Seq<char>> {
    views::list_or_none(data).map_values(|entry: KVView| entry.key)
}

/// The keys of the entries of a config map, without the values.
pub fn map_data_keys(data: &Option<Vec<KV>>) -> (r: Vec<String>)
    ensures
        r.deep_view() == data_keys_of(data.deep_view()),
{
    let key = |entry: &KV| -> (r: String)
        ensures
            r.deep_view() == entry.deep_view().key,
        { entry.key.clone() };
    map_items(&opt_list(data), key, Ghost(|entry: KVView| entry.key))
}

/// What a snapshot shows of a config map: no value of an entry.
pub open spec fn configmap_info(configmap: ConfigMapView) -> ConfigMapInfoView {
    ConfigMapInfoView {
        namespace: views::text_or(configmap.metadata.namespace, ""@),
        name: views::text_or(configmap.metadata.name, ""@),
        immutable: configmap.immutable,
        labels: objects::labels_of(configmap.metadata),
        annotations: views::list_or_none(configmap.metadata.annotations),
        data_keys: data_keys_of(configmap.data),
        binary_data_keys: views::list_or_none(configmap.binary_data_keys),
    }
}

/// What a snapshot shows of a config map: no value of an entry.
pub fn map_configmap(configmap: &ConfigMap) -> (r: ConfigMapInfo)
    ensures
        r.deep_view() == configmap_info(configmap.deep_view()),
{
    ConfigMapInfo {
        namespace: owned(opt_str(&configmap.metadata.namespace, "")),
        name: owned(opt_str(&configmap.metadata.name, "")),
        immutable: configmap.immutable,
        labels: map_metadata_pairs(&configmap.metadata.labels),
        annotations: map_metadata_pairs(&configmap.metadata.annotations),
        data_keys: map_data_keys(&configmap.data),
        binary_data_keys: opt_list(&configmap.binary_data_keys),
    }
}

/// What a snapshot shows of a secret: no value of an entry.
pub open spec fn secret_info(secret: SecretView) -> SecretInfoView {
    SecretInfoView {
        namespace: views::text_or(secret.metadata.namespace, ""@),
        name: views::text_or(secret.metadata.name, ""@),
        type_: secret.type_,
        immutable: secret.immutable,
        labels: objects::labels_of(secret.metadata),
        annotations: views::list_or_none(secret.metadata.annotations),
        data_keys: views::list_or_none(secret.data_keys),
    }
}

/// What a snapshot shows of a secret: no value of an entry.
pub fn map_secret(secret: &Secret) -> (r: SecretInfo)
    ensures
        r.deep_view() == secret_info(secret.deep_view()),
{
    SecretInfo {
        namespace: owned(opt_str(&secret.metadata.namespace, "")),
        name: owned(opt_str(&secret.metadata.name, "")),
        type_: secret.type_.deep_clone(),
        immutable: secret.immutable,
        labels: map_metadata_pairs(&secret.metadata.labels),
        annotations: map_metadata_pairs(&secret.metadata.annotations),
        data_keys: opt_list(&secret.data_keys),
    }
}

/// A config map holds the agent's own settings.
pub open spec fn is_agent_configmap(configmap: ConfigMapView) -> bool {
    configmap.metadata.name == Some(AGENT_CONFIGMAP_NAME@)
}

/// The agent's settings as the first config map that holds them has them.
pub open spec fn configured_env_in(configmaps: Seq<ConfigMapView>) -> Seq<KVView> {
    match views::first_that(configmaps, |c: ConfigMapView| is_agent_configmap(c)) {
        Some(configmap) => match configmap.data {
            Some(data) => config::configured_env(data),
            None => seq![],
        },
        None => seq![],
    }
}

/// The agent's settings as the first config map that holds them has them.
pub fn collect_agent_configured_env(configmaps: &Vec<ConfigMap>) -> (r: Vec<KV>)
    ensures
        r.deep_view() == configured_env_in(configmaps.deep_view()),
{
    let test = |c: &ConfigMap| -> (r: bool)
        ensures
            r == is_agent_configmap(c.deep_view()),
        {
            match &c.metadata.name {
                Some(name) => str_eq(name.as_str(), AGENT_CONFIGMAP_NAME),
                None => false,
            }
        };
    let none: Vec<KV> = Vec::new();
    assert(none.deep_view() =~= seq![]);
    match find_item(configmaps, test, Ghost(|c: ConfigMapView| is_agent_configmap(c))) {
        Some(i) => match &configmaps[i].data {
            Some(data) => agent_configured_env(data),
            None => none,
        },
        None => none,
    }
}

/// Config maps that differ in the values of their entries alone are shown alike: a snapshot tells
/// no such value.
pub proof fn lemma_values_are_not_shown(a: ConfigMapView, b: ConfigMapView)
    requires
        a.metadata == b.metadata,
        a.immutable == b.immutable,
        a.binary_data_keys == b.binary_data_keys,
        data_keys_of(a.data) == data_keys_of(b.data),
    ensures
        configmap_info(a) == configmap_info(b),
{
}

// ------------------------------------------------------------- what it is for

/// A config map is shown with its names, its labels and the keys of its entries, and no more; a
/// secret likewise.
pub proof fn lemma_only_keys_are_shown(configmap: ConfigMapView, secret: SecretView, data: Seq<KVView>)
    ensures
        configmap.metadata.name matches Some(n) ==> configmap_info(configmap).name == n,
        configmap.metadata.namespace matches Some(n) ==> configmap_info(configmap).namespace == n,
        configmap_info(configmap).immutable == configmap.immutable,
        configmap.metadata.labels matches Some(l) ==> configmap_info(configmap).labels == l,
        configmap.metadata.annotations matches Some(a) ==> configmap_info(configmap).annotations == a,
        configmap.data == Some(data) ==> configmap_info(configmap).data_keys.len() == data.len() && forall|i: int|
            0 <= i < data.len() ==> configmap_info(configmap).data_keys[i] == (#[trigger] data[i]).key,
        configmap.data is None ==> configmap_info(configmap).data_keys.len() == 0,
        configmap.binary_data_keys matches Some(k) ==> configmap_info(configmap).binary_data_keys == k,
        secret.metadata.name matches Some(n) ==> secret_info(secret).name == n,
        secret.metadata.namespace matches Some(n) ==> secret_info(secret).namespace == n,
        secret_info(secret).type_ == secret.type_,
        secret_info(secret).immutable == secret.immutable,
        secret.data_keys matches Some(k) ==> secret_info(secret).data_keys == k,
{
}

/// What is configured for the agent is read from the first config map of its own name, and from
/// nothing else.
pub proof fn lemma_configured_in_the_agents_map(configmaps: Seq<ConfigMapView>, i: int)
    ensures
        (forall|j: int|
            0 <= j < configmaps.len() ==> (#[trigger] configmaps[j]).metadata.name != Some(
                "sentinella-hub-k8s-agent-config"@,
            )) ==> configured_env_in(configmaps).len() == 0,
        0 <= i < configmaps.len() && configmaps[i].metadata.name == Some("sentinella-hub-k8s-agent-config"@) && (forall|
            j: int,
        |
            0 <= j < i ==> (#[trigger] configmaps[j]).metadata.name != Some("sentinella-hub-k8s-agent-config"@)) ==> (
        configmaps[i].data matches Some(data) ==> configured_env_in(configmaps) == config::configured_env(data)),
{
    let own = |c: ConfigMapView| is_agent_configmap(c);
    views::lemma_first_that_is_there(configmaps, own);
    if let Some(c) = views::first_that(configmaps, own) {
        let k = choose|k: int|
            0 <= k < configmaps.len() && (#[trigger] configmaps[k]) == c && own(configmaps[k]) && forall|j: int|
                0 <= j < k ==> !own(#[trigger] configmaps[j]);
        assert(configmaps[k].metadata.name == Some("sentinella-hub-k8s-agent-config"@));
        if 0 <= i < configmaps.len() && configmaps[i].metadata.name == Some("sentinella-hub-k8s-agent-config"@) {
            assert(own(configmaps[i]));
        }
    } else if 0 <= i < configmaps.len() && configmaps[i].metadata.name == Some("sentinella-hub-k8s-agent-config"@) {
        assert(own(configmaps[i]));
    }
}

} // verus!
