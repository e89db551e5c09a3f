//! Storage classes, volumes, claims and volume snapshots.
use crate::cluster;
use crate::json_value;
use crate::json_value::{JsonNode, text_at};
use crate::model::{
    KV, KVView, PersistentVolumeClaimInfo, PersistentVolumeClaimInfoView, PersistentVolumeInfo,
    PersistentVolumeInfoView, StorageClassInfo, StorageClassInfoView, VolumeSnapshotClassInfo,
    VolumeSnapshotClassInfoView, VolumeSnapshotInfo, VolumeSnapshotInfoView,
};
use crate::objects::{
    PersistentVolume, PersistentVolumeClaim, PersistentVolumeClaimView, PersistentVolumeView, StorageClass,
    StorageClassView,
};
use crate::pairs;
use crate::pairs::pair_value;
use crate::text::owned;
use crate::views;
use crate::views::{DeepClone, filter_map_items, opt_list, opt_owned, opt_str};
use vstd::prelude::*;

verus! {

/// The parameters of a storage class that a snapshot may show: what tells the backend, and nothing
/// that holds or names a secret.
pub open spec fn shown_parameters() -> Seq<Seq<char>> {
    seq![
        "type"@,
        "fsType"@,
        "skuName"@,
        "storageaccounttype"@,
        "iopsPerGB"@,
        "throughput"@,
        "pool"@,
        "backendType"@,
        "datastore"@,
        "encrypted"@,
        "csi.storage.k8s.io/fstype"@,
    ]
}

fn shown_parameter_names() -> (r: Vec<&'static str>)
    ensures
        r.deep_view() == shown_parameters(),
{
    let mut r: Vec<&'static str> = Vec::new();
    r.push("type");
    r.push("fsType");
    r.push("skuName");
    r.push("storageaccounttype");
    r.push("iopsPerGB");
    r.push("throughput");
    r.push("pool");
    r.push("backendType");
    r.push("datastore");
    r.push("encrypted");
    r.push("csi.storage.k8s.io/fstype");
    assert(r.deep_view() =~= shown_parameters());
    r
}

/// A parameter with its value, where it has one.
pub open spec fn parameter_in(parameters: Seq<KVView>, key: Seq<char>) -> Option<KVView> {
    match pairs::value_of(parameters, key) {
        Some(value) => Some(KVView { key, value }),
        None => None,
    }
}

/// The parameters that a snapshot shows.
pub open spec fn parameters_shown(parameters: Seq<KVView>) -> Seq<KVView> {
    shown_parameters().filter_map(|key: Seq<char>| parameter_in(parameters, key))
}

/// The parameters that a snapshot shows.
pub fn filter_storage_class_parameters(parameters: &Vec<KV>) -> (r: Vec<KV>)
    ensures
        r.deep_view() == parameters_shown(parameters.deep_view()),
{
    let ghost all = parameters.deep_view();
    let image = |key: &&'static str| -> (r: Option<KV>)
        ensures
            r.deep_view() == parameter_in(parameters.deep_view(), key.deep_view()),
        {
            match pair_value(parameters, *key) {
                Some(value) => Some(KV { key: owned(*key), value: owned(value) }),
                None => None,
            }
        };
    filter_map_items(&shown_parameter_names(), image, Ghost(|key: Seq<char>| parameter_in(all, key)))
}

/// What a snapshot shows of a storage class.
pub open spec fn storage_class_info(class: StorageClassView) -> StorageClassInfoView {
    StorageClassInfoView {
        name: views::text_or(class.metadata.name, ""@),
        provisioner: class.provisioner,
        parameters: parameters_shown(views::list_or_none(class.parameters)),
    }
}

/// What a snapshot shows of a storage class.
pub fn map_storage_class(class: &StorageClass) -> (r: StorageClassInfo)
    ensures
        r.deep_view() == storage_class_info(class.deep_view()),
{
    StorageClassInfo {
        name: owned(opt_str(&class.metadata.name, "")),
        provisioner: class.provisioner.clone(),
        parameters: filter_storage_class_parameters(&opt_list(&class.parameters)),
    }
}

/// What a snapshot shows of a persistent volume.
pub open spec fn volume_info(volume: PersistentVolumeView) -> PersistentVolumeInfoView {
    PersistentVolumeInfoView { name: views::text_or(volume.metadata.name, ""@), storage_class: volume.storage_class_name }
}

/// What a snapshot shows of a persistent volume.
pub fn map_persistent_volume(volume: &PersistentVolume) -> (r: PersistentVolumeInfo)
    ensures
        r.deep_view() == volume_info(volume.deep_view()),
{
    PersistentVolumeInfo {
        name: owned(opt_str(&volume.metadata.name, "")),
        storage_class: volume.storage_class_name.deep_clone(),
    }
}

/// What a snapshot shows of a claim.
pub open spec fn claim_info(claim: PersistentVolumeClaimView) -> PersistentVolumeClaimInfoView {
    PersistentVolumeClaimInfoView {
        namespace: views::text_or(claim.metadata.namespace, ""@),
        name: views::text_or(claim.metadata.name, ""@),
        storage_class: claim.storage_class_name,
        volume_name: claim.volume_name,
    }
}

/// What a snapshot shows of a claim.
pub fn map_persistent_volume_claim(claim: &PersistentVolumeClaim) -> (r: PersistentVolumeClaimInfo)
    ensures
        r.deep_view() == claim_info(claim.deep_view()),
{
    PersistentVolumeClaimInfo {
        namespace: owned(opt_str(&claim.metadata.namespace, "")),
        name: owned(opt_str(&claim.metadata.name, "")),
        storage_class: claim.storage_class_name.deep_clone(),
        volume_name: claim.volume_name.deep_clone(),
    }
}

/// What a snapshot shows of a class of volume snapshots.
pub open spec fn snapshot_class_info(contents: Map<Seq<char>, JsonNode>) -> VolumeSnapshotClassInfoView {
    VolumeSnapshotClassInfoView {
        name: views::text_or(json_value::text_in(contents, "/metadata/name"@), ""@),
        driver: views::text_or(json_value::text_in(contents, "/driver"@), ""@),
    }
}

/// What a snapshot shows of a volume snapshot.
pub open spec fn volume_snapshot_info(contents: Map<Seq<char>, JsonNode>) -> VolumeSnapshotInfoView {
    VolumeSnapshotInfoView {
        namespace: views::text_or(json_value::text_in(contents, "/metadata/namespace"@), ""@),
        name: views::text_or(json_value::text_in(contents, "/metadata/name"@), ""@),
        snapshot_class: json_value::text_in(contents, "/spec/volumeSnapshotClassName"@),
        bound_content_name: json_value::text_in(contents, "/status/boundVolumeSnapshotContentName"@),
    }
}

fn text_at_or_empty(value: &serde_json::Value, pointer: &str) -> (r: String)
    ensures
        r@ == views::text_or(json_value::text_in(json_value::json_contents(*value), pointer@), ""@),
{
    match text_at(value, pointer) {
        Some(text) => owned(text),
        None => owned(""),
    }
}

/// What a snapshot shows of a class of volume snapshots.
pub fn map_volume_snapshot_class(class: &serde_json::Value) -> (r: VolumeSnapshotClassInfo)
    ensures
        r.deep_view() == snapshot_class_info(json_value::json_contents(*class)),
{
    VolumeSnapshotClassInfo {
        name: text_at_or_empty(class, "/metadata/name"),
        driver: text_at_or_empty(class, "/driver"),
    }
}

/// What a snapshot shows of a volume snapshot.
pub fn map_volume_snapshot(snapshot: &serde_json::Value) -> (r: VolumeSnapshotInfo)
    ensures
        r.deep_view() == volume_snapshot_info(json_value::json_contents(*snapshot)),
{
    VolumeSnapshotInfo {
        namespace: text_at_or_empty(snapshot, "/metadata/namespace"),
        name: text_at_or_empty(snapshot, "/metadata/name"),
        snapshot_class: opt_owned(text_at(snapshot, "/spec/volumeSnapshotClassName")),
        bound_content_name: opt_owned(text_at(snapshot, "/status/boundVolumeSnapshotContentName")),
    }
}

/// What a snapshot shows of the classes of volume snapshots.
pub fn map_volume_snapshot_classes(classes: &Vec<serde_json::Value>) -> (r: Vec<VolumeSnapshotClassInfo>)
    ensures
        r.deep_view() == cluster::contents_of(classes@).map_values(|c: Map<Seq<char>, JsonNode>| snapshot_class_info(c)),
{
    let mut r: Vec<VolumeSnapshotClassInfo> = Vec::new();
    let mut i: usize = 0;
    while i < classes.len()
        invariant
            i <= classes.len(),
            r.len() == i,
            forall|j: int|
                0 <= j < i ==> (#[trigger] r@[j]).deep_view() == snapshot_class_info(json_value::json_contents(classes@[j])),
        decreases classes.len() - i,
    {
        r.push(map_volume_snapshot_class(&classes[i]));
        i += 1;
    }
    assert(r.deep_view() =~= cluster::contents_of(classes@).map_values(
        |c: Map<Seq<char>, JsonNode>| snapshot_class_info(c),
    ));
    r
}

/// What a snapshot shows of the volume snapshots.
pub fn map_volume_snapshots(snapshots: &Vec<serde_json::Value>) -> (r: Vec<VolumeSnapshotInfo>)
    ensures
        r.deep_view() == cluster::contents_of(snapshots@).map_values(|c: Map<Seq<char>, JsonNode>| volume_snapshot_info(c)),
{
    let mut r: Vec<VolumeSnapshotInfo> = Vec::new();
    let mut i: usize = 0;
    while i < snapshots.len()
        invariant
            i <= snapshots.len(),
            r.len() == i,
            forall|j: int|
                0 <= j < i ==> (#[trigger] r@[j]).deep_view() == volume_snapshot_info(json_value::json_contents(snapshots@[j])),
        decreases snapshots.len() - i,
    {
        r.push(map_volume_snapshot(&snapshots[i]));
        i += 1;
    }
    assert(r.deep_view() =~= cluster::contents_of(snapshots@).map_values(
        |c: Map<Seq<char>, JsonNode>| volume_snapshot_info(c),
    ));
    r
}

/// No parameter but those that may be shown is shown of a storage class, whatever it is given.
pub proof fn lemma_only_named_parameters_shown(class: StorageClassView, i: int)
    requires
        0 <= i < storage_class_info(class).parameters.len(),
    ensures
        shown_parameters().contains(storage_class_info(class).parameters[i].key),
        pairs::value_of(views::list_or_none(class.parameters), storage_class_info(class).parameters[i].key) == Some(
            storage_class_info(class).parameters[i].value,
        ),
{
    let all = views::list_or_none(class.parameters);
    let shown = parameters_shown(all);
    assert(shown.contains(shown[i]));
    shown_parameters().lemma_filter_map_contains(|key: Seq<char>| parameter_in(all, key), shown[i]);
}

// ------------------------------------------------------------- what it is for

/// A parameter of a storage class may be shown.
pub open spec fn may_be_shown(key: Seq<char>) -> bool {
    key == "type"@ || key == "fsType"@ || key == "skuName"@ || key == "storageaccounttype"@ || key == "iopsPerGB"@
        || key == "throughput"@ || key == "pool"@ || key == "backendType"@ || key == "datastore"@ || key == "encrypted"@
        || key == "csi.storage.k8s.io/fstype"@
}

/// Of a storage class its name and provisioner are shown, and of its parameters each that may be
/// shown, with its value, and no others.
pub proof fn lemma_parameters_are_shown(class: StorageClassView, parameters: Seq<KVView>, key: Seq<char>, value: Seq<char>)
    requires
        class.parameters == Some(parameters),
    ensures
        storage_class_info(class).provisioner == class.provisioner,
        class.metadata.name matches Some(n) ==> storage_class_info(class).name == n,
        storage_class_info(class).parameters.contains(KVView { key, value }) <==> may_be_shown(key) && pairs::gives_value(
            parameters,
            key,
            value,
        ),
{
    let keys = shown_parameters();
    let f = |k: Seq<char>| parameter_in(parameters, k);
    let shown = keys.filter_map(f);
    assert(keys[0] == "type"@ && keys[1] == "fsType"@ && keys[2] == "skuName"@ && keys[3] == "storageaccounttype"@
        && keys[4] == "iopsPerGB"@ && keys[5] == "throughput"@ && keys[6] == "pool"@ && keys[7] == "backendType"@
        && keys[8] == "datastore"@ && keys[9] == "encrypted"@ && keys[10] == "csi.storage.k8s.io/fstype"@);
    assert(keys.contains(key) <==> may_be_shown(key));
    pairs::lemma_value_is_the_first(parameters, key, value);
    if shown.contains(KVView { key, value }) {
        keys.lemma_filter_map_contains(f, KVView { key, value });
        let k = choose|k: Seq<char>| #[trigger] keys.contains(k) && f(k) == Some(KVView { key, value });
        assert(k == key);
    }
    if may_be_shown(key) && pairs::gives_value(parameters, key, value) {
        let i = choose|i: int| 0 <= i < keys.len() && keys[i] == key;
        views::lemma_filter_map_has(keys, f, i);
    }
}

/// Volumes, claims and snapshots are shown under their own names, with what they are bound to.
pub proof fn lemma_volumes_are_shown(
    volume: PersistentVolumeView,
    claim: PersistentVolumeClaimView,
    contents: Map<Seq<char>, JsonNode>,
)
    ensures
        volume.metadata.name matches Some(n) ==> volume_info(volume).name == n,
        volume_info(volume).storage_class == volume.storage_class_name,
        claim.metadata.name matches Some(n) ==> claim_info(claim).name == n,
        claim.metadata.namespace matches Some(n) ==> claim_info(claim).namespace == n,
        claim_info(claim).storage_class == claim.storage_class_name,
        claim_info(claim).volume_name == claim.volume_name,
        json_value::text_in(contents, "/metadata/name"@) matches Some(n) ==> snapshot_class_info(contents).name == n
            && volume_snapshot_info(contents).name == n,
        json_value::text_in(contents, "/driver"@) matches Some(d) ==> snapshot_class_info(contents).driver == d,
        json_value::text_in(contents, "/metadata/namespace"@) matches Some(n) ==> volume_snapshot_info(contents).namespace == n,
        volume_snapshot_info(contents).snapshot_class == json_value::text_in(contents, "/spec/volumeSnapshotClassName"@),
        volume_snapshot_info(contents).bound_content_name == json_value::text_in(
            contents,
            "/status/boundVolumeSnapshotContentName"@,
        ),
{
}

} // verus!
