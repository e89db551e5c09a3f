//! Reading the manifest of an object: of a kind that may be read, and without what the cluster
//! itself writes to it.
use crate::clock;
use crate::clock::now_rfc3339;
use crate::command;
use crate::command::{
    CommandResult, CommandResultView, ResourceYamlMetadata, ResourceYamlMetadataView, ResourceYamlResult,
    ResourceYamlResultView,
};
use crate::failure;
use crate::failure::{KubeFailure, KubeFailureView, reason_from};
use crate::json::{Json, json_object4, json_text, JsonView};
use crate::json_value;
use crate::json_value::{JsonNode, leads_somewhere, object_at, remove_member, write_yaml};
use crate::order::str_eq;
use crate::text;
use crate::text::{decimal, owned, split_once, text2, text3, text4, text5, text6, trim};
use crate::views;
use crate::views::DeepClone;
use vstd::prelude::*;

verus! {

/// How manifests are written.
pub const RESOURCE_YAML_FORMAT: &'static str = "yaml";

/// What is written of an object.
pub const RESOURCE_YAML_MODE: &'static str = "manifest";

/// The size of the largest manifest, in bytes.
pub const RESOURCE_YAML_MAX_BYTES: usize = 524_288;

/// An object whose manifest is asked for.
#[derive(Clone, Debug, PartialEq, Eq)]
pub struct ResourceYamlSpec {
    pub api_version: String,
    pub kind: String,
    pub namespace: Option<String>,
    pub name: String,
}

/// The view of [`ResourceYamlSpec`].
pub struct ResourceYamlSpecView {
    pub api_version: Seq<char>,
    pub kind: Seq<char>,
    pub namespace: Option<Seq<char>>,
    pub name: Seq<char>,
}

impl DeepView for ResourceYamlSpec {
    type V = ResourceYamlSpecView;

    open spec fn deep_view(&self) -> ResourceYamlSpecView {
        ResourceYamlSpecView {
            api_version: self.api_version.deep_view(),
            kind: self.kind.deep_view(),
            namespace: self.namespace.deep_view(),
            name: self.name.deep_view(),
        }
    }
}

impl DeepClone for ResourceYamlSpec {
    fn deep_clone(&self) -> (copy: Self) {
        ResourceYamlSpec {
            api_version: self.api_version.deep_clone(),
            kind: self.kind.deep_clone(),
            namespace: self.namespace.deep_clone(),
            name: self.name.deep_clone(),
        }
    }
}

/// An object whose manifest is to be read, as it is looked up.
#[derive(Clone, Debug, PartialEq, Eq)]
pub struct ResourceYamlRequest {
    pub api_version: String,
    pub group: String,
    pub version: String,
    pub kind: String,
    /// The namespace; empty where the object has none.
    pub namespace: String,
    pub name: String,
    pub namespaced: bool,
}

/// The view of [`ResourceYamlRequest`].
pub struct ResourceYamlRequestView {
    pub api_version: Seq<char>,
    pub group: Seq<char>,
    pub version: Seq<char>,
    pub kind: Seq<char>,
    pub namespace: Seq<char>,
    pub name: Seq<char>,
    pub namespaced: bool,
}

impl DeepView for ResourceYamlRequest {
    type V = ResourceYamlRequestView;

    open spec fn deep_view(&self) -> ResourceYamlRequestView {
        ResourceYamlRequestView {
            api_version: self.api_version.deep_view(),
            group: self.group.deep_view(),
            version: self.version.deep_view(),
            kind: self.kind.deep_view(),
            namespace: self.namespace.deep_view(),
            name: self.name.deep_view(),
            namespaced: self.namespaced.deep_view(),
        }
    }
}

impl DeepClone for ResourceYamlRequest {
    fn deep_clone(&self) -> (copy: Self) {
        ResourceYamlRequest {
            api_version: self.api_version.deep_clone(),
            group: self.group.deep_clone(),
            version: self.version.deep_clone(),
            kind: self.kind.deep_clone(),
            namespace: self.namespace.deep_clone(),
            name: self.name.deep_clone(),
            namespaced: self.namespaced.deep_clone(),
        }
    }
}

/// The kinds of objects with a namespace whose manifests may be read.
pub open spec fn is_namespaced_target(api_version: Seq<char>, kind: Seq<char>) -> bool {
    ||| api_version == "v1"@ && (kind == "Pod"@ || kind == "Service"@ || kind == "ConfigMap"@ || kind
        == "PersistentVolumeClaim"@ || kind == "ServiceAccount"@ || kind == "LimitRange"@ || kind == "ResourceQuota"@)
    ||| api_version == "apps/v1"@ && (kind == "Deployment"@ || kind == "StatefulSet"@ || kind == "DaemonSet"@ || kind
        == "ReplicaSet"@)
    ||| api_version == "batch/v1"@ && (kind == "Job"@ || kind == "CronJob"@)
    ||| api_version == "networking.k8s.io/v1"@ && (kind == "Ingress"@ || kind == "NetworkPolicy"@)
    ||| api_version == "autoscaling/v2"@ && kind == "HorizontalPodAutoscaler"@
    ||| api_version == "policy/v1"@ && kind == "PodDisruptionBudget"@
    ||| api_version == "snapshot.storage.k8s.io/v1"@ && kind == "VolumeSnapshot"@
}

/// The kinds of objects without a namespace whose manifests may be read.
pub open spec fn is_cluster_target(api_version: Seq<char>, kind: Seq<char>) -> bool {
    ||| api_version == "v1"@ && (kind == "Namespace"@ || kind == "Node"@ || kind == "PersistentVolume"@)
    ||| api_version == "storage.k8s.io/v1"@ && kind == "StorageClass"@
    ||| api_version == "rbac.authorization.k8s.io/v1"@ && kind == "ClusterRoleBinding"@
    ||| api_version == "snapshot.storage.k8s.io/v1"@ && kind == "VolumeSnapshotClass"@
}

/// Whether objects of a kind, whose manifests may be read, have a namespace.
pub fn resource_yaml_target(api_version: &str, kind: &str) -> (r: Option<bool>)
    ensures
        match r {
            Some(true) => is_namespaced_target(api_version@, kind@),
            Some(false) => !is_namespaced_target(api_version@, kind@) && is_cluster_target(api_version@, kind@),
            None => !is_namespaced_target(api_version@, kind@) && !is_cluster_target(api_version@, kind@),
        },
{
    let core = str_eq(api_version, "v1");
    let snapshot = str_eq(api_version, "snapshot.storage.k8s.io/v1");
    if core && (str_eq(kind, "Pod") || str_eq(kind, "Service") || str_eq(kind, "ConfigMap") || str_eq(
        kind,
        "PersistentVolumeClaim",
    ) || str_eq(kind, "ServiceAccount") || str_eq(kind, "LimitRange") || str_eq(kind, "ResourceQuota")) {
        return Some(true);
    }
    if str_eq(api_version, "apps/v1") && (str_eq(kind, "Deployment") || str_eq(kind, "StatefulSet") || str_eq(
        kind,
        "DaemonSet",
    ) || str_eq(kind, "ReplicaSet")) {
        return Some(true);
    }
    if str_eq(api_version, "batch/v1") && (str_eq(kind, "Job") || str_eq(kind, "CronJob")) {
        return Some(true);
    }
    if str_eq(api_version, "networking.k8s.io/v1") && (str_eq(kind, "Ingress") || str_eq(kind, "NetworkPolicy")) {
        return Some(true);
    }
    if str_eq(api_version, "autoscaling/v2") && str_eq(kind, "HorizontalPodAutoscaler") {
        return Some(true);
    }
    if str_eq(api_version, "policy/v1") && str_eq(kind, "PodDisruptionBudget") {
        return Some(true);
    }
    if snapshot && str_eq(kind, "VolumeSnapshot") {
        return Some(true);
    }
    if core && (str_eq(kind, "Namespace") || str_eq(kind, "Node") || str_eq(kind, "PersistentVolume")) {
        return Some(false);
    }
    if str_eq(api_version, "storage.k8s.io/v1") && str_eq(kind, "StorageClass") {
        return Some(false);
    }
    if str_eq(api_version, "rbac.authorization.k8s.io/v1") && str_eq(kind, "ClusterRoleBinding") {
        return Some(false);
    }
    if snapshot && str_eq(kind, "VolumeSnapshotClass") {
        return Some(false);
    }
    None
}

/// The group and the version of an interface; the core group has no name.
pub open spec fn group_and_version(api_version: Seq<char>) -> Option<(Seq<char>, Seq<char>)> {
    match text::position(api_version, '/') {
        Some(i) => if text::around(api_version, i).0.len() == 0 || text::around(api_version, i).1.len() == 0 {
            None
        } else {
            Some(text::around(api_version, i))
        },
        None => if api_version.len() == 0 {
            None
        } else {
            Some((""@, api_version))
        },
    }
}

/// The group and the version of an interface; the core group has no name.
pub fn split_api_version<'a>(api_version: &'a str) -> (r: Option<(&'a str, &'a str)>)
    ensures
        match r {
            Some(pair) => group_and_version(api_version@) == Some((pair.0@, pair.1@)),
            None => group_and_version(api_version@) is None,
        },
{
    match split_once(api_version, '/') {
        Some((group, version)) => if group.is_empty() || version.is_empty() {
            None
        } else {
            Some((group, version))
        },
        None => if api_version.is_empty() {
            None
        } else {
            Some(("", api_version))
        },
    }
}

/// The namespace that is asked for, where one is.
pub open spec fn asked_namespace(namespace: Option<Seq<char>>) -> Option<Seq<char>> {
    match namespace {
        Some(text) => if text::trimmed(text).len() == 0 {
            None
        } else {
            Some(text::trimmed(text))
        },
        None => None,
    }
}

/// The object that is to be read, or why none is.
pub open spec fn manifest_request(spec: ResourceYamlSpecView) -> Result<ResourceYamlRequestView, Seq<char>> {
    let api_version = text::trimmed(spec.api_version);
    let kind = text::trimmed(spec.kind);
    let name = text::trimmed(spec.name);
    let namespace = asked_namespace(spec.namespace);
    let namespaced = is_namespaced_target(api_version, kind);
    if api_version.len() == 0 {
        Err("apiVersion is required"@)
    } else if kind.len() == 0 {
        Err("kind is required"@)
    } else if name.len() == 0 {
        Err("name is required"@)
    } else if kind == "Secret"@ {
        Err("Secret retrieval is disabled"@)
    } else if !namespaced && !is_cluster_target(api_version, kind) {
        Err("unsupported resource kind "@ + kind + " with apiVersion "@ + api_version)
    } else if namespaced && namespace is None {
        Err("namespace is required for namespaced resource kind "@ + kind)
    } else if !namespaced && namespace is Some {
        Err("namespace must be omitted for cluster-scoped resource kind "@ + kind)
    } else {
        match group_and_version(api_version) {
            None => Err("unsupported apiVersion format "@ + api_version),
            Some((group, version)) => Ok(
                ResourceYamlRequestView {
                    api_version,
                    group,
                    version,
                    kind,
                    namespace: views::text_or(namespace, ""@),
                    name,
                    namespaced,
                },
            ),
        }
    }
}

fn namespace_asked_for<'a>(namespace: &'a Option<String>) -> (r: Option<&'a str>)
    ensures
        r.deep_view() == asked_namespace(namespace.deep_view()),
{
    match namespace {
        Some(text) => {
            let text = trim(text.as_str());
            if text.is_empty() {
                None
            } else {
                Some(text)
            }
        },
        None => None,
    }
}

/// The object that is to be read, or why none is.
pub fn plan_resource_yaml(spec: &ResourceYamlSpec) -> (r: Result<ResourceYamlRequest, String>)
    ensures
        match r {
            Ok(request) => manifest_request(spec.deep_view()) == Ok::<ResourceYamlRequestView, Seq<char>>(
                request.deep_view(),
            ),
            Err(message) => manifest_request(spec.deep_view()) == Err::<ResourceYamlRequestView, Seq<char>>(message@),
        },
{
    let api_version = trim(spec.api_version.as_str());
    let kind = trim(spec.kind.as_str());
    let name = trim(spec.name.as_str());
    let namespace = namespace_asked_for(&spec.namespace);
    if api_version.is_empty() {
        return Err(owned("apiVersion is required"));
    }
    if kind.is_empty() {
        return Err(owned("kind is required"));
    }
    if name.is_empty() {
        return Err(owned("name is required"));
    }
    if str_eq(kind, "Secret") {
        return Err(owned("Secret retrieval is disabled"));
    }
    let namespaced = match resource_yaml_target(api_version, kind) {
        Some(namespaced) => namespaced,
        None => {
            return Err(text4("unsupported resource kind ", kind, " with apiVersion ", api_version));
        },
    };
    if namespaced && namespace.is_none() {
        return Err(text2("namespace is required for namespaced resource kind ", kind));
    }
    if !namespaced && namespace.is_some() {
        return Err(text2("namespace must be omitted for cluster-scoped resource kind ", kind));
    }
    match split_api_version(api_version) {
        None => Err(text2("unsupported apiVersion format ", api_version)),
        Some((group, version)) => Ok(
            ResourceYamlRequest {
                api_version: owned(api_version),
                group: owned(group),
                version: owned(version),
                kind: owned(kind),
                namespace: match namespace {
                    Some(namespace) => owned(namespace),
                    None => owned(""),
                },
                name: owned(name),
                namespaced,
            },
        ),
    }
}

/// The object as it is shown where it could not be read.
pub open spec fn shown_object(kind: Seq<char>, namespace: Seq<char>, name: Seq<char>) -> Seq<char> {
    if namespace.len() == 0 {
        kind + " "@ + name
    } else {
        kind + " "@ + namespace + "/"@ + name
    }
}

/// What is said where an object could not be read.
pub open spec fn read_failure(
    kind: Seq<char>,
    namespace: Seq<char>,
    name: Seq<char>,
    failure: KubeFailureView,
) -> Seq<char> {
    let scope = shown_object(kind, namespace, name);
    match failure {
        KubeFailureView::Api(code, reason) => if code == 403 {
            "forbidden to read "@ + scope
        } else if code == 404 {
            "resource "@ + scope + " not found"@
        } else {
            "failed to read "@ + scope + ": kube API error "@ + text::decimal_of(code as nat) + " "@ + reason
        },
        KubeFailureView::Kube(message) => "failed to read "@ + scope + ": "@ + message,
        KubeFailureView::Foreign => "failed to read "@ + scope + ": "@,
    }
}

/// What is said where an object could not be read.
pub fn resource_yaml_read_error(kind: &str, namespace: &str, name: &str, failure: &KubeFailure) -> (r: String)
    ensures
        r@ == read_failure(kind@, namespace@, name@, failure.deep_view()),
{
    let scope = if namespace.is_empty() {
        text3(kind, " ", name)
    } else {
        text5(kind, " ", namespace, "/", name)
    };
    let scope = scope.as_str();
    match failure {
        KubeFailure::Api(code, reason) => if *code == 403 {
            text2("forbidden to read ", scope)
        } else if *code == 404 {
            text3("resource ", scope, " not found")
        } else {
            text6(
                "failed to read ",
                scope,
                ": kube API error ",
                decimal(*code as u128).as_str(),
                " ",
                reason.as_str(),
            )
        },
        KubeFailure::Kube(message) => text4("failed to read ", scope, ": ", message.as_str()),
        KubeFailure::Foreign => text3("failed to read ", scope, ": "),
    }
}

// ------------------------------------------------------------- the manifest

/// A document without what the cluster itself writes to an object's metadata.
pub open spec fn plain_metadata(contents: Map<Seq<char>, JsonNode>) -> Map<Seq<char>, JsonNode> {
    let c = json_value::without_member(contents, "/metadata"@, "managedFields"@);
    let c = json_value::without_member(c, "/metadata"@, "resourceVersion"@);
    let c = json_value::without_member(c, "/metadata"@, "uid"@);
    let c = json_value::without_member(c, "/metadata"@, "creationTimestamp"@);
    let c = json_value::without_member(c, "/metadata"@, "generation"@);
    json_value::without_member(c, "/metadata"@, "selfLink"@)
}

/// A document without what the cluster itself writes to an object, or why it has no such.
pub open spec fn manifest_of(contents: Map<Seq<char>, JsonNode>) -> Result<Map<Seq<char>, JsonNode>, Seq<char>> {
    if !json_value::is_object_at(contents, ""@) {
        Err("expected Kubernetes object payload"@)
    } else if json_value::node_at(contents, "/metadata"@) is Some && !json_value::is_object_at(contents, "/metadata"@) {
        Err("expected Kubernetes metadata object"@)
    } else {
        Ok(json_value::without_member(plain_metadata(contents), ""@, "status"@))
    }
}

proof fn lemma_names_are_plain()
    ensures
        !""@.contains('~'),
        !"/metadata"@.contains('~'),
        !"managedFields"@.contains('~') && !"managedFields"@.contains('/'),
        !"resourceVersion"@.contains('~') && !"resourceVersion"@.contains('/'),
        !"uid"@.contains('~') && !"uid"@.contains('/'),
        !"creationTimestamp"@.contains('~') && !"creationTimestamp"@.contains('/'),
        !"generation"@.contains('~') && !"generation"@.contains('/'),
        !"selfLink"@.contains('~') && !"selfLink"@.contains('/'),
        !"status"@.contains('~') && !"status"@.contains('/'),
{
    reveal_strlit("");
    reveal_strlit("/metadata");
    reveal_strlit("managedFields");
    reveal_strlit("resourceVersion");
    reveal_strlit("uid");
    reveal_strlit("creationTimestamp");
    reveal_strlit("generation");
    reveal_strlit("selfLink");
    reveal_strlit("status");
}

/// Takes out of a document what the cluster itself writes to an object.
pub fn sanitize_manifest_like_yaml(value: &mut serde_json::Value) -> (r: Result<(), String>)
    ensures
        match r {
            Ok(_) => manifest_of(json_value::json_contents(*old(value))) == Ok::<Map<Seq<char>, JsonNode>, Seq<char>>(
                json_value::json_contents(*final(value)),
            ),
            Err(message) => manifest_of(json_value::json_contents(*old(value))) == Err::<Map<Seq<char>, JsonNode>, Seq<char>>(
                message@,
            ) && *final(value) == *old(value),
        },
{
    proof {
        lemma_names_are_plain();
    }
    if !object_at(value, "") {
        return Err(owned("expected Kubernetes object payload"));
    }
    if leads_somewhere(value, "/metadata") && !object_at(value, "/metadata") {
        return Err(owned("expected Kubernetes metadata object"));
    }
    remove_member(value, "/metadata", "managedFields");
    remove_member(value, "/metadata", "resourceVersion");
    remove_member(value, "/metadata", "uid");
    remove_member(value, "/metadata", "creationTimestamp");
    remove_member(value, "/metadata", "generation");
    remove_member(value, "/metadata", "selfLink");
    remove_member(value, "", "status");
    Ok(())
}

/// The failure of a request for a manifest.
pub fn resource_yaml_error(command_id: &str, message: String, now_ms: u128) -> (r: CommandResult)
    ensures
        r.deep_view() == command::simple_result(command_id@, "error"@, Some(message@), now_ms),
{
    CommandResult::at(owned(command_id), "error", Some(message), now_ms)
}

/// What a request for a manifest asks for, as it is shown.
pub open spec fn shown_request(request: ResourceYamlRequestView) -> JsonView {
    JsonView::Object(
        seq![
            ("apiVersion"@, JsonView::Text(request.api_version)),
            ("kind"@, JsonView::Text(request.kind)),
            (
                "namespace"@,
                if request.namespace.len() == 0 {
                    JsonView::Null
                } else {
                    JsonView::Text(request.namespace)
                },
            ),
            ("name"@, JsonView::Text(request.name)),
        ],
    )
}

fn show_request(request: &ResourceYamlRequest) -> (r: Json)
    ensures
        r.node() == shown_request(request.deep_view()),
{
    let namespace = if request.namespace.as_str().is_empty() {
        Json::Null
    } else {
        json_text(request.namespace.as_str())
    };
    json_object4(
        "apiVersion",
        json_text(request.api_version.as_str()),
        "kind",
        json_text(request.kind.as_str()),
        "namespace",
        namespace,
        "name",
        json_text(request.name.as_str()),
    )
}

/// The answer with a manifest.
pub open spec fn manifest_answer(
    command_id: Seq<char>,
    cluster_id: Seq<char>,
    request: ResourceYamlRequestView,
    resource_version: Option<Seq<char>>,
    content: Seq<char>,
    fetched_at: Seq<char>,
    now_ms: u128,
) -> CommandResultView {
    CommandResultView {
        requested_state: Some(shown_request(request)),
        resource_yaml: Some(
            ResourceYamlResultView {
                cluster_id,
                resource: ResourceYamlMetadataView {
                    api_version: request.api_version,
                    kind: request.kind,
                    namespace: failure::reason_of(request.namespace),
                    name: request.name,
                    resource_version,
                },
                format: RESOURCE_YAML_FORMAT@,
                mode: RESOURCE_YAML_MODE@,
                content,
                fetched_at,
                warnings: seq![],
            },
        ),
        ..command::simple_result(command_id, "ok"@, None, now_ms)
    }
}

/// How many bytes a text takes.
pub open spec fn size_of(text: Seq<char>) -> nat {
    vstd::utf8::encode_utf8(text).len()
}

/// What is answered, given what the manifest was written as.
pub open spec fn manifest_outcome(
    command_id: Seq<char>,
    cluster_id: Seq<char>,
    request: ResourceYamlRequestView,
    resource_version: Option<Seq<char>>,
    written: Result<Seq<char>, Seq<char>>,
    fetched_at: Seq<char>,
    now_ms: u128,
) -> CommandResultView {
    match written {
        Err(error) => command::simple_result(
            command_id,
            "error"@,
            Some("failed to serialize "@ + request.kind + " "@ + request.name + " to YAML: "@ + error),
            now_ms,
        ),
        Ok(content) => if size_of(content) > RESOURCE_YAML_MAX_BYTES {
            command::simple_result(
                command_id,
                "error"@,
                Some(
                    "resource YAML exceeds maximum size of 524288 bytes (got "@ + text::decimal_of(size_of(content)) + ")"@,
                ),
                now_ms,
            )
        } else {
            manifest_answer(command_id, cluster_id, request, resource_version, content, fetched_at, now_ms)
        },
    }
}

/// What the manifest was written as, or why it was not.
pub open spec fn written_of(written: Result<String, String>) -> Result<Seq<char>, Seq<char>> {
    match written {
        Ok(content) => Ok(content@),
        Err(error) => Err(error@),
    }
}

/// What is answered, given what the manifest was written as.
pub fn answer_resource_yaml(
    command_id: &str,
    cluster_id: &str,
    request: &ResourceYamlRequest,
    resource_version: Option<String>,
    written: Result<String, String>,
    fetched_at: String,
    now_ms: u128,
) -> (r: CommandResult)
    ensures
        r.deep_view() == manifest_outcome(
            command_id@,
            cluster_id@,
            request.deep_view(),
            resource_version.deep_view(),
            written_of(written),
            fetched_at@,
            now_ms,
        ),
{
    let content = match written {
        Ok(content) => content,
        Err(error) => {
            let message = text6(
                "failed to serialize ",
                request.kind.as_str(),
                " ",
                request.name.as_str(),
                " to YAML: ",
                error.as_str(),
            );
            return resource_yaml_error(command_id, message, now_ms);
        },
    };
    let size: usize = content.as_str().as_bytes().len();
    if size > RESOURCE_YAML_MAX_BYTES {
        let message = text3(
            "resource YAML exceeds maximum size of 524288 bytes (got ",
            decimal(size as u128).as_str(),
            ")",
        );
        return resource_yaml_error(command_id, message, now_ms);
    }
    let warnings: Vec<String> = Vec::new();
    assert(warnings.deep_view() =~= seq![]);
    CommandResult {
        requested_state: Some(show_request(request)),
        resource_yaml: Some(
            ResourceYamlResult {
                cluster_id: owned(cluster_id),
                resource: ResourceYamlMetadata {
                    api_version: request.api_version.deep_clone(),
                    kind: request.kind.deep_clone(),
                    namespace: reason_from(request.namespace.as_str()),
                    name: request.name.deep_clone(),
                    resource_version,
                },
                format: owned(RESOURCE_YAML_FORMAT),
                mode: owned(RESOURCE_YAML_MODE),
                content,
                fetched_at,
                warnings,
            },
        ),
        ..CommandResult::at(owned(command_id), "ok", None, now_ms)
    }
}

/// When a manifest was fetched, by the answer with it.
pub open spec fn fetched_at_in(result: CommandResultView) -> Seq<char> {
    match result.resource_yaml {
        Some(manifest) => manifest.fetched_at,
        None => seq![],
    }
}

/// What is answered, given the object that was read.
pub open spec fn object_outcome(
    command_id: Seq<char>,
    cluster_id: Seq<char>,
    request: ResourceYamlRequestView,
    resource_version: Option<Seq<char>>,
    contents: Map<Seq<char>, JsonNode>,
    fetched_at: Seq<char>,
    now_ms: u128,
) -> CommandResultView {
    match manifest_of(contents) {
        Err(message) => command::simple_result(command_id, "error"@, Some(message), now_ms),
        Ok(manifest) => manifest_outcome(
            command_id,
            cluster_id,
            request,
            resource_version,
            json_value::yaml_document(manifest),
            fetched_at,
            now_ms,
        ),
    }
}

/// What is answered, given the object that was read, as of now.
pub fn finish_resource_yaml(
    command_id: &str,
    cluster_id: &str,
    request: &ResourceYamlRequest,
    resource_version: Option<String>,
    object: serde_json::Value,
    now_ms: u128,
) -> (r: CommandResult)
    ensures
        r.deep_view() == object_outcome(
            command_id@,
            cluster_id@,
            request.deep_view(),
            resource_version.deep_view(),
            json_value::json_contents(object),
            fetched_at_in(r.deep_view()),
            now_ms,
        ),
        r.deep_view().resource_yaml is Some ==> clock::shows_a_time(fetched_at_in(r.deep_view())),
{
    let mut manifest = object;
    match sanitize_manifest_like_yaml(&mut manifest) {
        Err(message) => resource_yaml_error(command_id, message, now_ms),
        Ok(_) => answer_resource_yaml(
            command_id,
            cluster_id,
            request,
            resource_version,
            write_yaml(&manifest),
            now_rfc3339(),
            now_ms,
        ),
    }
}

// -------------------------------------------------------------------- laws

/// A secret is never read, whatever is asked for with it.
pub proof fn lemma_secrets_are_never_read(spec: ResourceYamlSpecView)
    requires
        text::trimmed(spec.kind) == "Secret"@,
    ensures
        manifest_request(spec) is Err,
{
}

/// What is read is of a kind that may be read; it has a namespace exactly where its kind has one.
pub proof fn lemma_only_allowed_kinds_are_read(spec: ResourceYamlSpecView)
    ensures
        manifest_request(spec) matches Ok(request) ==> {
            &&& is_namespaced_target(request.api_version, request.kind) || is_cluster_target(
                request.api_version,
                request.kind,
            )
            &&& request.kind != "Secret"@
            &&& request.namespaced == is_namespaced_target(request.api_version, request.kind)
            &&& request.name.len() > 0
            &&& request.namespaced ==> request.namespace.len() > 0
            &&& !request.namespaced ==> request.namespace.len() == 0
        },
{
    reveal_strlit("");
}

/// A manifest holds nothing of what the cluster itself writes, and nothing that the object did
/// not hold.
pub proof fn lemma_manifest_is_plain(contents: Map<Seq<char>, JsonNode>)
    ensures
        manifest_of(contents) matches Ok(manifest) ==> {
            &&& json_value::is_object_at(contents, "/metadata"@) ==> {
                &&& !manifest.contains_key("/metadata"@ + "/"@ + "managedFields"@)
                &&& !manifest.contains_key("/metadata"@ + "/"@ + "resourceVersion"@)
                &&& !manifest.contains_key("/metadata"@ + "/"@ + "uid"@)
                &&& !manifest.contains_key("/metadata"@ + "/"@ + "creationTimestamp"@)
                &&& !manifest.contains_key("/metadata"@ + "/"@ + "generation"@)
                &&& !manifest.contains_key("/metadata"@ + "/"@ + "selfLink"@)
            }
            &&& !manifest.contains_key(""@ + "/"@ + "status"@)
            &&& forall|p: Seq<char>| #[trigger]
                manifest.contains_key(p) ==> contents.contains_key(p) && manifest[p] == contents[p]
        },
{
    reveal_strlit("");
    let place = "/metadata"@;
    let c1 = json_value::without_member(contents, place, "managedFields"@);
    let c2 = json_value::without_member(c1, place, "resourceVersion"@);
    let c3 = json_value::without_member(c2, place, "uid"@);
    let c4 = json_value::without_member(c3, place, "creationTimestamp"@);
    let c5 = json_value::without_member(c4, place, "generation"@);
    let c6 = json_value::without_member(c5, place, "selfLink"@);
    json_value::lemma_without_member(contents, place, "managedFields"@, place);
    json_value::lemma_without_member(c1, place, "resourceVersion"@, place);
    json_value::lemma_without_member(c2, place, "uid"@, place);
    json_value::lemma_without_member(c3, place, "creationTimestamp"@, place);
    json_value::lemma_without_member(c4, place, "generation"@, place);
    json_value::lemma_without_member(c5, place, "selfLink"@, place);
    json_value::lemma_without_member(contents, place, "managedFields"@, ""@);
    json_value::lemma_without_member(c1, place, "resourceVersion"@, ""@);
    json_value::lemma_without_member(c2, place, "uid"@, ""@);
    json_value::lemma_without_member(c3, place, "creationTimestamp"@, ""@);
    json_value::lemma_without_member(c4, place, "generation"@, ""@);
    json_value::lemma_without_member(c5, place, "selfLink"@, ""@);
    json_value::lemma_without_member(c6, ""@, "status"@, ""@);
}

/// What is said of an object that cannot be written as JSON.
pub fn not_written_as_json(kind: &str, name: &str, error: &str) -> (r: String)
    ensures
        r@ == "failed to serialize "@ + kind@ + " "@ + name@ + " to JSON: "@ + error@,
{
    text6("failed to serialize ", kind, " ", name, " to JSON: ", error)
}

// ------------------------------------------------------------- what it is for

/// A kind of object that stands in a namespace and may be read.
pub open spec fn may_be_read_in_namespace(api_version: Seq<char>, kind: Seq<char>) -> bool {
    ||| api_version == "v1"@ && seq![
        "Pod"@,
        "Service"@,
        "ConfigMap"@,
        "PersistentVolumeClaim"@,
        "ServiceAccount"@,
        "LimitRange"@,
        "ResourceQuota"@,
    ].contains(kind)
    ||| api_version == "apps/v1"@ && seq!["Deployment"@, "StatefulSet"@, "DaemonSet"@, "ReplicaSet"@].contains(kind)
    ||| api_version == "batch/v1"@ && seq!["Job"@, "CronJob"@].contains(kind)
    ||| api_version == "networking.k8s.io/v1"@ && seq!["Ingress"@, "NetworkPolicy"@].contains(kind)
    ||| api_version == "autoscaling/v2"@ && kind == "HorizontalPodAutoscaler"@
    ||| api_version == "policy/v1"@ && kind == "PodDisruptionBudget"@
    ||| api_version == "snapshot.storage.k8s.io/v1"@ && kind == "VolumeSnapshot"@
}

/// The kinds that may be read in a namespace are those that are listed.
pub proof fn lemma_kinds_that_may_be_read(api_version: Seq<char>, kind: Seq<char>)
    ensures
        is_namespaced_target(api_version, kind) <==> may_be_read_in_namespace(api_version, kind),
        is_cluster_target(api_version, kind) <==> (api_version == "v1"@ && (kind == "Namespace"@ || kind == "Node"@ || kind
            == "PersistentVolume"@)) || (api_version == "storage.k8s.io/v1"@ && kind == "StorageClass"@) || (api_version
            == "rbac.authorization.k8s.io/v1"@ && kind == "ClusterRoleBinding"@) || (api_version
            == "snapshot.storage.k8s.io/v1"@ && kind == "VolumeSnapshotClass"@),
{
    let core = seq![
        "Pod"@,
        "Service"@,
        "ConfigMap"@,
        "PersistentVolumeClaim"@,
        "ServiceAccount"@,
        "LimitRange"@,
        "ResourceQuota"@,
    ];
    let apps = seq!["Deployment"@, "StatefulSet"@, "DaemonSet"@, "ReplicaSet"@];
    let batch = seq!["Job"@, "CronJob"@];
    let net = seq!["Ingress"@, "NetworkPolicy"@];
    assert(core[0] == "Pod"@ && core[1] == "Service"@ && core[2] == "ConfigMap"@ && core[3] == "PersistentVolumeClaim"@
        && core[4] == "ServiceAccount"@ && core[5] == "LimitRange"@ && core[6] == "ResourceQuota"@);
    assert(apps[0] == "Deployment"@ && apps[1] == "StatefulSet"@ && apps[2] == "DaemonSet"@ && apps[3] == "ReplicaSet"@);
    assert(batch[0] == "Job"@ && batch[1] == "CronJob"@);
    assert(net[0] == "Ingress"@ && net[1] == "NetworkPolicy"@);
}

/// What is asked for in full, of a kind that may be read, and in a namespace exactly where the kind
/// has one, is read as it is asked for.
pub proof fn lemma_what_may_be_read_is_read(spec: ResourceYamlSpecView)
    requires
        text::trimmed(spec.name).len() > 0,
        text::trimmed(spec.kind).len() > 0,
        text::trimmed(spec.kind) != "Secret"@,
        group_and_version(text::trimmed(spec.api_version)) is Some,
    ensures
        is_namespaced_target(text::trimmed(spec.api_version), text::trimmed(spec.kind)) && spec.namespace is Some && text::trimmed(
            spec.namespace->0,
        ).len() > 0 ==> (manifest_request(spec) matches Ok(request) && request.name == text::trimmed(spec.name)
            && request.kind == text::trimmed(spec.kind) && request.namespace == text::trimmed(spec.namespace->0)
            && request.api_version == text::trimmed(spec.api_version)),
        is_cluster_target(text::trimmed(spec.api_version), text::trimmed(spec.kind)) && !is_namespaced_target(
            text::trimmed(spec.api_version),
            text::trimmed(spec.kind),
        ) && spec.namespace is None ==> (manifest_request(spec) matches Ok(request) && request.name == text::trimmed(spec.name)
            && request.kind == text::trimmed(spec.kind) && request.namespace.len() == 0),
{
    reveal_strlit("");
    text::lemma_position(text::trimmed(spec.api_version), '/');
}

/// The group and the version of an interface are what stands before and after the slash; an
/// interface without one has no group.
pub proof fn lemma_group_and_version(group: Seq<char>, version: Seq<char>)
    requires
        !group.contains('/'),
        version.len() > 0,
    ensures
        group.len() > 0 ==> group_and_version(group + seq!['/'] + version) == Some((group, version)),
        group.len() == 0 ==> group_and_version(group + seq!['/'] + version) is None,
        !version.contains('/') ==> group_and_version(version) == Some((""@, version)),
{
    let whole = group + seq!['/'] + version;
    text::lemma_position(whole, '/');
    text::lemma_position(version, '/');
    assert(whole[group.len() as int] == '/');
    assert(whole.contains('/'));
    let i = text::position(whole, '/')->0;
    if i < group.len() {
        assert(group[i] == whole[i]);
        assert(group.contains('/'));
    }
    assert(i == group.len());
    assert(text::around(whole, i).0 =~= group);
    assert(text::around(whole, i).1 =~= version);
}

/// An object is shown unless it is too large or could not be written, as it was written, of the
/// cluster and the object that were asked for.
pub proof fn lemma_manifest_is_answered(
    command_id: Seq<char>,
    cluster_id: Seq<char>,
    request: ResourceYamlRequestView,
    resource_version: Option<Seq<char>>,
    written: Result<Seq<char>, Seq<char>>,
    fetched_at: Seq<char>,
    now_ms: u128,
)
    ensures
        ({
            let result = manifest_outcome(
                command_id,
                cluster_id,
                request,
                resource_version,
                written,
                fetched_at,
                now_ms,
            );
            let fits = written is Ok && vstd::utf8::encode_utf8(written->Ok_0).len() <= 524_288;
            &&& result.command_id == command_id
            &&& result.resource_yaml is Some <==> fits
            &&& fits ==> result.status == "ok"@
            &&& !fits ==> result.status == "error"@ && result.message is Some
            &&& result.resource_yaml matches Some(shown) ==> {
                &&& shown.content == written->Ok_0 && shown.cluster_id == cluster_id && shown.fetched_at == fetched_at
                &&& shown.resource.kind == request.kind && shown.resource.name == request.name
                &&& shown.resource.api_version == request.api_version && shown.resource.resource_version
                    == resource_version
                &&& shown.format == "yaml"@ && shown.mode == "manifest"@
            }
        }),
{
}

/// What is said of an object that could not be read names it, and tells what may not be read from
/// what is not there.
pub proof fn lemma_read_failures_are_told(kind: Seq<char>, namespace: Seq<char>, name: Seq<char>, code: u16, reason: Seq<char>)
    ensures
        read_failure(kind, namespace, name, KubeFailureView::Api(403, reason)) == "forbidden to read "@ + shown_object(
            kind,
            namespace,
            name,
        ),
        read_failure(kind, namespace, name, KubeFailureView::Api(404, reason)) == "resource "@ + shown_object(
            kind,
            namespace,
            name,
        ) + " not found"@,
        namespace.len() > 0 ==> shown_object(kind, namespace, name) == kind + " "@ + namespace + "/"@ + name,
        namespace.len() == 0 ==> shown_object(kind, namespace, name) == kind + " "@ + name,
{
}

/// What is no object, or has metadata that is none, is answered as an error; any other object is
/// written without its status and what the cluster keeps of it, and answered as it was written.
pub proof fn lemma_only_objects_are_shown(
    command_id: Seq<char>,
    cluster_id: Seq<char>,
    request: ResourceYamlRequestView,
    resource_version: Option<Seq<char>>,
    contents: Map<Seq<char>, JsonNode>,
    fetched_at: Seq<char>,
    now_ms: u128,
)
    ensures
        ({
            let result = object_outcome(
                command_id,
                cluster_id,
                request,
                resource_version,
                contents,
                fetched_at,
                now_ms,
            );
            let whole = json_value::is_object_at(contents, ""@) && (json_value::node_at(contents, "/metadata"@) is None || json_value::is_object_at(
                contents,
                "/metadata"@,
            ));
            &&& result.command_id == command_id
            &&& !whole ==> result.status == "error"@ && result.resource_yaml is None && result.message is Some
            &&& whole <==> manifest_of(contents) is Ok
            &&& result.status == "ok"@ || result.status == "error"@
            &&& result.resource_yaml is Some ==> result.status == "ok"@ && whole
            &&& result.resource_yaml matches Some(shown) ==> json_value::yaml_document(manifest_of(contents)->Ok_0) == Ok::<
                Seq<char>,
                Seq<char>,
            >(shown.content)
        }),
{
}

} // verus!
