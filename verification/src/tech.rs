//! The technology of a container, by its image, its process and its labels.
use crate::model::{Technology, TechnologyView};
use crate::order::{opt_str_eq, str_eq};
use crate::text;
use crate::text::{
    char_is_alphanumeric, char_is_digit, chars_of, contains, ends_with, find_char, owned, rsplit_once,
    split_once, starts_with, strip_prefix, strip_suffix, to_lowercase, trim,
};
use crate::views::{any_item, opt_owned};
use vstd::prelude::*;

verus! {

/// What images stand for, in the order in which they are tried: whether the name is a prefix, the
/// name, and the vendor, the product and the language that it stands for.
pub const IMAGE_RULES: [(bool, &'static str, &'static str, &'static str, &'static str); 67] = [
    (false, "nginx", "nginx", "nginx", "C"),
    (false, "nginx-unprivileged", "nginx", "nginx", "C"),
    (false, "httpd", "apache", "httpd", "C"),
    (false, "haproxy", "haproxy", "haproxy", "C"),
    (false, "envoy", "envoy", "envoy", "C++"),
    (false, "traefik", "traefik", "traefik", "Go"),
    (false, "caddy", "caddy", "caddy", "Go"),
    (false, "postgres", "postgresql", "postgres", "C"),
    (false, "postgresql", "postgresql", "postgres", "C"),
    (true, "postgres-", "postgresql", "postgres", "C"),
    (false, "mysql", "mysql", "mysql", "C++"),
    (false, "mariadb", "mariadb", "mariadb", "C++"),
    (false, "mongo", "mongodb", "mongodb", "C++"),
    (false, "mongodb", "mongodb", "mongodb", "C++"),
    (false, "redis", "redis", "redis", "C"),
    (false, "elasticsearch", "elastic", "elasticsearch", "Java"),
    (false, "kibana", "elastic", "kibana", "JavaScript"),
    (false, "influxdb", "influxdata", "influxdb", "Go"),
    (false, "cockroach", "cockroachdb", "cockroachdb", "Go"),
    (false, "rabbitmq", "rabbitmq", "rabbitmq", "Erlang"),
    (false, "kafka", "apache", "kafka", "Java"),
    (true, "cp-kafka", "apache", "kafka", "Java"),
    (true, "confluent", "apache", "kafka", "Java"),
    (false, "nats", "nats", "nats", "Go"),
    (false, "zookeeper", "apache", "zookeeper", "Java"),
    (false, "memcached", "memcached", "memcached", "C"),
    (false, "keycloak", "keycloak", "keycloak", "Java"),
    (false, "vault", "hashicorp", "vault", "Go"),
    (false, "consul", "hashicorp", "consul", "Go"),
    (false, "openjdk", "oracle", "java", "Java"),
    (true, "eclipse-temurin", "oracle", "java", "Java"),
    (true, "amazoncorretto", "oracle", "java", "Java"),
    (true, "ibm-semeru-runtimes", "oracle", "java", "Java"),
    (false, "node", "nodejs", "node", "JavaScript"),
    (false, "python", "python", "python", "Python"),
    (false, "golang", "golang", "go", "Go"),
    (false, "rust", "rust-lang", "rust", "Rust"),
    (true, "dotnet", "microsoft", "dotnet", "C#"),
    (false, "ruby", "ruby", "ruby", "Ruby"),
    (false, "php", "php", "php", "PHP"),
    (false, "busybox", "busybox", "busybox", "C"),
    (false, "alpine", "alpine", "alpine", ""),
    (false, "debian", "debian", "debian", ""),
    (false, "ubuntu", "ubuntu", "ubuntu", ""),
    (false, "distroless", "distroless", "distroless", ""),
    (false, "prometheus", "prometheus", "prometheus", "Go"),
    (false, "grafana", "grafana", "grafana", "Go"),
    (false, "loki", "grafana", "loki", "Go"),
    (false, "promtail", "grafana", "promtail", "Go"),
    (false, "otelcol", "opentelemetry", "otel-collector", "Go"),
    (false, "opentelemetry-collector", "opentelemetry", "otel-collector", "Go"),
    (false, "logstash", "elastic", "logstash", "Java"),
    (false, "fluentd", "fluent", "fluentd", "Ruby"),
    (false, "fluent-bit", "fluent", "fluent-bit", "C"),
    (false, "kube-apiserver", "kubernetes", "kube-apiserver", "Go"),
    (false, "kube-controller-manager", "kubernetes", "kube-controller-manager", "Go"),
    (false, "kube-scheduler", "kubernetes", "kube-scheduler", "Go"),
    (false, "kube-proxy", "kubernetes", "kube-proxy", "Go"),
    (false, "coredns", "kubernetes", "coredns", "Go"),
    (false, "etcd", "kubernetes", "etcd", "Go"),
    (true, "ose-", "openshift", "ose", "Go"),
    (false, "proxyv2", "istio", "istio-proxy", "C++"),
    (false, "proxy", "linkerd", "linkerd-proxy", "Rust"),
    (true, "linkerd2-proxy", "linkerd", "linkerd-proxy", "Rust"),
    (false, "jaeger-agent", "jaeger", "jaeger-agent", "Go"),
    (false, "jaeger-collector", "jaeger", "jaeger-collector", "Go"),
    (false, "jaeger-query", "jaeger", "jaeger-query", "Go"),
];

/// What executables stand for: the vendor, the product and the language.
pub const PROCESS_RULES: [(&'static str, &'static str, &'static str, &'static str); 25] = [
    ("java", "eclipse", "java", "Java"),
    ("node", "openjs", "nodejs", "JavaScript"),
    ("python", "python-software-foundation", "python", "Python"),
    ("python3", "python-software-foundation", "python", "Python"),
    ("ruby", "", "ruby", "Ruby"),
    ("php", "", "php", "PHP"),
    ("php-fpm", "", "php-fpm", "PHP"),
    ("nginx", "nginx", "nginx", "C"),
    ("httpd", "apache", "httpd", "C"),
    ("apache2", "apache", "httpd", "C"),
    ("haproxy", "haproxy", "haproxy", "C"),
    ("envoy", "envoy-proxy", "envoy", "C++"),
    ("traefik", "traefik", "traefik", "Go"),
    ("caddy", "caddy", "caddy", "Go"),
    ("redis-server", "redis-labs", "redis", "C"),
    ("postgres", "postgresql", "postgres", "C"),
    ("postmaster", "postgresql", "postgres", "C"),
    ("mysqld", "oracle", "mysql", "C++"),
    ("mysqld_safe", "oracle", "mysql", "C++"),
    ("mariadbd", "mariadb", "mariadb", "C++"),
    ("mongod", "mongodb", "mongodb", "C++"),
    ("rabbitmq-server", "vmware", "rabbitmq", "Erlang"),
    ("oracle", "oracle", "oracle-database", "C"),
    ("dbca", "oracle", "oracle-database", "C"),
    ("sqlplus", "oracle", "oracle-database", "C"),
];

/// What is cut off the end of a tag, one after the other.
pub const VERSION_SUFFIXES: [&'static str; 10] = [
    "-alpine",
    "-slim",
    "-jre",
    "-jdk",
    "-bullseye",
    "-bookworm",
    "-distroless",
    "-ubi",
    "-ubi8",
    "-ubi9",
];

// ------------------------------------------------------------------ images

/// The first part of an image names the registry that it comes from.
pub open spec fn is_registry(head: Seq<char>) -> bool {
    head.contains('.') || head.contains(':') || head == "localhost"@
}

/// An image without the registry that it comes from.
pub open spec fn without_registry(image: Seq<char>) -> Seq<char> {
    match text::position(image, '/') {
        Some(i) => if is_registry(text::around(image, i).0) {
            text::around(image, i).1
        } else {
            image
        },
        None => image,
    }
}

fn has_char(text: &str, c: char) -> (r: bool)
    ensures
        r == text@.contains(c),
{
    proof {
        text::lemma_position(text@, c);
    }
    find_char(text, c).is_some()
}

/// An image without the registry that it comes from.
pub fn strip_registry<'a>(image: &'a str) -> (r: &'a str)
    ensures
        r@ == without_registry(image@),
{
    match split_once(image, '/') {
        Some((head, rest)) => if has_char(head, '.') || has_char(head, ':') || str_eq(head, "localhost") {
            rest
        } else {
            image
        },
        None => image,
    }
}

/// The repository of an image, and its tag where it has one; a digest is no tag.
pub open spec fn repo_and_tag(image: Seq<char>) -> (Seq<char>, Option<Seq<char>>) {
    match text::position(image, '@') {
        Some(i) => (text::around(image, i).0, None),
        None => match text::last_position(image, ':') {
            Some(i) => if text::around(image, i).1.contains('/') {
                (image, None)
            } else {
                (text::around(image, i).0, Some(text::around(image, i).1))
            },
            None => (image, None),
        },
    }
}

/// The repository of an image, and its tag where it has one; a digest is no tag.
pub fn split_tag<'a>(image: &'a str) -> (r: (&'a str, Option<&'a str>))
    ensures
        (r.0@, r.1.deep_view()) == repo_and_tag(image@),
{
    if let Some((repo, _)) = split_once(image, '@') {
        return (repo, None);
    }
    if let Some((repo, tag)) = rsplit_once(image, ':') {
        if !has_char(tag, '/') {
            return (repo, Some(tag));
        }
    }
    (image, None)
}

/// A text without the letters `v` at its beginning.
pub open spec fn without_v(tag: Seq<char>) -> Seq<char>
    decreases tag.len(),
{
    if tag.len() > 0 && tag[0] == 'v' {
        without_v(tag.drop_first())
    } else {
        tag
    }
}

/// A text without the suffixes from one on, each cut off in turn.
pub open spec fn without_suffixes(text: Seq<char>, from: int) -> Seq<char>
    decreases VERSION_SUFFIXES@.len() - from,
{
    if from < 0 || from >= VERSION_SUFFIXES@.len() {
        text
    } else {
        without_suffixes(text::without_suffix(text, VERSION_SUFFIXES@[from]@), from + 1)
    }
}

/// The version that a tag stands for.
pub open spec fn version_of(tag: Seq<char>) -> Seq<char> {
    without_suffixes(without_v(tag), 0)
}

fn trim_v<'a>(tag: &'a str) -> (r: &'a str)
    ensures
        r@ == without_v(tag@),
{
    let mut rest = tag;
    loop
        invariant
            without_v(rest@) == without_v(tag@),
        decreases rest@.len(),
    {
        proof {
            reveal_strlit("v");
            assert("v"@ =~= seq!['v']);
        }
        match strip_prefix(rest, "v") {
            Some(shorter) => {
                assert(rest@.subrange(0, 1)[0] == rest@[0]);
                assert(shorter@ =~= rest@.drop_first());
                rest = shorter;
            },
            None => {
                proof {
                    if rest@.len() > 0 && rest@[0] == 'v' {
                        assert(rest@.subrange(0, 1) =~= "v"@);
                    }
                }
                return rest;
            },
        }
    }
}

/// The version that a tag stands for: without the letter before it, and without what says how
/// the image was built.
pub fn normalize_version(tag: &str) -> (r: String)
    ensures
        r@ == version_of(tag@),
{
    let mut text = trim_v(tag);
    let mut i: usize = 0;
    while i < 10
        invariant
            i <= 10,
            without_suffixes(text@, i as int) == version_of(tag@),
        decreases 10 - i,
    {
        if let Some(shorter) = strip_suffix(text, VERSION_SUFFIXES[i]) {
            text = shorter;
        }
        i += 1;
    }
    owned(text)
}

/// What stands after the last slash.
pub open spec fn last_segment(path: Seq<char>) -> Seq<char> {
    match text::last_position(path, '/') {
        Some(i) => text::around(path, i).1,
        None => path,
    }
}

/// What stands after the last slash.
pub fn final_segment<'a>(path: &'a str) -> (r: &'a str)
    ensures
        r@ == last_segment(path@),
{
    match rsplit_once(path, '/') {
        Some((_, name)) => name,
        None => path,
    }
}

/// A rule is about images of a name.
pub open spec fn rule_matches(i: int, name: Seq<char>) -> bool {
    if IMAGE_RULES@[i].0 {
        text::has_prefix(name, IMAGE_RULES@[i].1@)
    } else {
        name == IMAGE_RULES@[i].1@
    }
}

/// The first rule, from one on, that is about images of a name.
pub open spec fn image_rule(name: Seq<char>, from: int) -> Option<int>
    decreases IMAGE_RULES@.len() - from,
{
    if from < 0 || from >= IMAGE_RULES@.len() {
        None
    } else if rule_matches(from, name) {
        Some(from)
    } else {
        image_rule(name, from + 1)
    }
}

fn find_image_rule(name: &str) -> (r: Option<usize>)
    ensures
        match r {
            Some(i) => i < IMAGE_RULES@.len() && image_rule(name@, 0) == Some(i as int),
            None => image_rule(name@, 0) is None,
        },
{
    let rules = IMAGE_RULES;
    let mut i: usize = 0;
    while i < rules.len()
        invariant
            rules == IMAGE_RULES,
            i <= rules.len(),
            image_rule(name@, 0) == image_rule(name@, i as int),
        decreases rules.len() - i,
    {
        let (prefix, pattern, _, _, _) = rules[i];
        let matches = if prefix {
            starts_with(name, pattern)
        } else {
            str_eq(name, pattern)
        };
        if matches {
            return Some(i);
        }
        i += 1;
    }
    None
}

/// A text, where there is one that is not empty.
pub open spec fn some_text(text: Seq<char>) -> Option<Seq<char>> {
    if text.len() == 0 {
        None
    } else {
        Some(text)
    }
}

fn opt_text(text: &str) -> (r: Option<String>)
    ensures
        r.deep_view() == some_text(text@),
{
    if text.is_empty() {
        None
    } else {
        Some(owned(text))
    }
}

/// What a product is a kind of, where that is told.
pub open spec fn subtype_of(product: Seq<char>) -> Option<Seq<char>> {
    if product == "postgres"@ {
        Some("postgresql"@)
    } else {
        None
    }
}

fn product_subtype(product: &str) -> (r: Option<String>)
    ensures
        r.deep_view() == subtype_of(product@),
{
    if str_eq(product, "postgres") {
        Some(owned("postgresql"))
    } else {
        None
    }
}

/// The version of a tag, where there is one.
pub open spec fn opt_version(tag: Option<Seq<char>>) -> Option<Seq<char>> {
    match tag {
        Some(tag) => Some(version_of(tag)),
        None => None,
    }
}

fn tag_version(tag: Option<&str>) -> (r: Option<String>)
    ensures
        r.deep_view() == opt_version(tag.deep_view()),
{
    match tag {
        Some(tag) => Some(normalize_version(tag)),
        None => None,
    }
}

/// The technology of an image.
pub open spec fn image_technology(image: Seq<char>) -> TechnologyView {
    let (repo, tag) = repo_and_tag(without_registry(image));
    let name = text::lowercase(last_segment(repo));
    if text::has_prefix(text::lowercase(repo), "distroless/"@) || text::contains_text(text::lowercase(repo), "/distroless/"@) {
        TechnologyView {
            vendor: Some("distroless"@),
            product: Some("distroless"@),
            version: opt_version(tag),
            language: None,
            source: "image"@,
            subtype: None,
        }
    } else {
        match image_rule(name, 0) {
            Some(i) => TechnologyView {
                vendor: Some(IMAGE_RULES@[i].2@),
                product: Some(IMAGE_RULES@[i].3@),
                version: opt_version(tag),
                language: some_text(IMAGE_RULES@[i].4@),
                source: "image"@,
                subtype: subtype_of(IMAGE_RULES@[i].3@),
            },
            None => TechnologyView {
                vendor: None,
                product: Some(name),
                version: opt_version(tag),
                language: None,
                source: "image"@,
                subtype: None,
            },
        }
    }
}

/// The technology of an image: that of the first rule about its name; the name itself, else.
pub fn detect(image: &str) -> (r: Technology)
    ensures
        r.deep_view() == image_technology(image@),
{
    let (repo, tag) = split_tag(strip_registry(image));
    let repo_lower = to_lowercase(repo);
    if starts_with(repo_lower.as_str(), "distroless/") || contains(repo_lower.as_str(), "/distroless/") {
        return Technology {
            vendor: Some(owned("distroless")),
            product: Some(owned("distroless")),
            version: tag_version(tag),
            language: None,
            source: "image",
            subtype: None,
        };
    }
    let name = to_lowercase(final_segment(repo));
    match find_image_rule(name.as_str()) {
        Some(i) => {
            let rules = IMAGE_RULES;
            let (_, _, vendor, product, language) = rules[i];
            Technology {
                vendor: Some(owned(vendor)),
                product: Some(owned(product)),
                version: tag_version(tag),
                language: opt_text(language),
                source: "image",
                subtype: product_subtype(product),
            }
        },
        None => Technology {
            vendor: None,
            product: Some(name),
            version: tag_version(tag),
            language: None,
            source: "image",
            subtype: None,
        },
    }
}

/// A technology without a version.
pub open spec fn stack(
    vendor: Option<Seq<char>>,
    product: Seq<char>,
    language: Option<Seq<char>>,
    source: Seq<char>,
    subtype: Seq<char>,
) -> TechnologyView {
    TechnologyView { vendor, product: Some(product), version: None, language, source, subtype: Some(subtype) }
}

fn build_stack(
    vendor: Option<&'static str>,
    product: &'static str,
    language: Option<&'static str>,
    source: &'static str,
    subtype: &'static str,
) -> (r: Technology)
    ensures
        r.deep_view() == stack(vendor.deep_view(), product@, language.deep_view(), source@, subtype@),
{
    Technology {
        vendor: opt_owned(vendor),
        product: Some(owned(product)),
        version: None,
        language: opt_owned(language),
        source,
        subtype: Some(owned(subtype)),
    }
}

/// The application stack that the path of an image names, where it names one.
pub open spec fn image_stack(image: Seq<char>) -> Option<TechnologyView> {
    let repo = text::lowercase(without_registry(repo_and_tag(image).0));
    let name = last_segment(repo);
    if text::has_prefix(text::lowercase(image), "container-registry.oracle.com/database/"@) {
        Some(stack(Some("oracle"@), "oracle-database"@, None, "image"@, "oracle_database"@))
    } else if text::has_prefix(repo, "gvenzl/oracle-"@) {
        Some(stack(Some("gvenzl"@), "oracle-database"@, None, "image"@, "oracle_database"@))
    } else if repo == "oracle/database"@ || text::has_suffix(repo, "/oracle/database"@) {
        Some(stack(Some("oracle"@), "oracle-database"@, None, "image"@, "oracle_database"@))
    } else if text::contains_text(repo, "springboot"@) || text::contains_text(repo, "spring-boot"@) {
        Some(stack(None, "spring-boot"@, Some("Java"@), "image"@, "spring_boot"@))
    } else if text::has_prefix(name, "angular-"@) || text::contains_text(name, "-ng-"@) || text::has_prefix(name, "ng-"@) {
        Some(stack(None, "angular"@, None, "image"@, "angular"@))
    } else {
        None
    }
}

/// The application stack that the path of an image names, where it names one.
pub fn detect_application_stack_from_image(image: &str) -> (r: Option<Technology>)
    ensures
        r.deep_view() == image_stack(image@),
{
    let lower_full = to_lowercase(image);
    let (repo_no_tag, _) = split_tag(image);
    let repo_lower = to_lowercase(strip_registry(repo_no_tag));
    let repo = repo_lower.as_str();
    let name = final_segment(repo);
    if starts_with(lower_full.as_str(), "container-registry.oracle.com/database/") {
        return Some(build_stack(Some("oracle"), "oracle-database", None, "image", "oracle_database"));
    }
    if starts_with(repo, "gvenzl/oracle-") {
        return Some(build_stack(Some("gvenzl"), "oracle-database", None, "image", "oracle_database"));
    }
    if str_eq(repo, "oracle/database") || ends_with(repo, "/oracle/database") {
        return Some(build_stack(Some("oracle"), "oracle-database", None, "image", "oracle_database"));
    }
    if contains(repo, "springboot") || contains(repo, "spring-boot") {
        return Some(build_stack(None, "spring-boot", Some("Java"), "image", "spring_boot"));
    }
    if starts_with(name, "angular-") || contains(name, "-ng-") || starts_with(name, "ng-") {
        return Some(build_stack(None, "angular", None, "image", "angular"));
    }
    None
}

// --------------------------------------------------------------- processes

/// An argument is about Spring.
pub open spec fn names_spring(arg: Seq<char>) -> bool {
    let lower = text::lowercase(arg);
    text::contains_text(lower, "spring"@) || text::contains_text(lower, "springboot"@) || text::contains_text(
        lower,
        "-dspring.profiles.active"@,
    ) || text::contains_text(lower, "spring.profiles.active"@)
}

/// The process runs Java.
pub open spec fn runs_java(tech: TechnologyView, command: Seq<Seq<char>>) -> bool {
    tech.product == Some("java"@) || command.any(|entry: Seq<char>| last_segment(entry) == "java"@)
}

/// A technology, told to be Spring Boot where the process runs Java with something of Spring.
pub open spec fn spring_refined(
    tech: TechnologyView,
    command: Seq<Seq<char>>,
    args: Seq<Seq<char>>,
) -> TechnologyView {
    if runs_java(tech, command) && (command.any(|arg: Seq<char>| names_spring(arg)) || args.any(
        |arg: Seq<char>| names_spring(arg),
    )) {
        TechnologyView { subtype: Some("spring_boot"@), ..tech }
    } else {
        tech
    }
}

fn any_names_spring(list: &Vec<String>) -> (r: bool)
    ensures
        r == list.deep_view().any(|arg: Seq<char>| names_spring(arg)),
{
    let spring = |arg: &String| -> (b: bool)
        ensures
            b == names_spring(arg.deep_view()),
        {
            let lower = to_lowercase(arg.as_str());
            let lower = lower.as_str();
            contains(lower, "spring") || contains(lower, "springboot") || contains(lower, "-dspring.profiles.active")
                || contains(lower, "spring.profiles.active")
        };
    any_item(list, spring, Ghost(|arg: Seq<char>| names_spring(arg)))
}

/// A technology, told to be Spring Boot where the process runs Java with something of Spring.
pub fn refine_spring_boot(tech: Technology, command: &Vec<String>, args: &Vec<String>) -> (r: Technology)
    ensures
        r.deep_view() == spring_refined(tech.deep_view(), command.deep_view(), args.deep_view()),
{
    let java = |entry: &String| -> (b: bool)
        ensures
            b == (last_segment(entry.deep_view()) == "java"@),
        { str_eq(final_segment(entry.as_str()), "java") };
    let product_is_java = match &tech.product {
        Some(product) => str_eq(product.as_str(), "java"),
        None => false,
    };
    let is_java = product_is_java || any_item(command, java, Ghost(|entry: Seq<char>| last_segment(entry) == "java"@));
    if is_java && (any_names_spring(command) || any_names_spring(args)) {
        Technology { subtype: Some(owned("spring_boot")), ..tech }
    } else {
        tech
    }
}

/// The text begins with a digit and holds only letters, digits, dots, dashes and underscores.
pub open spec fn version_like(text: Seq<char>) -> bool {
    &&& text.len() > 0
    &&& text::is_digit(text[0])
    &&& forall|i: int| 0 <= i < text.len() ==> version_char(#[trigger] text[i])
}

/// A character that versions are written with.
pub open spec fn version_char(c: char) -> bool {
    text::is_alphanumeric(c) || c == '.' || c == '-' || c == '_'
}

/// Whether a text, without the blanks around it, looks like a version.
pub fn is_version_like(value: &str) -> (r: bool)
    ensures
        r == version_like(text::trimmed(value@)),
{
    let chars = chars_of(trim(value));
    if chars.len() == 0 {
        return false;
    }
    let mut i: usize = 0;
    while i < chars.len()
        invariant
            i <= chars.len(),
            chars@ == text::trimmed(value@),
            forall|j: int| 0 <= j < i ==> version_char(#[trigger] chars@[j]),
        decreases chars.len() - i,
    {
        let c = chars[i];
        if !(char_is_alphanumeric(c) || c == '.' || c == '-' || c == '_') {
            assert(!version_char(chars@[i as int]));
            return false;
        }
        i += 1;
    }
    char_is_digit(chars[0])
}

/// The version that an option of the form `option=version` gives, where it gives one.
pub open spec fn inline_version(arg: Seq<char>, option: Seq<char>) -> Option<Seq<char>> {
    if text::has_prefix(arg, option) && version_like(text::trimmed(text::after_prefix(arg, option))) {
        Some(text::trimmed(text::after_prefix(arg, option)))
    } else {
        None
    }
}

fn read_inline_version<'a>(arg: &'a str, option: &str) -> (r: Option<&'a str>)
    ensures
        r.deep_view() == inline_version(arg@, option@),
{
    match strip_prefix(arg, option) {
        Some(rest) => {
            let v = trim(rest);
            proof {
                text::lemma_trimmed_idempotent(rest@);
            }
            if is_version_like(v) {
                Some(v)
            } else {
                None
            }
        },
        None => None,
    }
}

/// The version that an argument gives by itself, where it gives one.
pub open spec fn own_version(arg: Seq<char>) -> Option<Seq<char>> {
    match inline_version(arg, "--version="@) {
        Some(v) => Some(v),
        None => inline_version(arg, "-version="@),
    }
}

/// The first version that an argument, from one on, gives by itself.
pub open spec fn first_own_version(args: Seq<Seq<char>>, from: int) -> Option<Seq<char>>
    decreases args.len() - from,
{
    if from < 0 || from >= args.len() {
        None
    } else if own_version(args[from]) is Some {
        own_version(args[from])
    } else {
        first_own_version(args, from + 1)
    }
}

/// The version that an argument gives after an option, where it gives one.
pub open spec fn following_version(args: Seq<Seq<char>>, i: int) -> Option<Seq<char>> {
    if (args[i] == "--version"@ || args[i] == "-version"@) && version_like(text::trimmed(args[i + 1])) {
        Some(text::trimmed(args[i + 1]))
    } else {
        None
    }
}

/// The first version that an argument gives after an option, from one on.
pub open spec fn first_following_version(args: Seq<Seq<char>>, from: int) -> Option<Seq<char>>
    decreases args.len() - from,
{
    if from < 0 || from + 1 >= args.len() {
        None
    } else if following_version(args, from) is Some {
        following_version(args, from)
    } else {
        first_following_version(args, from + 1)
    }
}

/// The version that the arguments of a process give, where they give one.
pub open spec fn process_version(args: Seq<Seq<char>>) -> Option<Seq<char>> {
    match first_own_version(args, 0) {
        Some(v) => Some(v),
        None => first_following_version(args, 0),
    }
}

/// The version that the arguments of a process give, where they give one.
pub fn extract_process_version<'a>(args: &'a Vec<String>) -> (r: Option<&'a str>)
    ensures
        r.deep_view() == process_version(args.deep_view()),
{
    let ghost all = args.deep_view();
    let mut i: usize = 0;
    while i < args.len()
        invariant
            i <= args.len(),
            all == args.deep_view(),
            first_own_version(all, 0) == first_own_version(all, i as int),
        decreases args.len() - i,
    {
        let arg = args[i].as_str();
        assert(all[i as int] == arg@);
        let long = read_inline_version(arg, "--version=");
        if long.is_some() {
            return long;
        }
        let short = read_inline_version(arg, "-version=");
        if short.is_some() {
            return short;
        }
        i += 1;
    }
    let total: usize = args.len();
    let mut k: usize = 0;
    while k < total && total - k > 1
        invariant
            k <= total,
            total == args.len(),
            all == args.deep_view(),
            first_own_version(all, 0) is None,
            first_following_version(all, 0) == first_following_version(all, k as int),
        decreases total - k,
    {
        assert(all[k as int] == args@[k as int]@);
        assert(all[k + 1] == args@[k + 1]@);
        if str_eq(args[k].as_str(), "--version") || str_eq(args[k].as_str(), "-version") {
            let v = trim(args[k + 1].as_str());
            proof {
                text::lemma_trimmed_idempotent(args@[k + 1]@);
            }
            if is_version_like(v) {
                return Some(v);
            }
        }
        k += 1;
    }
    None
}

/// The rule about an executable, from one on.
pub open spec fn process_rule(executable: Seq<char>, from: int) -> Option<int>
    decreases PROCESS_RULES@.len() - from,
{
    if from < 0 || from >= PROCESS_RULES@.len() {
        None
    } else if PROCESS_RULES@[from].0@ == executable {
        Some(from)
    } else {
        process_rule(executable, from + 1)
    }
}

fn find_process_rule(executable: &str) -> (r: Option<usize>)
    ensures
        match r {
            Some(i) => i < PROCESS_RULES@.len() && process_rule(executable@, 0) == Some(i as int),
            None => process_rule(executable@, 0) is None,
        },
{
    let rules = PROCESS_RULES;
    let mut i: usize = 0;
    while i < rules.len()
        invariant
            rules == PROCESS_RULES,
            i <= rules.len(),
            process_rule(executable@, 0) == process_rule(executable@, i as int),
        decreases rules.len() - i,
    {
        let (name, _, _, _) = rules[i];
        if str_eq(executable, name) {
            return Some(i);
        }
        i += 1;
    }
    None
}

/// The rule about an entry of a command line, by what stands after its last slash.
pub open spec fn entry_rule(entry: Seq<char>) -> Option<int> {
    if last_segment(entry).len() == 0 {
        None
    } else {
        process_rule(last_segment(entry), 0)
    }
}

/// The first rule about an entry of a list, from one on.
pub open spec fn line_rule(entries: Seq<Seq<char>>, from: int) -> Option<int>
    decreases entries.len() - from,
{
    if from < 0 || from >= entries.len() {
        None
    } else if entry_rule(entries[from]) is Some {
        entry_rule(entries[from])
    } else {
        line_rule(entries, from + 1)
    }
}

fn find_line_rule(entries: &Vec<String>) -> (r: Option<usize>)
    ensures
        match r {
            Some(i) => i < PROCESS_RULES@.len() && line_rule(entries.deep_view(), 0) == Some(i as int),
            None => line_rule(entries.deep_view(), 0) is None,
        },
{
    let ghost all = entries.deep_view();
    let mut i: usize = 0;
    while i < entries.len()
        invariant
            i <= entries.len(),
            all == entries.deep_view(),
            line_rule(all, 0) == line_rule(all, i as int),
        decreases entries.len() - i,
    {
        assert(all[i as int] == entries@[i as int]@);
        let name = final_segment(entries[i].as_str());
        if !name.is_empty() {
            let rule = find_process_rule(name);
            if rule.is_some() {
                return rule;
            }
        }
        i += 1;
    }
    None
}

/// The rule about a process: that of the first entry of its command line that there is one for.
pub open spec fn command_rule(command: Seq<Seq<char>>, args: Seq<Seq<char>>) -> Option<int> {
    match line_rule(command, 0) {
        Some(i) => Some(i),
        None => line_rule(args, 0),
    }
}

/// The technology of a process, where its executable is known.
pub open spec fn process_technology(command: Seq<Seq<char>>, args: Seq<Seq<char>>) -> Option<TechnologyView> {
    match command_rule(command, args) {
        Some(i) => Some(
            TechnologyView {
                vendor: some_text(PROCESS_RULES@[i].1@),
                product: Some(PROCESS_RULES@[i].2@),
                version: opt_version(process_version(args)),
                language: some_text(PROCESS_RULES@[i].3@),
                source: "process"@,
                subtype: subtype_of(PROCESS_RULES@[i].2@),
            },
        ),
        None => None,
    }
}

/// The technology of a process, where its executable is known.
pub fn detect_from_process(command: &Vec<String>, args: &Vec<String>) -> (r: Option<Technology>)
    ensures
        r.deep_view() == process_technology(command.deep_view(), args.deep_view()),
{
    let rule = match find_line_rule(command) {
        Some(i) => Some(i),
        None => find_line_rule(args),
    };
    match rule {
        Some(i) => {
            let rules = PROCESS_RULES;
            let (_, vendor, product, language) = rules[i];
            Some(
                Technology {
                    vendor: opt_text(vendor),
                    product: Some(owned(product)),
                    version: tag_version(extract_process_version(args)),
                    language: opt_text(language),
                    source: "process",
                    subtype: product_subtype(product),
                },
            )
        },
        None => None,
    }
}

// ------------------------------------------------------------------ labels

/// The technology that a label names, where it names one.
pub open spec fn label_technology(label: (Seq<char>, Seq<char>)) -> Option<TechnologyView> {
    let v = text::lowercase(label.1);
    if label.0 != "app.kubernetes.io/component"@ && label.0 != "app.kubernetes.io/runtime"@ {
        None
    } else if v == "postgres"@ || v == "postgresql"@ {
        Some(stack(Some("postgresql"@), "postgres"@, Some("C"@), "labels"@, "postgresql"@))
    } else if v == "angular"@ {
        Some(stack(None, "angular"@, None, "labels"@, "angular"@))
    } else if v == "spring-boot"@ || v == "spring_boot"@ || v == "springboot"@ {
        Some(stack(None, "spring-boot"@, Some("Java"@), "labels"@, "spring_boot"@))
    } else if v == "oracle"@ || v == "oracle-database"@ || v == "oracle_database"@ {
        Some(stack(Some("oracle"@), "oracle-database"@, None, "labels"@, "oracle_database"@))
    } else {
        None
    }
}

fn technology_of_label(key: &str, value: &str) -> (r: Option<Technology>)
    ensures
        r.deep_view() == label_technology((key@, value@)),
{
    if !str_eq(key, "app.kubernetes.io/component") && !str_eq(key, "app.kubernetes.io/runtime") {
        return None;
    }
    let v = to_lowercase(value);
    let v = v.as_str();
    if str_eq(v, "postgres") || str_eq(v, "postgresql") {
        Some(build_stack(Some("postgresql"), "postgres", Some("C"), "labels", "postgresql"))
    } else if str_eq(v, "angular") {
        Some(build_stack(None, "angular", None, "labels", "angular"))
    } else if str_eq(v, "spring-boot") || str_eq(v, "spring_boot") || str_eq(v, "springboot") {
        Some(build_stack(None, "spring-boot", Some("Java"), "labels", "spring_boot"))
    } else if str_eq(v, "oracle") || str_eq(v, "oracle-database") || str_eq(v, "oracle_database") {
        Some(build_stack(Some("oracle"), "oracle-database", None, "labels", "oracle_database"))
    } else {
        None
    }
}

/// The technology that an annotation names, with its version, where it names one.
pub open spec fn annotation_technology(annotation: (Seq<char>, Seq<char>)) -> Option<TechnologyView> {
    if annotation.0 == "angular.io/version"@ {
        Some(
            TechnologyView {
                version: Some(text::trimmed(annotation.1)),
                ..stack(None, "angular"@, None, "labels"@, "angular"@)
            },
        )
    } else if annotation.0 == "app.spring.io/version"@ {
        Some(
            TechnologyView {
                version: Some(text::trimmed(annotation.1)),
                ..stack(None, "spring-boot"@, Some("Java"@), "labels"@, "spring_boot"@)
            },
        )
    } else {
        None
    }
}

fn technology_of_annotation(key: &str, value: &str) -> (r: Option<Technology>)
    ensures
        r.deep_view() == annotation_technology((key@, value@)),
{
    if str_eq(key, "angular.io/version") {
        Some(
            Technology {
                version: Some(owned(trim(value))),
                ..build_stack(None, "angular", None, "labels", "angular")
            },
        )
    } else if str_eq(key, "app.spring.io/version") {
        Some(
            Technology {
                version: Some(owned(trim(value))),
                ..build_stack(None, "spring-boot", Some("Java"), "labels", "spring_boot")
            },
        )
    } else {
        None
    }
}

/// The first technology that something of a list, from one on, names.
pub open spec fn first_named(
    pairs: Seq<(Seq<char>, Seq<char>)>,
    names: spec_fn((Seq<char>, Seq<char>)) -> Option<TechnologyView>,
    from: int,
) -> Option<TechnologyView>
    decreases pairs.len() - from,
{
    if from < 0 || from >= pairs.len() {
        None
    } else if names(pairs[from]) is Some {
        names(pairs[from])
    } else {
        first_named(pairs, names, from + 1)
    }
}

/// The version that an annotation tells of a stack, where it tells one.
pub open spec fn told_version(annotation: (Seq<char>, Seq<char>), subtype: Option<Seq<char>>) -> Option<Seq<char>> {
    match annotation_technology(annotation) {
        Some(technology) if technology.subtype == subtype => technology.version,
        _ => None,
    }
}

/// The version that the annotations, from one on, tell of a stack.
pub open spec fn annotated_version(
    annotations: Seq<(Seq<char>, Seq<char>)>,
    subtype: Option<Seq<char>>,
    from: int,
) -> Option<Seq<char>>
    decreases annotations.len() - from,
{
    if from < 0 || from >= annotations.len() {
        None
    } else if told_version(annotations[from], subtype) is Some {
        told_version(annotations[from], subtype)
    } else {
        annotated_version(annotations, subtype, from + 1)
    }
}

/// The technology that the labels name, with the version that the annotations tell of it; or else
/// the technology that the annotations name.
pub open spec fn labelled_technology(
    labels: Seq<(Seq<char>, Seq<char>)>,
    annotations: Seq<(Seq<char>, Seq<char>)>,
) -> Option<TechnologyView> {
    match first_named(labels, |l: (Seq<char>, Seq<char>)| label_technology(l), 0) {
        Some(technology) => Some(
            TechnologyView { version: annotated_version(annotations, technology.subtype, 0), ..technology },
        ),
        None => first_named(annotations, |a: (Seq<char>, Seq<char>)| annotation_technology(a), 0),
    }
}

fn version_in_annotations(annotations: &Vec<(&str, &str)>, subtype: &Option<String>) -> (r: Option<String>)
    ensures
        r.deep_view() == annotated_version(annotations.deep_view(), subtype.deep_view(), 0),
{
    let ghost all = annotations.deep_view();
    let mut i: usize = 0;
    while i < annotations.len()
        invariant
            i <= annotations.len(),
            all == annotations.deep_view(),
            annotated_version(all, subtype.deep_view(), 0) == annotated_version(all, subtype.deep_view(), i as int),
        decreases annotations.len() - i,
    {
        let (key, value) = annotations[i];
        assert(all[i as int] == (key@, value@));
        if let Some(technology) = technology_of_annotation(key, value) {
            if opt_str_eq(&technology.subtype, subtype) && technology.version.is_some() {
                return technology.version;
            }
        }
        i += 1;
    }
    None
}

/// The technology that the labels name, with the version that the annotations tell of it; or else
/// the technology that the annotations name.
pub fn detect_from_labels(labels: &Vec<(&str, &str)>, annotations: &Vec<(&str, &str)>) -> (r: Option<Technology>)
    ensures
        r.deep_view() == labelled_technology(labels.deep_view(), annotations.deep_view()),
{
    let ghost all = labels.deep_view();
    let ghost by_label = |l: (Seq<char>, Seq<char>)| label_technology(l);
    let mut i: usize = 0;
    while i < labels.len()
        invariant
            i <= labels.len(),
            all == labels.deep_view(),
            by_label == (|l: (Seq<char>, Seq<char>)| label_technology(l)),
            first_named(all, by_label, 0) == first_named(all, by_label, i as int),
        decreases labels.len() - i,
    {
        let (key, value) = labels[i];
        assert(all[i as int] == (key@, value@));
        if let Some(technology) = technology_of_label(key, value) {
            let version = version_in_annotations(annotations, &technology.subtype);
            return Some(Technology { version, ..technology });
        }
        i += 1;
    }
    let ghost rest = annotations.deep_view();
    let ghost by_annotation = |a: (Seq<char>, Seq<char>)| annotation_technology(a);
    let mut k: usize = 0;
    while k < annotations.len()
        invariant
            k <= annotations.len(),
            rest == annotations.deep_view(),
            all == labels.deep_view(),
            first_named(all, |l: (Seq<char>, Seq<char>)| label_technology(l), 0) is None,
            by_annotation == (|a: (Seq<char>, Seq<char>)| annotation_technology(a)),
            first_named(rest, by_annotation, 0) == first_named(rest, by_annotation, k as int),
        decreases annotations.len() - k,
    {
        let (key, value) = annotations[k];
        assert(rest[k as int] == (key@, value@));
        let named = technology_of_annotation(key, value);
        if named.is_some() {
            return named;
        }
        k += 1;
    }
    None
}

// ----------------------------------------------------------------------- laws

/// An image that is pinned by a digest has no version: a digest is none.
pub proof fn lemma_digest_is_no_version(image: Seq<char>)
    requires
        without_registry(image).contains('@'),
    ensures
        image_technology(image).version is None,
{
    text::lemma_position(without_registry(image), '@');
}

/// The registry that an image comes from does not matter to what the image is.
pub proof fn lemma_registry_does_not_matter(registry: Seq<char>, rest: Seq<char>)
    requires
        is_registry(registry),
        !registry.contains('/'),
        without_registry(rest) == rest,
    ensures
        image_technology(registry + "/"@ + rest) == image_technology(rest),
{
    reveal_strlit("/");
    let image = registry + "/"@ + rest;
    text::lemma_position(image, '/');
    assert(image[registry.len() as int] == '/');
    assert(image.contains('/'));
    let i = text::position(image, '/')->0;
    if i < registry.len() {
        assert(registry[i] == image[i]);
        assert(registry.contains('/'));
    }
    assert(i == registry.len());
    assert(text::around(image, i).0 =~= registry);
    assert(text::around(image, i).1 =~= rest);
}

// ------------------------------------------------------------- what it is for

/// The name of an image, the version that its tag tells and its repository are taken apart at the
/// last colon; a colon before a slash is a port of the registry's and tells no version.
pub proof fn lemma_tag_is_after_the_colon(repo: Seq<char>, tag: Seq<char>)
    requires
        !repo.contains('@'),
        !tag.contains('@'),
        !tag.contains(':'),
    ensures
        !tag.contains('/') ==> repo_and_tag(repo + seq![':'] + tag) == (repo, Some(tag)),
        tag.contains('/') ==> repo_and_tag(repo + seq![':'] + tag) == (repo + seq![':'] + tag, None::<Seq<char>>),
        !repo.contains(':') ==> repo_and_tag(repo) == (repo, None::<Seq<char>>),
{
    let image = repo + seq![':'] + tag;
    text::lemma_position(image, '@');
    if text::position(image, '@') is Some {
        let k = text::position(image, '@')->0;
        if k < repo.len() {
            assert(repo[k] == image[k]);
            assert(repo.contains('@'));
        } else {
            assert(image[repo.len() as int] == ':');
            assert(tag[k - repo.len() - 1] == image[k]);
            assert(tag.contains('@'));
        }
    }
    text::lemma_position(repo, '@');
    text::lemma_last_position(image, ':');
    text::lemma_last_position(repo, ':');
    assert(image[repo.len() as int] == ':');
    assert(image.contains(':'));
    let i = text::last_position(image, ':')->0;
    if i > repo.len() {
        assert(tag[i - repo.len() - 1] == image[i]);
        assert(tag.contains(':'));
    }
    assert(i == repo.len());
    assert(text::around(image, i).0 =~= repo);
    assert(text::around(image, i).1 =~= tag);
}

/// The last part of a path is what stands after its last slash.
pub proof fn lemma_last_part_of_a_path(path: Seq<char>, name: Seq<char>)
    requires
        !name.contains('/'),
    ensures
        last_segment(path + seq!['/'] + name) == name,
        last_segment(name) == name,
{
    let whole = path + seq!['/'] + name;
    text::lemma_last_position(whole, '/');
    text::lemma_last_position(name, '/');
    assert(whole[path.len() as int] == '/');
    assert(whole.contains('/'));
    let i = text::last_position(whole, '/')->0;
    if i > path.len() {
        assert(name[i - path.len() - 1] == whole[i]);
        assert(name.contains('/'));
    }
    assert(i == path.len());
    assert(text::around(whole, i).1 =~= name);
}

/// What stands before the first slash is a registry where it has a dot or a colon, or is the machine
/// itself; nothing else is left away.
pub proof fn lemma_registry_by_its_name(head: Seq<char>, rest: Seq<char>)
    requires
        !head.contains('/'),
    ensures
        head.contains('.') || head.contains(':') || head == "localhost"@ ==> without_registry(head + seq!['/'] + rest)
            == rest,
        !head.contains('.') && !head.contains(':') && head != "localhost"@ ==> without_registry(head + seq!['/'] + rest)
            == head + seq!['/'] + rest,
        without_registry(head) == head,
{
    let image = head + seq!['/'] + rest;
    text::lemma_position(image, '/');
    text::lemma_position(head, '/');
    assert(image[head.len() as int] == '/');
    assert(image.contains('/'));
    let i = text::position(image, '/')->0;
    if i < head.len() {
        assert(head[i] == image[i]);
        assert(head.contains('/'));
    }
    assert(i == head.len());
    assert(text::around(image, i).0 =~= head);
    assert(text::around(image, i).1 =~= rest);
}

/// A tag's leading letters v are no part of the version.
pub proof fn lemma_version_without_v(tag: Seq<char>, n: nat)
    requires
        tag.len() > 0 ==> tag[0] != 'v',
    ensures
        without_v(Seq::new(n, |i: int| 'v') + tag) == tag,
    decreases n,
{
    let whole = Seq::new(n, |i: int| 'v') + tag;
    if n > 0 {
        let k = (n - 1) as nat;
        lemma_version_without_v(tag, k);
        assert(whole.drop_first() =~= Seq::new(k, |i: int| 'v') + tag);
        assert(whole[0] == 'v');
    } else {
        assert(whole =~= tag);
    }
}

/// The first rule that knows an image counts: by its full name, or by how it begins where the rule
/// says so.
pub proof fn lemma_first_rule_counts(name: Seq<char>, from: int)
    requires
        0 <= from <= IMAGE_RULES@.len(),
    ensures
        image_rule(name, from) matches Some(i) ==> {
            &&& from <= i < IMAGE_RULES@.len()
            &&& IMAGE_RULES@[i].0 ==> text::has_prefix(name, IMAGE_RULES@[i].1@)
            &&& !IMAGE_RULES@[i].0 ==> name == IMAGE_RULES@[i].1@
            &&& forall|j: int|
                from <= j < i ==> !((#[trigger] IMAGE_RULES@[j]).0 && text::has_prefix(name, IMAGE_RULES@[j].1@)) && !(
                !IMAGE_RULES@[j].0 && name == IMAGE_RULES@[j].1@)
        },
        image_rule(name, from) is None ==> forall|j: int|
            from <= j < IMAGE_RULES@.len() ==> !((#[trigger] IMAGE_RULES@[j]).0 && text::has_prefix(name, IMAGE_RULES@[j].1@))
                && !(!IMAGE_RULES@[j].0 && name == IMAGE_RULES@[j].1@),
    decreases IMAGE_RULES@.len() - from,
{
    if from < IMAGE_RULES@.len() {
        lemma_first_rule_counts(name, from + 1);
    }
}

/// The first rule that knows an executable counts.
pub proof fn lemma_first_process_rule_counts(executable: Seq<char>, from: int)
    requires
        0 <= from <= PROCESS_RULES@.len(),
    ensures
        process_rule(executable, from) matches Some(i) ==> from <= i < PROCESS_RULES@.len() && PROCESS_RULES@[i].0@
            == executable,
        process_rule(executable, from) is None ==> forall|j: int|
            from <= j < PROCESS_RULES@.len() ==> (#[trigger] PROCESS_RULES@[j]).0@ != executable,
    decreases PROCESS_RULES@.len() - from,
{
    if from < PROCESS_RULES@.len() {
        lemma_first_process_rule_counts(executable, from + 1);
    }
}

/// An image that no rule knows is its own product, told by the last part of its name in lower case;
/// what an image tells is always said to come from the image, with the version of its tag.
pub proof fn lemma_unknown_image_is_its_own_product(image: Seq<char>)
    ensures
        ({
            let told = image_technology(image);
            let (repo, tag) = repo_and_tag(without_registry(image));
            let name = text::lowercase(last_segment(repo));
            &&& told.source == "image"@
            &&& told.product is Some
            &&& tag is None ==> told.version is None
            &&& tag is Some ==> told.version is Some
            &&& image_rule(name, 0) is None && !text::has_prefix(text::lowercase(repo), "distroless/"@) && !text::contains_text(
                text::lowercase(repo),
                "/distroless/"@,
            ) ==> told.product == Some(name) && told.vendor is None && told.language is None
            &&& told.subtype is Some ==> told.product == Some("postgres"@) && told.subtype == Some("postgresql"@)
        }),
{
}

/// A label tells a technology only under one of two keys, and by the words that are known, in
/// whatever case; an annotation tells one by its key, with the version in its value.
pub proof fn lemma_labels_tell_by_known_words(key: Seq<char>, value: Seq<char>)
    ensures
        key != "app.kubernetes.io/component"@ && key != "app.kubernetes.io/runtime"@ ==> label_technology(
            (key, value),
        ) is None,
        key == "app.kubernetes.io/component"@ || key == "app.kubernetes.io/runtime"@ ==> {
            let word = text::lowercase(value);
            let told = label_technology((key, value));
            let names = |subtype: Seq<char>| told is Some && told->0.subtype == Some(subtype) && told->0.source == "labels"@
                && told->0.version is None;
            &&& word == "postgres"@ || word == "postgresql"@ ==> names("postgresql"@) && told->0.product == Some(
                "postgres"@,
            )
            &&& word == "angular"@ ==> names("angular"@)
            &&& word == "spring-boot"@ || word == "spring_boot"@ || word == "springboot"@ ==> names("spring_boot"@)
            &&& word == "oracle"@ || word == "oracle-database"@ || word == "oracle_database"@ ==> names(
                "oracle_database"@,
            )
        },
        key == "angular.io/version"@ ==> (annotation_technology((key, value)) matches Some(told) && told.version == Some(
            text::trimmed(value),
        ) && told.subtype == Some("angular"@)),
        key == "app.spring.io/version"@ ==> (annotation_technology((key, value)) matches Some(told) && told.version
            == Some(text::trimmed(value)) && told.subtype == Some("spring_boot"@)),
        key != "angular.io/version"@ && key != "app.spring.io/version"@ ==> annotation_technology((key, value)) is None,
{
    reveal_strlit("postgres");
    reveal_strlit("postgresql");
    reveal_strlit("angular");
    reveal_strlit("spring-boot");
    reveal_strlit("spring_boot");
    reveal_strlit("springboot");
    reveal_strlit("oracle");
    reveal_strlit("oracle-database");
    reveal_strlit("oracle_database");
    reveal_strlit("angular.io/version");
    reveal_strlit("app.spring.io/version");
    assert("postgres"@[0] == 'p' && "postgresql"@[0] == 'p' && "angular"@[0] == 'a' && "spring-boot"@[0] == 's'
        && "spring_boot"@[0] == 's' && "springboot"@[0] == 's' && "oracle"@[0] == 'o' && "oracle-database"@[0] == 'o'
        && "oracle_database"@[0] == 'o');
    assert("angular.io/version"@.len() == 18 && "app.spring.io/version"@.len() == 21);
}

/// A process that runs Java, and is told of Spring, is Spring's; nothing else of it changes.
pub proof fn lemma_spring_is_java(tech: TechnologyView, command: Seq<Seq<char>>, args: Seq<Seq<char>>, i: int)
    ensures
        ({
            let told = spring_refined(tech, command, args);
            &&& told.vendor == tech.vendor && told.product == tech.product && told.version == tech.version
            &&& told.language == tech.language && told.source == tech.source
            &&& told.subtype == tech.subtype || told.subtype == Some("spring_boot"@)
            &&& tech.product == Some("java"@) && 0 <= i < args.len() && text::contains_text(text::lowercase(args[i]), "spring"@)
                ==> told.subtype == Some("spring_boot"@)
            &&& tech.product == Some("java"@) && 0 <= i < command.len() && text::contains_text(
                text::lowercase(command[i]),
                "spring"@,
            ) ==> told.subtype == Some("spring_boot"@)
            &&& tech.product != Some("java"@) && (forall|k: int|
                0 <= k < command.len() ==> last_segment(#[trigger] command[k]) != "java"@) ==> told == tech
        }),
{
    let spring = |arg: Seq<char>| names_spring(arg);
    let java = |entry: Seq<char>| last_segment(entry) == "java"@;
    if 0 <= i < args.len() && text::contains_text(text::lowercase(args[i]), "spring"@) {
        assert(spring(args[i]));
    }
    if 0 <= i < command.len() && text::contains_text(text::lowercase(command[i]), "spring"@) {
        assert(spring(command[i]));
    }
    if command.any(java) {
        let k = choose|k: int| 0 <= k < command.len() && java(command[k]);
        assert(last_segment(command[k]) == "java"@);
    }
}

proof fn lemma_no_suffix_to_go(text: Seq<char>, from: int)
    requires
        0 <= from <= VERSION_SUFFIXES@.len(),
        forall|j: int| from <= j < VERSION_SUFFIXES@.len() ==> !text::has_suffix(text, (#[trigger] VERSION_SUFFIXES@[j])@),
    ensures
        without_suffixes(text, from) == text,
    decreases VERSION_SUFFIXES@.len() - from,
{
    if from < VERSION_SUFFIXES@.len() {
        assert(!text::has_suffix(text, VERSION_SUFFIXES@[from]@));
        lemma_no_suffix_to_go(text, from + 1);
    }
}

proof fn lemma_first_suffix_goes(text: Seq<char>, k: int, from: int)
    requires
        0 <= from <= k < VERSION_SUFFIXES@.len(),
        forall|j: int| 0 <= j < VERSION_SUFFIXES@.len() ==> !text::has_suffix(text, (#[trigger] VERSION_SUFFIXES@[j])@),
        forall|j: int|
            from <= j < k ==> !text::has_suffix(text + VERSION_SUFFIXES@[k]@, (#[trigger] VERSION_SUFFIXES@[j])@),
    ensures
        without_suffixes(text + VERSION_SUFFIXES@[k]@, from) == text,
    decreases k - from,
{
    let suffix = VERSION_SUFFIXES@[k]@;
    let whole = text + suffix;
    if from < k {
        assert(!text::has_suffix(whole, VERSION_SUFFIXES@[from]@));
        lemma_first_suffix_goes(text, k, from + 1);
    } else {
        assert(whole.subrange(whole.len() - suffix.len(), whole.len() as int) =~= suffix);
        assert(whole.subrange(0, whole.len() - suffix.len()) =~= text);
        assert(text::without_suffix(whole, suffix) == text);
        lemma_no_suffix_to_go(text, from + 1);
    }
}

/// A version is its tag without a suffix that tells how the image was built, and the tag itself where
/// it has none.
pub proof fn lemma_version_without_suffix(tag: Seq<char>, k: int)
    requires
        tag.len() > 0,
        tag[0] != 'v',
        0 <= k < VERSION_SUFFIXES@.len(),
        forall|j: int| 0 <= j < VERSION_SUFFIXES@.len() ==> !text::has_suffix(tag, (#[trigger] VERSION_SUFFIXES@[j])@),
        forall|j: int| 0 <= j < k ==> !text::has_suffix(tag + VERSION_SUFFIXES@[k]@, (#[trigger] VERSION_SUFFIXES@[j])@),
    ensures
        version_of(tag) == tag,
        version_of(tag + VERSION_SUFFIXES@[k]@) == tag,
{
    let whole = tag + VERSION_SUFFIXES@[k]@;
    assert(whole[0] == tag[0]);
    lemma_no_suffix_to_go(tag, 0);
    lemma_first_suffix_goes(tag, k, 0);
}

/// A process is known by the first word of its command line that is an executable of the table, and
/// is said to come from the process.
pub proof fn lemma_process_by_its_executable(command: Seq<Seq<char>>, args: Seq<Seq<char>>)
    ensures
        command.len() > 0 && last_segment(command[0]).len() > 0 ==> (process_rule(last_segment(command[0]), 0) matches Some(
            i,
        ) ==> (process_technology(command, args) matches Some(told) && told.product == Some(PROCESS_RULES@[i].2@)
            && told.source == "process"@ && (PROCESS_RULES@[i].1@.len() > 0 ==> told.vendor == Some(
            PROCESS_RULES@[i].1@,
        )) && (PROCESS_RULES@[i].1@.len() == 0 ==> told.vendor is None))),
        command.len() == 0 && args.len() > 0 && last_segment(args[0]).len() > 0 ==> (process_rule(
            last_segment(args[0]),
            0,
        ) matches Some(i) ==> (process_technology(command, args) matches Some(told) && told.product == Some(
            PROCESS_RULES@[i].2@,
        ))),
        command.len() == 0 && args.len() == 0 ==> process_technology(command, args) is None,
{
}

/// An image tells a stack by where it comes from and by what it is called: Oracle's databases, Spring
/// Boot's and Angular's images.
pub proof fn lemma_stacks_by_image(image: Seq<char>)
    ensures
        text::has_prefix(text::lowercase(image), "container-registry.oracle.com/database/"@) ==> (image_stack(image) matches Some(told)
            && told.subtype == Some("oracle_database"@) && told.vendor == Some("oracle"@)),
        ({
            let repo = text::lowercase(without_registry(repo_and_tag(image).0));
            let name = last_segment(repo);
            let spring = text::contains_text(repo, "springboot"@) || text::contains_text(repo, "spring-boot"@);
            let angular = text::has_prefix(name, "angular-"@) || text::contains_text(name, "-ng-"@) || text::has_prefix(name, "ng-"@);
            let oracle = text::has_prefix(text::lowercase(image), "container-registry.oracle.com/database/"@) || text::has_prefix(
                repo,
                "gvenzl/oracle-"@,
            ) || repo == "oracle/database"@ || text::has_suffix(repo, "/oracle/database"@);
            &&& image_stack(image) is Some <==> oracle || spring || angular
            &&& oracle ==> image_stack(image)->0.subtype == Some("oracle_database"@)
            &&& !oracle && spring ==> image_stack(image)->0.subtype == Some("spring_boot"@)
            &&& !oracle && !spring && angular ==> image_stack(image)->0.subtype == Some("angular"@)
        }),
{
}

/// A version of a process is one that begins with a digit, told with its option or after it.
pub proof fn lemma_version_of_a_process(args: Seq<Seq<char>>, version: Seq<char>)
    requires
        version_like(version),
        text::is_trimmed(version),
    ensures
        args.len() > 0 && args[0] == "--version="@ + version ==> process_version(args) == Some(version),
        version.len() > 0 && text::is_digit(version[0]),
{
    if args.len() > 0 && args[0] == "--version="@ + version {
        let start = "--version="@;
        assert(args[0].subrange(0, start.len() as int) =~= start);
        assert(args[0].subrange(start.len() as int, args[0].len() as int) =~= version);
        text::lemma_is_trimmed(version);
        assert(own_version(args[0]) == Some(version));
    }
}

/// The first label that tells a technology counts, before every annotation; annotations give its
/// version.
pub proof fn lemma_first_label_counts(labels: Seq<(Seq<char>, Seq<char>)>, annotations: Seq<(Seq<char>, Seq<char>)>)
    ensures
        labels.len() > 0 && label_technology(labels[0]) is Some ==> (labelled_technology(labels, annotations) matches Some(
            told,
        ) && told.product == label_technology(labels[0])->0.product && told.subtype == label_technology(
            labels[0],
        )->0.subtype),
        labels.len() == 0 && annotations.len() > 0 && annotation_technology(annotations[0]) is Some
            ==> labelled_technology(labels, annotations) == annotation_technology(annotations[0]),
        labels.len() > 0 && label_technology(labels[0]) is Some && annotations.len() > 0 && annotation_technology(
            annotations[0],
        ) is Some && annotation_technology(annotations[0])->0.subtype == label_technology(labels[0])->0.subtype
            ==> labelled_technology(labels, annotations)->0.version == annotation_technology(annotations[0])->0.version,
        labels.len() > 0 && label_technology(labels[0]) is Some && annotations.len() == 0 ==> labelled_technology(
            labels,
            annotations,
        )->0.version is None,
        labels.len() == 0 && annotations.len() == 0 ==> labelled_technology(labels, annotations) is None,
{
}

} // verus!
