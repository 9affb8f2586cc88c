//! The verifiable core of the container-preview subsystem: resolved port
//! configurations, the choice of the preview service, and service-name
//! uniqueness. Runners, sockets and icon fetching stay outside.

use vstd::prelude::*;

use crate::chars::{chars_of, eq_chars, trim_edges, trimmed_edges, TrimClass};
use crate::naming::{slugified, slugify};
use crate::numbers::{dec_of, u64_dec_string};

verus! {

/// One requested container port, resolved from the project's config.
pub struct ResolvedContainerPortConfig {
    pub service: String,
    pub container: u16,
    pub protocol: String,
    pub preview: bool,
}

/// The mathematical shadow of a resolved port.
pub struct PortView {
    pub service: Seq<char>,
    pub container: u16,
    pub protocol: Seq<char>,
    pub preview: bool,
}

impl View for ResolvedContainerPortConfig {
    type V = PortView;

    open spec fn view(&self) -> PortView {
        PortView {
            service: self.service@,
            container: self.container,
            protocol: self.protocol@,
            preview: self.preview,
        }
    }
}

/// A whole resolved container configuration.
pub struct ResolvedContainerConfig {
    pub version: i64,
    pub package_manager: String,
    pub start: String,
    pub env_file: Option<String>,
    pub workdir: String,
    pub ports: Vec<ResolvedContainerPortConfig>,
}

/// One allocated host-to-container port mapping.
pub struct RunnerPortMapping {
    pub service: String,
    pub protocol: String,
    pub container: u16,
    pub host: u16,
}

pub struct ContainerLoadArgs {
    pub task_path: String,
}

pub struct ContainerStartArgs {
    pub task_id: String,
    pub task_path: String,
    pub run_id: Option<String>,
    pub mode: Option<String>,
}

pub struct ContainerStopArgs {
    pub task_id: String,
}

pub struct ContainerInspectArgs {
    pub task_id: String,
}

pub struct ResolveIconArgs {
    pub service: String,
    pub allow_network: Option<bool>,
    pub task_path: Option<String>,
}

/// Holds nothing yet: the runner's state lives with the runner.
pub struct ContainerState {}

impl ContainerState {
    pub fn new() -> Self {
        ContainerState {  }
    }
}

/// The port assumed when a project configures none: the `app` service on
/// container port 3000, previewed.
pub fn default_port() -> (r: ResolvedContainerPortConfig)
    ensures
        r@.service == "app"@,
        r@.container == 3000,
        r@.protocol == "tcp"@,
        r@.preview,
{
    ResolvedContainerPortConfig {
        service: "app".to_owned(),
        container: 3000,
        protocol: "tcp".to_owned(),
        preview: true,
    }
}

/// An owned copy of a resolved port, equal in view.
pub fn dup_port(p: &ResolvedContainerPortConfig) -> (r: ResolvedContainerPortConfig)
    ensures
        r@ == p@,
{
    ResolvedContainerPortConfig {
        service: p.service.clone(),
        container: p.container,
        protocol: p.protocol.clone(),
        preview: p.preview,
    }
}

/// The first index flagged as the preview, or the length.
pub open spec fn first_preview(s: Seq<PortView>) -> int
    decreases s.len(),
{
    if s.len() == 0 {
        0
    } else if s[0].preview {
        0
    } else {
        1 + first_preview(s.drop_first())
    }
}

proof fn lemma_first_preview(s: Seq<PortView>, i: int)
    requires
        0 <= i <= s.len(),
        forall|j: int| 0 <= j < i ==> !(#[trigger] s[j]).preview,
        i < s.len() ==> s[i].preview,
    ensures
        first_preview(s) == i,
    decreases i,
{
    if i > 0 {
        let t = s.drop_first();
        assert(forall|j: int| 0 <= j < t.len() ==> t[j] == s[j + 1]);
        lemma_first_preview(t, i - 1);
    }
}

/// Keep exactly one preview flag: the first one set, or the first port when
/// none is set. An empty list stays empty.
pub fn ensure_preview_port(ports: &mut Vec<ResolvedContainerPortConfig>)
    ensures
        final(ports)@.len() == old(ports)@.len(),
        forall|i: int|
            0 <= i < final(ports)@.len() ==> (#[trigger] final(ports)@[i])@.service
                == old(ports)@[i]@.service && final(ports)@[i]@.container
                == old(ports)@[i]@.container && final(ports)@[i]@.protocol
                == old(ports)@[i]@.protocol,
        forall|i: int|
            0 <= i < final(ports)@.len() ==> (#[trigger] final(ports)@[i])@.preview == (
            if first_preview(old(ports)@.map_values(|p: ResolvedContainerPortConfig| p@))
                < old(ports)@.len() {
                i == first_preview(old(ports)@.map_values(|p: ResolvedContainerPortConfig| p@))
            } else {
                i == 0
            }),
{
    let ghost olds = ports@;
    let ghost views = ports@.map_values(|p: ResolvedContainerPortConfig| p@);
    let n = ports.len();
    let mut k: usize = 0;
    while k < n && !ports[k].preview
        invariant
            ports@ == olds,
            views == olds.map_values(|p: ResolvedContainerPortConfig| p@),
            n == olds.len(),
            k <= n,
            forall|j: int| 0 <= j < k ==> !(#[trigger] views[j]).preview,
        decreases n - k,
    {
        proof {
            assert(views[k as int] == ports@[k as int]@);
        }
        k = k + 1;
    }
    proof {
        if k < n {
            assert(views[k as int] == olds[k as int]@);
        }
        lemma_first_preview(views, k as int);
    }
    let keep: usize = if k < n {
        k
    } else {
        0
    };
    let mut out: Vec<ResolvedContainerPortConfig> = Vec::new();
    let mut i: usize = 0;
    while i < n
        invariant
            ports@ == olds,
            views == olds.map_values(|p: ResolvedContainerPortConfig| p@),
            n == olds.len(),
            keep == (if first_preview(views) < n {
                first_preview(views)
            } else {
                0
            }),
            i <= n,
            out@.len() == i,
            forall|j: int|
                0 <= j < i ==> (#[trigger] out@[j])@.service == olds[j]@.service && out@[j]@.container
                    == olds[j]@.container && out@[j]@.protocol == olds[j]@.protocol
                    && out@[j]@.preview == (j == keep),
        decreases n - i,
    {
        let mut p = dup_port(&ports[i]);
        p.preview = i == keep;
        out.push(p);
        i = i + 1;
    }
    *ports = out;
}

pub open spec fn dup_service_text(svc: Seq<char>) -> Seq<char> {
    "Duplicate service name \""@ + svc + "\" found in ports array"@
}

pub open spec fn dup_path_text(idx: nat) -> Seq<char> {
    "ports["@ + dec_of(idx) + "].service"@
}

/// A duplicate-service complaint: which index repeats an earlier service.
pub struct ContainerConfigIssue {
    pub message: String,
    pub path: String,
    pub index: usize,
}

/// Whether index `j` repeats an earlier service name.
pub open spec fn dup_at(s: Seq<PortView>, j: int) -> bool {
    exists|i: int| 0 <= i < j && (#[trigger] s[i]).service == s[j].service
}

/// Demand unique service names: the first repeated name, if any, is
/// reported with its position.
pub fn ensure_unique_services(ports: &Vec<ResolvedContainerPortConfig>) -> (r: Option<
    ContainerConfigIssue,
>)
    ensures
        ({
            let views = ports@.map_values(|p: ResolvedContainerPortConfig| p@);
            match r {
                Some(issue) => issue.index < views.len() && dup_at(views, issue.index as int) && (
                forall|j: int| 0 <= j < issue.index ==> !dup_at(views, j)) && issue.message@
                    == dup_service_text(views[issue.index as int].service) && issue.path@
                    == dup_path_text(issue.index as nat),
                None => forall|j: int| 0 <= j < views.len() ==> !dup_at(views, j),
            }
        }),
{
    let ghost views = ports@.map_values(|p: ResolvedContainerPortConfig| p@);
    let n = ports.len();
    let mut j: usize = 0;
    while j < n
        invariant
            views == ports@.map_values(|p: ResolvedContainerPortConfig| p@),
            n == ports@.len(),
            j <= n,
            forall|j2: int| 0 <= j2 < j ==> !dup_at(views, j2),
        decreases n - j,
    {
        let sv = chars_of(ports[j].service.as_str());
        let mut i: usize = 0;
        while i < j
            invariant
                views == ports@.map_values(|p: ResolvedContainerPortConfig| p@),
                n == ports@.len(),
                j < n,
                i <= j,
                sv@ == views[j as int].service,
                forall|j2: int| 0 <= j2 < j ==> !dup_at(views, j2),
                forall|i2: int| 0 <= i2 < i ==> (#[trigger] views[i2]).service != views[
                j as int].service,
            decreases j - i,
        {
            if eq_chars(&chars_of(ports[i].service.as_str()), &sv) {
                proof {
                    assert(views[i as int].service == views[j as int].service);
                    assert(dup_at(views, j as int));
                }
                let mut m: String = "Duplicate service name \"".to_owned();
                m.append(ports[j].service.as_str());
                m.append("\" found in ports array");
                let mut pth: String = "ports[".to_owned();
                let idx_s = u64_dec_string(j as u64);
                pth.append(idx_s.as_str());
                pth.append("].service");
                proof {
                    assert((j as u64) as nat == j as nat);
                    assert(m@ == dup_service_text(views[j as int].service));
                    assert(pth@ == dup_path_text(j as nat));
                }
                return Some(ContainerConfigIssue { message: m, path: pth, index: j });
            }
            i = i + 1;
        }
        proof {
            if dup_at(views, j as int) {
                let w = choose|w: int| 0 <= w < j && (#[trigger] views[w]).service == views[
                j as int].service;
                assert(views[w].service != views[j as int].service);
            }
        }
        j = j + 1;
    }
    None
}

/// The first index whose service is `name`, or the length.
pub open spec fn svc_idx(s: Seq<PortView>, name: Seq<char>) -> int
    decreases s.len(),
{
    if s.len() == 0 {
        0
    } else if s[0].service == name {
        0
    } else {
        1 + svc_idx(s.drop_first(), name)
    }
}

proof fn lemma_svc_idx(s: Seq<PortView>, name: Seq<char>, i: int)
    requires
        0 <= i <= s.len(),
        forall|j: int| 0 <= j < i ==> (#[trigger] s[j]).service != name,
        i < s.len() ==> s[i].service == name,
    ensures
        svc_idx(s, name) == i,
    decreases i,
{
    if i > 0 {
        let t = s.drop_first();
        assert(forall|j: int| 0 <= j < t.len() ==> t[j] == s[j + 1]);
        lemma_svc_idx(t, name, i - 1);
    }
}

/// Whether a container port number marks a conventional web app.
pub open spec fn webish_port(p: u16) -> bool {
    p == 3000 || p == 5173 || p == 8080 || p == 8000
}

/// The first index with a conventional web port, or the length.
pub open spec fn web_port_idx(s: Seq<PortView>) -> int
    decreases s.len(),
{
    if s.len() == 0 {
        0
    } else if webish_port(s[0].container) {
        0
    } else {
        1 + web_port_idx(s.drop_first())
    }
}

proof fn lemma_web_port_idx(s: Seq<PortView>, i: int)
    requires
        0 <= i <= s.len(),
        forall|j: int| 0 <= j < i ==> !webish_port((#[trigger] s[j]).container),
        i < s.len() ==> webish_port(s[i].container),
    ensures
        web_port_idx(s) == i,
    decreases i,
{
    if i > 0 {
        let t = s.drop_first();
        assert(forall|j: int| 0 <= j < t.len() ==> t[j] == s[j + 1]);
        lemma_web_port_idx(t, i - 1);
    }
}

/// The service previewed by convention: a well-known frontend name first,
/// then a conventional web port, then the first port, then `app`.
pub open spec fn chosen_preview(s: Seq<PortView>) -> Seq<char> {
    if svc_idx(s, "web"@) < s.len() {
        "web"@
    } else if svc_idx(s, "app"@) < s.len() {
        "app"@
    } else if svc_idx(s, "frontend"@) < s.len() {
        "frontend"@
    } else if svc_idx(s, "ui"@) < s.len() {
        "ui"@
    } else if web_port_idx(s) < s.len() {
        s[web_port_idx(s)].service
    } else if s.len() > 0 {
        s[0].service
    } else {
        "app"@
    }
}

/// The first index whose service is `name`, scanned in order.
fn find_service(ports: &Vec<ResolvedContainerPortConfig>, name: &str) -> (r: Option<usize>)
    ensures
        ({
            let views = ports@.map_values(|p: ResolvedContainerPortConfig| p@);
            match r {
                Some(i) => i < views.len() && svc_idx(views, name@) == i && views[i as int].service
                    == name@,
                None => svc_idx(views, name@) == views.len(),
            }
        }),
{
    let ghost views = ports@.map_values(|p: ResolvedContainerPortConfig| p@);
    let nv = chars_of(name);
    let n = ports.len();
    let mut i: usize = 0;
    while i < n
        invariant
            views == ports@.map_values(|p: ResolvedContainerPortConfig| p@),
            nv@ == name@,
            n == ports@.len(),
            i <= n,
            forall|j: int| 0 <= j < i ==> (#[trigger] views[j]).service != name@,
        decreases n - i,
    {
        if eq_chars(&chars_of(ports[i].service.as_str()), &nv) {
            proof {
                lemma_svc_idx(views, name@, i as int);
            }
            return Some(i);
        }
        i = i + 1;
    }
    proof {
        lemma_svc_idx(views, name@, n as int);
    }
    None
}

/// Pick the service to preview from the requested ports.
pub fn choose_preview_service(requests: &Vec<ResolvedContainerPortConfig>) -> (r: String)
    ensures
        r@ == chosen_preview(requests@.map_values(|p: ResolvedContainerPortConfig| p@)),
{
    let ghost views = requests@.map_values(|p: ResolvedContainerPortConfig| p@);
    if let Some(i) = find_service(requests, "web") {
        return requests[i].service.clone();
    }
    if let Some(i) = find_service(requests, "app") {
        return requests[i].service.clone();
    }
    if let Some(i) = find_service(requests, "frontend") {
        return requests[i].service.clone();
    }
    if let Some(i) = find_service(requests, "ui") {
        return requests[i].service.clone();
    }
    let n = requests.len();
    let mut i: usize = 0;
    while i < n
        invariant
            views == requests@.map_values(|p: ResolvedContainerPortConfig| p@),
            n == requests@.len(),
            svc_idx(views, "web"@) == n,
            svc_idx(views, "app"@) == n,
            svc_idx(views, "frontend"@) == n,
            svc_idx(views, "ui"@) == n,
            i <= n,
            forall|j: int| 0 <= j < i ==> !webish_port((#[trigger] views[j]).container),
        decreases n - i,
    {
        let c = requests[i].container;
        if c == 3000 || c == 5173 || c == 8080 || c == 8000 {
            proof {
                assert(views[i as int] == requests@[i as int]@);
                lemma_web_port_idx(views, i as int);
            }
            return requests[i].service.clone();
        }
        proof {
            assert(views[i as int] == requests@[i as int]@);
        }
        i = i + 1;
    }
    proof {
        lemma_web_port_idx(views, n as int);
    }
    if requests.len() > 0 {
        requests[0].service.clone()
    } else {
        "app".to_owned()
    }
}

/// The service previewed for a request list: an explicit preview flag wins,
/// else convention decides.
pub open spec fn resolved_preview(s: Seq<PortView>) -> Seq<char> {
    if first_preview(s) < s.len() {
        s[first_preview(s)].service
    } else {
        chosen_preview(s)
    }
}

/// Pick the preview service, honouring an explicit preview flag first.
pub fn resolve_preview_service(requests: &Vec<ResolvedContainerPortConfig>) -> (r: String)
    ensures
        r@ == resolved_preview(requests@.map_values(|p: ResolvedContainerPortConfig| p@)),
{
    let ghost views = requests@.map_values(|p: ResolvedContainerPortConfig| p@);
    let n = requests.len();
    let mut i: usize = 0;
    while i < n
        invariant
            views == requests@.map_values(|p: ResolvedContainerPortConfig| p@),
            n == requests@.len(),
            i <= n,
            forall|j: int| 0 <= j < i ==> !(#[trigger] views[j]).preview,
        decreases n - i,
    {
        if requests[i].preview {
            proof {
                assert(views[i as int] == requests@[i as int]@);
                lemma_first_preview(views, i as int);
            }
            return requests[i].service.clone();
        }
        proof {
            assert(views[i as int] == requests@[i as int]@);
        }
        i = i + 1;
    }
    proof {
        lemma_first_preview(views, n as int);
    }
    choose_preview_service(requests)
}

/// A slug for container naming: the task name trimmed, then slugified.
pub fn to_slug(name: &str) -> (r: String)
    ensures
        r@ == slugified(trimmed_edges(name@, TrimClass::Space)),
{
    let v = chars_of(name);
    let t = trim_edges(&v, TrimClass::Space);
    let ts = crate::chars::string_from_chars(&t);
    slugify(ts.as_str())
}

/// Whether an icon domain is one of the well-known services the icon
/// fetcher may contact.
pub fn allowlisted(domain: &str) -> (r: bool)
    ensures
        r == (domain@ == "postgresql.org"@ || domain@ == "redis.io"@ || domain@ == "min.io"@
            || domain@ == "clickhouse.com"@ || domain@ == "nginx.org"@ || domain@ == "mysql.com"@
            || domain@ == "mariadb.org"@ || domain@ == "mongodb.com"@ || domain@
            == "rabbitmq.com"@ || domain@ == "apache.org"@),
{
    let d = chars_of(domain);
    eq_chars(&d, &chars_of("postgresql.org")) || eq_chars(&d, &chars_of("redis.io")) || eq_chars(
        &d,
        &chars_of("min.io"),
    ) || eq_chars(&d, &chars_of("clickhouse.com")) || eq_chars(&d, &chars_of("nginx.org"))
        || eq_chars(&d, &chars_of("mysql.com")) || eq_chars(&d, &chars_of("mariadb.org"))
        || eq_chars(&d, &chars_of("mongodb.com")) || eq_chars(&d, &chars_of("rabbitmq.com"))
        || eq_chars(&d, &chars_of("apache.org"))
}

} // verus!
