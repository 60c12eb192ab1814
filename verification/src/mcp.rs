//! The MCP servers running as pods: which pods are servers and in what
//! state, the table of servers kept up to date from the pods' events, which
//! server a proxied request goes to, and the URL it is sent to.
use vstd::prelude::*;

use crate::error::ShaideError;
use crate::text::{chars_of, eq_str, owned, push_chars, push_str, string_from_chars};

verus! {

/// The URL of the MCP server a proxied request was resolved to.
#[derive(Clone, Debug)]
pub struct ResolvedMcpTarget(pub String);

/// The state of an MCP server.
#[derive(Clone, Copy, Debug, PartialEq, Eq, Structural)]
pub enum McpStatus {
    Starting,
    Running,
    Restarting,
}

/// How strongly a state is preferred when several servers share a name.
pub open spec fn priority_spec(s: McpStatus) -> i8 {
    match s {
        McpStatus::Restarting => 3,
        McpStatus::Starting => 2,
        McpStatus::Running => 1,
    }
}

impl McpStatus {
    /// How strongly this state is preferred when several servers share a
    /// name.
    pub fn priority(&self) -> (r: i8)
        ensures
            r == priority_spec(*self),
    {
        match self {
            McpStatus::Restarting => 3,
            McpStatus::Starting => 2,
            McpStatus::Running => 1,
        }
    }
}

/// An MCP server: the data source it serves, its state and its URL.
#[derive(Clone, Debug)]
pub struct McpServer {
    pub name: String,
    pub status: McpStatus,
    pub url: String,
}

/// The abstract content of an [`McpServer`].
pub struct McpServerView {
    pub name: Seq<char>,
    pub status: McpStatus,
    pub url: Seq<char>,
}

impl View for McpServer {
    type V = McpServerView;

    open spec fn view(&self) -> McpServerView {
        McpServerView { name: self.name@, status: self.status, url: self.url@ }
    }
}

/// A server as listed to clients.
#[derive(Debug)]
pub struct McpServerResponse {
    pub name: String,
    pub status: McpStatus,
    pub url: String,
}

impl McpServer {
    /// The server as listed to clients.
    pub fn into_response(self) -> (r: McpServerResponse)
        ensures
            r.name == self.name,
            r.status == self.status,
            r.url == self.url,
    {
        McpServerResponse { name: self.name, status: self.status, url: self.url }
    }
}

/// What of a pod's status is read: its conditions as (type, status) pairs
/// and its containers' restart counts.
#[derive(Debug)]
pub struct PodStatusInfo {
    pub conditions: Option<Vec<(String, String)>>,
    pub restart_counts: Option<Vec<i32>>,
}

/// What of a pod is read.
#[derive(Debug)]
pub struct PodInfo {
    pub name: Option<String>,
    pub resource_version: Option<String>,
    pub datasource: Option<String>,
    pub url: Option<String>,
    pub status: Option<PodStatusInfo>,
}

/// Some condition says the pod is ready.
pub open spec fn ready_spec(conditions: Seq<(String, String)>) -> bool {
    exists|i: int| 0 <= i < conditions.len() && (#[trigger] conditions[i]).0@ == "Ready"@ && conditions[i].1@ == "True"@
}

/// Some container has restarted.
pub open spec fn restarted_spec(counts: Seq<i32>) -> bool {
    exists|i: int| 0 <= i < counts.len() && #[trigger] counts[i] > 0
}

/// A pod's server state: running once ready, restarting once a container
/// restarted, starting otherwise.
pub open spec fn pod_status_spec(s: PodStatusInfo) -> McpStatus {
    if s.conditions matches Some(c) && ready_spec(c@) {
        McpStatus::Running
    } else if s.restart_counts matches Some(c) && restarted_spec(c@) {
        McpStatus::Restarting
    } else {
        McpStatus::Starting
    }
}

/// The server a pod is, if it is one: it needs both annotations and a
/// status.
pub open spec fn pod_server_spec(pod: PodInfo) -> Option<McpServerView> {
    match (pod.datasource, pod.url, pod.status) {
        (Some(name), Some(url), Some(status)) => Some(
            McpServerView { name: name@, status: pod_status_spec(status), url: url@ },
        ),
        _ => None,
    }
}

/// Whether some condition says the pod is ready.
fn any_ready(conditions: &Vec<(String, String)>) -> (r: bool)
    ensures
        r == ready_spec(conditions@),
{
    let mut i: usize = 0;
    while i < conditions.len()
        invariant
            i <= conditions@.len(),
            forall|j: int| 0 <= j < i ==> !((#[trigger] conditions@[j]).0@ == "Ready"@ && conditions@[j].1@ == "True"@),
        decreases conditions@.len() - i,
    {
        if eq_str(conditions[i].0.as_str(), "Ready") && eq_str(conditions[i].1.as_str(), "True") {
            return true;
        }
        i = i + 1;
    }
    false
}

/// Whether some container has restarted.
fn any_restarted(counts: &Vec<i32>) -> (r: bool)
    ensures
        r == restarted_spec(counts@),
{
    let mut i: usize = 0;
    while i < counts.len()
        invariant
            i <= counts@.len(),
            forall|j: int| 0 <= j < i ==> !(#[trigger] counts@[j] > 0),
        decreases counts@.len() - i,
    {
        if counts[i] > 0 {
            return true;
        }
        i = i + 1;
    }
    false
}

impl McpServer {
    /// The server a pod is, if it is one.
    pub fn try_from_pod(pod: PodInfo) -> (r: Option<McpServer>)
        ensures
            match pod_server_spec(pod) {
                Some(v) => r matches Some(s) && s@ == v,
                None => r is None,
            },
    {
        let PodInfo { name: _, resource_version: _, datasource, url, status } = pod;
        let name = match datasource {
            Some(n) => n,
            None => return None,
        };
        let url = match url {
            Some(u) => u,
            None => return None,
        };
        let status = match status {
            Some(s) => s,
            None => return None,
        };
        let ready = match &status.conditions {
            Some(c) => any_ready(c),
            None => false,
        };
        let state = if ready {
            McpStatus::Running
        } else {
            let restarted = match &status.restart_counts {
                Some(c) => any_restarted(c),
                None => false,
            };
            if restarted {
                McpStatus::Restarting
            } else {
                McpStatus::Starting
            }
        };
        Some(McpServer { name, status: state, url })
    }
}

/// The concurrent map of `dashmap`.
#[verifier::external_type_specification]
#[verifier::external_body]
#[verifier::reject_recursive_types(K)]
#[verifier::reject_recursive_types(V)]
#[verifier::reject_recursive_types(S)]
pub struct ExDashMap<K, V, S>(dashmap::DashMap<K, V, S>);

/// The servers a table holds, by pod name.
pub uninterp spec fn servers_of(m: dashmap::DashMap<String, McpServer>) -> Map<Seq<char>, McpServerView>;

/// An empty table, made with `DashMap::new`.
#[verifier::external_body]
fn servers_new() -> (r: dashmap::DashMap<String, McpServer>)
    ensures
        servers_of(r).dom() == Set::<Seq<char>>::empty(),
{
    dashmap::DashMap::new()
}

/// Empties a table with `DashMap::clear`.
#[verifier::external_body]
fn servers_clear(m: &mut dashmap::DashMap<String, McpServer>)
    ensures
        servers_of(*final(m)).dom() == Set::<Seq<char>>::empty(),
{
    m.clear();
}

/// Puts a server under a pod name with `DashMap::insert`, replacing any
/// server there.
#[verifier::external_body]
fn servers_insert(m: &mut dashmap::DashMap<String, McpServer>, key: String, value: McpServer)
    ensures
        servers_of(*final(m)) == servers_of(*old(m)).insert(key@, value@),
{
    m.insert(key, value);
}

/// Takes out the server under a pod name with `DashMap::remove`, telling
/// whether there was one.
#[verifier::external_body]
fn servers_remove(m: &mut dashmap::DashMap<String, McpServer>, key: &str) -> (r: bool)
    ensures
        servers_of(*final(m)) == servers_of(*old(m)).remove(key@),
        r == servers_of(*old(m)).contains_key(key@),
{
    m.remove(key).is_some()
}

/// Copies out the table's entries with `DashMap::iter`, each once, in an
/// order the map's hashing decides.
#[verifier::external_body]
fn servers_snapshot(m: &dashmap::DashMap<String, McpServer>) -> (r: Vec<(String, McpServer)>)
    ensures
        forall|i: int|
            0 <= i < r@.len() ==> servers_of(*m).contains_key((#[trigger] r@[i]).0@) && servers_of(*m)[r@[i].0@]
                == r@[i].1@,
        forall|k: Seq<char>| #[trigger] servers_of(*m).contains_key(k) ==> exists|i: int| 0 <= i < r@.len() && r@[i].0@ == k,
        forall|i: int, j: int| 0 <= i < r@.len() && 0 <= j < r@.len() && i != j ==> r@[i].0@ != r@[j].0@,
{
    m.iter().map(|entry| (entry.key().clone(), entry.value().clone())).collect()
}

/// Some pod of the table runs this server.
pub open spec fn in_table(m: Map<Seq<char>, McpServerView>, s: McpServerView) -> bool {
    exists|k: Seq<char>| #[trigger] m.contains_key(k) && m[k] == s
}

/// Deleting a pod undoes adding it: after a server pod is added and then
/// deleted, the table holds what it held before, without that pod's name.
pub proof fn law_delete_undoes_insert(table: Map<Seq<char>, McpServerView>, pod: PodInfo)
    requires
        pod.name is Some,
    ensures
        ({
            let name = pod.name->0@;
            let added = match (pod.name, pod_server_spec(pod)) {
                (Some(n), Some(server)) => table.insert(n@, server),
                _ => table,
            };
            &&& added.remove(name) == table.remove(name)
            &&& !table.contains_key(name) ==> added.remove(name) == table
        }),
{
    let name = pod.name->0@;
    let added = match (pod.name, pod_server_spec(pod)) {
        (Some(n), Some(server)) => table.insert(n@, server),
        _ => table,
    };
    assert(added.remove(name) =~= table.remove(name));
    if !table.contains_key(name) {
        assert(table.remove(name) =~= table);
    }
}

/// The table of MCP servers, by pod name.
pub struct McpService {
    servers: dashmap::DashMap<String, McpServer>,
}

/// What a pod list answer holds: its resource version and its pods.
#[derive(Debug)]
pub struct PodList {
    pub resource_version: Option<String>,
    pub items: Vec<PodInfo>,
}

/// The servers among a list of pods, by pod name: a pod counts when it has
/// a name and is a server; a later pod of the same name wins.
pub open spec fn listed_servers(pods: Seq<PodInfo>) -> Map<Seq<char>, McpServerView>
    decreases pods.len(),
{
    if pods.len() == 0 {
        Map::empty()
    } else {
        let prev = listed_servers(pods.drop_last());
        let pod = pods.last();
        match (pod.name, pod_server_spec(pod)) {
            (Some(name), Some(server)) => prev.insert(name@, server),
            _ => prev,
        }
    }
}

/// An event of the watch on the pods.
#[derive(Debug)]
pub enum PodWatchEvent {
    Added(PodInfo),
    Modified(PodInfo),
    Deleted(PodInfo),
    /// A bookmark with its resource version.
    Bookmark(String),
    /// The watch failed.
    Error,
}

/// The view of an optional text.
pub open spec fn opt_text(o: Option<String>) -> Option<Seq<char>> {
    match o {
        Some(s) => Some(s@),
        None => None,
    }
}

/// The server a pod name resolves to among `entries`: one of that name
/// whose state has the highest priority.
pub open spec fn best_for(entries: Map<Seq<char>, McpServerView>, name: Seq<char>, s: McpServerView) -> bool {
    &&& exists|k: Seq<char>| #[trigger] entries.contains_key(k) && entries[k] == s
    &&& s.name == name
    &&& forall|k: Seq<char>|
        #[trigger] entries.contains_key(k) && entries[k].name == name ==> priority_spec(entries[k].status)
            <= priority_spec(s.status)
}

impl McpService {
    /// The servers the table holds, by pod name.
    pub closed spec fn servers(&self) -> Map<Seq<char>, McpServerView> {
        servers_of(self.servers)
    }

    /// An empty table.
    pub fn new() -> (r: Self)
        ensures
            r.servers() == Map::<Seq<char>, McpServerView>::empty(),
    {
        let servers = servers_new();
        proof {
            assert(servers_of(servers) =~= Map::<Seq<char>, McpServerView>::empty());
        }
        McpService { servers }
    }

    /// Replaces the table with the servers of a fresh pod list, giving the
    /// list's resource version to watch from. A list without one is
    /// refused and leaves the table as it was.
    pub fn update_pod_list(&mut self, list: PodList) -> (r: Result<String, String>)
        ensures
            match list.resource_version {
                None => r matches Err(m) && m@ == "pod list response did not include resourceVersion"@
                    && final(self).servers() == old(self).servers(),
                Some(v) => r matches Ok(rv) && rv == v && final(self).servers() == listed_servers(list.items@),
            },
    {
        let PodList { resource_version, items } = list;
        let resource_version = match resource_version {
            Some(v) => v,
            None => return Err(owned("pod list response did not include resourceVersion")),
        };
        servers_clear(&mut self.servers);
        proof {
            assert(servers_of(self.servers) =~= Map::<Seq<char>, McpServerView>::empty());
        }
        let ghost original = items@;
        let mut rest = items;
        let mut k: usize = 0;
        let total = rest.len();
        proof {
            assert(original.take(0) =~= Seq::<PodInfo>::empty());
            assert(original.skip(0) =~= original);
        }
        while rest.len() > 0
            invariant
                original.len() == total,
                k + rest@.len() == total,
                rest@ == original.skip(k as int),
                servers_of(self.servers) == listed_servers(original.take(k as int)),
            decreases rest@.len(),
        {
            let pod = rest.remove(0);
            proof {
                assert(original[k as int] == pod);
                assert(rest@ =~= original.skip(k + 1));
                assert(original.take(k + 1).drop_last() =~= original.take(k as int));
                assert(original.take(k + 1).last() == pod);
            }
            let name = match &pod.name {
                Some(n) => Some(n.clone()),
                None => None,
            };
            match name {
                Some(name) => {
                    match McpServer::try_from_pod(pod) {
                        Some(server) => servers_insert(&mut self.servers, name, server),
                        None => {},
                    }
                },
                None => {},
            }
            k = k + 1;
        }
        proof {
            assert(original.take(total as int) =~= original);
        }
        Ok(resource_version)
    }

    /// Records an added or changed pod: a server pod with a name is put in
    /// the table. The pod's resource version is given back.
    pub fn insert_pod(&mut self, pod: PodInfo) -> (r: Option<String>)
        ensures
            opt_text(r) == opt_text(pod.resource_version),
            final(self).servers() == match (pod.name, pod_server_spec(pod)) {
                (Some(name), Some(server)) => old(self).servers().insert(name@, server),
                _ => old(self).servers(),
            },
    {
        let resource_version = match &pod.resource_version {
            Some(v) => Some(v.clone()),
            None => None,
        };
        let name = match &pod.name {
            Some(n) => n.clone(),
            None => return resource_version,
        };
        match McpServer::try_from_pod(pod) {
            Some(server) => servers_insert(&mut self.servers, name, server),
            None => {},
        }
        resource_version
    }

    /// Records a deleted pod: its server, if any, leaves the table. The
    /// pod's resource version is given back.
    pub fn delete_pod(&mut self, pod: PodInfo) -> (r: Option<String>)
        ensures
            opt_text(r) == opt_text(pod.resource_version),
            final(self).servers() == match pod.name {
                Some(name) => old(self).servers().remove(name@),
                None => old(self).servers(),
            },
    {
        let resource_version = match &pod.resource_version {
            Some(v) => Some(v.clone()),
            None => None,
        };
        match &pod.name {
            Some(name) => {
                servers_remove(&mut self.servers, name.as_str());
            },
            None => {},
        }
        resource_version
    }

    /// Applies one event of the pod watch, given the resource version
    /// watched from; gives the version to go on from, and whether the watch
    /// failed (then the pods are listed again and the watch restarted).
    pub fn apply_watch_event(&mut self, resource_version: String, event: PodWatchEvent) -> (r: (String, bool))
        ensures
            match event {
                PodWatchEvent::Added(pod) | PodWatchEvent::Modified(pod) => {
                    &&& final(self).servers() == match (pod.name, pod_server_spec(pod)) {
                        (Some(name), Some(server)) => old(self).servers().insert(name@, server),
                        _ => old(self).servers(),
                    }
                    &&& r.0@ == match pod.resource_version {
                        Some(v) => v@,
                        None => resource_version@,
                    }
                    &&& !r.1
                },
                PodWatchEvent::Deleted(pod) => {
                    &&& final(self).servers() == match pod.name {
                        Some(name) => old(self).servers().remove(name@),
                        None => old(self).servers(),
                    }
                    &&& r.0@ == match pod.resource_version {
                        Some(v) => v@,
                        None => resource_version@,
                    }
                    &&& !r.1
                },
                PodWatchEvent::Bookmark(v) => r.0 == v && !r.1 && final(self).servers() == old(self).servers(),
                PodWatchEvent::Error => r.0 == resource_version && r.1 && final(self).servers() == old(self).servers(),
            },
    {
        match event {
            PodWatchEvent::Added(pod) => match self.insert_pod(pod) {
                Some(v) => (v, false),
                None => (resource_version, false),
            },
            PodWatchEvent::Modified(pod) => match self.insert_pod(pod) {
                Some(v) => (v, false),
                None => (resource_version, false),
            },
            PodWatchEvent::Deleted(pod) => match self.delete_pod(pod) {
                Some(v) => (v, false),
                None => (resource_version, false),
            },
            PodWatchEvent::Bookmark(v) => (v, false),
            PodWatchEvent::Error => (resource_version, true),
        }
    }

    /// The URL of the server that serves `server_name`: among the servers
    /// of that name, one in the most preferred state (restarting, then
    /// starting, then running).
    pub fn get_service_url(&self, server_name: &str) -> (r: Option<String>)
        ensures
            match r {
                None => forall|k: Seq<char>| #[trigger] self.servers().contains_key(k) ==> self.servers()[k].name != server_name@,
                Some(url) => exists|s: McpServerView| best_for(self.servers(), server_name@, s) && s.url == url@,
            },
    {
        let entries = servers_snapshot(&self.servers);
        let ghost m = self.servers();
        let mut best: Option<usize> = None;
        let mut i: usize = 0;
        while i < entries.len()
            invariant
                i <= entries@.len(),
                m == servers_of(self.servers),
                forall|j: int| 0 <= j < entries@.len() ==> m.contains_key((#[trigger] entries@[j]).0@) && m[entries@[j].0@] == entries@[j].1@,
                match best {
                    None => forall|j: int| 0 <= j < i ==> (#[trigger] entries@[j]).1.name@ != server_name@,
                    Some(b) => b < i && entries@[b as int].1.name@ == server_name@ && forall|j: int|
                        0 <= j < i && (#[trigger] entries@[j]).1.name@ == server_name@ ==> priority_spec(entries@[j].1.status)
                            <= priority_spec(entries@[b as int].1.status),
                },
            decreases entries@.len() - i,
        {
            if eq_str(entries[i].1.name.as_str(), server_name) {
                match best {
                    None => {
                        best = Some(i);
                    },
                    Some(b) => {
                        if entries[b].1.status.priority() < entries[i].1.status.priority() {
                            best = Some(i);
                        }
                    },
                }
            }
            i = i + 1;
        }
        match best {
            None => {
                proof {
                    assert forall|k: Seq<char>| #[trigger] m.contains_key(k) implies m[k].name != server_name@ by {
                        let j = choose|j: int| 0 <= j < entries@.len() && entries@[j].0@ == k;
                        assert(entries@[j].1.name@ != server_name@);
                    }
                }
                None
            },
            Some(b) => {
                let ghost s = entries@[b as int].1@;
                proof {
                    assert(m.contains_key(entries@[b as int].0@));
                    assert forall|k: Seq<char>| #[trigger] m.contains_key(k) && m[k].name == server_name@ implies priority_spec(
                        m[k].status,
                    ) <= priority_spec(s.status) by {
                        let j = choose|j: int| 0 <= j < entries@.len() && entries@[j].0@ == k;
                        assert(entries@[j].1.name@ == server_name@);
                    }
                    assert(best_for(m, server_name@, s));
                }
                Some(entries[b].1.url.clone())
            },
        }
    }

    /// The servers the table holds, one for each pod, in an order the map
    /// decides.
    pub fn get_services(&self) -> (r: Vec<McpServer>)
        ensures
            forall|i: int| 0 <= i < r@.len() ==> in_table(self.servers(), (#[trigger] r@[i])@),
            forall|k: Seq<char>|
                #[trigger] self.servers().contains_key(k) ==> exists|i: int|
                    0 <= i < r@.len() && (#[trigger] r@[i])@ == self.servers()[k],
    {
        let entries = servers_snapshot(&self.servers);
        let ghost m = self.servers();
        let mut out: Vec<McpServer> = Vec::new();
        let mut i: usize = 0;
        while i < entries.len()
            invariant
                i <= entries@.len(),
                out@.len() == i,
                m == servers_of(self.servers),
                forall|j: int|
                    0 <= j < entries@.len() ==> m.contains_key((#[trigger] entries@[j]).0@) && m[entries@[j].0@]
                        == entries@[j].1@,
                forall|k: Seq<char>| #[trigger] m.contains_key(k) ==> exists|j: int| 0 <= j < entries@.len() && entries@[j].0@ == k,
                forall|j: int| 0 <= j < i ==> (#[trigger] out@[j])@ == entries@[j].1@,
            decreases entries@.len() - i,
        {
            out.push(entries[i].1.duplicate());
            i = i + 1;
        }
        proof {
            assert forall|j: int| 0 <= j < out@.len() implies in_table(self.servers(), (#[trigger] out@[j])@) by {
                assert(self.servers().contains_key(entries@[j].0@));
            }
            assert forall|k: Seq<char>| #[trigger] self.servers().contains_key(k) implies exists|j: int|
                0 <= j < out@.len() && (#[trigger] out@[j])@ == self.servers()[k] by {
                let j = choose|j: int| 0 <= j < entries@.len() && entries@[j].0@ == k;
                assert(out@[j]@ == m[k]);
            }
        }
        out
    }
}

impl McpServer {
    /// A copy of this server.
    pub fn duplicate(&self) -> (r: McpServer)
        ensures
            r@ == self@,
    {
        McpServer { name: self.name.clone(), status: self.status, url: self.url.clone() }
    }
}

/// `s` without the characters `c` at its end.
pub open spec fn trim_end(s: Seq<char>, c: char) -> Seq<char>
    decreases s.len(),
{
    if s.len() > 0 && s.last() == c {
        trim_end(s.drop_last(), c)
    } else {
        s
    }
}

/// The value of the first parameter named "path", if any.
pub open spec fn path_param(params: Seq<(String, String)>) -> Option<Seq<char>>
    decreases params.len(),
{
    if params.len() == 0 {
        None
    } else if params[0].0@ == "path"@ {
        Some(params[0].1@)
    } else {
        path_param(params.drop_first())
    }
}

/// The URL a proxied MCP request goes to: the server's URL without
/// trailing slashes, a slash, the requested path, and the query if any.
pub open spec fn proxy_url_spec(target: Seq<char>, params: Seq<(String, String)>, query: Option<Seq<char>>) -> Seq<char> {
    trim_end(target, '/') + "/"@ + match path_param(params) {
        Some(p) => p,
        None => Seq::empty(),
    } + match query {
        Some(q) => "?"@ + q,
        None => Seq::empty(),
    }
}

/// The value of the first parameter named "path", if any.
fn find_path_param(params: &Vec<(String, String)>) -> (r: Option<String>)
    ensures
        opt_text(r) == path_param(params@),
{
    let mut i: usize = 0;
    proof {
        assert(params@.skip(0) =~= params@);
    }
    while i < params.len()
        invariant
            i <= params@.len(),
            path_param(params@) == path_param(params@.skip(i as int)),
        decreases params@.len() - i,
    {
        proof {
            assert(params@.skip(i as int).drop_first() =~= params@.skip(i + 1));
            assert(params@.skip(i as int)[0] == params@[i as int]);
        }
        if eq_str(params[i].0.as_str(), "path") {
            return Some(params[i].1.clone());
        }
        i = i + 1;
    }
    None
}

/// Builds the URL a proxied MCP request goes to.
pub fn proxy_target_url(target: &str, params: &Vec<(String, String)>, query: Option<&str>) -> (r: String)
    ensures
        r@ == proxy_url_spec(
            target@,
            params@,
            match query {
                Some(q) => Some(q@),
                None => None,
            },
        ),
{
    let chars = chars_of(target);
    let mut end: usize = chars.len();
    proof {
        assert(chars@.take(end as int) =~= chars@);
    }
    while end > 0 && chars[end - 1] == '/'
        invariant
            end <= chars@.len(),
            trim_end(chars@.take(end as int), '/') == trim_end(chars@, '/'),
        decreases end,
    {
        proof {
            assert(chars@.take(end as int).drop_last() =~= chars@.take(end - 1));
        }
        end = end - 1;
    }
    let mut out = crate::text::slice_chars(&chars, 0, end);
    proof {
        assert(out@ =~= chars@.take(end as int));
    }
    push_str(&mut out, "/");
    match find_path_param(params) {
        Some(p) => push_str(&mut out, p.as_str()),
        None => {},
    }
    match query {
        Some(q) => {
            push_str(&mut out, "?");
            push_str(&mut out, q);
        },
        None => {},
    }
    proof {
        reveal_strlit("");
    }
    string_from_chars(&out)
}

/// The URL of the MCP server a proxied request names; a request without a
/// server id is refused, and so is one for an unknown server.
pub fn resolve_mcp_target(service: &McpService, server_id: Option<&str>) -> (r: Result<String, ShaideError>)
    ensures
        match server_id {
            None => r matches Err(ShaideError::BadRequest(m)) && m@ == "Server id not found"@,
            Some(id) => match r {
                Ok(url) => exists|s: McpServerView| best_for(service.servers(), id@, s) && s.url == url@,
                Err(e) => {
                    &&& forall|k: Seq<char>| #[trigger] service.servers().contains_key(k) ==> service.servers()[k].name != id@
                    &&& e matches ShaideError::NotFoundRoute(m) && m@ == "mcp route not found"@
                },
            },
        },
{
    let id = match server_id {
        Some(id) => id,
        None => return Err(ShaideError::BadRequest(owned("Server id not found"))),
    };
    match service.get_service_url(id) {
        Some(url) => Ok(url),
        None => Err(ShaideError::NotFoundRoute(owned("mcp route not found"))),
    }
}

} // verus!
