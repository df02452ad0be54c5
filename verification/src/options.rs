//! Configuration of a Ray job, and the options of tasks and actors.

use vstd::prelude::*;

use crate::text::{
    c_text, c_text_of, decimal, hex, hex_encode, join, joined, json_escape, json_escaped,
    lemma_joined_layout, part_start, push_decimal_i64, texts, total_len,
};

verus! {

/// Whether an actor outlives the job that created it.
#[derive(Debug, Clone, Copy, PartialEq, Eq, Structural)]
pub enum ActorLifetime {
    /// The actor is destroyed when the job that created it ends (default).
    NonDetached,
    /// The actor outlives the job that created it; it must be killed by hand.
    Detached,
}

impl ActorLifetime {
    /// The number that stands for the lifetime at the C interface.
    pub open spec fn spec_code(self) -> i32 {
        match self {
            ActorLifetime::NonDetached => 0,
            ActorLifetime::Detached => 1,
        }
    }

    /// The number that stands for the lifetime at the C interface:
    /// 0 for non-detached, 1 for detached.
    pub fn code(self) -> (r: i32)
        ensures
            r == self.spec_code(),
    {
        match self {
            ActorLifetime::NonDetached => 0,
            ActorLifetime::Detached => 1,
        }
    }
}

impl Default for ActorLifetime {
    fn default() -> (r: Self)
        ensures
            r == ActorLifetime::NonDetached,
    {
        ActorLifetime::NonDetached
    }
}

/// Configuration for connecting to a Ray cluster.
#[derive(Debug, Clone)]
pub struct RayConfig {
    /// Address of the head node, e.g. "192.168.42.141:6379". Empty in local mode.
    pub address: String,
    /// Run in local mode (single process, no cluster).
    pub local_mode: bool,
    /// Code search path for dynamic libraries (worker side).
    pub code_search_path: Vec<String>,
    /// Namespace for this job.
    pub namespace: String,
    /// Node IP address to use when registering with the cluster. Empty lets
    /// the runtime detect it.
    pub node_ip: String,
    /// Runtime environment JSON string. Empty sets none.
    pub runtime_env: String,
    /// Directory for Ray logs. Empty uses the default.
    pub log_dir: String,
    /// Default lifetime of the actors created in this job.
    pub default_actor_lifetime: ActorLifetime,
}

impl RayConfig {
    /// Whether `self` has every field at its default except possibly
    /// `address` and `local_mode`.
    pub open spec fn rest_default(&self) -> bool {
        &&& self.code_search_path@.len() == 0
        &&& self.namespace@ == Seq::<char>::empty()
        &&& self.node_ip@ == Seq::<char>::empty()
        &&& self.runtime_env@ == Seq::<char>::empty()
        &&& self.log_dir@ == Seq::<char>::empty()
        &&& self.default_actor_lifetime == ActorLifetime::NonDetached
    }

    fn defaults() -> (r: Self)
        ensures
            r.rest_default(),
            r.address@ == Seq::<char>::empty(),
            !r.local_mode,
    {
        RayConfig {
            address: String::new(),
            local_mode: false,
            code_search_path: Vec::new(),
            namespace: String::new(),
            node_ip: String::new(),
            runtime_env: String::new(),
            log_dir: String::new(),
            default_actor_lifetime: ActorLifetime::NonDetached,
        }
    }

    /// A configuration for connecting to the cluster at `address`.
    pub fn new(address: &str) -> (r: Self)
        ensures
            r.address@ == address@,
            !r.local_mode,
            r.rest_default(),
    {
        let mut c = Self::defaults();
        c.address = address.to_owned();
        c
    }

    /// A configuration for local mode (no cluster, single process).
    pub fn local() -> (r: Self)
        ensures
            r.address@ == Seq::<char>::empty(),
            r.local_mode,
            r.rest_default(),
    {
        let mut c = Self::defaults();
        c.local_mode = true;
        c
    }

    /// Sets the node IP address.
    pub fn node_ip(self, ip: &str) -> (r: Self)
        ensures
            r.node_ip@ == ip@,
            r == (RayConfig { node_ip: r.node_ip, ..self }),
    {
        let mut c = self;
        c.node_ip = ip.to_owned();
        c
    }

    /// Sets the code search path (directories or .so files for the worker).
    pub fn code_search_path(self, paths: Vec<String>) -> (r: Self)
        ensures
            r == (RayConfig { code_search_path: paths, ..self }),
    {
        let mut c = self;
        c.code_search_path = paths;
        c
    }

    /// Sets the runtime environment JSON string, e.g. `{"pip": ["numpy"]}`.
    pub fn runtime_env(self, json: &str) -> (r: Self)
        ensures
            r.runtime_env@ == json@,
            r == (RayConfig { runtime_env: r.runtime_env, ..self }),
    {
        let mut c = self;
        c.runtime_env = json.to_owned();
        c
    }

    /// Sets the log directory.
    pub fn log_dir(self, dir: &str) -> (r: Self)
        ensures
            r.log_dir@ == dir@,
            r == (RayConfig { log_dir: r.log_dir, ..self }),
    {
        let mut c = self;
        c.log_dir = dir.to_owned();
        c
    }

    /// Sets the default actor lifetime; `Detached` actors outlive the job.
    pub fn default_actor_lifetime(self, lifetime: ActorLifetime) -> (r: Self)
        ensures
            r == (RayConfig { default_actor_lifetime: lifetime, ..self }),
    {
        let mut c = self;
        c.default_actor_lifetime = lifetime;
        c
    }

    /// Makes the actors of this job detached by default: they outlive the job.
    pub fn detached_actors(self) -> (r: Self)
        ensures
            r == (RayConfig { default_actor_lifetime: ActorLifetime::Detached, ..self }),
    {
        self.default_actor_lifetime(ActorLifetime::Detached)
    }

    /// Sets the job-level namespace in which named actors are registered.
    pub fn namespace(self, ns: &str) -> (r: Self)
        ensures
            r.namespace@ == ns@,
            r == (RayConfig { namespace: r.namespace, ..self }),
    {
        let mut c = self;
        c.namespace = ns.to_owned();
        c
    }
}


impl Default for RayConfig {
    /// Every field at its default: no address, cluster mode, empty strings
    /// and path list, non-detached actors.
    fn default() -> (r: Self)
        ensures
            r.rest_default(),
            r.address@ == Seq::<char>::empty(),
            !r.local_mode,
    {
        RayConfig::defaults()
    }
}

/// The arguments of the runtime's `init` call, as the C interface takes them.
#[derive(Debug)]
pub struct InitRequest {
    /// Head node address.
    pub address: String,
    /// 1 for local mode, 0 for cluster mode.
    pub local_mode: i32,
    /// Node IP address.
    pub node_ip: String,
    /// The code search path, entries joined with `:`.
    pub code_search_path: String,
    /// Runtime environment JSON string.
    pub runtime_env: String,
    /// Log directory.
    pub log_dir: String,
    /// Default actor lifetime: 0 non-detached, 1 detached.
    pub default_actor_lifetime: i32,
    /// Job namespace.
    pub namespace: String,
    /// Whether to look for the C++ worker SDK on this node after a successful
    /// init (done in cluster mode only).
    pub check_cpp_sdk: bool,
}

impl RayConfig {
    /// The arguments of the runtime's `init` call for this configuration:
    /// each string as its C string carries it (emptied if it holds a NUL), the
    /// code search path joined with `:`, the mode and lifetime as numbers.
    pub fn init_request(&self) -> (r: InitRequest)
        ensures
            r.address@ == c_text_of(self.address@),
            r.local_mode == (if self.local_mode { 1i32 } else { 0i32 }),
            r.node_ip@ == c_text_of(self.node_ip@),
            r.code_search_path@ == c_text_of(joined(texts(self.code_search_path@), ":"@)),
            r.runtime_env@ == c_text_of(self.runtime_env@),
            r.log_dir@ == c_text_of(self.log_dir@),
            r.default_actor_lifetime == self.default_actor_lifetime.spec_code(),
            r.namespace@ == c_text_of(self.namespace@),
            r.check_cpp_sdk == !self.local_mode,
            !self.address@.contains('\0') ==> r.address@ == self.address@,
            !self.node_ip@.contains('\0') ==> r.node_ip@ == self.node_ip@,
            !self.runtime_env@.contains('\0') ==> r.runtime_env@ == self.runtime_env@,
            !self.log_dir@.contains('\0') ==> r.log_dir@ == self.log_dir@,
            !self.namespace@.contains('\0') ==> r.namespace@ == self.namespace@,
    {
        let path = join(self.code_search_path.as_slice(), ":");
        InitRequest {
            address: c_text(self.address.as_str()),
            local_mode: if self.local_mode {
                1
            } else {
                0
            },
            node_ip: c_text(self.node_ip.as_str()),
            code_search_path: c_text(path.as_str()),
            runtime_env: c_text(self.runtime_env.as_str()),
            log_dir: c_text(self.log_dir.as_str()),
            default_actor_lifetime: self.default_actor_lifetime.code(),
            namespace: c_text(self.namespace.as_str()),
            check_cpp_sdk: !self.local_mode,
        }
    }
}


/// One resource requirement in JSON: `"name":amount`, the name escaped.
pub open spec fn resource_entry(r: (String, String)) -> Seq<char> {
    "\""@ + json_escaped(r.0@) + "\":"@ + r.1@
}

/// Resource requirements as a JSON object, `{"CPU":2,"GPU":0.5}`, or the
/// empty string when there are none.
pub open spec fn resources_json_text(resources: Seq<(String, String)>) -> Seq<char> {
    if resources.len() == 0 {
        Seq::empty()
    } else {
        "{"@ + joined(resources.map_values(|r: (String, String)| resource_entry(r)), ","@) + "}"@
    }
}

/// The JSON text of a non-empty list of resource requirements is `{`, then
/// every requirement in order, written as its quoted and escaped name, `:`
/// and its amount, with `,` between neighbours, then `}`, and nothing else:
/// requirement `k` stands at `1 + part_start(entries, k)`, where `entries`
/// are the written requirements.
pub proof fn lemma_resources_json_layout(rs: Seq<(String, String)>)
    requires
        rs.len() > 0,
    ensures
        resources_json_text(rs).len() == total_len(
            rs.map_values(|r: (String, String)| resource_entry(r)),
        ) + rs.len() + 1,
        resources_json_text(rs)[0] == '{',
        resources_json_text(rs)[resources_json_text(rs).len() - 1] == '}',
        forall|k: int|
            #![trigger rs[k]]
            0 <= k < rs.len() ==> resources_json_text(rs).subrange(
                1 + part_start(rs.map_values(|r: (String, String)| resource_entry(r)), k),
                1 + part_start(rs.map_values(|r: (String, String)| resource_entry(r)), k)
                    + resource_entry(rs[k]).len(),
            ) == "\""@ + json_escaped(rs[k].0@) + "\":"@ + rs[k].1@,
        forall|k: int|
            #![trigger rs[k]]
            0 <= k < rs.len() - 1 ==> resources_json_text(rs)[1 + part_start(
                rs.map_values(|r: (String, String)| resource_entry(r)),
                k,
            ) + resource_entry(rs[k]).len()] == ',',
{
    let entries = rs.map_values(|r: (String, String)| resource_entry(r));
    let body = joined(entries, ","@);
    let t = resources_json_text(rs);
    reveal_strlit("{");
    reveal_strlit("}");
    reveal_strlit(",");
    lemma_joined_layout(entries, ","@);
    assert(t =~= "{"@ + body + "}"@);
    assert forall|k: int| 0 <= k < rs.len() implies t.subrange(
        1 + part_start(entries, k),
        1 + part_start(entries, k) + resource_entry(rs[k]).len(),
    ) == "\""@ + json_escaped(rs[k].0@) + "\":"@ + rs[k].1@ by {
        assert(entries[k] == resource_entry(rs[k]));
        assert(part_start(entries, k) + entries[k].len() <= body.len());
        assert(t.subrange(1 + part_start(entries, k), 1 + part_start(entries, k) + entries[k].len())
            =~= body.subrange(part_start(entries, k), part_start(entries, k) + entries[k].len()));
    }
    assert forall|k: int| 0 <= k < rs.len() - 1 implies t[1 + part_start(entries, k)
        + resource_entry(rs[k]).len()] == ',' by {
        assert(entries[k] == resource_entry(rs[k]));
        assert(part_start(entries, k + 1) == part_start(entries, k) + entries[k].len() + 1) by {
            assert(entries.take(k + 1).drop_last() =~= entries.take(k));
        }
        assert(part_start(entries, k + 1) + entries[k + 1].len() <= body.len());
    }
}

fn resource_entry_exec(r: &(String, String)) -> (s: String)
    ensures
        s@ == resource_entry(*r),
{
    String::from_str("\"").concat(json_escape(r.0.as_str()).as_str()).concat("\":").concat(
        r.1.as_str(),
    )
}

/// Builds the resources JSON object from (name, amount) pairs, where each
/// amount is already in its JSON number form; empty when there are none.
pub fn resources_to_json(resources: &[(String, String)]) -> (r: String)
    ensures
        r@ == resources_json_text(resources@),
{
    if resources.len() == 0 {
        return String::new();
    }
    let mut parts: Vec<String> = Vec::new();
    let ghost entries = resources@.map_values(|r: (String, String)| resource_entry(r));
    let mut i: usize = 0;
    while i < resources.len()
        invariant
            i <= resources.len(),
            entries == resources@.map_values(|r: (String, String)| resource_entry(r)),
            texts(parts@) =~= entries.take(i as int),
        decreases resources.len() - i,
    {
        let e = resource_entry_exec(&resources[i]);
        let ghost ev = e@;
        let ghost before = parts@;
        assert(ev == entries[i as int]);
        parts.push(e);
        assert(texts(parts@) =~= texts(before).push(ev));
        assert(entries.take(i + 1) =~= entries.take(i as int).push(ev));
        i = i + 1;
    }
    assert(entries.take(i as int) =~= entries);
    String::from_str("{").concat(join(parts.as_slice(), ",").as_str()).concat("}")
}

/// Resource requirements of a task call.
#[derive(Debug, Clone)]
pub struct TaskOptions {
    /// Resource requirements as (name, amount) pairs, each amount in its JSON
    /// number form, e.g. `("CPU", "2")`, `("GPU", "0.5")`.
    pub resources: Vec<(String, String)>,
}

impl TaskOptions {
    /// Options with no resource requirements.
    pub fn new() -> (r: Self)
        ensures
            r.resources@.len() == 0,
    {
        TaskOptions { resources: Vec::new() }
    }

    /// Adds a resource requirement whose amount is given in JSON number form.
    pub fn resource_text(self, name: &str, amount: &str) -> (r: Self)
        ensures
            r.resources@.len() == self.resources@.len() + 1,
            r.resources@.drop_last() == self.resources@,
            r.resources@.last().0@ == name@,
            r.resources@.last().1@ == amount@,
    {
        let mut o = self;
        o.resources.push((name.to_owned(), amount.to_owned()));
        o
    }

    /// Replaces the resource requirements.
    pub fn resources_text(self, resources: Vec<(String, String)>) -> (r: Self)
        ensures
            r.resources == resources,
    {
        TaskOptions { resources }
    }

    /// Whether any resource requirement is set.
    pub fn has_resources(&self) -> (r: bool)
        ensures
            r == (self.resources@.len() > 0),
    {
        self.resources.len() > 0
    }

    /// The resource requirements as the JSON object the C interface takes.
    pub fn resources_json(&self) -> (r: String)
        ensures
            r@ == resources_json_text(self.resources@),
    {
        resources_to_json(self.resources.as_slice())
    }
}

impl Default for TaskOptions {
    fn default() -> (r: Self)
        ensures
            r.resources@.len() == 0,
    {
        TaskOptions::new()
    }
}

/// Creation options of an actor, as the runtime's `ActorCreationOptions`.
#[derive(Debug, Clone)]
pub struct ActorOptions {
    /// Name of a named actor. Empty for an anonymous actor.
    pub name: String,
    /// Namespace for named actor lookup. Empty for the current namespace.
    pub ray_namespace: String,
    /// Resource requirements as (name, amount) pairs, each amount in its JSON
    /// number form.
    pub resources: Vec<(String, String)>,
    /// Maximum number of restarts on failure. 0 = no restart (default).
    pub max_restarts: i32,
    /// Maximum number of concurrent method calls. 1 = serial (default).
    pub max_concurrency: i32,
    /// Serialized runtime environment info string.
    pub serialized_runtime_env_info: String,
    /// Binary placement group ID. Empty = no placement group.
    pub placement_group_id: Vec<u8>,
    /// Bundle index within the placement group.
    pub bundle_index: i32,
}

impl ActorOptions {
    /// Whether every option is at its default: anonymous, current namespace,
    /// no resources, no restarts, serial calls, no runtime environment, no
    /// placement group.
    pub open spec fn all_default(&self) -> bool {
        &&& self.name@.len() == 0
        &&& self.ray_namespace@.len() == 0
        &&& self.resources@.len() == 0
        &&& self.max_restarts == 0
        &&& self.max_concurrency == 1
        &&& self.serialized_runtime_env_info@.len() == 0
        &&& self.placement_group_id@.len() == 0
    }

    /// Options with every field at its default.
    pub fn new() -> (r: Self)
        ensures
            r.all_default(),
            r.bundle_index == 0,
    {
        ActorOptions {
            name: String::new(),
            ray_namespace: String::new(),
            resources: Vec::new(),
            max_restarts: 0,
            max_concurrency: 1,
            serialized_runtime_env_info: String::new(),
            placement_group_id: Vec::new(),
            bundle_index: 0,
        }
    }

    /// Sets the actor name (a named actor).
    pub fn name(self, name: &str) -> (r: Self)
        ensures
            r.name@ == name@,
            r == (ActorOptions { name: r.name, ..self }),
    {
        let mut o = self;
        o.name = name.to_owned();
        o
    }

    /// Sets the namespace for named actor lookup.
    pub fn ray_namespace(self, ns: &str) -> (r: Self)
        ensures
            r.ray_namespace@ == ns@,
            r == (ActorOptions { ray_namespace: r.ray_namespace, ..self }),
    {
        let mut o = self;
        o.ray_namespace = ns.to_owned();
        o
    }

    /// Adds a resource requirement whose amount is given in JSON number form.
    pub fn resource_text(self, name: &str, amount: &str) -> (r: Self)
        ensures
            r.resources@.len() == self.resources@.len() + 1,
            r.resources@.drop_last() == self.resources@,
            r.resources@.last().0@ == name@,
            r.resources@.last().1@ == amount@,
            r == (ActorOptions { resources: r.resources, ..self }),
    {
        let mut o = self;
        o.resources.push((name.to_owned(), amount.to_owned()));
        o
    }

    /// Replaces the resource requirements.
    pub fn resources_text(self, resources: Vec<(String, String)>) -> (r: Self)
        ensures
            r == (ActorOptions { resources: resources, ..self }),
    {
        let mut o = self;
        o.resources = resources;
        o
    }

    /// Sets the maximum number of restarts on failure.
    pub fn max_restarts(self, n: i32) -> (r: Self)
        ensures
            r == (ActorOptions { max_restarts: n, ..self }),
    {
        let mut o = self;
        o.max_restarts = n;
        o
    }

    /// Sets the maximum number of concurrent method calls.
    pub fn max_concurrency(self, n: i32) -> (r: Self)
        ensures
            r == (ActorOptions { max_concurrency: n, ..self }),
    {
        let mut o = self;
        o.max_concurrency = n;
        o
    }

    /// Sets the serialized runtime environment info string.
    pub fn runtime_env_info(self, info: &str) -> (r: Self)
        ensures
            r.serialized_runtime_env_info@ == info@,
            r == (ActorOptions { serialized_runtime_env_info: r.serialized_runtime_env_info, ..self }),
    {
        let mut o = self;
        o.serialized_runtime_env_info = info.to_owned();
        o
    }

    /// Binds the actor to bundle `bundle_index` of the placement group with
    /// binary ID `group_id`.
    pub fn placement_group(self, group_id: Vec<u8>, bundle_index: i32) -> (r: Self)
        ensures
            r == (ActorOptions { placement_group_id: group_id, bundle_index: bundle_index, ..self }),
    {
        let mut o = self;
        o.placement_group_id = group_id;
        o.bundle_index = bundle_index;
        o
    }
}

/// One optional entry of a JSON object: present when `cond` holds.
pub open spec fn entry_if(cond: bool, entry: Seq<char>) -> Seq<Seq<char>> {
    if cond {
        seq![entry]
    } else {
        Seq::empty()
    }
}

/// A JSON string value: the escaped text between quotes.
pub open spec fn json_string(s: Seq<char>) -> Seq<char> {
    "\""@ + json_escaped(s) + "\""@
}

/// The entries of the options JSON object, in order; an option at its
/// default has none.
pub open spec fn actor_json_entries(o: ActorOptions) -> Seq<Seq<char>> {
    entry_if(o.name@.len() > 0, "\"name\":"@ + json_string(o.name@))
    + entry_if(o.ray_namespace@.len() > 0, "\"ray_namespace\":"@ + json_string(o.ray_namespace@))
    + entry_if(o.resources@.len() > 0, "\"resources\":"@ + resources_json_text(o.resources@))
    + entry_if(o.max_restarts != 0, "\"max_restarts\":"@ + decimal(o.max_restarts as int))
    + entry_if(o.max_concurrency != 1, "\"max_concurrency\":"@ + decimal(o.max_concurrency as int))
    + entry_if(
        o.serialized_runtime_env_info@.len() > 0,
        "\"serialized_runtime_env_info\":"@ + json_string(o.serialized_runtime_env_info@),
    )
    + entry_if(
        o.placement_group_id@.len() > 0,
        "\"placement_group_id\":\""@ + hex(o.placement_group_id@) + "\",\"bundle_index\":"@
            + decimal(o.bundle_index as int),
    )
}

/// The options as the JSON object the C interface takes, or the empty string
/// when every option is at its default.
pub open spec fn actor_options_json(o: ActorOptions) -> Seq<char> {
    let entries = actor_json_entries(o);
    if entries.len() == 0 {
        Seq::empty()
    } else {
        "{"@ + joined(entries, ","@) + "}"@
    }
}

fn push_entry_if(parts: &mut Vec<String>, cond: bool, entry: String)
    ensures
        texts(final(parts)@) == texts(old(parts)@) + entry_if(cond, entry@),
{
    let ghost before = parts@;
    let ghost ev = entry@;
    if cond {
        parts.push(entry);
        assert(texts(parts@) =~= texts(before) + seq![ev]);
    } else {
        assert(texts(parts@) =~= texts(before) + Seq::<Seq<char>>::empty());
    }
}

fn json_string_exec(s: &str) -> (r: String)
    ensures
        r@ == json_string(s@),
{
    String::from_str("\"").concat(json_escape(s).as_str()).concat("\"")
}

fn json_int_entry(key: &str, v: i32) -> (r: String)
    ensures
        r@ == key@ + decimal(v as int),
{
    let mut t = String::from_str(key);
    push_decimal_i64(&mut t, v as i64);
    t
}

impl ActorOptions {
    /// The options as the JSON object the C interface takes
    /// (`{"name":"counter","max_restarts":3}`), or the empty string when every
    /// option is at its default.
    pub fn to_json(&self) -> (r: String)
        ensures
            r@ == actor_options_json(*self),
    {
        let mut parts: Vec<String> = Vec::new();
        push_entry_if(
            &mut parts,
            !self.name.as_str().is_empty(),
            String::from_str("\"name\":").concat(json_string_exec(self.name.as_str()).as_str()),
        );
        push_entry_if(
            &mut parts,
            !self.ray_namespace.as_str().is_empty(),
            String::from_str("\"ray_namespace\":").concat(
                json_string_exec(self.ray_namespace.as_str()).as_str(),
            ),
        );
        push_entry_if(
            &mut parts,
            self.resources.len() > 0,
            String::from_str("\"resources\":").concat(
                resources_to_json(self.resources.as_slice()).as_str(),
            ),
        );
        push_entry_if(
            &mut parts,
            self.max_restarts != 0,
            json_int_entry("\"max_restarts\":", self.max_restarts),
        );
        push_entry_if(
            &mut parts,
            self.max_concurrency != 1,
            json_int_entry("\"max_concurrency\":", self.max_concurrency),
        );
        push_entry_if(
            &mut parts,
            !self.serialized_runtime_env_info.as_str().is_empty(),
            String::from_str("\"serialized_runtime_env_info\":").concat(
                json_string_exec(self.serialized_runtime_env_info.as_str()).as_str(),
            ),
        );
        let pg = String::from_str("\"placement_group_id\":\"").concat(
            hex_encode(self.placement_group_id.as_slice()).as_str(),
        ).concat("\",\"bundle_index\":");
        push_entry_if(
            &mut parts,
            self.placement_group_id.len() > 0,
            json_int_entry(pg.as_str(), self.bundle_index),
        );
        assert(texts(parts@) =~= actor_json_entries(*self));
        if parts.len() == 0 {
            String::new()
        } else {
            String::from_str("{").concat(join(parts.as_slice(), ",").as_str()).concat("}")
        }
    }
}

/// The options JSON is empty exactly when every option is at its default.
pub proof fn lemma_actor_json_empty_iff_default(o: ActorOptions)
    ensures
        actor_options_json(o).len() == 0 <==> o.all_default(),
{
    let entries = actor_json_entries(o);
    if entries.len() > 0 {
        lemma_joined_nonempty_wrapped(entries);
    }
}

/// The position of the `"resources"` entry among the options JSON entries:
/// after the name and the namespace entries that are present.
pub open spec fn resources_entry_index(o: ActorOptions) -> int {
    (if o.name@.len() > 0 {
        1int
    } else {
        0int
    }) + (if o.ray_namespace@.len() > 0 {
        1int
    } else {
        0int
    })
}

/// When an actor has resource requirements, its options JSON holds the
/// `"resources"` entry, whose object lists every requirement in order, with
/// the text `resources_to_json` gives for the whole list; it stands after the
/// name and namespace entries that are present.
pub proof fn lemma_actor_json_resources(o: ActorOptions)
    requires
        o.resources@.len() > 0,
    ensures
        actor_json_entries(o)[resources_entry_index(o)] == "\"resources\":"@ + resources_json_text(
            o.resources@,
        ),
        actor_options_json(o).subrange(
            1 + part_start(actor_json_entries(o), resources_entry_index(o)),
            1 + part_start(actor_json_entries(o), resources_entry_index(o)) + actor_json_entries(
                o,
            )[resources_entry_index(o)].len(),
        ) == "\"resources\":"@ + resources_json_text(o.resources@),
{
    let es = actor_json_entries(o);
    let k = resources_entry_index(o);
    let body = joined(es, ","@);
    reveal_strlit("{");
    reveal_strlit("}");
    reveal_strlit(",");
    assert(es[k] == "\"resources\":"@ + resources_json_text(o.resources@));
    lemma_joined_layout(es, ","@);
    assert(part_start(es, k) + es[k].len() <= body.len());
    assert(actor_options_json(o).subrange(1 + part_start(es, k), 1 + part_start(es, k) + es[k].len())
        =~= body.subrange(part_start(es, k), part_start(es, k) + es[k].len()));
}

/// An actor with a single option away from its default has that option's
/// entry, and nothing else, in its options JSON: `{"name":"..."}`,
/// `{"ray_namespace":"..."}`, `{"resources":{...}}`, `{"max_restarts":n}`,
/// `{"max_concurrency":n}`, `{"serialized_runtime_env_info":"..."}` or
/// `{"placement_group_id":"<hex>","bundle_index":i}`.
pub proof fn lemma_actor_json_single_option(
    o: ActorOptions,
    text: String,
    rs: Vec<(String, String)>,
    n: i32,
    group: Vec<u8>,
    bundle: i32,
)
    requires
        o.all_default(),
    ensures
        text@.len() > 0 ==> actor_options_json((ActorOptions { name: text, ..o })) == "{\"name\":\""@
            + json_escaped(text@) + "\"}"@,
        text@.len() > 0 ==> actor_options_json((ActorOptions { ray_namespace: text, ..o }))
            == "{\"ray_namespace\":\""@ + json_escaped(text@) + "\"}"@,
        rs@.len() > 0 ==> actor_options_json((ActorOptions { resources: rs, ..o }))
            == "{\"resources\":"@ + resources_json_text(rs@) + "}"@,
        n != 0 ==> actor_options_json((ActorOptions { max_restarts: n, ..o })) == "{\"max_restarts\":"@
            + decimal(n as int) + "}"@,
        n != 1 ==> actor_options_json((ActorOptions { max_concurrency: n, ..o }))
            == "{\"max_concurrency\":"@ + decimal(n as int) + "}"@,
        text@.len() > 0 ==> actor_options_json(
            (ActorOptions { serialized_runtime_env_info: text, ..o }),
        ) == "{\"serialized_runtime_env_info\":\""@ + json_escaped(text@) + "\"}"@,
        group@.len() > 0 ==> actor_options_json(
            (ActorOptions { placement_group_id: group, bundle_index: bundle, ..o }),
        ) == "{\"placement_group_id\":\""@ + hex(group@) + "\",\"bundle_index\":"@ + decimal(
            bundle as int,
        ) + "}"@,
{
    reveal_strlit("{");
    reveal_strlit("}");
    reveal_strlit("\"");
    reveal_strlit("\"}");
    reveal_strlit("\"name\":");
    reveal_strlit("{\"name\":\"");
    reveal_strlit("\"ray_namespace\":");
    reveal_strlit("{\"ray_namespace\":\"");
    reveal_strlit("\"resources\":");
    reveal_strlit("{\"resources\":");
    reveal_strlit("\"max_restarts\":");
    reveal_strlit("{\"max_restarts\":");
    reveal_strlit("\"max_concurrency\":");
    reveal_strlit("{\"max_concurrency\":");
    reveal_strlit("\"serialized_runtime_env_info\":");
    reveal_strlit("{\"serialized_runtime_env_info\":\"");
    reveal_strlit("\"placement_group_id\":\"");
    reveal_strlit("{\"placement_group_id\":\"");
    let a = ActorOptions { name: text, ..o };
    let b = ActorOptions { ray_namespace: text, ..o };
    let c = ActorOptions { resources: rs, ..o };
    let d = ActorOptions { max_restarts: n, ..o };
    let e = ActorOptions { max_concurrency: n, ..o };
    let f = ActorOptions { serialized_runtime_env_info: text, ..o };
    let g = ActorOptions { placement_group_id: group, bundle_index: bundle, ..o };
    if text@.len() > 0 {
        assert(actor_json_entries(a) =~= seq!["\"name\":"@ + json_string(text@)]);
        assert(actor_options_json(a) =~= "{\"name\":\""@ + json_escaped(text@) + "\"}"@);
        assert(actor_json_entries(b) =~= seq!["\"ray_namespace\":"@ + json_string(text@)]);
        assert(actor_options_json(b) =~= "{\"ray_namespace\":\""@ + json_escaped(text@) + "\"}"@);
        assert(actor_json_entries(f) =~= seq![
            "\"serialized_runtime_env_info\":"@ + json_string(text@),
        ]);
        assert(actor_options_json(f) =~= "{\"serialized_runtime_env_info\":\""@ + json_escaped(
            text@,
        ) + "\"}"@);
    }
    if rs@.len() > 0 {
        assert(actor_json_entries(c) =~= seq!["\"resources\":"@ + resources_json_text(rs@)]);
        assert(actor_options_json(c) =~= "{\"resources\":"@ + resources_json_text(rs@) + "}"@);
    }
    if n != 0 {
        assert(actor_json_entries(d) =~= seq!["\"max_restarts\":"@ + decimal(n as int)]);
        assert(actor_options_json(d) =~= "{\"max_restarts\":"@ + decimal(n as int) + "}"@);
    }
    if n != 1 {
        assert(actor_json_entries(e) =~= seq!["\"max_concurrency\":"@ + decimal(n as int)]);
        assert(actor_options_json(e) =~= "{\"max_concurrency\":"@ + decimal(n as int) + "}"@);
    }
    if group@.len() > 0 {
        let pg = "\"placement_group_id\":\""@ + hex(group@) + "\",\"bundle_index\":"@ + decimal(
            bundle as int,
        );
        assert(actor_json_entries(g) =~= seq![pg]);
        assert(actor_options_json(g) =~= "{"@ + pg + "}"@);
    }
}

/// A JSON object text made of entries is never empty.
proof fn lemma_joined_nonempty_wrapped(entries: Seq<Seq<char>>)
    ensures
        ("{"@ + joined(entries, ","@) + "}"@).len() > 0,
{
    reveal_strlit("{");
}

impl Default for ActorOptions {
    fn default() -> (r: Self)
        ensures
            r.all_default(),
            r.bundle_index == 0,
    {
        ActorOptions::new()
    }
}

} // verus!
