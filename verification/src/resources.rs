//! Table projections: for every listable resource kind, the table headers and
//! one row of text cells per object, as the generic table renderer shows them.
use vstd::prelude::*;

use crate::age::{age_ok, human_age};
use crate::dto::TableData;
use crate::kinds::opt_view;
use crate::model::ObjectMeta;
use crate::pods::{or_default, text_or};
use crate::text::{
    decimal, fmt_bool, fmt_i64, fmt_sum, fmt_u64, int_decimal, join, join_strings, owned,
    push_i64, push_str, str_eq, views,
};

verus! {

broadcast use vstd::string::group_string_axioms;

/// A resource that projects to one table row.
pub trait TableRow {
    /// `cells` is the row shown for this object.
    spec fn row_ok(&self, cells: Seq<Seq<char>>) -> bool;

    /// The row shown for this object.
    fn row(&self) -> (r: Vec<String>)
        ensures
            self.row_ok(views(r@)),
    ;
}

/// `t` has headers `headers` and one row per item, in order.
pub open spec fn table_ok<T: TableRow>(t: TableData, headers: Seq<Seq<char>>, items: Seq<T>) -> bool {
    &&& views(t.headers@) == headers
    &&& t.rows@.len() == items.len()
    &&& forall|i: int| 0 <= i < items.len() ==> (#[trigger] items[i]).row_ok(views(t.rows@[i]@))
}

/// Project `items` into a table with `headers`.
pub fn project<T: TableRow>(headers: Vec<String>, items: &Vec<T>) -> (t: TableData)
    ensures
        table_ok(t, views(headers@), items@),
{
    let mut rows: Vec<Vec<String>> = Vec::new();
    let mut i: usize = 0;
    while i < items.len()
        invariant
            i <= items.len(),
            rows@.len() == i,
            forall|j: int| 0 <= j < i ==> (#[trigger] items@[j]).row_ok(views(rows@[j]@)),
        decreases items.len() - i,
    {
        let r = items[i].row();
        rows.push(r);
        i += 1;
    }
    TableData { headers, rows }
}

/// The name cell of an object ("unknown" when unnamed).
pub open spec fn name_spec(m: ObjectMeta) -> Seq<char> {
    or_default(m.name, "unknown"@)
}

/// The namespace cell of an object ("-" when cluster-scoped).
pub open spec fn ns_spec(m: ObjectMeta) -> Seq<char> {
    or_default(m.namespace, "-"@)
}

/// `c` is an age cell for an object with metadata `m`.
pub open spec fn age_cell_ok(m: ObjectMeta, c: Seq<char>) -> bool {
    age_ok(opt_view(m.creation_timestamp), c)
}

fn name_cell(m: &ObjectMeta) -> (r: String)
    ensures
        r@ == name_spec(*m),
{
    text_or(&m.name, "unknown")
}

fn ns_cell(m: &ObjectMeta) -> (r: String)
    ensures
        r@ == ns_spec(*m),
{
    text_or(&m.namespace, "-")
}

fn age_cell(m: &ObjectMeta) -> (r: String)
    ensures
        age_cell_ok(*m, r@),
{
    match &m.creation_timestamp {
        Some(t) => human_age(Some(t.as_str())),
        None => human_age(None),
    }
}

/// The value of an optional integer, or `d`.
pub open spec fn int_or(o: Option<i32>, d: int) -> int {
    match o {
        Some(v) => v as int,
        None => d,
    }
}

/// "`a`/`b`".
pub open spec fn ratio_spec(a: int, b: int) -> Seq<char> {
    int_decimal(a) + "/"@ + int_decimal(b)
}

fn ratio_cell(a: i32, b: i32) -> (r: String)
    ensures
        r@ == ratio_spec(a as int, b as int),
{
    let mut r = String::new();
    push_i64(&mut r, a as i64);
    push_str(&mut r, "/");
    push_i64(&mut r, b as i64);
    assert(r@ =~= ratio_spec(a as int, b as int));
    r
}

fn opt_i32(o: Option<i32>, d: i32) -> (r: i32)
    ensures
        r as int == int_or(o, d as int),
{
    match o {
        Some(v) => v,
        None => d,
    }
}

/// The count of an optional list (0 when absent).
pub open spec fn len_or_zero(o: Option<usize>) -> nat {
    match o {
        Some(n) => n as nat,
        None => 0,
    }
}

fn len_or(o: Option<usize>) -> (r: usize)
    ensures
        r == len_or_zero(o),
{
    match o {
        Some(n) => n,
        None => 0,
    }
}

/// The value of key `k` in a key/value list (the first match).
pub open spec fn lookup_spec(m: Seq<(String, String)>, k: Seq<char>) -> Option<Seq<char>>
    decreases m.len(),
{
    if m.len() == 0 {
        None
    } else if m[0].0@ == k {
        Some(m[0].1@)
    } else {
        lookup_spec(m.drop_first(), k)
    }
}

/// The value of key `k` in a key/value list.
pub fn lookup(m: &Vec<(String, String)>, k: &str) -> (r: Option<String>)
    ensures
        opt_view(r) == lookup_spec(m@, k@),
{
    let mut i: usize = 0;
    assert(m@.subrange(0, m@.len() as int) =~= m@);
    while i < m.len()
        invariant
            i <= m.len(),
            lookup_spec(m@, k@) == lookup_spec(m@.subrange(i as int, m@.len() as int), k@),
        decreases m.len() - i,
    {
        let ghost rest = m@.subrange(i as int, m@.len() as int);
        assert(rest[0] == m@[i as int]);
        if str_eq(m[i].0.as_str(), k) {
            return Some(m[i].1.clone());
        }
        assert(rest.drop_first() =~= m@.subrange(i + 1, m@.len() as int));
        i += 1;
    }
    None
}

/// The storage capacity in a quantity map ("-" when absent).
pub open spec fn storage_spec(cap: Option<Vec<(String, String)>>) -> Seq<char> {
    match cap {
        Some(m) => match lookup_spec(m@, "storage"@) {
            Some(q) => q,
            None => "-"@,
        },
        None => "-"@,
    }
}

fn storage_cell(cap: &Option<Vec<(String, String)>>) -> (r: String)
    ensures
        r@ == storage_spec(*cap),
{
    match cap {
        Some(m) => match lookup(m, "storage") {
            Some(q) => q,
            None => owned("-"),
        },
        None => owned("-"),
    }
}

/// Headers from literals.
fn headers(hs: &[&str]) -> (r: Vec<String>)
    ensures
        views(r@) == hs@.map_values(|h: &str| h@),
{
    let mut r: Vec<String> = Vec::new();
    let mut i: usize = 0;
    while i < hs.len()
        invariant
            i <= hs.len(),
            r@.len() == i,
            forall|j: int| 0 <= j < i ==> (#[trigger] r@[j])@ == hs@[j]@,
        decreases hs.len() - i,
    {
        r.push(owned(hs[i]));
        i += 1;
    }
    assert(views(r@) =~= hs@.map_values(|h: &str| h@));
    r
}

// ---------------------------------------------------------------------------
// Namespaces
// ---------------------------------------------------------------------------

/// A namespace.
#[derive(Debug, Clone)]
pub struct NamespaceObj {
    pub metadata: ObjectMeta,
    pub phase: Option<String>,
}

impl TableRow for NamespaceObj {
    open spec fn row_ok(&self, c: Seq<Seq<char>>) -> bool {
        &&& c.len() == 3
        &&& c[0] == name_spec(self.metadata)
        &&& c[1] == or_default(self.phase, "Active"@)
        &&& age_cell_ok(self.metadata, c[2])
    }

    fn row(&self) -> (r: Vec<String>) {
        let r = vec![name_cell(&self.metadata), text_or(&self.phase, "Active"), age_cell(&self.metadata)];
        r
    }
}

/// The Namespaces table.
pub fn namespaces_table(items: &Vec<NamespaceObj>) -> (t: TableData)
    ensures
        table_ok(t, seq!["Name"@, "Status"@, "Age"@], items@),
{
    let h = headers(&["Name", "Status", "Age"]);
    proof {
        assert(views(h@) =~= seq!["Name"@, "Status"@, "Age"@]);
    }
    project(h, items)
}


// ---------------------------------------------------------------------------
// Services
// ---------------------------------------------------------------------------

/// A port a service exposes.
#[derive(Debug, Clone)]
pub struct ServicePort {
    pub port: i32,
    pub protocol: Option<String>,
}

/// The spec of a service.
#[derive(Debug, Clone)]
pub struct ServiceSpec {
    pub type_: Option<String>,
    pub cluster_ip: Option<String>,
    pub ports: Option<Vec<ServicePort>>,
}

/// A service.
#[derive(Debug, Clone)]
pub struct ServiceObj {
    pub metadata: ObjectMeta,
    pub spec: Option<ServiceSpec>,
}

/// "port/protocol" for a service port (TCP by default).
pub open spec fn port_text(p: ServicePort) -> Seq<char> {
    int_decimal(p.port as int) + "/"@ + or_default(p.protocol, "TCP"@)
}

/// The ports cell of a service.
pub open spec fn ports_spec(s: Option<ServiceSpec>) -> Seq<char> {
    match s {
        Some(sp) => match sp.ports {
            Some(ps) => join(ps@.map_values(|p: ServicePort| port_text(p)), ", "@),
            None => "-"@,
        },
        None => "-"@,
    }
}

fn port_texts(ps: &Vec<ServicePort>) -> (r: Vec<String>)
    ensures
        views(r@) == ps@.map_values(|p: ServicePort| port_text(p)),
{
    let mut r: Vec<String> = Vec::new();
    let mut i: usize = 0;
    while i < ps.len()
        invariant
            i <= ps.len(),
            r@.len() == i,
            forall|j: int| 0 <= j < i ==> (#[trigger] r@[j])@ == port_text(ps@[j]),
        decreases ps.len() - i,
    {
        let mut t = fmt_i64(ps[i].port as i64);
        push_str(&mut t, "/");
        let proto = text_or(&ps[i].protocol, "TCP");
        push_str(&mut t, proto.as_str());
        r.push(t);
        i += 1;
    }
    assert(views(r@) =~= ps@.map_values(|p: ServicePort| port_text(p)));
    r
}

impl TableRow for ServiceObj {
    open spec fn row_ok(&self, c: Seq<Seq<char>>) -> bool {
        &&& c.len() == 6
        &&& c[0] == name_spec(self.metadata)
        &&& c[1] == ns_spec(self.metadata)
        &&& c[2] == match self.spec {
            Some(sp) => or_default(sp.type_, "ClusterIP"@),
            None => "ClusterIP"@,
        }
        &&& c[3] == match self.spec {
            Some(sp) => or_default(sp.cluster_ip, "-"@),
            None => "-"@,
        }
        &&& c[4] == ports_spec(self.spec)
        &&& age_cell_ok(self.metadata, c[5])
    }

    fn row(&self) -> (r: Vec<String>) {
        let (typ, ip, ports) = match &self.spec {
            Some(sp) => {
                let ports = match &sp.ports {
                    Some(ps) => join_strings(&port_texts(ps), ", "),
                    None => owned("-"),
                };
                (text_or(&sp.type_, "ClusterIP"), text_or(&sp.cluster_ip, "-"), ports)
            },
            None => (owned("ClusterIP"), owned("-"), owned("-")),
        };
        vec![name_cell(&self.metadata), ns_cell(&self.metadata), typ, ip, ports, age_cell(&self.metadata)]
    }
}

/// The Services table.
pub fn services_table(items: &Vec<ServiceObj>) -> (t: TableData)
    ensures
        table_ok(
            t,
            seq!["Name"@, "Namespace"@, "Type"@, "Cluster IP"@, "Ports"@, "Age"@],
            items@,
        ),
{
    let h = headers(&["Name", "Namespace", "Type", "Cluster IP", "Ports", "Age"]);
    proof {
        assert(views(h@) =~= seq!["Name"@, "Namespace"@, "Type"@, "Cluster IP"@, "Ports"@, "Age"@]);
    }
    project(h, items)
}

// ---------------------------------------------------------------------------
// Deployments, stateful sets, daemon sets
// ---------------------------------------------------------------------------

/// A deployment: desired replicas and the status counters.
#[derive(Debug, Clone)]
pub struct DeploymentObj {
    pub metadata: ObjectMeta,
    /// `spec.replicas` (`None` without a spec or without the field).
    pub replicas: Option<i32>,
    pub ready_replicas: Option<i32>,
    pub updated_replicas: Option<i32>,
    pub available_replicas: Option<i32>,
}

impl TableRow for DeploymentObj {
    open spec fn row_ok(&self, c: Seq<Seq<char>>) -> bool {
        &&& c.len() == 6
        &&& c[0] == name_spec(self.metadata)
        &&& c[1] == ns_spec(self.metadata)
        &&& c[2] == ratio_spec(int_or(self.ready_replicas, 0), int_or(self.replicas, 0))
        &&& c[3] == int_decimal(int_or(self.updated_replicas, 0))
        &&& c[4] == int_decimal(int_or(self.available_replicas, 0))
        &&& age_cell_ok(self.metadata, c[5])
    }

    fn row(&self) -> (r: Vec<String>) {
        let desired = opt_i32(self.replicas, 0);
        let ready = opt_i32(self.ready_replicas, 0);
        let updated = opt_i32(self.updated_replicas, 0);
        let available = opt_i32(self.available_replicas, 0);
        vec![
            name_cell(&self.metadata),
            ns_cell(&self.metadata),
            ratio_cell(ready, desired),
            fmt_i64(updated as i64),
            fmt_i64(available as i64),
            age_cell(&self.metadata),
        ]
    }
}

/// The Deployments table.
pub fn deployments_table(items: &Vec<DeploymentObj>) -> (t: TableData)
    ensures
        table_ok(
            t,
            seq!["Name"@, "Namespace"@, "Ready"@, "Up-to-date"@, "Available"@, "Age"@],
            items@,
        ),
{
    let h = headers(&["Name", "Namespace", "Ready", "Up-to-date", "Available", "Age"]);
    proof {
        assert(views(h@) =~= seq!["Name"@, "Namespace"@, "Ready"@, "Up-to-date"@, "Available"@, "Age"@]);
    }
    project(h, items)
}

/// A stateful set: desired and ready replicas.
#[derive(Debug, Clone)]
pub struct StatefulSetObj {
    pub metadata: ObjectMeta,
    pub replicas: Option<i32>,
    pub ready_replicas: Option<i32>,
}

impl TableRow for StatefulSetObj {
    open spec fn row_ok(&self, c: Seq<Seq<char>>) -> bool {
        &&& c.len() == 4
        &&& c[0] == name_spec(self.metadata)
        &&& c[1] == ns_spec(self.metadata)
        &&& c[2] == ratio_spec(int_or(self.ready_replicas, 0), int_or(self.replicas, 0))
        &&& age_cell_ok(self.metadata, c[3])
    }

    fn row(&self) -> (r: Vec<String>) {
        let desired = opt_i32(self.replicas, 0);
        let ready = opt_i32(self.ready_replicas, 0);
        vec![
            name_cell(&self.metadata),
            ns_cell(&self.metadata),
            ratio_cell(ready, desired),
            age_cell(&self.metadata),
        ]
    }
}

/// The StatefulSets table.
pub fn statefulsets_table(items: &Vec<StatefulSetObj>) -> (t: TableData)
    ensures
        table_ok(t, seq!["Name"@, "Namespace"@, "Ready"@, "Age"@], items@),
{
    let h = headers(&["Name", "Namespace", "Ready", "Age"]);
    proof {
        assert(views(h@) =~= seq!["Name"@, "Namespace"@, "Ready"@, "Age"@]);
    }
    project(h, items)
}

/// The status counters of a daemon set.
#[derive(Debug, Clone)]
pub struct DaemonSetStatus {
    pub desired_number_scheduled: i32,
    pub current_number_scheduled: i32,
    pub number_ready: i32,
    pub updated_number_scheduled: Option<i32>,
    pub number_available: Option<i32>,
}

/// A daemon set.
#[derive(Debug, Clone)]
pub struct DaemonSetObj {
    pub metadata: ObjectMeta,
    pub status: Option<DaemonSetStatus>,
}

impl TableRow for DaemonSetObj {
    open spec fn row_ok(&self, c: Seq<Seq<char>>) -> bool {
        &&& c.len() == 8
        &&& c[0] == name_spec(self.metadata)
        &&& c[1] == ns_spec(self.metadata)
        &&& match self.status {
            Some(st) => {
                &&& c[2] == int_decimal(st.desired_number_scheduled as int)
                &&& c[3] == int_decimal(st.current_number_scheduled as int)
                &&& c[4] == int_decimal(st.number_ready as int)
                &&& c[5] == int_decimal(int_or(st.updated_number_scheduled, 0))
                &&& c[6] == int_decimal(int_or(st.number_available, 0))
            },
            None => c[2] == int_decimal(0) && c[3] == int_decimal(0) && c[4] == int_decimal(0)
                && c[5] == int_decimal(0) && c[6] == int_decimal(0),
        }
        &&& age_cell_ok(self.metadata, c[7])
    }

    fn row(&self) -> (r: Vec<String>) {
        let (d, cu, rd, up, av) = match &self.status {
            Some(st) => (
                st.desired_number_scheduled,
                st.current_number_scheduled,
                st.number_ready,
                opt_i32(st.updated_number_scheduled, 0),
                opt_i32(st.number_available, 0),
            ),
            None => (0, 0, 0, 0, 0),
        };
        vec![
            name_cell(&self.metadata),
            ns_cell(&self.metadata),
            fmt_i64(d as i64),
            fmt_i64(cu as i64),
            fmt_i64(rd as i64),
            fmt_i64(up as i64),
            fmt_i64(av as i64),
            age_cell(&self.metadata),
        ]
    }
}

/// The DaemonSets table.
pub fn daemonsets_table(items: &Vec<DaemonSetObj>) -> (t: TableData)
    ensures
        table_ok(
            t,
            seq![
                "Name"@,
                "Namespace"@,
                "Desired"@,
                "Current"@,
                "Ready"@,
                "Up-to-date"@,
                "Available"@,
                "Age"@,
            ],
            items@,
        ),
{
    let h = headers(
        &["Name", "Namespace", "Desired", "Current", "Ready", "Up-to-date", "Available", "Age"],
    );
    proof {
        assert(views(h@) =~= seq![
            "Name"@,
            "Namespace"@,
            "Desired"@,
            "Current"@,
            "Ready"@,
            "Up-to-date"@,
            "Available"@,
            "Age"@,
        ]);
    }
    project(h, items)
}

// ---------------------------------------------------------------------------
// Jobs and cron jobs
// ---------------------------------------------------------------------------

/// A job: succeeded pods and wanted completions.
#[derive(Debug, Clone)]
pub struct JobObj {
    pub metadata: ObjectMeta,
    pub succeeded: Option<i32>,
    pub completions: Option<i32>,
}

impl TableRow for JobObj {
    open spec fn row_ok(&self, c: Seq<Seq<char>>) -> bool {
        &&& c.len() == 4
        &&& c[0] == name_spec(self.metadata)
        &&& c[1] == ns_spec(self.metadata)
        &&& c[2] == ratio_spec(int_or(self.succeeded, 0), int_or(self.completions, 1))
        &&& age_cell_ok(self.metadata, c[3])
    }

    fn row(&self) -> (r: Vec<String>) {
        let s = opt_i32(self.succeeded, 0);
        let c = opt_i32(self.completions, 1);
        vec![
            name_cell(&self.metadata),
            ns_cell(&self.metadata),
            ratio_cell(s, c),
            age_cell(&self.metadata),
        ]
    }
}

/// The Jobs table.
pub fn jobs_table(items: &Vec<JobObj>) -> (t: TableData)
    ensures
        table_ok(t, seq!["Name"@, "Namespace"@, "Completions"@, "Age"@], items@),
{
    let h = headers(&["Name", "Namespace", "Completions", "Age"]);
    proof {
        assert(views(h@) =~= seq!["Name"@, "Namespace"@, "Completions"@, "Age"@]);
    }
    project(h, items)
}

/// A cron job.
#[derive(Debug, Clone)]
pub struct CronJobObj {
    pub metadata: ObjectMeta,
    /// `spec.schedule` (`None` without a spec).
    pub schedule: Option<String>,
    pub suspend: Option<bool>,
    /// The number of active jobs (`None` without the list).
    pub active: Option<usize>,
    pub last_schedule_time: Option<String>,
}

impl TableRow for CronJobObj {
    open spec fn row_ok(&self, c: Seq<Seq<char>>) -> bool {
        &&& c.len() == 7
        &&& c[0] == name_spec(self.metadata)
        &&& c[1] == ns_spec(self.metadata)
        &&& c[2] == or_default(self.schedule, "-"@)
        &&& c[3] == (if self.suspend == Some(true) {
            "true"@
        } else {
            "false"@
        })
        &&& c[4] == decimal(len_or_zero(self.active))
        &&& match self.last_schedule_time {
            Some(t) => age_ok(Some(t@), c[5]),
            None => c[5] == "-"@,
        }
        &&& age_cell_ok(self.metadata, c[6])
    }

    fn row(&self) -> (r: Vec<String>) {
        let suspend = match self.suspend {
            Some(b) => b,
            None => false,
        };
        let last = match &self.last_schedule_time {
            Some(t) => human_age(Some(t.as_str())),
            None => owned("-"),
        };
        vec![
            name_cell(&self.metadata),
            ns_cell(&self.metadata),
            text_or(&self.schedule, "-"),
            fmt_bool(suspend),
            fmt_u64(len_or(self.active) as u64),
            last,
            age_cell(&self.metadata),
        ]
    }
}

/// The CronJobs table.
pub fn cronjobs_table(items: &Vec<CronJobObj>) -> (t: TableData)
    ensures
        table_ok(
            t,
            seq![
                "Name"@,
                "Namespace"@,
                "Schedule"@,
                "Suspend"@,
                "Active"@,
                "Last Schedule"@,
                "Age"@,
            ],
            items@,
        ),
{
    let h = headers(&["Name", "Namespace", "Schedule", "Suspend", "Active", "Last Schedule", "Age"]);
    proof {
        assert(views(h@) =~= seq![
            "Name"@,
            "Namespace"@,
            "Schedule"@,
            "Suspend"@,
            "Active"@,
            "Last Schedule"@,
            "Age"@,
        ]);
    }
    project(h, items)
}

// ---------------------------------------------------------------------------
// Config maps and secrets
// ---------------------------------------------------------------------------

/// A config map: the sizes of its text and binary data.
#[derive(Debug, Clone)]
pub struct ConfigMapObj {
    pub metadata: ObjectMeta,
    pub data: Option<usize>,
    pub binary_data: Option<usize>,
}

impl TableRow for ConfigMapObj {
    open spec fn row_ok(&self, c: Seq<Seq<char>>) -> bool {
        &&& c.len() == 4
        &&& c[0] == name_spec(self.metadata)
        &&& c[1] == ns_spec(self.metadata)
        &&& c[2] == decimal(len_or_zero(self.data) + len_or_zero(self.binary_data))
        &&& age_cell_ok(self.metadata, c[3])
    }

    fn row(&self) -> (r: Vec<String>) {
        vec![
            name_cell(&self.metadata),
            ns_cell(&self.metadata),
            fmt_sum(len_or(self.data), len_or(self.binary_data)),
            age_cell(&self.metadata),
        ]
    }
}

/// The ConfigMaps table.
pub fn configmaps_table(items: &Vec<ConfigMapObj>) -> (t: TableData)
    ensures
        table_ok(t, seq!["Name"@, "Namespace"@, "Data"@, "Age"@], items@),
{
    let h = headers(&["Name", "Namespace", "Data", "Age"]);
    proof {
        assert(views(h@) =~= seq!["Name"@, "Namespace"@, "Data"@, "Age"@]);
    }
    project(h, items)
}

/// A secret: its type and the sizes of its data.
#[derive(Debug, Clone)]
pub struct SecretObj {
    pub metadata: ObjectMeta,
    pub type_: Option<String>,
    pub data: Option<usize>,
    pub string_data: Option<usize>,
}

impl TableRow for SecretObj {
    open spec fn row_ok(&self, c: Seq<Seq<char>>) -> bool {
        &&& c.len() == 5
        &&& c[0] == name_spec(self.metadata)
        &&& c[1] == ns_spec(self.metadata)
        &&& c[2] == or_default(self.type_, "Opaque"@)
        &&& c[3] == decimal(len_or_zero(self.data) + len_or_zero(self.string_data))
        &&& age_cell_ok(self.metadata, c[4])
    }

    fn row(&self) -> (r: Vec<String>) {
        vec![
            name_cell(&self.metadata),
            ns_cell(&self.metadata),
            text_or(&self.type_, "Opaque"),
            fmt_sum(len_or(self.data), len_or(self.string_data)),
            age_cell(&self.metadata),
        ]
    }
}

/// The Secrets table.
pub fn secrets_table(items: &Vec<SecretObj>) -> (t: TableData)
    ensures
        table_ok(t, seq!["Name"@, "Namespace"@, "Type"@, "Data"@, "Age"@], items@),
{
    let h = headers(&["Name", "Namespace", "Type", "Data", "Age"]);
    proof {
        assert(views(h@) =~= seq!["Name"@, "Namespace"@, "Type"@, "Data"@, "Age"@]);
    }
    project(h, items)
}

// ---------------------------------------------------------------------------
// Storage
// ---------------------------------------------------------------------------

/// A persistent volume claim.
#[derive(Debug, Clone)]
pub struct PvcObj {
    pub metadata: ObjectMeta,
    pub phase: Option<String>,
    pub volume_name: Option<String>,
    /// `status.capacity` as quantity pairs.
    pub capacity: Option<Vec<(String, String)>>,
    pub storage_class_name: Option<String>,
}

impl TableRow for PvcObj {
    open spec fn row_ok(&self, c: Seq<Seq<char>>) -> bool {
        &&& c.len() == 7
        &&& c[0] == name_spec(self.metadata)
        &&& c[1] == ns_spec(self.metadata)
        &&& c[2] == or_default(self.phase, "-"@)
        &&& c[3] == or_default(self.volume_name, "-"@)
        &&& c[4] == storage_spec(self.capacity)
        &&& c[5] == or_default(self.storage_class_name, "-"@)
        &&& age_cell_ok(self.metadata, c[6])
    }

    fn row(&self) -> (r: Vec<String>) {
        vec![
            name_cell(&self.metadata),
            ns_cell(&self.metadata),
            text_or(&self.phase, "-"),
            text_or(&self.volume_name, "-"),
            storage_cell(&self.capacity),
            text_or(&self.storage_class_name, "-"),
            age_cell(&self.metadata),
        ]
    }
}

/// The PersistentVolumeClaims table.
pub fn pvcs_table(items: &Vec<PvcObj>) -> (t: TableData)
    ensures
        table_ok(
            t,
            seq![
                "Name"@,
                "Namespace"@,
                "Status"@,
                "Volume"@,
                "Capacity"@,
                "Storage Class"@,
                "Age"@,
            ],
            items@,
        ),
{
    let h = headers(&["Name", "Namespace", "Status", "Volume", "Capacity", "Storage Class", "Age"]);
    proof {
        assert(views(h@) =~= seq![
            "Name"@,
            "Namespace"@,
            "Status"@,
            "Volume"@,
            "Capacity"@,
            "Storage Class"@,
            "Age"@,
        ]);
    }
    project(h, items)
}

/// A persistent volume.
#[derive(Debug, Clone)]
pub struct PvObj {
    pub metadata: ObjectMeta,
    /// `spec.capacity` as quantity pairs.
    pub capacity: Option<Vec<(String, String)>>,
    pub access_modes: Option<Vec<String>>,
    pub reclaim_policy: Option<String>,
    pub phase: Option<String>,
    pub storage_class_name: Option<String>,
}

/// The access modes cell ("-" when absent).
pub open spec fn modes_spec(m: Option<Vec<String>>) -> Seq<char> {
    match m {
        Some(v) => join(views(v@), ","@),
        None => "-"@,
    }
}

impl TableRow for PvObj {
    open spec fn row_ok(&self, c: Seq<Seq<char>>) -> bool {
        &&& c.len() == 7
        &&& c[0] == name_spec(self.metadata)
        &&& c[1] == storage_spec(self.capacity)
        &&& c[2] == modes_spec(self.access_modes)
        &&& c[3] == or_default(self.reclaim_policy, "-"@)
        &&& c[4] == or_default(self.phase, "-"@)
        &&& c[5] == or_default(self.storage_class_name, "-"@)
        &&& age_cell_ok(self.metadata, c[6])
    }

    fn row(&self) -> (r: Vec<String>) {
        let modes = match &self.access_modes {
            Some(v) => join_strings(v, ","),
            None => owned("-"),
        };
        vec![
            name_cell(&self.metadata),
            storage_cell(&self.capacity),
            modes,
            text_or(&self.reclaim_policy, "-"),
            text_or(&self.phase, "-"),
            text_or(&self.storage_class_name, "-"),
            age_cell(&self.metadata),
        ]
    }
}

/// The PersistentVolumes table.
pub fn pvs_table(items: &Vec<PvObj>) -> (t: TableData)
    ensures
        table_ok(
            t,
            seq![
                "Name"@,
                "Capacity"@,
                "Access Modes"@,
                "Reclaim Policy"@,
                "Status"@,
                "Storage Class"@,
                "Age"@,
            ],
            items@,
        ),
{
    let h = headers(
        &["Name", "Capacity", "Access Modes", "Reclaim Policy", "Status", "Storage Class", "Age"],
    );
    proof {
        assert(views(h@) =~= seq![
            "Name"@,
            "Capacity"@,
            "Access Modes"@,
            "Reclaim Policy"@,
            "Status"@,
            "Storage Class"@,
            "Age"@,
        ]);
    }
    project(h, items)
}

/// A storage class.
#[derive(Debug, Clone)]
pub struct StorageClassObj {
    pub metadata: ObjectMeta,
    pub provisioner: String,
    pub reclaim_policy: Option<String>,
    pub volume_binding_mode: Option<String>,
}

impl TableRow for StorageClassObj {
    open spec fn row_ok(&self, c: Seq<Seq<char>>) -> bool {
        &&& c.len() == 5
        &&& c[0] == name_spec(self.metadata)
        &&& c[1] == self.provisioner@
        &&& c[2] == or_default(self.reclaim_policy, "-"@)
        &&& c[3] == or_default(self.volume_binding_mode, "-"@)
        &&& age_cell_ok(self.metadata, c[4])
    }

    fn row(&self) -> (r: Vec<String>) {
        vec![
            name_cell(&self.metadata),
            self.provisioner.clone(),
            text_or(&self.reclaim_policy, "-"),
            text_or(&self.volume_binding_mode, "-"),
            age_cell(&self.metadata),
        ]
    }
}

/// The StorageClasses table.
pub fn storage_classes_table(items: &Vec<StorageClassObj>) -> (t: TableData)
    ensures
        table_ok(
            t,
            seq!["Name"@, "Provisioner"@, "Reclaim Policy"@, "Volume Binding"@, "Age"@],
            items@,
        ),
{
    let h = headers(&["Name", "Provisioner", "Reclaim Policy", "Volume Binding", "Age"]);
    proof {
        assert(views(h@) =~= seq!["Name"@, "Provisioner"@, "Reclaim Policy"@, "Volume Binding"@, "Age"@]);
    }
    project(h, items)
}

// ---------------------------------------------------------------------------
// Network
// ---------------------------------------------------------------------------

/// An ingress: its class and the hosts of its rules (`None` for a rule
/// without a host).
#[derive(Debug, Clone)]
pub struct IngressObj {
    pub metadata: ObjectMeta,
    pub ingress_class_name: Option<String>,
    pub rules: Option<Vec<Option<String>>>,
}

/// The hosts named by a list of rules, in order.
pub open spec fn hosts_of(rules: Seq<Option<String>>) -> Seq<Seq<char>>
    decreases rules.len(),
{
    if rules.len() == 0 {
        Seq::empty()
    } else {
        match rules.last() {
            Some(h) => hosts_of(rules.drop_last()).push(h@),
            None => hosts_of(rules.drop_last()),
        }
    }
}

/// The hosts cell of an ingress: "*" when no rule names a host.
pub open spec fn hosts_spec(rules: Option<Vec<Option<String>>>) -> Seq<char> {
    match rules {
        Some(rs) => if hosts_of(rs@).len() == 0 {
            "*"@
        } else {
            join(hosts_of(rs@), ", "@)
        },
        None => "*"@,
    }
}

fn collect_hosts(rules: &Vec<Option<String>>) -> (r: Vec<String>)
    ensures
        views(r@) == hosts_of(rules@),
{
    let mut r: Vec<String> = Vec::new();
    let mut i: usize = 0;
    while i < rules.len()
        invariant
            i <= rules.len(),
            views(r@) == hosts_of(rules@.subrange(0, i as int)),
        decreases rules.len() - i,
    {
        assert(rules@.subrange(0, i + 1).drop_last() =~= rules@.subrange(0, i as int));
        match &rules[i] {
            Some(h) => {
                r.push(h.clone());
                assert(views(r@) =~= hosts_of(rules@.subrange(0, i as int)).push(h@));
            },
            None => {},
        }
        i += 1;
    }
    assert(rules@.subrange(0, rules.len() as int) =~= rules@);
    r
}

impl TableRow for IngressObj {
    open spec fn row_ok(&self, c: Seq<Seq<char>>) -> bool {
        &&& c.len() == 5
        &&& c[0] == name_spec(self.metadata)
        &&& c[1] == ns_spec(self.metadata)
        &&& c[2] == or_default(self.ingress_class_name, "-"@)
        &&& c[3] == hosts_spec(self.rules)
        &&& age_cell_ok(self.metadata, c[4])
    }

    fn row(&self) -> (r: Vec<String>) {
        let hosts = match &self.rules {
            Some(rs) => {
                let hs = collect_hosts(rs);
                if hs.len() == 0 {
                    owned("*")
                } else {
                    join_strings(&hs, ", ")
                }
            },
            None => owned("*"),
        };
        vec![
            name_cell(&self.metadata),
            ns_cell(&self.metadata),
            text_or(&self.ingress_class_name, "-"),
            hosts,
            age_cell(&self.metadata),
        ]
    }
}

/// The Ingresses table.
pub fn ingresses_table(items: &Vec<IngressObj>) -> (t: TableData)
    ensures
        table_ok(t, seq!["Name"@, "Namespace"@, "Class"@, "Hosts"@, "Age"@], items@),
{
    let h = headers(&["Name", "Namespace", "Class", "Hosts", "Age"]);
    proof {
        assert(views(h@) =~= seq!["Name"@, "Namespace"@, "Class"@, "Hosts"@, "Age"@]);
    }
    project(h, items)
}

/// An ingress class.
#[derive(Debug, Clone)]
pub struct IngressClassObj {
    pub metadata: ObjectMeta,
    /// `spec.controller` (`None` without a spec).
    pub controller: Option<String>,
}

impl TableRow for IngressClassObj {
    open spec fn row_ok(&self, c: Seq<Seq<char>>) -> bool {
        &&& c.len() == 3
        &&& c[0] == name_spec(self.metadata)
        &&& c[1] == or_default(self.controller, "-"@)
        &&& age_cell_ok(self.metadata, c[2])
    }

    fn row(&self) -> (r: Vec<String>) {
        vec![name_cell(&self.metadata), text_or(&self.controller, "-"), age_cell(&self.metadata)]
    }
}

/// The IngressClasses table.
pub fn ingress_classes_table(items: &Vec<IngressClassObj>) -> (t: TableData)
    ensures
        table_ok(t, seq!["Name"@, "Controller"@, "Age"@], items@),
{
    let h = headers(&["Name", "Controller", "Age"]);
    proof {
        assert(views(h@) =~= seq!["Name"@, "Controller"@, "Age"@]);
    }
    project(h, items)
}

/// A network policy: the match labels of its pod selector.
#[derive(Debug, Clone)]
pub struct NetworkPolicyObj {
    pub metadata: ObjectMeta,
    pub match_labels: Option<Vec<(String, String)>>,
}

/// "k=v" for a label pair.
pub open spec fn pair_text(p: (String, String)) -> Seq<char> {
    p.0@ + "="@ + p.1@
}

/// The pod selector cell: "<all pods>" when nothing is selected on.
pub open spec fn selector_spec(m: Option<Vec<(String, String)>>) -> Seq<char> {
    match m {
        Some(ls) => if ls@.len() == 0 {
            "<all pods>"@
        } else {
            join(ls@.map_values(|p: (String, String)| pair_text(p)), ","@)
        },
        None => "<all pods>"@,
    }
}

fn pair_texts(ls: &Vec<(String, String)>) -> (r: Vec<String>)
    ensures
        views(r@) == ls@.map_values(|p: (String, String)| pair_text(p)),
{
    let mut r: Vec<String> = Vec::new();
    let mut i: usize = 0;
    while i < ls.len()
        invariant
            i <= ls.len(),
            r@.len() == i,
            forall|j: int| 0 <= j < i ==> (#[trigger] r@[j])@ == pair_text(ls@[j]),
        decreases ls.len() - i,
    {
        let mut t = ls[i].0.clone();
        push_str(&mut t, "=");
        push_str(&mut t, ls[i].1.as_str());
        r.push(t);
        i += 1;
    }
    assert(views(r@) =~= ls@.map_values(|p: (String, String)| pair_text(p)));
    r
}

impl TableRow for NetworkPolicyObj {
    open spec fn row_ok(&self, c: Seq<Seq<char>>) -> bool {
        &&& c.len() == 4
        &&& c[0] == name_spec(self.metadata)
        &&& c[1] == ns_spec(self.metadata)
        &&& c[2] == selector_spec(self.match_labels)
        &&& age_cell_ok(self.metadata, c[3])
    }

    fn row(&self) -> (r: Vec<String>) {
        let sel = match &self.match_labels {
            Some(ls) => if ls.len() == 0 {
                owned("<all pods>")
            } else {
                join_strings(&pair_texts(ls), ",")
            },
            None => owned("<all pods>"),
        };
        vec![name_cell(&self.metadata), ns_cell(&self.metadata), sel, age_cell(&self.metadata)]
    }
}

/// The NetworkPolicies table.
pub fn network_policies_table(items: &Vec<NetworkPolicyObj>) -> (t: TableData)
    ensures
        table_ok(t, seq!["Name"@, "Namespace"@, "Pod Selector"@, "Age"@], items@),
{
    let h = headers(&["Name", "Namespace", "Pod Selector", "Age"]);
    proof {
        assert(views(h@) =~= seq!["Name"@, "Namespace"@, "Pod Selector"@, "Age"@]);
    }
    project(h, items)
}

// ---------------------------------------------------------------------------
// Access control
// ---------------------------------------------------------------------------

/// An object whose table row counts one list: service accounts (secrets),
/// roles and cluster roles (rules).
#[derive(Debug, Clone)]
pub struct CountedObj {
    pub metadata: ObjectMeta,
    /// The length of the counted list (`None` without the list).
    pub count: Option<usize>,
}

/// A service account with the number of its secrets.
pub type ServiceAccountObj = CountedObj;

/// A role with the number of its rules.
pub type RoleObj = CountedObj;

/// A cluster role with the number of its rules.
pub type ClusterRoleObj = CountedObj;

impl TableRow for CountedObj {
    open spec fn row_ok(&self, c: Seq<Seq<char>>) -> bool {
        &&& c.len() == 4
        &&& c[0] == name_spec(self.metadata)
        &&& c[1] == ns_spec(self.metadata)
        &&& c[2] == decimal(len_or_zero(self.count))
        &&& age_cell_ok(self.metadata, c[3])
    }

    fn row(&self) -> (r: Vec<String>) {
        vec![
            name_cell(&self.metadata),
            ns_cell(&self.metadata),
            fmt_u64(len_or(self.count) as u64),
            age_cell(&self.metadata),
        ]
    }
}

/// The ServiceAccounts table.
pub fn service_accounts_table(items: &Vec<ServiceAccountObj>) -> (t: TableData)
    ensures
        table_ok(t, seq!["Name"@, "Namespace"@, "Secrets"@, "Age"@], items@),
{
    let h = headers(&["Name", "Namespace", "Secrets", "Age"]);
    proof {
        assert(views(h@) =~= seq!["Name"@, "Namespace"@, "Secrets"@, "Age"@]);
    }
    project(h, items)
}

/// The Roles table.
pub fn roles_table(items: &Vec<RoleObj>) -> (t: TableData)
    ensures
        table_ok(t, seq!["Name"@, "Namespace"@, "Rules"@, "Age"@], items@),
{
    let h = headers(&["Name", "Namespace", "Rules", "Age"]);
    proof {
        assert(views(h@) =~= seq!["Name"@, "Namespace"@, "Rules"@, "Age"@]);
    }
    project(h, items)
}

/// A cluster role's row: name, rule count, age.
pub struct ClusterRoleRow<'a>(pub &'a ClusterRoleObj);

impl<'a> TableRow for ClusterRoleRow<'a> {
    open spec fn row_ok(&self, c: Seq<Seq<char>>) -> bool {
        &&& c.len() == 3
        &&& c[0] == name_spec(self.0.metadata)
        &&& c[1] == decimal(len_or_zero(self.0.count))
        &&& age_cell_ok(self.0.metadata, c[2])
    }

    fn row(&self) -> (r: Vec<String>) {
        vec![
            name_cell(&self.0.metadata),
            fmt_u64(len_or(self.0.count) as u64),
            age_cell(&self.0.metadata),
        ]
    }
}

/// The ClusterRoles table.
pub fn cluster_roles_table(items: &Vec<ClusterRoleObj>) -> (t: TableData)
    ensures
        views(t.headers@) == seq!["Name"@, "Rules"@, "Age"@],
        t.rows@.len() == items@.len(),
        forall|i: int|
            0 <= i < items@.len() ==> ClusterRoleRow(&items@[i]).row_ok(
                #[trigger] views(t.rows@[i]@),
            ),
{
    let h = headers(&["Name", "Rules", "Age"]);
    proof {
        assert(views(h@) =~= seq!["Name"@, "Rules"@, "Age"@]);
    }
    let mut rows: Vec<Vec<String>> = Vec::new();
    let mut i: usize = 0;
    while i < items.len()
        invariant
            i <= items.len(),
            rows@.len() == i,
            forall|j: int|
                0 <= j < i ==> ClusterRoleRow(&items@[j]).row_ok(#[trigger] views(rows@[j]@)),
        decreases items.len() - i,
    {
        rows.push(ClusterRoleRow(&items[i]).row());
        i += 1;
    }
    TableData { headers: h, rows }
}

/// The subject names of a binding, joined ("-" without subjects).
pub open spec fn subjects_spec(s: Option<Vec<String>>) -> Seq<char> {
    match s {
        Some(v) => join(views(v@), ", "@),
        None => "-"@,
    }
}

/// A role binding or cluster role binding.
#[derive(Debug, Clone)]
pub struct BindingObj {
    pub metadata: ObjectMeta,
    pub role_kind: String,
    pub role_name: String,
    /// The names of the subjects (`None` without the list).
    pub subjects: Option<Vec<String>>,
}

/// A role binding.
pub type RoleBindingObj = BindingObj;

/// A cluster role binding.
pub type ClusterRoleBindingObj = BindingObj;

/// "kind/name" of the bound role.
pub open spec fn role_ref_spec(b: BindingObj) -> Seq<char> {
    b.role_kind@ + "/"@ + b.role_name@
}

fn role_ref_cell(b: &BindingObj) -> (r: String)
    ensures
        r@ == role_ref_spec(*b),
{
    let mut r = b.role_kind.clone();
    push_str(&mut r, "/");
    push_str(&mut r, b.role_name.as_str());
    r
}

fn subjects_cell(s: &Option<Vec<String>>) -> (r: String)
    ensures
        r@ == subjects_spec(*s),
{
    match s {
        Some(v) => join_strings(v, ", "),
        None => owned("-"),
    }
}

impl TableRow for BindingObj {
    open spec fn row_ok(&self, c: Seq<Seq<char>>) -> bool {
        &&& c.len() == 5
        &&& c[0] == name_spec(self.metadata)
        &&& c[1] == ns_spec(self.metadata)
        &&& c[2] == role_ref_spec(*self)
        &&& c[3] == subjects_spec(self.subjects)
        &&& age_cell_ok(self.metadata, c[4])
    }

    fn row(&self) -> (r: Vec<String>) {
        vec![
            name_cell(&self.metadata),
            ns_cell(&self.metadata),
            role_ref_cell(self),
            subjects_cell(&self.subjects),
            age_cell(&self.metadata),
        ]
    }
}

/// The RoleBindings table.
pub fn role_bindings_table(items: &Vec<RoleBindingObj>) -> (t: TableData)
    ensures
        table_ok(t, seq!["Name"@, "Namespace"@, "Role"@, "Subjects"@, "Age"@], items@),
{
    let h = headers(&["Name", "Namespace", "Role", "Subjects", "Age"]);
    proof {
        assert(views(h@) =~= seq!["Name"@, "Namespace"@, "Role"@, "Subjects"@, "Age"@]);
    }
    project(h, items)
}

/// A cluster role binding's row: name, role, subjects, age.
pub struct ClusterBindingRow<'a>(pub &'a ClusterRoleBindingObj);

impl<'a> TableRow for ClusterBindingRow<'a> {
    open spec fn row_ok(&self, c: Seq<Seq<char>>) -> bool {
        &&& c.len() == 4
        &&& c[0] == name_spec(self.0.metadata)
        &&& c[1] == role_ref_spec(*self.0)
        &&& c[2] == subjects_spec(self.0.subjects)
        &&& age_cell_ok(self.0.metadata, c[3])
    }

    fn row(&self) -> (r: Vec<String>) {
        vec![
            name_cell(&self.0.metadata),
            role_ref_cell(self.0),
            subjects_cell(&self.0.subjects),
            age_cell(&self.0.metadata),
        ]
    }
}

/// The ClusterRoleBindings table.
pub fn cluster_role_bindings_table(items: &Vec<ClusterRoleBindingObj>) -> (t: TableData)
    ensures
        views(t.headers@) == seq!["Name"@, "Role"@, "Subjects"@, "Age"@],
        t.rows@.len() == items@.len(),
        forall|i: int|
            0 <= i < items@.len() ==> ClusterBindingRow(&items@[i]).row_ok(
                #[trigger] views(t.rows@[i]@),
            ),
{
    let h = headers(&["Name", "Role", "Subjects", "Age"]);
    proof {
        assert(views(h@) =~= seq!["Name"@, "Role"@, "Subjects"@, "Age"@]);
    }
    let mut rows: Vec<Vec<String>> = Vec::new();
    let mut i: usize = 0;
    while i < items.len()
        invariant
            i <= items.len(),
            rows@.len() == i,
            forall|j: int|
                0 <= j < i ==> ClusterBindingRow(&items@[j]).row_ok(#[trigger] views(rows@[j]@)),
        decreases items.len() - i,
    {
        rows.push(ClusterBindingRow(&items[i]).row());
        i += 1;
    }
    TableData { headers: h, rows }
}

// ---------------------------------------------------------------------------
// Custom resource definitions
// ---------------------------------------------------------------------------

/// A served version of a custom resource definition.
#[derive(Debug, Clone)]
pub struct CrdVersion {
    pub name: String,
    pub storage: bool,
}

/// A custom resource definition.
#[derive(Debug, Clone)]
pub struct CrdObj {
    pub metadata: ObjectMeta,
    pub group: String,
    pub kind: String,
    pub scope: String,
    pub versions: Vec<CrdVersion>,
}

/// The first storage version, by position.
pub open spec fn first_storage(vs: Seq<CrdVersion>) -> Option<CrdVersion>
    decreases vs.len(),
{
    if vs.len() == 0 {
        None
    } else if vs[0].storage {
        Some(vs[0])
    } else {
        first_storage(vs.drop_first())
    }
}

/// The version cell: the storage version, else the first one, else "-".
pub open spec fn crd_version_spec(vs: Seq<CrdVersion>) -> Seq<char> {
    match first_storage(vs) {
        Some(v) => v.name@,
        None => if vs.len() > 0 {
            vs[0].name@
        } else {
            "-"@
        },
    }
}

fn crd_version_cell(vs: &Vec<CrdVersion>) -> (r: String)
    ensures
        r@ == crd_version_spec(vs@),
{
    let mut i: usize = 0;
    assert(vs@.subrange(0, vs@.len() as int) =~= vs@);
    while i < vs.len()
        invariant
            i <= vs.len(),
            first_storage(vs@) == first_storage(vs@.subrange(i as int, vs@.len() as int)),
        decreases vs.len() - i,
    {
        let ghost rest = vs@.subrange(i as int, vs@.len() as int);
        assert(rest[0] == vs@[i as int]);
        if vs[i].storage {
            return vs[i].name.clone();
        }
        assert(rest.drop_first() =~= vs@.subrange(i + 1, vs@.len() as int));
        i += 1;
    }
    if vs.len() > 0 {
        vs[0].name.clone()
    } else {
        owned("-")
    }
}

impl TableRow for CrdObj {
    open spec fn row_ok(&self, c: Seq<Seq<char>>) -> bool {
        &&& c.len() == 6
        &&& c[0] == name_spec(self.metadata)
        &&& c[1] == self.group@
        &&& c[2] == self.kind@
        &&& c[3] == self.scope@
        &&& c[4] == crd_version_spec(self.versions@)
        &&& age_cell_ok(self.metadata, c[5])
    }

    fn row(&self) -> (r: Vec<String>) {
        vec![
            name_cell(&self.metadata),
            self.group.clone(),
            self.kind.clone(),
            self.scope.clone(),
            crd_version_cell(&self.versions),
            age_cell(&self.metadata),
        ]
    }
}

/// The CustomResourceDefinitions table.
pub fn crds_table(items: &Vec<CrdObj>) -> (t: TableData)
    ensures
        table_ok(t, seq!["Name"@, "Group"@, "Kind"@, "Scope"@, "Version"@, "Age"@], items@),
{
    let h = headers(&["Name", "Group", "Kind", "Scope", "Version", "Age"]);
    proof {
        assert(views(h@) =~= seq!["Name"@, "Group"@, "Kind"@, "Scope"@, "Version"@, "Age"@]);
    }
    project(h, items)
}

/// The key/value pairs of an optional map, as text pairs (none when absent).
pub open spec fn pair_views(m: Option<Vec<(String, String)>>) -> Seq<(Seq<char>, Seq<char>)> {
    match m {
        Some(v) => v@.map_values(|p: (String, String)| (p.0@, p.1@)),
        None => Seq::empty(),
    }
}

fn copy_pairs(m: &Option<Vec<(String, String)>>) -> (r: Vec<(String, String)>)
    ensures
        r@.map_values(|p: (String, String)| (p.0@, p.1@)) == pair_views(*m),
{
    let mut r: Vec<(String, String)> = Vec::new();
    match m {
        Some(v) => {
            let mut i: usize = 0;
            while i < v.len()
                invariant
                    i <= v.len(),
                    r@.len() == i,
                    r@.map_values(|p: (String, String)| (p.0@, p.1@)) == v@.subrange(
                        0,
                        i as int,
                    ).map_values(|p: (String, String)| (p.0@, p.1@)),
                decreases v.len() - i,
            {
                let ghost old_r = r;
                let k = v[i].0.clone();
                let x = v[i].1.clone();
                r.push((k, x));
                proof {
                    let f = |p: (String, String)| (p.0@, p.1@);
                    assert(r@.map_values(f).last() == f(v@[i as int]));
                    assert(v@.subrange(0, i + 1).map_values(f) =~= v@.subrange(0, i as int).map_values(f).push(f(v@[i as int])));
                    assert(r@.map_values(f) =~= r@.drop_last().map_values(f).push(f(r@.last())));
                    assert(r@.drop_last() == old_r@);
                }
                i += 1;
                assert(r@.map_values(|p: (String, String)| (p.0@, p.1@)) =~= v@.subrange(
                    0,
                    i as int,
                ).map_values(|p: (String, String)| (p.0@, p.1@)));
            }
            assert(v@.subrange(0, v.len() as int) =~= v@);
        },
        None => {
            assert(r@.map_values(|p: (String, String)| (p.0@, p.1@)) =~= Seq::empty());
        },
    }
    r
}

/// The detail view of a fetched object of kind `kind` with metadata `meta`.
/// `manifest` is the object serialized as pretty JSON with its managed fields
/// removed, or the serializer's message when that failed; a failure is
/// reported as an error.
pub fn to_detail(meta: &ObjectMeta, kind: &str, manifest: Result<String, String>) -> (r: Result<
    crate::dto::ResourceDetail,
    crate::error::CoreError,
>)
    ensures
        manifest is Err ==> r == Err::<crate::dto::ResourceDetail, crate::error::CoreError>(
            crate::error::CoreError::Other(manifest->Err_0),
        ),
        manifest is Ok <==> r is Ok,
        r is Ok ==> r->Ok_0.kind@ == kind@,
        r is Ok ==> r->Ok_0.name@ == or_default(meta.name, Seq::empty()),
        r is Ok ==> r->Ok_0.namespace == meta.namespace,
        r is Ok ==> age_ok(opt_view(meta.creation_timestamp), r->Ok_0.age@),
        r is Ok ==> r->Ok_0.labels@.map_values(|p: (String, String)| (p.0@, p.1@)) == pair_views(
            meta.labels,
        ),
        r is Ok ==> r->Ok_0.annotations@.map_values(|p: (String, String)| (p.0@, p.1@))
            == pair_views(meta.annotations),
        r is Ok ==> r->Ok_0.manifest == manifest->Ok_0,
{
    proof {
        reveal_strlit("");
    }
    let json = match manifest {
        Ok(j) => j,
        Err(e) => return Err(crate::error::CoreError::Other(e)),
    };
    let age = match &meta.creation_timestamp {
        Some(t) => human_age(Some(t.as_str())),
        None => human_age(None),
    };
    Ok(
        crate::dto::ResourceDetail {
            kind: owned(kind),
            name: text_or(&meta.name, ""),
            namespace: crate::text::clone_opt(&meta.namespace),
            age,
            labels: copy_pairs(&meta.labels),
            annotations: copy_pairs(&meta.annotations),
            manifest: json,
        },
    )
}

} // verus!
