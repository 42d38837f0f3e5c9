use vstd::prelude::*;
use crate::cache::{spec_find, DnsZones};
use crate::dns::{ObservedRecordV, RecordConfig, RecordConfigV, RecordContent};

verus! {

/// A planned provider write: create a missing record, or update a stale one
/// under the provider's identifier for it. The absence of a task for a
/// configured record is itself the no-op signal; no variant stands for it.
#[derive(Debug, PartialEq)]
pub enum Task {
    Create { zone_id: String, name: String },
    Update { zone_id: String, id: String, name: String },
}

/// Spec-level image of a [`Task`].
pub enum TaskV {
    Create { zone_id: Seq<char>, name: Seq<char> },
    Update { zone_id: Seq<char>, id: Seq<char>, name: Seq<char> },
}

impl View for Task {
    type V = TaskV;

    open spec fn view(&self) -> TaskV {
        match self {
            Task::Create { zone_id, name } => TaskV::Create { zone_id: zone_id@, name: name@ },
            Task::Update { zone_id, id, name } => TaskV::Update {
                zone_id: zone_id@,
                id: id@,
                name: name@,
            },
        }
    }
}

impl DeepView for Task {
    type V = TaskV;

    open spec fn deep_view(&self) -> TaskV {
        self@
    }
}

/// What reconciliation decides for one configured record against the cached
/// provider state: create when no record answers the configuration; update,
/// keeping the matched record's identifier, when the matched A record holds
/// another address; nothing when the address is already current or the
/// matched record is not an A record.
pub open spec fn spec_plan(
    current_ip: u32,
    records: Seq<ObservedRecordV>,
    config: RecordConfigV,
) -> Option<TaskV> {
    match spec_find(records, config) {
        Some(r) => match r.content {
            RecordContent::A { ip } => if ip == current_ip {
                None
            } else {
                Some(TaskV::Update { zone_id: r.zone_id, id: r.record_id, name: config.name })
            },
            RecordContent::Other => None,
        },
        None => Some(TaskV::Create { zone_id: config.zone_id, name: config.name }),
    }
}

/// Whether planning for this record hits the policy anomaly: a record
/// answers the configured zone and name but is not an A record. The planner
/// emits no task then, and the caller owes a warning-level diagnostic
/// instead of silently creating a duplicate.
pub open spec fn spec_plan_anomaly(records: Seq<ObservedRecordV>, config: RecordConfigV) -> bool {
    match spec_find(records, config) {
        Some(r) => !(r.content is A),
        None => false,
    }
}

impl Task {
    /// Plans the action for one configured record. The decision is a pure
    /// function of the current address, the cached records, and the
    /// record's configuration: identical inputs always plan the same
    /// task or none.
    pub fn new(current_ip: u32, zones: &DnsZones, record_config: &RecordConfig) -> (r: Option<
        Task,
    >)
        ensures
            r.deep_view() == spec_plan(current_ip, zones@, record_config@),
    {
        match zones.find(record_config) {
            Some(r) => {
                match r.content {
                    RecordContent::A { ip } => {
                        if ip == current_ip {
                            None
                        } else {
                            Some(
                                Task::Update {
                                    zone_id: r.zone_id.clone(),
                                    id: r.record_id.clone(),
                                    name: record_config.name.clone(),
                                },
                            )
                        }
                    },
                    RecordContent::Other => None,
                }
            },
            None => Some(
                Task::Create {
                    zone_id: record_config.zone_id.clone(),
                    name: record_config.name.clone(),
                },
            ),
        }
    }
}

/// Reports the planner's policy anomaly for one configured record, so the
/// caller can surface the warning the no-op answer owes.
pub fn plan_anomaly(zones: &DnsZones, record_config: &RecordConfig) -> (b: bool)
    ensures
        b == spec_plan_anomaly(zones@, record_config@),
{
    match zones.find(record_config) {
        Some(r) => match r.content {
            RecordContent::A { .. } => false,
            RecordContent::Other => true,
        },
        None => false,
    }
}

/// No-op correctness: when the record that answers the configuration is an
/// A record already holding the current address, planning yields no task.
pub proof fn lemma_noop_when_current(
    current_ip: u32,
    records: Seq<ObservedRecordV>,
    config: RecordConfigV,
)
    requires
        spec_find(records, config) matches Some(r) && r.content == (RecordContent::A {
            ip: current_ip,
        }),
    ensures
        spec_plan(current_ip, records, config) is None,
{
}

/// Create versus update branching, absent side: when no record answers the
/// configuration, planning yields a create task for the configured zone
/// and name.
pub proof fn lemma_create_when_absent(
    current_ip: u32,
    records: Seq<ObservedRecordV>,
    config: RecordConfigV,
)
    requires
        spec_find(records, config) is None,
    ensures
        spec_plan(current_ip, records, config) == Some(
            TaskV::Create { zone_id: config.zone_id, name: config.name },
        ),
{
}

/// Create versus update branching, present side: when the record that
/// answers the configuration is an A record holding a different address,
/// planning yields an update task that keeps the matched record's
/// identifier.
pub proof fn lemma_update_preserves_identifier(
    current_ip: u32,
    records: Seq<ObservedRecordV>,
    config: RecordConfigV,
    r: ObservedRecordV,
    ip: u32,
)
    requires
        spec_find(records, config) == Some(r),
        r.content == (RecordContent::A { ip }),
        ip != current_ip,
    ensures
        spec_plan(current_ip, records, config) == Some(
            TaskV::Update { zone_id: r.zone_id, id: r.record_id, name: config.name },
        ),
{
}

/// Non-A-record safety: a matched record of another type never yields a
/// task, so no duplicate record is created beside it.
pub proof fn lemma_non_a_record_safety(
    current_ip: u32,
    records: Seq<ObservedRecordV>,
    config: RecordConfigV,
)
    requires
        spec_find(records, config) matches Some(r) && !(r.content is A),
    ensures
        spec_plan(current_ip, records, config) is None,
{
}

} // verus!
