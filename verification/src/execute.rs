use vstd::prelude::*;
use vstd::string::StringExecFns;
use crate::plan::{Task, TaskV};

verus! {

/// The parameters of one provider write, exactly as the executor hands
/// them to the provider: always an A record carrying the current address,
/// the automatic TTL sentinel, and the proxy flag off. An update addresses
/// the record by the provider's identifier; a create carries none.
#[derive(Debug, PartialEq)]
pub struct RecordWrite {
    pub zone_id: String,
    pub record_id: Option<String>,
    pub name: String,
    pub ip: u32,
    pub ttl: u32,
    pub proxied: bool,
}

/// Spec-level image of a [`RecordWrite`].
pub struct RecordWriteV {
    pub zone_id: Seq<char>,
    pub record_id: Option<Seq<char>>,
    pub name: Seq<char>,
    pub ip: u32,
    pub ttl: u32,
    pub proxied: bool,
}

impl View for RecordWrite {
    type V = RecordWriteV;

    open spec fn view(&self) -> RecordWriteV {
        RecordWriteV {
            zone_id: self.zone_id@,
            record_id: self.record_id.deep_view(),
            name: self.name@,
            ip: self.ip,
            ttl: self.ttl,
            proxied: self.proxied,
        }
    }
}

/// The write a task owes the provider: its zone, name and identifier come
/// from the task, the content is the current address, the TTL is the
/// automatic sentinel of one, and proxying is off.
pub open spec fn spec_write_request(task: TaskV, current_ip: u32) -> RecordWriteV {
    match task {
        TaskV::Create { zone_id, name } => RecordWriteV {
            zone_id,
            record_id: None,
            name,
            ip: current_ip,
            ttl: 1,
            proxied: false,
        },
        TaskV::Update { zone_id, id, name } => RecordWriteV {
            zone_id,
            record_id: Some(id),
            name,
            ip: current_ip,
            ttl: 1,
            proxied: false,
        },
    }
}

/// The name of the record a task writes.
pub open spec fn spec_task_name(task: TaskV) -> Seq<char> {
    match task {
        TaskV::Create { name, .. } => name,
        TaskV::Update { name, .. } => name,
    }
}

/// The message reported when a task succeeds: what was done, and to
/// which name.
pub open spec fn spec_success_message(task: TaskV) -> Seq<char> {
    match task {
        TaskV::Create { name, .. } => "Created record: "@ + name,
        TaskV::Update { name, .. } => "Updated record: "@ + name,
    }
}

/// The outcome of executing one task: success carries the human-readable
/// message for the action taken; a provider failure carries the provider's
/// error description, with the record's name kept for context.
#[derive(Debug, PartialEq)]
pub enum TaskResult {
    Success { message: String },
    Failure { name: String, error: String },
}

/// Spec-level image of a [`TaskResult`].
pub enum TaskResultV {
    Success { message: Seq<char> },
    Failure { name: Seq<char>, error: Seq<char> },
}

impl View for TaskResult {
    type V = TaskResultV;

    open spec fn view(&self) -> TaskResultV {
        match self {
            TaskResult::Success { message } => TaskResultV::Success { message: message@ },
            TaskResult::Failure { name, error } => TaskResultV::Failure {
                name: name@,
                error: error@,
            },
        }
    }
}

impl DeepView for TaskResult {
    type V = TaskResultV;

    open spec fn deep_view(&self) -> TaskResultV {
        self@
    }
}

/// The provider's answer to one write, reduced to what the result records:
/// success, or the provider's error description.
pub open spec fn spec_outcome_view(outcome: Result<(), String>) -> Result<(), Seq<char>> {
    match outcome {
        Ok(u) => Ok(u),
        Err(e) => Err(e@),
    }
}

/// The result a task's execution owes for each provider answer: the task's
/// success message on success; on failure, the provider's error description
/// together with the task's record name.
pub open spec fn spec_finish(task: TaskV, outcome: Result<(), Seq<char>>) -> TaskResultV {
    match outcome {
        Ok(_) => TaskResultV::Success { message: spec_success_message(task) },
        Err(e) => TaskResultV::Failure { name: spec_task_name(task), error: e },
    }
}

impl Task {
    /// The name of the record the write is for.
    pub fn name(&self) -> (n: &String)
        ensures
            n@ == spec_task_name(self@),
    {
        match self {
            Task::Create { name, .. } => name,
            Task::Update { name, .. } => name,
        }
    }

    /// The parameters of the provider write, given the current address.
    pub fn write_request(&self, current_ip: u32) -> (w: RecordWrite)
        ensures
            w@ == spec_write_request(self@, current_ip),
    {
        match self {
            Task::Create { zone_id, name } => RecordWrite {
                zone_id: zone_id.clone(),
                record_id: None,
                name: name.clone(),
                ip: current_ip,
                ttl: 1,
                proxied: false,
            },
            Task::Update { zone_id, id, name } => RecordWrite {
                zone_id: zone_id.clone(),
                record_id: Some(id.clone()),
                name: name.clone(),
                ip: current_ip,
                ttl: 1,
                proxied: false,
            },
        }
    }

    /// The message reported on success.
    pub fn success_message(&self) -> (m: String)
        ensures
            m@ == spec_success_message(self@),
    {
        match self {
            Task::Create { name, .. } => "Created record: ".to_owned().concat(name.as_str()),
            Task::Update { name, .. } => "Updated record: ".to_owned().concat(name.as_str()),
        }
    }

    /// Turns the provider's answer to the write into the result recorded
    /// for it, independently of every other planned write.
    pub fn finish(&self, outcome: Result<(), String>) -> (r: TaskResult)
        ensures
            r@ == spec_finish(self@, spec_outcome_view(outcome)),
    {
        match outcome {
            Ok(_) => TaskResult::Success { message: self.success_message() },
            Err(e) => TaskResult::Failure { name: self.name().clone(), error: e },
        }
    }
}

} // verus!
