//! One unit of simulated work: after a short random wait, a worker reports
//! under its name which protocol it spoke.

use super::coordinator::{normalize_count, normalized};
use super::snapshot::{Payload, PayloadView, WorkerResult, WorkerResultView};
use crate::chance::random_between;
use crate::ident::{fresh_id, ID_LENGTH};
use crate::text::{append_decimal, decimal, is_listed};
use vstd::prelude::*;
use vstd::string::*;

verus! {

/// The protocols a worker may report.
pub const PROTOCOLS: [&'static str; 4] = ["rest", "rpc", "grpc", "ws"];

/// What every worker's name starts with.
pub const NAME_PREFIX: &'static str = "service-";

/// The version every worker reports.
pub const WORKER_VERSION: &'static str = "1.1.2";

/// The kind of every worker's payload.
pub const PAYLOAD_KIND: &'static str = "protocol";

/// The shortest and the longest wait of a worker, in seconds.
pub const MIN_DELAY_SECS: u64 = 1;

pub const MAX_DELAY_SECS: u64 = 3;

/// The numbers of the workers of a job: from 1 up to the count.
pub open spec fn indices(workers: nat) -> Seq<usize> {
    Seq::new(workers, |i: int| (i + 1) as usize)
}

/// The numbers under which the workers of a job for `requested` workers run:
/// from 1 up to the count, and none where the request is not positive.
pub fn worker_indices(requested: i32) -> (numbers: Vec<usize>)
    ensures
        numbers@ == indices(normalized(requested as int)),
{
    let workers = normalize_count(requested);
    let mut numbers: Vec<usize> = Vec::new();
    let mut i: usize = 0;
    while i < workers
        invariant
            i <= workers <= i32::MAX,
            numbers@ == indices(i as nat),
        decreases workers - i,
    {
        numbers.push(i + 1);
        assert(numbers@ =~= indices((i + 1) as nat));
        i += 1;
    }
    numbers
}

/// The name of worker `index`: the prefix and the decimal number.
pub open spec fn name_of(index: nat) -> Seq<char> {
    NAME_PREFIX@ + decimal(index)
}

/// The name of worker `index`.
pub fn worker_name(index: usize) -> (name: String)
    ensures
        name@ == name_of(index as nat),
{
    let mut name = NAME_PREFIX.to_owned();
    append_decimal(&mut name, index);
    name
}

/// The protocol at place `index` of the list, if there is such a place.
pub fn protocol_at(index: usize) -> (name: Option<&'static str>)
    ensures
        index < PROTOCOLS@.len() ==> (name matches Some(p) && p@ == PROTOCOLS[index as int]@),
        index >= PROTOCOLS@.len() ==> name is None,
{
    if index < PROTOCOLS.len() {
        Some(PROTOCOLS[index])
    } else {
        None
    }
}

/// The result of worker `index`, made under the identifier `id`, that spoke
/// `protocol`.
pub open spec fn result_of(index: nat, id: Seq<char>, protocol: Seq<char>) -> WorkerResultView {
    WorkerResultView {
        id,
        name: name_of(index),
        version: WORKER_VERSION@,
        payload: PayloadView { kind: PAYLOAD_KIND@, value: protocol },
    }
}

/// Makes the result of worker `index` from its identifier and the protocol
/// that it spoke.
pub fn worker_result(index: usize, id: String, protocol: String) -> (result: WorkerResult)
    ensures
        result@ == result_of(index as nat, id@, protocol@),
{
    WorkerResult {
        id,
        name: worker_name(index),
        version: WORKER_VERSION.to_owned(),
        payload: Payload { kind: PAYLOAD_KIND.to_owned(), value: protocol },
    }
}

/// How many seconds a worker waits before it reports: a number drawn at
/// random between the shortest and the longest wait.
pub fn worker_delay_secs() -> (secs: u64)
    ensures
        MIN_DELAY_SECS <= secs <= MAX_DELAY_SECS,
{
    random_between(MIN_DELAY_SECS as usize, MAX_DELAY_SECS as usize) as u64
}

/// Does the work of worker `index`, the wait apart: draws a fresh identifier
/// and a protocol, and makes the result from them. A worker never fails.
pub fn run_worker(index: usize) -> (result: WorkerResult)
    ensures
        result@ == result_of(index as nat, result@.id, result@.payload.value),
        result@.id.len() == ID_LENGTH,
        is_listed(PROTOCOLS@, result@.payload.value),
{
    let id = fresh_id();
    let protocol = crate::utils::random_protocol();
    worker_result(index, id, protocol)
}

} // verus!
