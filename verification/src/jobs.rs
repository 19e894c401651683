use vstd::prelude::*;

use crate::arith::clip_i64;
use crate::decode::string_eq;
use crate::sample::{gauge_sv, labels2, push_gauge, MetricId, Sample, SampleView};

verus! {

pub struct JobList {
    pub records: Vec<Job>,
}

/// One cluster job as reported by the device.
pub struct Job {
    pub uuid: String,
    pub state: String,
}

/// How many jobs report the given state.
pub open spec fn spec_job_count(recs: Seq<Job>, state: Seq<char>) -> int
    decreases recs.len(),
{
    if recs.len() == 0 {
        0
    } else {
        spec_job_count(recs.drop_last(), state) + if recs.last().state@ == state {
            1int
        } else {
            0int
        }
    }
}

/// All job samples of one storage system: one gauge per recognized job
/// state carrying the number of jobs in that state. A job with an
/// unrecognized state counts towards no state and suppresses nothing
/// else.
pub open spec fn jobs_samples(filer: Seq<char>, recs: Seq<Job>) -> Seq<SampleView> {
    seq![
        gauge_sv(MetricId::ClusterJobState, seq![filer, "queued"@], clip_i64(spec_job_count(recs, "queued"@))),
        gauge_sv(
            MetricId::ClusterJobState,
            seq![filer, "running"@],
            clip_i64(spec_job_count(recs, "running"@)),
        ),
        gauge_sv(MetricId::ClusterJobState, seq![filer, "paused"@], clip_i64(spec_job_count(recs, "paused"@))),
        gauge_sv(
            MetricId::ClusterJobState,
            seq![filer, "success"@],
            clip_i64(spec_job_count(recs, "success"@)),
        ),
        gauge_sv(
            MetricId::ClusterJobState,
            seq![filer, "failure"@],
            clip_i64(spec_job_count(recs, "failure"@)),
        ),
    ]
}

/// Count the jobs in one state.
fn job_count(recs: &Vec<Job>, state: &String) -> (r: u64)
    ensures
        r == spec_job_count(recs@, state@),
        r <= recs@.len(),
{
    let mut count: u64 = 0;
    let mut i: usize = 0;
    while i < recs.len()
        invariant
            i <= recs@.len(),
            count == spec_job_count(recs@.take(i as int), state@),
            count <= i,
        decreases recs@.len() - i,
    {
        proof {
            assert(recs@.take(i as int + 1).drop_last() =~= recs@.take(i as int));
            assert(recs@.take(i as int + 1).last() == recs@[i as int]);
        }
        if string_eq(&recs[i].state, state) {
            count = count + 1;
        }
        i = i + 1;
    }
    proof {
        assert(recs@.take(recs@.len() as int) =~= recs@);
    }
    count
}

fn push_job_state(out: &mut Vec<Sample>, filer: &String, recs: &Vec<Job>, state: &String)
    ensures
        final(out).deep_view() == old(out).deep_view().push(
            gauge_sv(
                MetricId::ClusterJobState,
                seq![filer@, state@],
                clip_i64(spec_job_count(recs@, state@)),
            ),
        ),
{
    let count = job_count(recs, state);
    let value: i64 = if count > i64::MAX as u64 {
        i64::MAX
    } else {
        count as i64
    };
    push_gauge(out, MetricId::ClusterJobState, labels2(filer, state), value);
}

/// Decode and publish the job-state counts of one storage system.
pub fn update_jobs(filer_name: &String, list: &JobList) -> (samples: Vec<Sample>)
    ensures
        samples.deep_view() == jobs_samples(filer_name@, list.records@),
{
    let mut out: Vec<Sample> = Vec::new();
    proof {
        assert(out.deep_view() =~= Seq::<SampleView>::empty());
    }
    push_job_state(&mut out, filer_name, &list.records, &"queued".to_owned());
    push_job_state(&mut out, filer_name, &list.records, &"running".to_owned());
    push_job_state(&mut out, filer_name, &list.records, &"paused".to_owned());
    push_job_state(&mut out, filer_name, &list.records, &"success".to_owned());
    push_job_state(&mut out, filer_name, &list.records, &"failure".to_owned());
    proof {
        assert(out.deep_view() =~= jobs_samples(filer_name@, list.records@));
    }
    out
}

} // verus!
