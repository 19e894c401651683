use vstd::prelude::*;

use crate::decode::string_eq;
use crate::sample::{
    clone_labels, gauge_sv, labels3, labels4, opt_gauge_sv, push_gauge, push_opt_gauge, MetricId,
    Sample, SampleView,
};

verus! {

pub struct QuotaList {
    pub records: Vec<Quota>,
}

/// One quota report record. The substructures a record's type calls for
/// (qtree, users, group) may still be absent on a malformed record; such
/// a record is skipped without affecting any other record.
pub struct Quota {
    pub files: Option<QuotaUsage>,
    pub space: Option<QuotaUsage>,
    pub users: Option<Vec<QuotaUser>>,
    pub group: Option<QuotaGroup>,
    pub qtree: Option<QuotaQTree>,
    pub quota_type: String,
    pub volume: QuotaVolume,
    pub svm: QuotaSVM,
}

pub struct QuotaUser {
    pub name: String,
}

pub struct QuotaGroup {
    pub name: String,
}

pub struct QuotaQTree {
    pub name: String,
}

pub struct QuotaUsage {
    pub hard_limit: Option<i64>,
    pub soft_limit: Option<i64>,
    pub used: Option<QuotaUsagePercent>,
}

pub struct QuotaUsagePercent {
    pub soft_limit_percent: Option<i64>,
    pub hard_limit_percent: Option<i64>,
    pub total: i64,
}

pub struct QuotaVolume {
    pub name: String,
    pub uuid: String,
}

pub struct QuotaSVM {
    pub name: String,
    pub uuid: String,
}

/// The metric identities one usage block (space or files) is published
/// under.
#[derive(Clone, Copy)]
pub struct QuotaUsageIds {
    pub used: MetricId,
    pub hard_limit_percent: MetricId,
    pub soft_limit_percent: MetricId,
    pub hard_limit: MetricId,
    pub soft_limit: MetricId,
}

/// Samples of one usage block: the total when usage was reported, with
/// its optional limit percentages, then the optional configured limits.
pub open spec fn quota_usage_samples(
    ids: QuotaUsageIds,
    labels: Seq<Seq<char>>,
    u: QuotaUsage,
) -> Seq<SampleView> {
    (match u.used {
        Some(p) => seq![gauge_sv(ids.used, labels, p.total)] + opt_gauge_sv(
            ids.hard_limit_percent,
            labels,
            p.hard_limit_percent,
        ) + opt_gauge_sv(ids.soft_limit_percent, labels, p.soft_limit_percent),
        None => Seq::empty(),
    }) + opt_gauge_sv(ids.hard_limit, labels, u.hard_limit) + opt_gauge_sv(
        ids.soft_limit,
        labels,
        u.soft_limit,
    )
}

fn push_quota_usage(out: &mut Vec<Sample>, ids: QuotaUsageIds, labels: &Vec<String>, u: &QuotaUsage)
    ensures
        final(out).deep_view() == old(out).deep_view() + quota_usage_samples(
            ids,
            labels.deep_view(),
            *u,
        ),
{
    let ghost start = out.deep_view();
    if let Some(p) = &u.used {
        push_gauge(out, ids.used, clone_labels(labels), p.total);
        push_opt_gauge(out, ids.hard_limit_percent, clone_labels(labels), &p.hard_limit_percent);
        push_opt_gauge(out, ids.soft_limit_percent, clone_labels(labels), &p.soft_limit_percent);
    }
    push_opt_gauge(out, ids.hard_limit, clone_labels(labels), &u.hard_limit);
    push_opt_gauge(out, ids.soft_limit, clone_labels(labels), &u.soft_limit);
    proof {
        assert(out.deep_view() =~= start + quota_usage_samples(ids, labels.deep_view(), *u));
    }
}

pub open spec fn spec_user_space_ids() -> QuotaUsageIds {
    QuotaUsageIds {
        used: MetricId::UserQuotaSpaceUsed,
        hard_limit_percent: MetricId::UserQuotaSpaceHardLimitPercent,
        soft_limit_percent: MetricId::UserQuotaSpaceSoftLimitPercent,
        hard_limit: MetricId::UserQuotaSpaceHardLimit,
        soft_limit: MetricId::UserQuotaSpaceSoftLimit,
    }
}

pub open spec fn spec_user_files_ids() -> QuotaUsageIds {
    QuotaUsageIds {
        used: MetricId::UserQuotaFilesUsed,
        hard_limit_percent: MetricId::UserQuotaFilesHardLimitPercent,
        soft_limit_percent: MetricId::UserQuotaFilesSoftLimitPercent,
        hard_limit: MetricId::UserQuotaFilesHardLimit,
        soft_limit: MetricId::UserQuotaFilesSoftLimit,
    }
}

pub open spec fn spec_group_space_ids() -> QuotaUsageIds {
    QuotaUsageIds {
        used: MetricId::GroupQuotaSpaceUsed,
        hard_limit_percent: MetricId::GroupQuotaSpaceHardLimitPercent,
        soft_limit_percent: MetricId::GroupQuotaSpaceSoftLimitPercent,
        hard_limit: MetricId::GroupQuotaSpaceHardLimit,
        soft_limit: MetricId::GroupQuotaSpaceSoftLimit,
    }
}

pub open spec fn spec_group_files_ids() -> QuotaUsageIds {
    QuotaUsageIds {
        used: MetricId::GroupQuotaFilesUsed,
        hard_limit_percent: MetricId::GroupQuotaFilesHardLimitPercent,
        soft_limit_percent: MetricId::GroupQuotaFilesSoftLimitPercent,
        hard_limit: MetricId::GroupQuotaFilesHardLimit,
        soft_limit: MetricId::GroupQuotaFilesSoftLimit,
    }
}

pub open spec fn spec_tree_space_ids() -> QuotaUsageIds {
    QuotaUsageIds {
        used: MetricId::TreeQuotaSpaceUsed,
        hard_limit_percent: MetricId::TreeQuotaSpaceHardLimitPercent,
        soft_limit_percent: MetricId::TreeQuotaSpaceSoftLimitPercent,
        hard_limit: MetricId::TreeQuotaSpaceHardLimit,
        soft_limit: MetricId::TreeQuotaSpaceSoftLimit,
    }
}

pub open spec fn spec_tree_files_ids() -> QuotaUsageIds {
    QuotaUsageIds {
        used: MetricId::TreeQuotaFilesUsed,
        hard_limit_percent: MetricId::TreeQuotaFilesHardLimitPercent,
        soft_limit_percent: MetricId::TreeQuotaFilesSoftLimitPercent,
        hard_limit: MetricId::TreeQuotaFilesHardLimit,
        soft_limit: MetricId::TreeQuotaFilesSoftLimit,
    }
}

fn user_space_ids() -> (r: QuotaUsageIds)
    ensures
        r == spec_user_space_ids(),
{
    QuotaUsageIds {
        used: MetricId::UserQuotaSpaceUsed,
        hard_limit_percent: MetricId::UserQuotaSpaceHardLimitPercent,
        soft_limit_percent: MetricId::UserQuotaSpaceSoftLimitPercent,
        hard_limit: MetricId::UserQuotaSpaceHardLimit,
        soft_limit: MetricId::UserQuotaSpaceSoftLimit,
    }
}

fn user_files_ids() -> (r: QuotaUsageIds)
    ensures
        r == spec_user_files_ids(),
{
    QuotaUsageIds {
        used: MetricId::UserQuotaFilesUsed,
        hard_limit_percent: MetricId::UserQuotaFilesHardLimitPercent,
        soft_limit_percent: MetricId::UserQuotaFilesSoftLimitPercent,
        hard_limit: MetricId::UserQuotaFilesHardLimit,
        soft_limit: MetricId::UserQuotaFilesSoftLimit,
    }
}

fn group_space_ids() -> (r: QuotaUsageIds)
    ensures
        r == spec_group_space_ids(),
{
    QuotaUsageIds {
        used: MetricId::GroupQuotaSpaceUsed,
        hard_limit_percent: MetricId::GroupQuotaSpaceHardLimitPercent,
        soft_limit_percent: MetricId::GroupQuotaSpaceSoftLimitPercent,
        hard_limit: MetricId::GroupQuotaSpaceHardLimit,
        soft_limit: MetricId::GroupQuotaSpaceSoftLimit,
    }
}

fn group_files_ids() -> (r: QuotaUsageIds)
    ensures
        r == spec_group_files_ids(),
{
    QuotaUsageIds {
        used: MetricId::GroupQuotaFilesUsed,
        hard_limit_percent: MetricId::GroupQuotaFilesHardLimitPercent,
        soft_limit_percent: MetricId::GroupQuotaFilesSoftLimitPercent,
        hard_limit: MetricId::GroupQuotaFilesHardLimit,
        soft_limit: MetricId::GroupQuotaFilesSoftLimit,
    }
}

fn tree_space_ids() -> (r: QuotaUsageIds)
    ensures
        r == spec_tree_space_ids(),
{
    QuotaUsageIds {
        used: MetricId::TreeQuotaSpaceUsed,
        hard_limit_percent: MetricId::TreeQuotaSpaceHardLimitPercent,
        soft_limit_percent: MetricId::TreeQuotaSpaceSoftLimitPercent,
        hard_limit: MetricId::TreeQuotaSpaceHardLimit,
        soft_limit: MetricId::TreeQuotaSpaceSoftLimit,
    }
}

fn tree_files_ids() -> (r: QuotaUsageIds)
    ensures
        r == spec_tree_files_ids(),
{
    QuotaUsageIds {
        used: MetricId::TreeQuotaFilesUsed,
        hard_limit_percent: MetricId::TreeQuotaFilesHardLimitPercent,
        soft_limit_percent: MetricId::TreeQuotaFilesSoftLimitPercent,
        hard_limit: MetricId::TreeQuotaFilesHardLimit,
        soft_limit: MetricId::TreeQuotaFilesSoftLimit,
    }
}

/// A qtree name of "*" or "" marks the default tree quota policy rule,
/// which is not exported.
pub open spec fn spec_default_qtree(n: Seq<char>) -> bool {
    n == "*"@ || n == ""@
}

fn is_default_qtree(n: &String) -> (r: bool)
    ensures
        r == spec_default_qtree(n@),
{
    string_eq(n, &"*".to_owned()) || string_eq(n, &"".to_owned())
}

/// Samples of one user entry of a user quota record: the space and files
/// usage blocks under the filer, volume, qtree and user labels.
pub open spec fn user_entry_samples(filer: Seq<char>, q: Quota, qtree: Seq<char>, user: QuotaUser) -> Seq<
    SampleView,
> {
    let labels = seq![filer, q.volume.name@, qtree, user.name@];
    (match q.space {
        Some(sp) => quota_usage_samples(spec_user_space_ids(), labels, sp),
        None => Seq::empty(),
    }) + (match q.files {
        Some(f) => quota_usage_samples(spec_user_files_ids(), labels, f),
        None => Seq::empty(),
    })
}

pub open spec fn user_entries_samples(
    filer: Seq<char>,
    q: Quota,
    qtree: Seq<char>,
    users: Seq<QuotaUser>,
) -> Seq<SampleView>
    decreases users.len(),
{
    if users.len() == 0 {
        Seq::empty()
    } else {
        user_entries_samples(filer, q, qtree, users.drop_last()) + user_entry_samples(
            filer,
            q,
            qtree,
            users.last(),
        )
    }
}

/// Samples of one user quota record: nothing when the qtree or user
/// substructure is missing (a malformed record) or when the record is the
/// default tree quota policy rule; otherwise the usage blocks of every
/// listed user.
pub open spec fn user_quota_samples(filer: Seq<char>, q: Quota) -> Seq<SampleView> {
    match (q.qtree, q.users) {
        (Some(qt), Some(us)) => if spec_default_qtree(qt.name@) {
            Seq::empty()
        } else {
            user_entries_samples(filer, q, qt.name@, us@)
        },
        _ => Seq::empty(),
    }
}

/// Samples of one group quota record: nothing when the qtree or group
/// substructure is missing or for the default rule; otherwise the usage
/// blocks under the group's labels.
pub open spec fn group_quota_samples(filer: Seq<char>, q: Quota) -> Seq<SampleView> {
    match (q.qtree, q.group) {
        (Some(qt), Some(g)) => if spec_default_qtree(qt.name@) {
            Seq::empty()
        } else {
            let labels = seq![filer, q.volume.name@, qt.name@, g.name@];
            (match q.space {
                Some(sp) => quota_usage_samples(spec_group_space_ids(), labels, sp),
                None => Seq::empty(),
            }) + (match q.files {
                Some(f) => quota_usage_samples(spec_group_files_ids(), labels, f),
                None => Seq::empty(),
            })
        },
        _ => Seq::empty(),
    }
}

/// Samples of one tree quota record: nothing when the qtree substructure
/// is missing or for the default rule.
pub open spec fn tree_quota_samples(filer: Seq<char>, q: Quota) -> Seq<SampleView> {
    match q.qtree {
        Some(qt) => if spec_default_qtree(qt.name@) {
            Seq::empty()
        } else {
            let labels = seq![filer, q.volume.name@, qt.name@];
            (match q.space {
                Some(sp) => quota_usage_samples(spec_tree_space_ids(), labels, sp),
                None => Seq::empty(),
            }) + (match q.files {
                Some(f) => quota_usage_samples(spec_tree_files_ids(), labels, f),
                None => Seq::empty(),
            })
        },
        None => Seq::empty(),
    }
}

/// Publish the user quota samples of one record.
pub fn update_user_quotas(filer: &String, quota: &Quota) -> (samples: Vec<Sample>)
    ensures
        samples.deep_view() == user_quota_samples(filer@, *quota),
{
    let mut out: Vec<Sample> = Vec::new();
    proof {
        assert(out.deep_view() =~= Seq::<SampleView>::empty());
    }
    let qt = match &quota.qtree {
        Some(v) => v,
        None => {
            return out;
        },
    };
    let users = match &quota.users {
        Some(v) => v,
        None => {
            return out;
        },
    };
    if is_default_qtree(&qt.name) {
        return out;
    }
    let mut i: usize = 0;
    while i < users.len()
        invariant
            i <= users@.len(),
            out.deep_view() == user_entries_samples(filer@, *quota, qt.name@, users@.take(i as int)),
            quota.qtree == Some(*qt),
            quota.users == Some(*users),
        decreases users@.len() - i,
    {
        let labels = labels4(filer, &quota.volume.name, &qt.name, &users[i].name);
        if let Some(sp) = &quota.space {
            push_quota_usage(&mut out, user_space_ids(), &labels, sp);
        }
        if let Some(f) = &quota.files {
            push_quota_usage(&mut out, user_files_ids(), &labels, f);
        }
        proof {
            assert(users@.take(i as int + 1).drop_last() =~= users@.take(i as int));
            assert(users@.take(i as int + 1).last() == users@[i as int]);
            assert(out.deep_view() =~= user_entries_samples(
                filer@,
                *quota,
                qt.name@,
                users@.take(i as int),
            ) + user_entry_samples(filer@, *quota, qt.name@, users@[i as int]));
        }
        i = i + 1;
    }
    proof {
        assert(users@.take(users@.len() as int) =~= users@);
    }
    out
}

/// Publish the group quota samples of one record.
pub fn update_group_quotas(filer: &String, quota: &Quota) -> (samples: Vec<Sample>)
    ensures
        samples.deep_view() == group_quota_samples(filer@, *quota),
{
    let mut out: Vec<Sample> = Vec::new();
    proof {
        assert(out.deep_view() =~= Seq::<SampleView>::empty());
    }
    let qt = match &quota.qtree {
        Some(v) => v,
        None => {
            return out;
        },
    };
    let g = match &quota.group {
        Some(v) => v,
        None => {
            return out;
        },
    };
    if is_default_qtree(&qt.name) {
        return out;
    }
    let labels = labels4(filer, &quota.volume.name, &qt.name, &g.name);
    if let Some(sp) = &quota.space {
        push_quota_usage(&mut out, group_space_ids(), &labels, sp);
    }
    if let Some(f) = &quota.files {
        push_quota_usage(&mut out, group_files_ids(), &labels, f);
    }
    proof {
        assert(out.deep_view() =~= group_quota_samples(filer@, *quota));
    }
    out
}

/// Publish the tree quota samples of one record.
pub fn update_tree_quotas(filer: &String, quota: &Quota) -> (samples: Vec<Sample>)
    ensures
        samples.deep_view() == tree_quota_samples(filer@, *quota),
{
    let mut out: Vec<Sample> = Vec::new();
    proof {
        assert(out.deep_view() =~= Seq::<SampleView>::empty());
    }
    let qt = match &quota.qtree {
        Some(v) => v,
        None => {
            return out;
        },
    };
    if is_default_qtree(&qt.name) {
        return out;
    }
    let labels = labels3(filer, &quota.volume.name, &qt.name);
    if let Some(sp) = &quota.space {
        push_quota_usage(&mut out, tree_space_ids(), &labels, sp);
    }
    if let Some(f) = &quota.files {
        push_quota_usage(&mut out, tree_files_ids(), &labels, f);
    }
    proof {
        assert(out.deep_view() =~= tree_quota_samples(filer@, *quota));
    }
    out
}

/// Samples of one quota record, dispatched on its declared type; a record
/// of unrecognized type yields nothing.
pub open spec fn quota_record_samples(filer: Seq<char>, q: Quota) -> Seq<SampleView> {
    if q.quota_type@ == "user"@ {
        user_quota_samples(filer, q)
    } else if q.quota_type@ == "group"@ {
        group_quota_samples(filer, q)
    } else if q.quota_type@ == "tree"@ {
        tree_quota_samples(filer, q)
    } else {
        Seq::empty()
    }
}

/// Samples of a list of quota records, record by record.
pub open spec fn quotas_samples(filer: Seq<char>, recs: Seq<Quota>) -> Seq<SampleView>
    decreases recs.len(),
{
    if recs.len() == 0 {
        Seq::empty()
    } else {
        quotas_samples(filer, recs.drop_last()) + quota_record_samples(filer, recs.last())
    }
}

/// Decode and publish the samples of every quota record of one storage
/// system.
pub fn update_quotas(filer_name: &String, list: &QuotaList) -> (samples: Vec<Sample>)
    ensures
        samples.deep_view() == quotas_samples(filer_name@, list.records@),
{
    let mut out: Vec<Sample> = Vec::new();
    proof {
        assert(out.deep_view() =~= Seq::<SampleView>::empty());
        assert(out.deep_view() =~= quotas_samples(filer_name@, list.records@.take(0)));
    }
    let n = list.records.len();
    let mut i: usize = 0;
    while i < n
        invariant
            i <= n,
            n == list.records@.len(),
            out.deep_view() == quotas_samples(filer_name@, list.records@.take(i as int)),
        decreases n - i,
    {
        let quota = &list.records[i];
        let mut rec: Vec<Sample>;
        if string_eq(&quota.quota_type, &"user".to_owned()) {
            rec = update_user_quotas(filer_name, quota);
        } else if string_eq(&quota.quota_type, &"group".to_owned()) {
            rec = update_group_quotas(filer_name, quota);
        } else if string_eq(&quota.quota_type, &"tree".to_owned()) {
            rec = update_tree_quotas(filer_name, quota);
        } else {
            rec = Vec::new();
            proof {
                assert(rec.deep_view() =~= Seq::<SampleView>::empty());
            }
        }
        let ghost rec_view = rec.deep_view();
        let ghost before = out.deep_view();
        proof {
            assert(rec_view == quota_record_samples(filer_name@, list.records@[i as int]));
        }
        out.append(&mut rec);
        proof {
            assert(out.deep_view() =~= before + rec_view);
            assert(list.records@.take(i as int + 1).drop_last() =~= list.records@.take(i as int));
            assert(list.records@.take(i as int + 1).last() == list.records@[i as int]);
        }
        i = i + 1;
    }
    proof {
        assert(list.records@.take(n as int) =~= list.records@);
    }
    out
}

/// Whether a quota record's declared type implies a substructure that the
/// record does not carry.
pub open spec fn spec_malformed_quota(q: Quota) -> bool {
    if q.quota_type@ == "user"@ {
        q.qtree is None || q.users is None
    } else if q.quota_type@ == "group"@ {
        q.qtree is None || q.group is None
    } else if q.quota_type@ == "tree"@ {
        q.qtree is None
    } else {
        false
    }
}

proof fn lemma_quotas_samples_concat(filer: Seq<char>, a: Seq<Quota>, b: Seq<Quota>)
    ensures
        quotas_samples(filer, a + b) == quotas_samples(filer, a) + quotas_samples(filer, b),
    decreases b.len(),
{
    if b.len() == 0 {
        assert(a + b =~= a);
        assert(quotas_samples(filer, a) + quotas_samples(filer, b) =~= quotas_samples(filer, a));
    } else {
        lemma_quotas_samples_concat(filer, a, b.drop_last());
        assert((a + b).drop_last() =~= a + b.drop_last());
        assert((a + b).last() == b.last());
        assert(quotas_samples(filer, a) + quotas_samples(filer, b.drop_last())
            + quota_record_samples(filer, b.last()) =~= quotas_samples(filer, a) + (quotas_samples(
            filer,
            b.drop_last(),
        ) + quota_record_samples(filer, b.last())));
    }
}

/// Malformed-record isolation law. A quota record whose declared type
/// implies a substructure that is missing contributes no samples, and
/// removing it from the record list leaves every other record's samples
/// unchanged, in the same order.
pub proof fn lemma_malformed_quota_isolated(
    filer: Seq<char>,
    before: Seq<Quota>,
    bad: Quota,
    after: Seq<Quota>,
)
    requires
        spec_malformed_quota(bad),
    ensures
        quota_record_samples(filer, bad) == Seq::<SampleView>::empty(),
        quotas_samples(filer, before + seq![bad] + after) == quotas_samples(
            filer,
            before + after,
        ),
{
    assert(quota_record_samples(filer, bad) =~= Seq::<SampleView>::empty());
    lemma_quotas_samples_concat(filer, before + seq![bad], after);
    lemma_quotas_samples_concat(filer, before, seq![bad]);
    lemma_quotas_samples_concat(filer, before, after);
    let single = seq![bad];
    assert(single.drop_last() =~= Seq::<Quota>::empty());
    assert(quotas_samples(filer, Seq::<Quota>::empty()) == Seq::<SampleView>::empty());
    assert(single.last() == bad);
    assert(quotas_samples(filer, single) == quotas_samples(filer, single.drop_last())
        + quota_record_samples(filer, single.last()));
    assert(quotas_samples(filer, single) =~= quota_record_samples(filer, bad));
    assert(quotas_samples(filer, before + seq![bad] + after) =~= quotas_samples(
        filer,
        before + after,
    ));
}

} // verus!
