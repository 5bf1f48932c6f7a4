//! Counting paint results by status.

use vstd::prelude::*;

use crate::models::paint::PaintStatus;

verus! {

/// Declares `dashmap::DashMap` to Verus (opaque).
#[verifier::external_type_specification]
#[verifier::external_body]
#[verifier::reject_recursive_types(K)]
#[verifier::reject_recursive_types(V)]
#[verifier::reject_recursive_types(S)]
pub struct ExDashMap<K, V, S>(dashmap::DashMap<K, V, S>);

/// Name for the entries of a `DashMap` from status codes to counts.
pub uninterp spec fn dashmap_entries(m: dashmap::DashMap<u8, u64>) -> Map<u8, u64>;

/// Calls `DashMap::new`: the map starts empty.
#[verifier::external_body]
fn counts_new() -> (m: dashmap::DashMap<u8, u64>)
    ensures
        dashmap_entries(m).dom() == Set::<u8>::empty(),
{
    dashmap::DashMap::new()
}

/// Calls `DashMap::get` and copies the value out of the guard it returns.
#[verifier::external_body]
fn counts_get(m: &dashmap::DashMap<u8, u64>, k: u8) -> (r: Option<u64>)
    ensures
        match r {
            Some(v) => dashmap_entries(*m).contains_key(k) && dashmap_entries(*m)[k] == v,
            None => !dashmap_entries(*m).contains_key(k),
        },
{
    m.get(&k).map(|e| *e.value())
}

/// Calls `DashMap::insert`: the key now maps to the value.
#[verifier::external_body]
fn counts_insert(m: &mut dashmap::DashMap<u8, u64>, k: u8, v: u64)
    ensures
        dashmap_entries(*final(m)) == dashmap_entries(*old(m)).insert(k, v),
{
    m.insert(k, v);
}

/// Calls `DashMap::clear`: the map is empty afterwards.
#[verifier::external_body]
fn counts_clear(m: &mut dashmap::DashMap<u8, u64>)
    ensures
        dashmap_entries(*final(m)).dom() == Set::<u8>::empty(),
{
    m.clear();
}

/// Walks the map with `DashMap::iter`, copying each key and value: every
/// entry comes out once, in an order the map does not fix.
#[verifier::external_body]
fn counts_entries(m: &dashmap::DashMap<u8, u64>) -> (r: Vec<(u8, u64)>)
    ensures
        r@.map_values(|p: (u8, u64)| p.0).no_duplicates(),
        r@.map_values(|p: (u8, u64)| p.0).to_set() == dashmap_entries(*m).dom(),
        forall|i: int| 0 <= i < r@.len() ==> dashmap_entries(*m)[#[trigger] r@[i].0] == r@[i].1,
{
    m.iter().map(|e| (*e.key(), *e.value())).collect()
}

/// The code a status is counted under.
pub open spec fn spec_status_code(s: PaintStatus) -> u8 {
    match s {
        PaintStatus::Success => 0,
        PaintStatus::Cooldown => 1,
        PaintStatus::InvalidToken => 2,
        PaintStatus::InvalidCoordinate => 3,
        PaintStatus::NoPermission => 4,
        PaintStatus::ServerError => 5,
        PaintStatus::Timeout => 6,
        PaintStatus::Unknown => 7,
    }
}

/// The status counted under a code.
pub open spec fn spec_status_of_code(c: u8) -> PaintStatus {
    if c == 0 {
        PaintStatus::Success
    } else if c == 1 {
        PaintStatus::Cooldown
    } else if c == 2 {
        PaintStatus::InvalidToken
    } else if c == 3 {
        PaintStatus::InvalidCoordinate
    } else if c == 4 {
        PaintStatus::NoPermission
    } else if c == 5 {
        PaintStatus::ServerError
    } else if c == 6 {
        PaintStatus::Timeout
    } else {
        PaintStatus::Unknown
    }
}

/// The code a status is counted under.
pub fn status_code(s: PaintStatus) -> (c: u8)
    ensures
        c == spec_status_code(s),
{
    match s {
        PaintStatus::Success => 0,
        PaintStatus::Cooldown => 1,
        PaintStatus::InvalidToken => 2,
        PaintStatus::InvalidCoordinate => 3,
        PaintStatus::NoPermission => 4,
        PaintStatus::ServerError => 5,
        PaintStatus::Timeout => 6,
        PaintStatus::Unknown => 7,
    }
}

/// The status counted under a code (codes past the last one read as `Unknown`).
pub fn status_of_code(c: u8) -> (s: PaintStatus)
    ensures
        s == spec_status_of_code(c),
{
    if c == 0 {
        PaintStatus::Success
    } else if c == 1 {
        PaintStatus::Cooldown
    } else if c == 2 {
        PaintStatus::InvalidToken
    } else if c == 3 {
        PaintStatus::InvalidCoordinate
    } else if c == 4 {
        PaintStatus::NoPermission
    } else if c == 5 {
        PaintStatus::ServerError
    } else if c == 6 {
        PaintStatus::Timeout
    } else {
        PaintStatus::Unknown
    }
}

/// The name a status is reported under.
pub open spec fn spec_status_name(s: PaintStatus) -> Seq<char> {
    match s {
        PaintStatus::Success => "Success"@,
        PaintStatus::Cooldown => "Cooldown"@,
        PaintStatus::InvalidToken => "InvalidToken"@,
        PaintStatus::InvalidCoordinate => "InvalidCoordinate"@,
        PaintStatus::NoPermission => "NoPermission"@,
        PaintStatus::ServerError => "ServerError"@,
        PaintStatus::Timeout => "Timeout"@,
        PaintStatus::Unknown => "Unknown"@,
    }
}

/// The name a status is reported under.
pub fn status_name(s: PaintStatus) -> (n: &'static str)
    ensures
        n@ == spec_status_name(s),
{
    match s {
        PaintStatus::Success => "Success",
        PaintStatus::Cooldown => "Cooldown",
        PaintStatus::InvalidToken => "InvalidToken",
        PaintStatus::InvalidCoordinate => "InvalidCoordinate",
        PaintStatus::NoPermission => "NoPermission",
        PaintStatus::ServerError => "ServerError",
        PaintStatus::Timeout => "Timeout",
        PaintStatus::Unknown => "Unknown",
    }
}

/// Statistics of paint results: how many were recorded, how many succeeded,
/// and for each failing status how often it came.
pub struct ErrorStats {
    error_counts: dashmap::DashMap<u8, u64>,
    success_count: u64,
    total_count: u64,
}

/// Mathematical state of the statistics.
pub struct StatsView {
    /// Count per failing status code.
    pub errors: Map<u8, u64>,
    pub success: u64,
    pub total: u64,
}

impl View for ErrorStats {
    type V = StatsView;

    closed spec fn view(&self) -> StatsView {
        StatsView { errors: dashmap_entries(self.error_counts), success: self.success_count, total: self.total_count }
    }
}

/// The count of a failing status code after one more of it (counters wrap
/// like atomic counters).
pub open spec fn spec_bump(m: Map<u8, u64>, k: u8) -> Map<u8, u64> {
    m.insert(k, (if m.contains_key(k) { m[k] } else { 0u64 }).wrapping_add(1))
}

/// The statistics after one more result with status `status`.
pub open spec fn spec_after_record(v: StatsView, status: PaintStatus) -> StatsView {
    if status == PaintStatus::Success {
        StatsView { success: v.success.wrapping_add(1), total: v.total.wrapping_add(1), ..v }
    } else {
        StatsView { errors: spec_bump(v.errors, spec_status_code(status)), total: v.total.wrapping_add(1), ..v }
    }
}

/// The statistics after the results `statuses`, in order.
pub open spec fn spec_after_records(v: StatsView, statuses: Seq<PaintStatus>) -> StatsView
    decreases statuses.len(),
{
    if statuses.len() == 0 {
        v
    } else {
        spec_after_record(spec_after_records(v, statuses.drop_last()), statuses.last())
    }
}

/// How many of `statuses` are counted under `code`.
pub open spec fn spec_count_code(statuses: Seq<PaintStatus>, code: u8) -> nat
    decreases statuses.len(),
{
    if statuses.len() == 0 {
        0
    } else {
        spec_count_code(statuses.drop_last(), code) + if spec_status_code(statuses.last()) == code { 1nat } else { 0nat }
    }
}

/// Every recorded result is counted once and under its own status: starting
/// from nothing, after the results `statuses` the total is their number, the
/// successes are the successful ones, and each failing code counts the
/// results with that status (and appears only once one came).
pub proof fn law_stats_count_each_result(statuses: Seq<PaintStatus>)
    requires
        statuses.len() < u64::MAX,
    ensures
        ({
            let v = spec_after_records(StatsView { errors: Map::<u8, u64>::empty(), success: 0, total: 0 }, statuses);
            &&& v.total == statuses.len()
            &&& v.success == spec_count_code(statuses, 0)
            &&& forall|code: u8| #[trigger] v.errors.contains_key(code) <==> (code != 0 && spec_count_code(statuses, code) > 0)
            &&& forall|code: u8| #[trigger] v.errors.contains_key(code) ==> v.errors[code] == spec_count_code(statuses, code)
        }),
    decreases statuses.len(),
{
    if statuses.len() > 0 {
        let prefix = statuses.drop_last();
        law_stats_count_each_result(prefix);
        lemma_count_code_bound(prefix);
    }
}

proof fn lemma_count_code_bound(statuses: Seq<PaintStatus>)
    ensures
        forall|code: u8| #[trigger] spec_count_code(statuses, code) <= statuses.len(),
    decreases statuses.len(),
{
    if statuses.len() > 0 {
        lemma_count_code_bound(statuses.drop_last());
        assert forall|code: u8| #[trigger] spec_count_code(statuses, code) <= statuses.len() by {
            assert(spec_count_code(statuses.drop_last(), code) <= statuses.drop_last().len());
        }
    }
}

impl ErrorStats {
    /// Statistics with nothing recorded.
    pub fn new() -> (s: Self)
        ensures
            s@ == (StatsView { errors: Map::<u8, u64>::empty(), success: 0, total: 0 }),
    {
        let m = counts_new();
        assert(dashmap_entries(m) =~= Map::<u8, u64>::empty());
        ErrorStats { error_counts: m, success_count: 0, total_count: 0 }
    }

    /// Records one paint result with the given status.
    pub fn record(&mut self, status: &PaintStatus)
        ensures
            final(self)@ == spec_after_record(old(self)@, *status),
    {
        self.total_count = self.total_count.wrapping_add(1);
        match status {
            PaintStatus::Success => {
                self.success_count = self.success_count.wrapping_add(1);
            },
            other => {
                let key = status_code(*other);
                let current = match counts_get(&self.error_counts, key) {
                    Some(v) => v,
                    None => 0,
                };
                counts_insert(&mut self.error_counts, key, current.wrapping_add(1));
            },
        }
    }

    /// Number of results recorded.
    pub fn total(&self) -> (n: u64)
        ensures
            n == self@.total,
    {
        self.total_count
    }

    /// Number of successful results recorded.
    pub fn success(&self) -> (n: u64)
        ensures
            n == self@.success,
    {
        self.success_count
    }

    /// The codes of the failing statuses with their counts, each once,
    /// largest count first.
    pub fn error_breakdown(&self) -> (r: Vec<(u8, u64)>)
        ensures
            r@.len() == self@.errors.dom().len(),
            forall|i: int, j: int| 0 <= i < j < r@.len() ==> r@[i].1 >= r@[j].1,
            forall|i: int| 0 <= i < r@.len() ==> self@.errors.contains_key(#[trigger] r@[i].0)
                && self@.errors[r@[i].0] == r@[i].1,
            r@.map_values(|p: (u8, u64)| p.0).to_set() == self@.errors.dom(),
    {
        let entries = counts_entries(&self.error_counts);
        let ghost m = self@.errors;
        let mut sorted: Vec<(u8, u64)> = Vec::new();
        let mut i: usize = 0;
        while i < entries.len()
            invariant
                i <= entries@.len(),
                sorted@.len() == i,
                forall|a: int, b: int| 0 <= a < b < sorted@.len() ==> sorted@[a].1 >= sorted@[b].1,
                forall|a: int| 0 <= a < sorted@.len() ==> m.contains_key(#[trigger] sorted@[a].0) && m[sorted@[a].0] == sorted@[a].1,
                sorted@.map_values(|p: (u8, u64)| p.0).to_set() == entries@.take(i as int).map_values(|p: (u8, u64)| p.0).to_set(),
                entries@.map_values(|p: (u8, u64)| p.0).to_set() == m.dom(),
                forall|a: int| 0 <= a < entries@.len() ==> m[#[trigger] entries@[a].0] == entries@[a].1,
            decreases entries@.len() - i,
        {
            let e = entries[i];
            assert(m.dom().contains(e.0)) by {
                assert(entries@.map_values(|p: (u8, u64)| p.0)[i as int] == e.0);
            }
            let mut pos: usize = 0;
            while pos < sorted.len() && sorted[pos].1 >= e.1
                invariant
                    pos <= sorted@.len(),
                    forall|a: int| 0 <= a < pos ==> sorted@[a].1 >= e.1,
                decreases sorted@.len() - pos,
            {
                pos = pos + 1;
            }
            let ghost before = sorted@;
            sorted.insert(pos, e);
            proof {
                assert forall|a: int, b: int| 0 <= a < b < sorted@.len() implies sorted@[a].1 >= sorted@[b].1 by {
                    if a < pos as int && b == pos as int {
                    } else if a == pos as int {
                        if pos < before.len() {
                            assert(before[pos as int].1 < e.1);
                            assert(sorted@[b] == before[b - 1]);
                            assert(before[pos as int].1 >= before[b - 1].1);
                        }
                    }
                }
                let ks_b = before.map_values(|p: (u8, u64)| p.0);
                let ks = sorted@.map_values(|p: (u8, u64)| p.0);
                let es0 = entries@.take(i as int).map_values(|p: (u8, u64)| p.0);
                let es1 = entries@.take(i + 1).map_values(|p: (u8, u64)| p.0);
                assert(es1 =~= es0.push(e.0));
                assert(ks.to_set() =~= ks_b.to_set().insert(e.0)) by {
                    assert forall|x: u8| ks.contains(x) <==> (ks_b.contains(x) || x == e.0) by {
                        if ks.contains(x) {
                            let j = choose|j: int| 0 <= j < ks.len() && ks[j] == x;
                            if j < pos {
                                assert(ks_b[j] == x);
                            } else if j > pos {
                                assert(ks_b[j - 1] == x);
                            }
                        }
                        if ks_b.contains(x) {
                            let j = choose|j: int| 0 <= j < ks_b.len() && ks_b[j] == x;
                            if j < pos {
                                assert(ks[j] == x);
                            } else {
                                assert(ks[j + 1] == x);
                            }
                        }
                        if x == e.0 {
                            assert(ks[pos as int] == x);
                        }
                    }
                }
                assert(es1.to_set() =~= es0.to_set().insert(e.0)) by {
                    assert forall|x: u8| es1.contains(x) <==> (es0.contains(x) || x == e.0) by {
                        if es1.contains(x) {
                            let j = choose|j: int| 0 <= j < es1.len() && es1[j] == x;
                            if j < es0.len() {
                                assert(es0[j] == x);
                            }
                        }
                        if es0.contains(x) {
                            let j = choose|j: int| 0 <= j < es0.len() && es0[j] == x;
                            assert(es1[j] == x);
                        }
                        if x == e.0 {
                            assert(es1[es0.len() as int] == x);
                        }
                    }
                }
            }
            i = i + 1;
        }
        proof {
            assert(entries@.take(entries@.len() as int) =~= entries@);
            let ks = sorted@.map_values(|p: (u8, u64)| p.0);
            assert(ks.to_set() == m.dom());
            entries@.map_values(|p: (u8, u64)| p.0).unique_seq_to_set();
        }
        sorted
    }

    /// Forgets everything recorded.
    pub fn reset(&mut self)
        ensures
            final(self)@ == (StatsView { errors: Map::<u8, u64>::empty(), success: 0, total: 0 }),
    {
        self.total_count = 0;
        self.success_count = 0;
        counts_clear(&mut self.error_counts);
        assert(dashmap_entries(self.error_counts) =~= Map::<u8, u64>::empty());
    }
}

/// Each status is counted under a code of its own that decodes back to it,
/// and so is reported under its own name: distinct statuses never share a
/// counter.
pub proof fn law_status_code_roundtrip()
    ensures
        forall|s: PaintStatus| #[trigger] spec_status_of_code(spec_status_code(s)) == s,
        forall|s1: PaintStatus, s2: PaintStatus| #[trigger] spec_status_code(s1) == #[trigger] spec_status_code(s2) ==> s1 == s2,
        spec_status_name(spec_status_of_code(spec_status_code(PaintStatus::Success))) == "Success"@,
        spec_status_name(spec_status_of_code(spec_status_code(PaintStatus::Cooldown))) == "Cooldown"@,
        spec_status_name(spec_status_of_code(spec_status_code(PaintStatus::InvalidToken))) == "InvalidToken"@,
        spec_status_name(spec_status_of_code(spec_status_code(PaintStatus::InvalidCoordinate))) == "InvalidCoordinate"@,
        spec_status_name(spec_status_of_code(spec_status_code(PaintStatus::NoPermission))) == "NoPermission"@,
        spec_status_name(spec_status_of_code(spec_status_code(PaintStatus::ServerError))) == "ServerError"@,
        spec_status_name(spec_status_of_code(spec_status_code(PaintStatus::Timeout))) == "Timeout"@,
        spec_status_name(spec_status_of_code(spec_status_code(PaintStatus::Unknown))) == "Unknown"@,
{
    assert forall|s1: PaintStatus, s2: PaintStatus| #[trigger] spec_status_code(s1) == #[trigger] spec_status_code(s2) implies s1 == s2 by {
        assert(spec_status_of_code(spec_status_code(s1)) == s1);
        assert(spec_status_of_code(spec_status_code(s2)) == s2);
    }
}

} // verus!
