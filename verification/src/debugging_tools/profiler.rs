//! Function profiling: call counts and times per function, a call graph of who called
//! whom, and a histogram of sampled program counters. Times are nanosecond readings of
//! the host's monotonic clock, passed in by the caller.

use vstd::prelude::*;
use vstd::string::StringExecFns;

verus! {

/// `order` lists every position of `keys` once, largest key first.
pub open spec fn is_desc_order(keys: Seq<u64>, order: Seq<usize>) -> bool {
    &&& order.len() == keys.len()
    &&& forall|i: int| 0 <= i < order.len() ==> (order[i] as int) < keys.len()
    &&& forall|i: int, j: int| 0 <= i < j < order.len() ==> order[i] != order[j]
    &&& forall|i: int, j: int| 0 <= i < j < order.len() ==> keys[order[i] as int] >= keys[order[j] as int]
}

/// The positions of `keys` ordered by key, largest first; equal keys keep their order.
pub fn order_by_key_desc(keys: &Vec<u64>) -> (r: Vec<usize>)
    ensures
        is_desc_order(keys@, r@),
{
    let mut order: Vec<usize> = Vec::new();
    let mut i: usize = 0;
    while i < keys.len()
        invariant
            i <= keys@.len(),
            order@.len() == i,
            forall|a: int| 0 <= a < order@.len() ==> (order@[a] as int) < i,
            forall|a: int, b: int| 0 <= a < b < order@.len() ==> order@[a] != order@[b],
            forall|a: int, b: int| 0 <= a < b < order@.len() ==> keys@[order@[a] as int] >= keys@[order@[b] as int],
        decreases keys@.len() - i,
    {
        let k = keys[i];
        let mut p: usize = 0;
        while p < order.len() && keys[order[p]] >= k
            invariant
                p <= order@.len(),
                order@.len() == i,
                i < keys@.len(),
                k == keys@[i as int],
                forall|a: int| 0 <= a < order@.len() ==> (order@[a] as int) < i,
                forall|a: int| 0 <= a < p ==> keys@[order@[a] as int] >= k,
            decreases order@.len() - p,
        {
            p = p + 1;
        }
        let ghost before = order@;
        order.insert(p, i);
        proof {
            before.insert_ensures(p as int, i);
            assert forall|a: int, b: int| 0 <= a < b < order@.len() implies keys@[order@[a] as int] >= keys@[order@[b] as int] by {
                if b < p {
                } else if b == p {
                } else if a < p {
                    assert(order@[b] == before[b - 1]);
                    if p < before.len() {
                        assert(keys@[before[p as int] as int] < k);
                        assert(keys@[before[a] as int] >= keys@[before[b - 1] as int] || a == b - 1);
                    }
                } else if a == p {
                    assert(order@[b] == before[b - 1]);
                    assert(keys@[before[p as int] as int] < k);
                    assert(keys@[before[p as int] as int] >= keys@[before[b - 1] as int] || p == b - 1);
                } else {
                    assert(order@[a] == before[a - 1]);
                    assert(order@[b] == before[b - 1]);
                }
            }
            assert forall|a: int, b: int| 0 <= a < b < order@.len() implies order@[a] != order@[b] by {
                if a < p && b > p {
                    assert(order@[b] == before[b - 1]);
                } else if a > p {
                    assert(order@[a] == before[a - 1]);
                    assert(order@[b] == before[b - 1]);
                }
            }
        }
        i = i + 1;
    }
    order
}

/// Call count and times of one function.
pub struct FunctionTiming {
    pub name: String,
    pub call_count: u64,
    pub total_time: u64,
    /// Shortest call; `u64::MAX` before the first.
    pub min_time: u64,
    pub max_time: u64,
    /// When the running call started.
    pub current_start: Option<u64>,
}

/// What a report lists of a function.
pub struct FunctionSummary {
    pub name: String,
    pub call_count: u64,
    pub total_time: u64,
    pub average_time: u64,
}

/// The average time per call: the total divided by the call count taken modulo 2^32
/// (the width the average is computed with).
pub open spec fn average_of(total: u64, calls: u64) -> u64 {
    if calls > 0 { (total / (calls % 0x1_0000_0000)) as u64 } else { 0 }
}

impl FunctionTiming {
    /// No calls yet.
    pub fn new(name: &str) -> (r: Self)
        ensures
            r.name@ == name@,
            r.call_count == 0 && r.total_time == 0 && r.max_time == 0,
            r.min_time == u64::MAX,
            r.current_start is None,
    {
        FunctionTiming {
            name: String::from_str(name),
            call_count: 0,
            total_time: 0,
            min_time: u64::MAX,
            max_time: 0,
            current_start: None,
        }
    }

    /// A call starts at `now`.
    pub fn enter(&mut self, now: u64)
        ensures
            *final(self) == timing_entered(*old(self), now),
            final(self).current_start == Some(now),
            final(self).name == old(self).name,
            final(self).call_count == old(self).call_count,
            final(self).total_time == old(self).total_time,
            final(self).min_time == old(self).min_time,
            final(self).max_time == old(self).max_time,
    {
        self.current_start = Some(now);
    }

    /// The running call, if any, ends at `now` (a clock reading before its start counts
    /// as no time) and is added to the counts.
    pub fn exit(&mut self, now: u64)
        requires
            old(self).current_start matches Some(start) ==> {
                let d = if now >= start { now - start } else { 0 };
                &&& old(self).total_time + d <= u64::MAX
                &&& old(self).call_count < u64::MAX
            },
        ensures
            *final(self) == timing_exited(*old(self), now),
            final(self).current_start is None,
            final(self).name == old(self).name,
            old(self).current_start is None ==> final(self).call_count == old(self).call_count
                && final(self).total_time == old(self).total_time
                && final(self).min_time == old(self).min_time
                && final(self).max_time == old(self).max_time,
            old(self).current_start matches Some(start) ==> {
                let d = if now >= start { now - start } else { 0 };
                &&& final(self).call_count == old(self).call_count + 1
                &&& final(self).total_time == old(self).total_time + d
                &&& final(self).min_time == (if d < old(self).min_time { d as u64 } else { old(self).min_time })
                &&& final(self).max_time == (if d > old(self).max_time { d as u64 } else { old(self).max_time })
            },
    {
        match self.current_start {
            Some(start) => {
                self.current_start = None;
                let duration = if now >= start { now - start } else { 0 };
                self.total_time = self.total_time + duration;
                self.call_count = self.call_count + 1;
                if duration < self.min_time {
                    self.min_time = duration;
                }
                if duration > self.max_time {
                    self.max_time = duration;
                }
            },
            None => {},
        }
    }

    /// Name, count, total and average.
    pub fn to_summary(&self) -> (r: FunctionSummary)
        requires
            self.call_count > 0 ==> self.call_count % 0x1_0000_0000 != 0,
        ensures
            r.name@ == self.name@,
            r.call_count == self.call_count,
            r.total_time == self.total_time,
            r.average_time == average_of(self.total_time, self.call_count),
    {
        let average_time = if self.call_count > 0 {
            let calls = (self.call_count % 0x1_0000_0000) as u64;
            self.total_time / calls
        } else {
            0
        };
        FunctionSummary {
            name: self.name.clone(),
            call_count: self.call_count,
            total_time: self.total_time,
            average_time,
        }
    }
}

/// Who called whom.
pub struct CallGraph {
    /// Every function seen, in first-seen order.
    pub nodes: Vec<String>,
    /// (caller, callee) for every call made while another was running.
    pub edges: Vec<(String, String)>,
    /// The running calls, innermost last.
    pub stack: Vec<String>,
}

/// The text of each string.
pub open spec fn names(v: Seq<String>) -> Seq<Seq<char>> {
    v.map_values(|s: String| s@)
}

/// The text of each pair of strings.
pub open spec fn name_pairs(v: Seq<(String, String)>) -> Seq<(Seq<char>, Seq<char>)> {
    v.map_values(|p: (String, String)| (p.0@, p.1@))
}

/// The Graphviz lines of the nodes.
pub open spec fn dot_nodes(nodes: Seq<Seq<char>>) -> Seq<char>
    decreases nodes.len(),
{
    if nodes.len() == 0 { Seq::empty() } else { dot_nodes(nodes.drop_last()) + "  \""@ + nodes.last() + "\"\n"@ }
}

/// The Graphviz lines of the edges.
pub open spec fn dot_edges(edges: Seq<(Seq<char>, Seq<char>)>) -> Seq<char>
    decreases edges.len(),
{
    if edges.len() == 0 {
        Seq::empty()
    } else {
        dot_edges(edges.drop_last()) + "  \""@ + edges.last().0 + "\" -> \""@ + edges.last().1 + "\"\n"@
    }
}

fn contains_name(v: &Vec<String>, name: &str) -> (r: bool)
    ensures
        r == names(v@).contains(name@),
{
    let target = String::from_str(name);
    let mut i: usize = 0;
    while i < v.len()
        invariant
            i <= v@.len(),
            target@ == name@,
            forall|j: int| 0 <= j < i ==> v@[j]@ != name@,
        decreases v@.len() - i,
    {
        if v[i].eq(&target) {
            assert(names(v@)[i as int] == name@);
            return true;
        }
        i = i + 1;
    }
    assert forall|j: int| 0 <= j < names(v@).len() implies names(v@)[j] != name@ by {
        assert(names(v@)[j] == v@[j]@);
    }
    false
}

impl CallGraph {
    pub fn new() -> (r: Self)
        ensures
            r.nodes@.len() == 0 && r.edges@.len() == 0 && r.stack@.len() == 0,
    {
        CallGraph { nodes: Vec::new(), edges: Vec::new(), stack: Vec::new() }
    }

    /// `function` is called: an edge from the running function, if any, and a node the
    /// first time.
    pub fn enter(&mut self, function: &str)
        ensures
            names(final(self).stack@) == names(old(self).stack@).push(function@),
            name_pairs(final(self).edges@) == (if old(self).stack@.len() > 0 {
                name_pairs(old(self).edges@).push((old(self).stack@.last()@, function@))
            } else {
                name_pairs(old(self).edges@)
            }),
            names(final(self).nodes@) == (if names(old(self).nodes@).contains(function@) {
                names(old(self).nodes@)
            } else {
                names(old(self).nodes@).push(function@)
            }),
    {
        let ghost e0 = name_pairs(self.edges@);
        let n = self.stack.len();
        if n > 0 {
            let caller = self.stack[n - 1].clone();
            self.edges.push((caller, String::from_str(function)));
            assert(name_pairs(self.edges@) =~= e0.push((old(self).stack@.last()@, function@)));
        }
        let ghost s0 = names(self.stack@);
        self.stack.push(String::from_str(function));
        assert(names(self.stack@) =~= s0.push(function@));
        let ghost n0 = names(self.nodes@);
        if !contains_name(&self.nodes, function) {
            self.nodes.push(String::from_str(function));
            assert(names(self.nodes@) =~= n0.push(function@));
        }
    }

    /// The innermost call returns.
    pub fn exit(&mut self)
        ensures
            final(self).stack@ == (if old(self).stack@.len() > 0 { old(self).stack@.drop_last() } else { old(self).stack@ }),
            final(self).nodes == old(self).nodes,
            final(self).edges == old(self).edges,
    {
        self.stack.pop();
    }

    /// The graph in Graphviz dot form.
    pub fn to_dot(&self) -> (r: String)
        ensures
            r@ == "digraph CallGraph {\n"@ + dot_nodes(names(self.nodes@)) + dot_edges(name_pairs(self.edges@)) + "}\n"@,
    {
        let mut dot = String::from_str("digraph CallGraph {\n");
        let ghost head = dot@;
        let mut i: usize = 0;
        while i < self.nodes.len()
            invariant
                i <= self.nodes@.len(),
                dot@ == head + dot_nodes(names(self.nodes@).take(i as int)),
            decreases self.nodes@.len() - i,
        {
            dot.append("  \"");
            dot.append(self.nodes[i].as_str());
            dot.append("\"\n");
            i = i + 1;
            assert(names(self.nodes@).take(i as int).drop_last() =~= names(self.nodes@).take(i - 1));
            assert(dot@ =~= head + dot_nodes(names(self.nodes@).take(i as int)));
        }
        assert(names(self.nodes@).take(self.nodes@.len() as int) =~= names(self.nodes@));
        let ghost mid = dot@;
        let mut j: usize = 0;
        while j < self.edges.len()
            invariant
                j <= self.edges@.len(),
                dot@ == mid + dot_edges(name_pairs(self.edges@).take(j as int)),
            decreases self.edges@.len() - j,
        {
            dot.append("  \"");
            dot.append(self.edges[j].0.as_str());
            dot.append("\" -> \"");
            dot.append(self.edges[j].1.as_str());
            dot.append("\"\n");
            j = j + 1;
            assert(name_pairs(self.edges@).take(j as int).drop_last() =~= name_pairs(self.edges@).take(j - 1));
            assert(dot@ =~= mid + dot_edges(name_pairs(self.edges@).take(j as int)));
        }
        assert(name_pairs(self.edges@).take(self.edges@.len() as int) =~= name_pairs(self.edges@));
        dot.append("}\n");
        dot
    }
}


/// Sample counts by program counter and by function.
pub struct SamplingProfiler {
    /// (pc, count), one entry per pc, in first-seen order.
    pub samples: Vec<(u32, u64)>,
    /// (function, count), one entry per function, in first-seen order.
    pub function_samples: Vec<(String, u64)>,
    pub sample_rate: u32,
}

/// The counts of a list of (pc, count) entries.
pub open spec fn counts(s: Seq<(u32, u64)>) -> Seq<u64> {
    s.map_values(|e: (u32, u64)| e.1)
}

/// The entries of `s` in the order `order` lists them.
pub open spec fn reordered(s: Seq<(u32, u64)>, order: Seq<usize>) -> Seq<(u32, u64)> {
    order.map_values(|i: usize| s[i as int])
}

impl SamplingProfiler {
    /// No samples yet.
    pub fn new(rate: u32) -> (r: Self)
        ensures
            r.samples@.len() == 0 && r.function_samples@.len() == 0,
            r.sample_rate == rate,
    {
        SamplingProfiler { samples: Vec::new(), function_samples: Vec::new(), sample_rate: rate }
    }

    /// One entry per pc and one per function.
    pub open spec fn wf(&self) -> bool {
        &&& forall|i: int, j: int| 0 <= i < j < self.samples@.len() ==> self.samples@[i].0 != self.samples@[j].0
        &&& forall|i: int, j: int| 0 <= i < j < self.function_samples@.len() ==> self.function_samples@[i].0@ != self.function_samples@[j].0@
    }

    /// `after` is `before` with one more sample of the function named `f`: its count
    /// raised by one, or a first entry of count 1 appended.
    pub open spec fn counted_in_function(before: Seq<(String, u64)>, after: Seq<(String, u64)>, f: Seq<char>) -> bool {
        if exists|k: int| 0 <= k < before.len() && (#[trigger] before[k]).0@ == f {
            exists|k: int|
                0 <= k < before.len() && (#[trigger] before[k]).0@ == f
                && after == before.update(k, (before[k].0, (before[k].1 + 1) as u64))
        } else {
            &&& after.len() == before.len() + 1
            &&& after.drop_last() == before
            &&& after.last().0@ == f
            &&& after.last().1 == 1
        }
    }

    /// `after` is `before` with one more sample at `pc`: its count raised by one, or a
    /// first entry of count 1 appended.
    pub open spec fn counted_at_pc(before: Seq<(u32, u64)>, after: Seq<(u32, u64)>, pc: u32) -> bool {
        if exists|k: int| 0 <= k < before.len() && (#[trigger] before[k]).0 == pc {
            exists|k: int|
                0 <= k < before.len() && (#[trigger] before[k]).0 == pc
                && after == before.update(k, (pc, (before[k].1 + 1) as u64))
        } else {
            after == before.push((pc, 1u64))
        }
    }

    /// Count a sample at `pc`, and in `function` if one is named.
    pub fn add_sample(&mut self, pc: u32, function: Option<&str>)
        requires
            old(self).wf(),
            forall|i: int| 0 <= i < old(self).samples@.len() ==> (#[trigger] old(self).samples@[i]).1 < u64::MAX,
            forall|i: int| 0 <= i < old(self).function_samples@.len() ==> (#[trigger] old(self).function_samples@[i]).1 < u64::MAX,
        ensures
            final(self).wf(),
            final(self).sample_rate == old(self).sample_rate,
            (exists|k: int| 0 <= k < old(self).samples@.len() && old(self).samples@[k].0 == pc) ==> exists|k: int| {
                &&& 0 <= k < old(self).samples@.len()
                &&& old(self).samples@[k].0 == pc
                &&& final(self).samples@ == old(self).samples@.update(k, (pc, (old(self).samples@[k].1 + 1) as u64))
            },
            (forall|k: int| 0 <= k < old(self).samples@.len() ==> old(self).samples@[k].0 != pc)
                ==> final(self).samples@ == old(self).samples@.push((pc, 1u64)),
            function is None ==> final(self).function_samples == old(self).function_samples,
            function matches Some(f) ==> Self::counted_in_function(old(self).function_samples@, final(self).function_samples@, f@),
    {
        let mut i: usize = 0;
        while i < self.samples.len() && self.samples[i].0 != pc
            invariant
                i <= self.samples@.len(),
                self.samples@ == old(self).samples@,
                forall|j: int| 0 <= j < i ==> self.samples@[j].0 != pc,
            decreases self.samples@.len() - i,
        {
            i = i + 1;
        }
        if i < self.samples.len() {
            let c = self.samples[i].1;
            self.samples.set(i, (pc, c + 1));
            assert(self.samples@ == old(self).samples@.update(i as int, (pc, (old(self).samples@[i as int].1 + 1) as u64)));
        } else {
            self.samples.push((pc, 1));
        }
        assert forall|a: int, b: int| 0 <= a < b < self.samples@.len() implies self.samples@[a].0 != self.samples@[b].0 by {
            if i < old(self).samples@.len() {
                assert(self.samples@[a].0 == old(self).samples@[a].0);
                assert(self.samples@[b].0 == old(self).samples@[b].0);
            } else if b < old(self).samples@.len() {
            } else {
                assert(self.samples@[b].0 == pc);
                assert(self.samples@[a] == old(self).samples@[a]);
            }
        }
        match function {
            Some(f) => {
                let name = String::from_str(f);
                let mut j: usize = 0;
                while j < self.function_samples.len() && !self.function_samples[j].0.eq(&name)
                    invariant
                        j <= self.function_samples@.len(),
                        name@ == f@,
                        self.function_samples@ == old(self).function_samples@,
                        forall|m: int| 0 <= m < j ==> self.function_samples@[m].0@ != f@,
                    decreases self.function_samples@.len() - j,
                {
                    j = j + 1;
                }
                let ghost fs0 = self.function_samples@;
                if j < self.function_samples.len() {
                    let (entry_name, c) = self.function_samples.remove(j);
                    assert(entry_name@ == f@);
                    self.function_samples.insert(j, (entry_name, c + 1));
                    proof {
                        fs0.remove(j as int).insert_ensures(j as int, (entry_name, (c + 1) as u64));
                        assert(self.function_samples@ =~= fs0.update(j as int, (fs0[j as int].0, (fs0[j as int].1 + 1) as u64)));
                        assert forall|a: int, b: int| 0 <= a < b < self.function_samples@.len() implies self.function_samples@[a].0@ != self.function_samples@[b].0@ by {
                            if a != j && b != j {
                                assert(self.function_samples@[a].0 == fs0[a].0);
                                assert(self.function_samples@[b].0 == fs0[b].0);
                            } else if a == j {
                                assert(self.function_samples@[b].0 == fs0[b].0);
                            } else {
                                assert(self.function_samples@[a].0 == fs0[a].0);
                            }
                        }
                        assert(self.function_samples@[j as int].0@ == f@);
                    }
                } else {
                    self.function_samples.push((name, 1));
                    assert(self.function_samples@[fs0.len() as int].0@ == f@);
                    assert(self.function_samples@.drop_last() =~= fs0);
                }
            },
            None => {},
        }
    }

    /// The pc counts, most samples first.
    pub fn get_histogram(&self) -> (r: Vec<(u32, u64)>)
        ensures
            exists|order: Seq<usize>| is_desc_order(counts(self.samples@), order) && r@ == reordered(self.samples@, order),
    {
        let mut keys: Vec<u64> = Vec::new();
        let mut i: usize = 0;
        while i < self.samples.len()
            invariant
                i <= self.samples@.len(),
                keys@ == counts(self.samples@).take(i as int),
            decreases self.samples@.len() - i,
        {
            keys.push(self.samples[i].1);
            i = i + 1;
            assert(keys@ =~= counts(self.samples@).take(i as int));
        }
        assert(keys@ =~= counts(self.samples@));
        let order = order_by_key_desc(&keys);
        let mut histogram: Vec<(u32, u64)> = Vec::new();
        let mut j: usize = 0;
        while j < order.len()
            invariant
                is_desc_order(keys@, order@),
                keys@ == counts(self.samples@),
                j <= order@.len(),
                histogram@ == reordered(self.samples@, order@).take(j as int),
            decreases order@.len() - j,
        {
            histogram.push(self.samples[order[j]]);
            j = j + 1;
            assert(histogram@ =~= reordered(self.samples@, order@).take(j as int));
        }
        assert(histogram@ =~= reordered(self.samples@, order@));
        histogram
    }
}

/// What the profiler reports.
pub struct ProfilingReport {
    pub top_functions: Vec<FunctionSummary>,
    pub call_graph: String,
    pub sampling_histogram: Vec<(u32, u64)>,
}

/// The profiler.
pub struct PerformanceProfiler {
    /// One timing per function name.
    pub function_timings: Vec<FunctionTiming>,
    pub call_graph: CallGraph,
    pub sampling_profiler: SamplingProfiler,
}

/// `k` is the first position of a timing named `name`.
pub open spec fn is_first_timing(v: Seq<FunctionTiming>, name: Seq<char>, k: int) -> bool {
    &&& 0 <= k < v.len()
    &&& v[k].name@ == name
    &&& forall|j: int| 0 <= j < k ==> (#[trigger] v[j]).name@ != name
}

/// A timing with a call running since `now`.
pub open spec fn timing_entered(t: FunctionTiming, now: u64) -> FunctionTiming {
    FunctionTiming { current_start: Some(now), ..t }
}

/// A timing after its running call, if any, ends at `now`: the call is counted, its
/// time added to the total and to the minimum and maximum, and the start cleared.
pub open spec fn timing_exited(t: FunctionTiming, now: u64) -> FunctionTiming {
    match t.current_start {
        None => t,
        Some(start) => {
            let d: u64 = if now >= start { (now - start) as u64 } else { 0 };
            FunctionTiming {
                call_count: (t.call_count + 1) as u64,
                total_time: (t.total_time + d) as u64,
                min_time: if d < t.min_time { d } else { t.min_time },
                max_time: if d > t.max_time { d } else { t.max_time },
                current_start: None,
                ..t
            }
        },
    }
}

fn find_timing(v: &Vec<FunctionTiming>, name: &str) -> (r: Option<usize>)
    ensures
        r matches Some(i) ==> is_first_timing(v@, name@, i as int),
        r is None ==> forall|k: int| 0 <= k < v@.len() ==> v@[k].name@ != name@,
{
    let target = String::from_str(name);
    let mut i: usize = 0;
    while i < v.len()
        invariant
            i <= v@.len(),
            target@ == name@,
            forall|k: int| 0 <= k < i ==> v@[k].name@ != name@,
        decreases v@.len() - i,
    {
        if v[i].name.eq(&target) {
            return Some(i);
        }
        i = i + 1;
    }
    None
}

/// Whether no pc occurs twice in a list of (pc, count) entries.
pub open spec fn unique_pcs(s: Seq<(u32, u64)>) -> bool {
    forall|i: int, j: int| 0 <= i < j < s.len() ==> s[i].0 != s[j].0
}

/// The count of samples at `pc` in a list of (pc, count) entries; 0 if it has none.
pub open spec fn pc_count(s: Seq<(u32, u64)>, pc: u32) -> int {
    if exists|k: int| 0 <= k < s.len() && s[k].0 == pc {
        s[choose|k: int| 0 <= k < s.len() && s[k].0 == pc].1 as int
    } else {
        0
    }
}

proof fn lemma_pc_count_at(s: Seq<(u32, u64)>, k: int)
    requires
        unique_pcs(s),
        0 <= k < s.len(),
    ensures
        pc_count(s, s[k].0) == s[k].1 as int,
{
    let pc = s[k].0;
    let c = choose|c: int| 0 <= c < s.len() && s[c].0 == pc;
    if c != k {
        if c < k {
            assert(s[c].0 != s[k].0);
        } else {
            assert(s[k].0 != s[c].0);
        }
    }
}

proof fn lemma_pc_count_absent(s: Seq<(u32, u64)>, pc: u32)
    requires
        forall|k: int| 0 <= k < s.len() ==> s[k].0 != pc,
    ensures
        pc_count(s, pc) == 0,
{
}

/// One more sample at `pc` raises its count by one and leaves the count of every
/// other pc as it was.
pub proof fn lemma_sample_counts(before: Seq<(u32, u64)>, after: Seq<(u32, u64)>, pc: u32, other: u32)
    requires
        unique_pcs(before),
        unique_pcs(after),
        forall|i: int| 0 <= i < before.len() ==> (#[trigger] before[i]).1 < u64::MAX,
        SamplingProfiler::counted_at_pc(before, after, pc),
    ensures
        pc_count(after, pc) == pc_count(before, pc) + 1,
        other != pc ==> pc_count(after, other) == pc_count(before, other),
{
    if exists|k: int| 0 <= k < before.len() && (#[trigger] before[k]).0 == pc {
        let k = choose|k: int|
            0 <= k < before.len() && (#[trigger] before[k]).0 == pc
            && after == before.update(k, (pc, (before[k].1 + 1) as u64));
        lemma_pc_count_at(before, k);
        lemma_pc_count_at(after, k);
        if other != pc {
            if exists|j: int| 0 <= j < before.len() && before[j].0 == other {
                let j = choose|j: int| 0 <= j < before.len() && before[j].0 == other;
                assert(j != k);
                lemma_pc_count_at(before, j);
                lemma_pc_count_at(after, j);
            } else {
                assert forall|j: int| 0 <= j < after.len() implies after[j].0 != other by {
                    if j != k {
                        assert(after[j] == before[j]);
                    }
                }
            }
        }
    } else {
        assert(after == before.push((pc, 1u64)));
        lemma_pc_count_absent(before, pc);
        lemma_pc_count_at(after, before.len() as int);
        if other != pc {
            if exists|j: int| 0 <= j < before.len() && before[j].0 == other {
                let j = choose|j: int| 0 <= j < before.len() && before[j].0 == other;
                lemma_pc_count_at(before, j);
                lemma_pc_count_at(after, j);
            } else {
                assert forall|j: int| 0 <= j < after.len() implies after[j].0 != other by {
                    if j < before.len() {
                        assert(after[j] == before[j]);
                    }
                }
            }
        }
    }
}

/// An order that lists every position once reaches each of them.
proof fn lemma_order_covers(keys: Seq<u64>, order: Seq<usize>, k: int)
    requires
        is_desc_order(keys, order),
        0 <= k < keys.len(),
    ensures
        exists|i: int| 0 <= i < order.len() && order[i] as int == k,
{
    let ints = order.map_values(|i: usize| i as int);
    assert(ints.no_duplicates()) by {
        assert forall|a: int, b: int| 0 <= a < ints.len() && 0 <= b < ints.len() && a != b implies ints[a] != ints[b] by {
            if a < b {
                assert(order[a] != order[b]);
            } else {
                assert(order[b] != order[a]);
            }
        }
    }
    ints.unique_seq_to_set();
    vstd::set_lib::lemma_int_range(0, keys.len() as int);
    let range = vstd::set_lib::set_int_range(0, keys.len() as int);
    assert(ints.to_set().subset_of(range)) by {
        assert forall|x: int| ints.to_set().contains(x) implies range.contains(x) by {
            let i = choose|i: int| 0 <= i < ints.len() && ints[i] == x;
            assert(ints[i] == order[i] as int);
        }
    }
    vstd::set_lib::lemma_len_subset(ints.to_set(), range);
    vstd::set_lib::lemma_subset_equality(ints.to_set(), range);
    assert(range.contains(k));
    assert(ints.to_set().contains(k));
    let i = choose|i: int| 0 <= i < ints.len() && ints[i] == k;
    assert(order[i] as int == k);
}

/// A histogram, the samples in order of their counts, holds the same count for every pc
/// as the samples do.
pub proof fn lemma_histogram_counts(s: Seq<(u32, u64)>, order: Seq<usize>, pc: u32)
    requires
        unique_pcs(s),
        is_desc_order(counts(s), order),
    ensures
        pc_count(reordered(s, order), pc) == pc_count(s, pc),
{
    let r = reordered(s, order);
    assert(unique_pcs(r)) by {
        assert forall|i: int, j: int| 0 <= i < j < r.len() implies r[i].0 != r[j].0 by {
            let a = order[i] as int;
            let b = order[j] as int;
            assert(a != b);
            if a < b {
                assert(s[a].0 != s[b].0);
            } else {
                assert(s[b].0 != s[a].0);
            }
        }
    }
    if exists|k: int| 0 <= k < s.len() && s[k].0 == pc {
        let k = choose|k: int| 0 <= k < s.len() && s[k].0 == pc;
        lemma_order_covers(counts(s), order, k);
        let i = choose|i: int| 0 <= i < order.len() && order[i] as int == k;
        assert(r[i] == s[k]);
        lemma_pc_count_at(s, k);
        lemma_pc_count_at(r, i);
    } else {
        assert forall|i: int| 0 <= i < r.len() implies r[i].0 != pc by {
            assert(r[i] == s[order[i] as int]);
        }
    }
}

/// After one more sample at `pc`, the sample histogram shows one more at `pc` and the
/// same count at every other pc.
pub proof fn lemma_sample_shows_in_histogram(
    before: Seq<(u32, u64)>,
    after: Seq<(u32, u64)>,
    pc: u32,
    other: u32,
    order_before: Seq<usize>,
    order_after: Seq<usize>,
)
    requires
        unique_pcs(before),
        unique_pcs(after),
        forall|i: int| 0 <= i < before.len() ==> (#[trigger] before[i]).1 < u64::MAX,
        SamplingProfiler::counted_at_pc(before, after, pc),
        is_desc_order(counts(before), order_before),
        is_desc_order(counts(after), order_after),
    ensures
        pc_count(reordered(after, order_after), pc) == pc_count(reordered(before, order_before), pc) + 1,
        other != pc ==> pc_count(reordered(after, order_after), other) == pc_count(reordered(before, order_before), other),
{
    lemma_sample_counts(before, after, pc, other);
    lemma_histogram_counts(before, order_before, pc);
    lemma_histogram_counts(after, order_after, pc);
    lemma_histogram_counts(before, order_before, other);
    lemma_histogram_counts(after, order_after, other);
}

/// A counted call leaves a timing's shortest time at most its longest.
pub proof fn lemma_exit_orders_extremes(t: FunctionTiming, now: u64)
    requires
        t.current_start is Some,
    ensures
        timing_exited(t, now).min_time <= timing_exited(t, now).max_time,
{
}

/// The total times of a list of timings.
pub open spec fn totals(v: Seq<FunctionTiming>) -> Seq<u64> {
    v.map_values(|t: FunctionTiming| t.total_time)
}

impl PerformanceProfiler {
    /// Nothing profiled; sampling at 1000 Hz.
    pub fn new() -> (r: Self)
        ensures
            r.function_timings@.len() == 0,
            r.sampling_profiler.sample_rate == 1000,
            r.sampling_profiler.samples@.len() == 0,
            r.call_graph.stack@.len() == 0,
    {
        PerformanceProfiler {
            function_timings: Vec::new(),
            call_graph: CallGraph::new(),
            sampling_profiler: SamplingProfiler::new(1000),
        }
    }

    /// A call of `name` starts at `now`.
    pub fn enter_function(&mut self, name: &str, now: u64)
        ensures
            exists|k: int| 0 <= k < final(self).function_timings@.len()
                && final(self).function_timings@[k].name@ == name@
                && final(self).function_timings@[k].current_start == Some(now),
            (exists|k: int| is_first_timing(old(self).function_timings@, name@, k)) ==> exists|k: int|
                #[trigger] is_first_timing(old(self).function_timings@, name@, k)
                && final(self).function_timings@ == old(self).function_timings@.update(k, timing_entered(old(self).function_timings@[k], now)),
            (forall|k: int| 0 <= k < old(self).function_timings@.len() ==> (#[trigger] old(self).function_timings@[k]).name@ != name@) ==> {
                let t = final(self).function_timings@.last();
                &&& final(self).function_timings@.len() == old(self).function_timings@.len() + 1
                &&& final(self).function_timings@.drop_last() == old(self).function_timings@
                &&& t.name@ == name@ && t.call_count == 0 && t.total_time == 0
                &&& t.min_time == u64::MAX && t.max_time == 0 && t.current_start == Some(now)
            },
            names(final(self).call_graph.stack@) == names(old(self).call_graph.stack@).push(name@),
            name_pairs(final(self).call_graph.edges@) == (if old(self).call_graph.stack@.len() > 0 {
                name_pairs(old(self).call_graph.edges@).push((old(self).call_graph.stack@.last()@, name@))
            } else {
                name_pairs(old(self).call_graph.edges@)
            }),
            names(final(self).call_graph.nodes@) == (if names(old(self).call_graph.nodes@).contains(name@) {
                names(old(self).call_graph.nodes@)
            } else {
                names(old(self).call_graph.nodes@).push(name@)
            }),
            names(final(self).call_graph.nodes@).contains(name@),
            names(old(self).call_graph.nodes@).no_duplicates() ==> names(final(self).call_graph.nodes@).no_duplicates(),
            final(self).sampling_profiler == old(self).sampling_profiler,
    {
        let ghost before = self.function_timings@;
        let idx = match find_timing(&self.function_timings, name) {
            Some(i) => i,
            None => {
                self.function_timings.push(FunctionTiming::new(name));
                self.function_timings.len() - 1
            },
        };
        assert(self.function_timings@[idx as int].name@ == name@);
        let ghost v0 = self.function_timings@;
        let mut t = self.function_timings.remove(idx);
        t.enter(now);
        self.function_timings.insert(idx, t);
        proof {
            v0.remove(idx as int).insert_ensures(idx as int, t);
            assert(self.function_timings@ =~= v0.update(idx as int, timing_entered(v0[idx as int], now)));
            if idx < before.len() {
                assert(v0 == before);
                assert(is_first_timing(before, name@, idx as int));
            } else {
                assert(self.function_timings@.drop_last() =~= before);
            }
        }
        let ghost n0 = names(self.call_graph.nodes@);
        self.call_graph.enter(name);
        proof {
            let n1 = names(self.call_graph.nodes@);
            if !n0.contains(name@) {
                assert(n1[n0.len() as int] == name@);
                assert(n1.contains(name@));
                if n0.no_duplicates() {
                    assert forall|i: int, j: int| 0 <= i < n1.len() && 0 <= j < n1.len() && i != j implies n1[i] != n1[j] by {
                        if i < n0.len() && j < n0.len() {
                            assert(n1[i] == n0[i] && n1[j] == n0[j]);
                        } else if i < n0.len() {
                            assert(n1[i] == n0[i]);
                        } else if j < n0.len() {
                            assert(n1[j] == n0[j]);
                        }
                    }
                }
            }
        }
        assert(0 <= idx < self.function_timings@.len() && self.function_timings@[idx as int].name@ == name@
            && self.function_timings@[idx as int].current_start == Some(now));
    }

    /// The running call of `name`, if timed, ends at `now`.
    pub fn exit_function(&mut self, name: &str, now: u64)
        requires
            forall|k: int| 0 <= k < old(self).function_timings@.len() && (#[trigger] old(self).function_timings@[k]).name@ == name@
                ==> (old(self).function_timings@[k].current_start matches Some(start) ==> {
                    let d = if now >= start { now - start } else { 0 };
                    &&& old(self).function_timings@[k].total_time + d <= u64::MAX
                    &&& old(self).function_timings@[k].call_count < u64::MAX
                }),
        ensures
            (exists|k: int| is_first_timing(old(self).function_timings@, name@, k)) ==> exists|k: int|
                #[trigger] is_first_timing(old(self).function_timings@, name@, k)
                && final(self).function_timings@ == old(self).function_timings@.update(k, timing_exited(old(self).function_timings@[k], now)),
            (forall|k: int| 0 <= k < old(self).function_timings@.len() ==> (#[trigger] old(self).function_timings@[k]).name@ != name@)
                ==> final(self).function_timings@ == old(self).function_timings@,
            final(self).function_timings@.len() == old(self).function_timings@.len(),
            final(self).call_graph.nodes == old(self).call_graph.nodes,
            final(self).call_graph.edges == old(self).call_graph.edges,
            final(self).call_graph.stack@ == (if old(self).call_graph.stack@.len() > 0 {
                old(self).call_graph.stack@.drop_last()
            } else {
                old(self).call_graph.stack@
            }),
            final(self).sampling_profiler == old(self).sampling_profiler,
    {
        match find_timing(&self.function_timings, name) {
            Some(idx) => {
                let ghost v0 = self.function_timings@;
                let mut t = self.function_timings.remove(idx);
                t.exit(now);
                self.function_timings.insert(idx, t);
                proof {
                    v0.remove(idx as int).insert_ensures(idx as int, t);
                    assert(self.function_timings@ =~= v0.update(idx as int, timing_exited(v0[idx as int], now)));
                }
            },
            None => {},
        }
        self.call_graph.exit();
    }

    /// Count a sample.
    pub fn sample(&mut self, pc: u32, function: Option<&str>)
        requires
            old(self).sampling_profiler.wf(),
            forall|i: int| 0 <= i < old(self).sampling_profiler.samples@.len() ==> (#[trigger] old(self).sampling_profiler.samples@[i]).1 < u64::MAX,
            forall|i: int| 0 <= i < old(self).sampling_profiler.function_samples@.len() ==> (#[trigger] old(self).sampling_profiler.function_samples@[i]).1 < u64::MAX,
        ensures
            final(self).sampling_profiler.wf(),
            final(self).sampling_profiler.sample_rate == old(self).sampling_profiler.sample_rate,
            SamplingProfiler::counted_at_pc(old(self).sampling_profiler.samples@, final(self).sampling_profiler.samples@, pc),
            function is None ==> final(self).sampling_profiler.function_samples == old(self).sampling_profiler.function_samples,
            function matches Some(f) ==> SamplingProfiler::counted_in_function(
                old(self).sampling_profiler.function_samples@,
                final(self).sampling_profiler.function_samples@,
                f@,
            ),
            final(self).function_timings == old(self).function_timings,
            final(self).call_graph == old(self).call_graph,
    {
        self.sampling_profiler.add_sample(pc, function);
    }

    /// The 20 functions with the most total time (ties in first-seen order), the call
    /// graph, and the sample histogram.
    pub fn generate_report(&self) -> (r: ProfilingReport)
        requires
            forall|k: int| 0 <= k < self.function_timings@.len() ==> ((#[trigger] self.function_timings@[k]).call_count > 0
                ==> self.function_timings@[k].call_count % 0x1_0000_0000 != 0),
        ensures
            exists|order: Seq<usize>| {
                &&& is_desc_order(totals(self.function_timings@), order)
                &&& r.top_functions@.len() == (if order.len() < 20 { order.len() } else { 20 })
                &&& forall|i: int| 0 <= i < r.top_functions@.len() ==> {
                    let t = self.function_timings@[order[i] as int];
                    &&& (#[trigger] r.top_functions@[i]).name@ == t.name@
                    &&& r.top_functions@[i].total_time == t.total_time
                    &&& r.top_functions@[i].call_count == t.call_count
                    &&& r.top_functions@[i].average_time == average_of(t.total_time, t.call_count)
                }
            },
            r.call_graph@ == "digraph CallGraph {\n"@ + dot_nodes(names(self.call_graph.nodes@)) + dot_edges(name_pairs(self.call_graph.edges@)) + "}\n"@,
            exists|order: Seq<usize>| is_desc_order(counts(self.sampling_profiler.samples@), order)
                && r.sampling_histogram@ == reordered(self.sampling_profiler.samples@, order),
    {
        let mut keys: Vec<u64> = Vec::new();
        let mut i: usize = 0;
        while i < self.function_timings.len()
            invariant
                i <= self.function_timings@.len(),
                keys@ == totals(self.function_timings@).take(i as int),
            decreases self.function_timings@.len() - i,
        {
            keys.push(self.function_timings[i].total_time);
            i = i + 1;
            assert(keys@ =~= totals(self.function_timings@).take(i as int));
        }
        assert(keys@ =~= totals(self.function_timings@));
        let order = order_by_key_desc(&keys);
        let m = if order.len() < 20 { order.len() } else { 20 };
        let mut top: Vec<FunctionSummary> = Vec::new();
        let mut j: usize = 0;
        while j < m
            invariant
                forall|k: int| 0 <= k < self.function_timings@.len() ==> ((#[trigger] self.function_timings@[k]).call_count > 0
                    ==> self.function_timings@[k].call_count % 0x1_0000_0000 != 0),
                is_desc_order(keys@, order@),
                keys@ == totals(self.function_timings@),
                m <= order@.len(),
                j <= m,
                top@.len() == j,
                forall|q: int| 0 <= q < j ==> {
                    let t = self.function_timings@[order@[q] as int];
                    &&& (#[trigger] top@[q]).name@ == t.name@
                    &&& top@[q].total_time == t.total_time
                    &&& top@[q].call_count == t.call_count
                    &&& top@[q].average_time == average_of(t.total_time, t.call_count)
                },
            decreases m - j,
        {
            let t = &self.function_timings[order[j]];
            top.push(t.to_summary());
            j = j + 1;
        }
        ProfilingReport {
            top_functions: top,
            call_graph: self.call_graph.to_dot(),
            sampling_histogram: self.sampling_profiler.get_histogram(),
        }
    }
}

} // verus!
