use vstd::prelude::*;

verus! {

/// What the plan shows under the pointer: the details of one task, or the
/// pointer's position together with the background zones it lies in.
#[derive(Clone, Debug, PartialEq, Eq)]
pub enum Tooltip {
    Task(usize),
    Position { zones: Vec<usize> },
}

/// `zones` lists, in increasing order, exactly the indices at which `hits` holds.
pub open spec fn lists_hits(zones: Seq<usize>, hits: Seq<bool>) -> bool {
    &&& forall|i: int, j: int| 0 <= i < j < zones.len() ==> zones[i] < zones[j]
    &&& forall|i: int| 0 <= i < zones.len() ==> zones[i] < hits.len() && hits[zones[i] as int]
    &&& forall|k: int| 0 <= k < hits.len() && #[trigger] hits[k] ==> zones.contains(k as usize)
}

/// Chooses the tooltip from what lies under the pointer: `task_hits[i]`
/// tells whether the `i`-th task holds the pointer, `zone_hits[j]` whether
/// the `j`-th background zone does.  The first task that holds it wins;
/// when none does, the tooltip gives the position and every zone holding it.
pub fn choose_tooltip(task_hits: &Vec<bool>, zone_hits: &Vec<bool>) -> (t: Tooltip)
    ensures
        match t {
            Tooltip::Task(i) => {
                &&& i < task_hits@.len()
                &&& task_hits@[i as int]
                &&& forall|j: int| 0 <= j < i ==> !task_hits@[j]
            },
            Tooltip::Position { zones } => {
                &&& forall|j: int| 0 <= j < task_hits@.len() ==> !task_hits@[j]
                &&& lists_hits(zones@, zone_hits@)
            },
        },
{
    let n = task_hits.len();
    for i in 0..n
        invariant
            n == task_hits@.len(),
            forall|j: int| 0 <= j < i ==> !task_hits@[j],
    {
        if task_hits[i] {
            return Tooltip::Task(i);
        }
    }
    let m = zone_hits.len();
    let mut zones: Vec<usize> = Vec::new();
    for k in 0..m
        invariant
            m == zone_hits@.len(),
            forall|i: int, j: int| 0 <= i < j < zones@.len() ==> zones@[i] < zones@[j],
            forall|i: int| 0 <= i < zones@.len() ==> zones@[i] < k && zone_hits@[zones@[i] as int],
            forall|q: int| 0 <= q < k && #[trigger] zone_hits@[q] ==> zones@.contains(q as usize),
    {
        if zone_hits[k] {
            let ghost before = zones@;
            zones.push(k);
            assert(zones@[before.len() as int] == k);
            assert forall|q: int| 0 <= q < k + 1 && #[trigger] zone_hits@[q] implies zones@.contains(
                q as usize,
            ) by {
                if q < k {
                    let w = choose|w: int| 0 <= w < before.len() && before[w] == q as usize;
                    assert(zones@[w] == q as usize);
                } else {
                    assert(zones@[before.len() as int] == q as usize);
                }
            }
        }
    }
    Tooltip::Position { zones }
}

} // verus!
