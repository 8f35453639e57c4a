use vstd::prelude::*;

verus! {

/// One firmware request to start a core: the core to start, the address it
/// resumes at, and the word handed to it.
#[derive(Clone, Copy, Debug, PartialEq, Eq, Structural)]
pub struct WakeRequest {
    pub hart_id: usize,
    pub start_addr: usize,
    pub opaque: usize,
}

/// Number of wake requests for cores `[0, core_count)` other than `boot_id`.
pub open spec fn wake_count(boot_id: int, core_count: int) -> int {
    if 0 <= boot_id < core_count { core_count - 1 } else { core_count }
}

/// The core targeted by the `j`th wake request: ids are taken in increasing
/// order, stepping over `boot_id`.
pub open spec fn wake_id(boot_id: int, j: int) -> int {
    if j < boot_id { j } else { j + 1 }
}

/// The wake requests the bootstrap core `boot_id` issues, in order: one for
/// each core id in `[0, core_count)` other than its own, each resuming at
/// `entry` and handed zero, never the descriptor pointer.
pub open spec fn wake_plan(boot_id: usize, core_count: usize, entry: usize) -> Seq<WakeRequest> {
    Seq::new(
        wake_count(boot_id as int, core_count as int) as nat,
        |j: int| WakeRequest { hart_id: wake_id(boot_id as int, j) as usize, start_addr: entry, opaque: 0 },
    )
}

/// Lists the wake requests of the bootstrap core `boot_id`. Core ids are
/// taken to be the dense range `[0, core_count)`.
pub fn wake_targets(boot_id: usize, core_count: usize, entry: usize) -> (r: Vec<WakeRequest>)
    ensures
        r@ == wake_plan(boot_id, core_count, entry),
        forall|j: int| 0 <= j < r@.len() ==> (#[trigger] r@[j]).hart_id != boot_id,
        forall|j: int| 0 <= j < r@.len() ==> (#[trigger] r@[j]).hart_id < core_count,
        forall|j: int| 0 <= j < r@.len() ==> (#[trigger] r@[j]).opaque == 0,
        boot_id < core_count ==> r@.len() == core_count - 1,
{
    let mut out: Vec<WakeRequest> = Vec::new();
    let mut h: usize = 0;
    while h < core_count
        invariant
            h <= core_count,
            out@.len() == if boot_id < h { h - 1 } else { h as int },
            forall|j: int| 0 <= j < out@.len() ==> (#[trigger] out@[j]) == (WakeRequest {
                hart_id: wake_id(boot_id as int, j) as usize,
                start_addr: entry,
                opaque: 0,
            }),
        decreases core_count - h,
    {
        if h != boot_id {
            out.push(WakeRequest { hart_id: h, start_addr: entry, opaque: 0 });
        }
        h = h + 1;
    }
    assert(out@ =~= wake_plan(boot_id, core_count, entry));
    out
}

/// Some request of `plan` targets core `h`.
pub open spec fn targets(plan: Seq<WakeRequest>, h: int) -> bool {
    exists|j: int| 0 <= j < plan.len() && (#[trigger] plan[j]).hart_id == h
}

/// No wake request of the bootstrap core targets the bootstrap core itself.
pub proof fn lemma_wake_plan_skips_boot_core(boot_id: usize, core_count: usize, entry: usize)
    ensures
        forall|j: int|
            0 <= j < wake_plan(boot_id, core_count, entry).len()
                ==> (#[trigger] wake_plan(boot_id, core_count, entry)[j]).hart_id != boot_id,
{
}

/// A bootstrap core among `[0, core_count)` issues exactly `core_count - 1`
/// wake requests, one for each other core.
pub proof fn lemma_wake_plan_size(boot_id: usize, core_count: usize, entry: usize)
    requires
        boot_id < core_count,
    ensures
        wake_plan(boot_id, core_count, entry).len() == core_count - 1,
        forall|h: int|
            0 <= h < core_count && h != boot_id ==> #[trigger] targets(wake_plan(boot_id, core_count, entry), h),
{
    assert forall|h: int| 0 <= h < core_count && h != boot_id implies #[trigger] targets(
        wake_plan(boot_id, core_count, entry),
        h,
    ) by {
        let j = if h < boot_id { h } else { h - 1 };
        assert(wake_plan(boot_id, core_count, entry)[j].hart_id == h);
    }
}

} // verus!
