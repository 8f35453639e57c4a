use vstd::prelude::*;
use core::sync::atomic::{AtomicBool, Ordering};

verus! {

/// The part a core plays after the boot-flag exchange.
#[derive(Clone, Copy, Debug, PartialEq, Eq, Structural)]
pub enum Role {
    /// Won the exchange: performs the one-time bring-up.
    Bootstrap,
    /// Lost the exchange: skips the bring-up.
    Secondary,
}

/// The role that follows from the flag's value before an exchange.
pub open spec fn role_of_prior(prior: bool) -> Role {
    if prior { Role::Secondary } else { Role::Bootstrap }
}

/// The flag after one exchange from `false` to `true`: raised whatever it was.
pub open spec fn flag_after_exchange(flag: bool) -> bool {
    if !flag { true } else { flag }
}

/// The flag after `k` exchanges, the first made on a lowered flag.
pub open spec fn flag_after(k: nat) -> bool
    decreases k,
{
    if k == 0 { false } else { flag_after_exchange(flag_after((k - 1) as nat)) }
}

/// The roles of `n` cores, listed in the order in which their exchanges took
/// effect: the `i`th core sees the flag as the `i` earlier exchanges left it.
pub open spec fn roles_in_order(n: nat) -> Seq<Role> {
    Seq::new(n, |i: int| role_of_prior(flag_after(i as nat)))
}

/// How many of `roles` are `Bootstrap`.
pub open spec fn bootstrap_count(roles: Seq<Role>) -> nat
    decreases roles.len(),
{
    if roles.len() == 0 {
        0
    } else {
        bootstrap_count(roles.drop_last()) + if roles.last() == Role::Bootstrap { 1nat } else { 0nat }
    }
}

proof fn lemma_flag_raised_after_first(k: nat)
    requires
        k >= 1,
    ensures
        flag_after(k),
    decreases k,
{
    if k > 1 {
        lemma_flag_raised_after_first((k - 1) as nat);
    }
}

/// Whatever the number of cores and the order in which their exchanges land,
/// exactly one core sees the flag lowered and becomes the bootstrap core: the
/// first; every other core sees it raised and becomes a secondary core.
pub proof fn lemma_exactly_one_bootstrap(n: nat)
    requires
        n >= 1,
    ensures
        bootstrap_count(roles_in_order(n)) == 1,
        roles_in_order(n)[0] == Role::Bootstrap,
        forall|i: int| 1 <= i < n ==> #[trigger] roles_in_order(n)[i] == Role::Secondary,
    decreases n,
{
    assert forall|i: int| 1 <= i < n implies #[trigger] roles_in_order(n)[i] == Role::Secondary by {
        lemma_flag_raised_after_first(i as nat);
    }
    if n == 1 {
        assert(roles_in_order(1).drop_last() =~= Seq::<Role>::empty());
        assert(bootstrap_count(Seq::<Role>::empty()) == 0);
        assert(roles_in_order(1).last() == Role::Bootstrap);
    } else {
        assert(roles_in_order(n).last() == Role::Secondary);
        lemma_exactly_one_bootstrap((n - 1) as nat);
        assert(roles_in_order(n).drop_last() =~= roles_in_order((n - 1) as nat));
    }
}

/// The role that an exchange's outcome gives: `Ok` carries the prior value
/// `false`, `Err` the value `true` that made the exchange fail.
pub fn role_from_exchange(outcome: Result<bool, bool>) -> (r: Role)
    ensures
        r == match outcome {
            Ok(prior) => role_of_prior(prior),
            Err(current) => role_of_prior(current),
        },
{
    match outcome {
        Ok(prior) => if prior { Role::Secondary } else { Role::Bootstrap },
        Err(current) => if current { Role::Secondary } else { Role::Bootstrap },
    }
}

/// The process-wide flag that elects the bootstrap core. It starts lowered
/// and is raised by the first exchange.
pub struct BootFlag {
    raised: AtomicBool,
}

impl BootFlag {
    pub fn new() -> (r: BootFlag) {
        BootFlag { raised: AtomicBool::new(false) }
    }

    /// Raises the flag if it is lowered, in one sequentially consistent
    /// exchange, and returns the role that the flag's prior value gives.
    pub fn claim(&self) -> (r: Role) {
        let outcome = self.raised.compare_exchange(false, true, Ordering::SeqCst, Ordering::SeqCst);
        role_from_exchange(outcome)
    }
}

} // verus!
