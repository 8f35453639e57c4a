use vstd::prelude::*;
use crate::descriptor::{Descriptor, DescriptorError, DescriptorStore, Topology, resolves_to};
use crate::election::{BootFlag, Role};
use crate::launcher::{WakeRequest, wake_plan, wake_targets};
use crate::text::{
    boot_core_line, core_count_line, decimal, hex_address, memory_start_line, model_line,
    secondary_start_line,
};

verus! {

/// What one core does after the boot-flag exchange: print `messages` in
/// order, then issue `wakes` in order; if `fatal` holds an error, abort with
/// it once the messages are out, and issue no wake request.
pub struct BootPlan {
    pub role: Role,
    pub messages: Vec<String>,
    pub wakes: Vec<WakeRequest>,
    pub fatal: Option<DescriptorError>,
}

impl BootPlan {
    pub open spec fn texts(self) -> Seq<Seq<char>> {
        self.messages@.map_values(|m: String| m@)
    }
}

/// The lines the bootstrap core `hart_id` prints before it reads the descriptor.
pub open spec fn banner(hart_id: usize) -> Seq<Seq<char>> {
    seq!["\n\n\n"@, "Hack the planet!\n"@, "Boot hart: "@ + decimal(hart_id as nat) + "\n\n"@]
}

/// The lines that report the descriptor `(model, core_count, memory_start)`.
pub open spec fn descriptor_report(d: (Seq<char>, usize, usize)) -> Seq<Seq<char>> {
    seq![
        "Device tree info:\n"@,
        "Model: "@ + d.0 + "\n"@,
        "No. CPUs: "@ + decimal(d.1 as nat) + "\n"@,
        "DRAM start: "@ + hex_address(d.2 as nat) + "\n"@,
        "\n"@,
    ]
}

/// The plan of a core that lost the exchange: one line, and nothing else.
pub fn secondary_plan(hart_id: usize) -> (r: BootPlan)
    ensures
        r.role == Role::Secondary,
        r.texts() == seq!["Hart "@ + decimal(hart_id as nat) + " starting...\n"@],
        r.wakes@.len() == 0,
        r.fatal is None,
{
    let mut messages: Vec<String> = Vec::new();
    messages.push(secondary_start_line(hart_id));
    let r = BootPlan { role: Role::Secondary, messages, wakes: Vec::new(), fatal: None };
    assert(r.texts() =~= seq!["Hart "@ + decimal(hart_id as nat) + " starting...\n"@]);
    r
}

/// The plan of the bootstrap core `hart_id`: it prints the banner, resolves
/// the descriptor through `store`, and on success prints what it found and
/// wakes every other core at `entry`. A descriptor error is fatal before any
/// wake request.
pub fn bootstrap_plan<F: FnOnce() -> Result<Topology, DescriptorError>>(
    store: &mut DescriptorStore,
    hart_id: usize,
    entry: usize,
    parse: F,
) -> (r: BootPlan)
    requires
        old(store).wf(),
        parse.requires(()),
    ensures
        final(store).wf(),
        final(store).parse_count() <= 1,
        old(store).cached() is Some ==> final(store).cached() == old(store).cached(),
        old(store).cached() is Some ==> final(store).parse_count() == old(store).parse_count(),
        r.role == Role::Bootstrap,
        final(store).cached() is Some,
        match final(store).cached().unwrap() {
            Ok(d) => {
                &&& r.fatal is None
                &&& r.texts() == banner(hart_id) + descriptor_report(d.view_tuple())
                &&& r.wakes@ == wake_plan(hart_id, d.core_count, entry)
            },
            Err(e) => {
                &&& r.fatal == Some(e)
                &&& r.texts() == banner(hart_id)
                &&& r.wakes@.len() == 0
            },
        },
        old(store).cached() is None ==> exists|p: Result<Topology, DescriptorError>|
            #[trigger] parse.ensures((), p) && resolves_to(p, final(store).cached().unwrap()),
{
    let mut messages: Vec<String> = Vec::new();
    messages.push(String::from_str("\n\n\n"));
    messages.push(String::from_str("Hack the planet!\n"));
    messages.push(boot_core_line(hart_id));
    proof {
        assert(messages@.map_values(|m: String| m@) =~= banner(hart_id));
    }
    let resolved = store.resolve(parse);
    match resolved {
        Ok(d) => {
            report_descriptor(&mut messages, &d);
            let wakes = wake_targets(hart_id, d.core_count, entry);
            let r = BootPlan { role: Role::Bootstrap, messages, wakes, fatal: None };
            proof {
                assert(r.texts() =~= banner(hart_id) + descriptor_report(d.view_tuple()));
            }
            r
        },
        Err(e) => {
            let r = BootPlan { role: Role::Bootstrap, messages, wakes: Vec::new(), fatal: Some(e) };
            r
        },
    }
}

/// Appends the lines that report `d`.
fn report_descriptor(messages: &mut Vec<String>, d: &Descriptor)
    ensures
        final(messages)@.map_values(|m: String| m@) == old(messages)@.map_values(|m: String| m@)
            + descriptor_report(d.view_tuple()),
{
    let ghost start = old(messages)@.map_values(|m: String| m@);
    messages.push(String::from_str("Device tree info:\n"));
    messages.push(model_line(d.model.as_str()));
    messages.push(core_count_line(d.core_count));
    messages.push(memory_start_line(d.memory_start));
    messages.push(String::from_str("\n"));
    assert(messages@.map_values(|m: String| m@) =~= start + descriptor_report(d.view_tuple()));
}

/// The work of core `hart_id` on entry: it takes part in the boot-flag
/// exchange, and the winner makes the bootstrap plan while every other core
/// makes the secondary plan. Only the bootstrap core touches `store`.
pub fn boot<F: FnOnce() -> Result<Topology, DescriptorError>>(
    flag: &BootFlag,
    store: &mut DescriptorStore,
    hart_id: usize,
    entry: usize,
    parse: F,
) -> (r: BootPlan)
    requires
        old(store).wf(),
        parse.requires(()),
    ensures
        final(store).wf(),
        final(store).parse_count() <= 1,
        r.role == Role::Secondary ==> {
            &&& *final(store) == *old(store)
            &&& r.texts() == seq!["Hart "@ + decimal(hart_id as nat) + " starting...\n"@]
            &&& r.wakes@.len() == 0
            &&& r.fatal is None
        },
        r.role == Role::Bootstrap ==> final(store).cached() is Some && match final(store).cached().unwrap() {
            Ok(d) => {
                &&& r.fatal is None
                &&& r.texts() == banner(hart_id) + descriptor_report(d.view_tuple())
                &&& r.wakes@ == wake_plan(hart_id, d.core_count, entry)
            },
            Err(e) => {
                &&& r.fatal == Some(e)
                &&& r.texts() == banner(hart_id)
                &&& r.wakes@.len() == 0
            },
        },
        r.role == Role::Bootstrap && old(store).cached() is None ==> exists|p: Result<Topology, DescriptorError>|
            #[trigger] parse.ensures((), p) && resolves_to(p, final(store).cached().unwrap()),
        r.role == Role::Bootstrap && old(store).cached() is Some ==> final(store).cached() == old(store).cached(),
{
    match flag.claim() {
        Role::Bootstrap => bootstrap_plan(store, hart_id, entry, parse),
        Role::Secondary => {
            proof {
                store.lemma_parse_at_most_once();
            }
            secondary_plan(hart_id)
        },
    }
}

} // verus!
