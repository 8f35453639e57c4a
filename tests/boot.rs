use smp_boot::coordinator::{boot, bootstrap_plan, secondary_plan};
use smp_boot::descriptor::{DescriptorError, DescriptorStore, Topology, descriptor_of};
use smp_boot::election::{role_from_exchange, BootFlag, Role};
use smp_boot::launcher::{wake_targets, WakeRequest};
use smp_boot::stack::{stack_top, HartRecord, MAX_CORES, STACK_ALIGN, STACK_SIZE};
use smp_boot::text::{
    boot_core_line, console_frame, core_count_line, fault_report, memory_start_line, model_line,
    secondary_start_line, start_failure_message, CONSOLE_CAPACITY,
};
use std::cell::Cell;

const ENTRY: usize = 0x8020_0000;

fn topology(model: &str, cores: usize, memory: Option<usize>) -> Topology {
    Topology { model: model.to_string(), core_count: cores, first_memory_start: memory }
}

fn ids(plan: &[WakeRequest]) -> Vec<usize> {
    plan.iter().map(|w| w.hart_id).collect()
}

#[test]
fn stack_top_is_one_slice_past_the_core_index() {
    let base = 0x8000_0000usize;
    assert_eq!(stack_top(base, 0), base + STACK_SIZE);
    assert_eq!(stack_top(base, 1), base + 2 * STACK_SIZE);
    assert_eq!(stack_top(base, 2), base + 3 * 65536);
}

#[test]
fn stack_slices_are_disjoint_and_aligned() {
    let base = 0x8000_1000usize;
    for a in 0..MAX_CORES {
        let ra = HartRecord::new(base, a);
        assert_eq!(ra.hart_id, a);
        assert_eq!(ra.stack_top % STACK_ALIGN, 0);
        assert_eq!(ra.slice_end - ra.stack_top, STACK_SIZE);
        for b in 0..MAX_CORES {
            if a != b {
                let rb = HartRecord::new(base, b);
                assert!(ra.slice_end <= rb.stack_top || rb.slice_end <= ra.stack_top);
            }
        }
    }
}

#[test]
fn first_claim_wins_and_later_claims_lose() {
    let flag = BootFlag::new();
    assert_eq!(flag.claim(), Role::Bootstrap);
    for _ in 0..5 {
        assert_eq!(flag.claim(), Role::Secondary);
    }
}

#[test]
fn exchange_outcomes_map_to_roles() {
    assert_eq!(role_from_exchange(Ok(false)), Role::Bootstrap);
    assert_eq!(role_from_exchange(Err(true)), Role::Secondary);
}

#[test]
fn resolve_parses_once_whatever_the_later_parser() {
    let calls = Cell::new(0u32);
    let mut store = DescriptorStore::new();
    let first = store.resolve(|| {
        calls.set(calls.get() + 1);
        Ok(topology("riscv-virtio,qemu", 4, Some(0x8000_0000)))
    });
    let d = first.unwrap();
    assert_eq!(d.model, "riscv-virtio,qemu");
    assert_eq!(d.core_count, 4);
    assert_eq!(d.memory_start, 0x8000_0000);
    for _ in 0..3 {
        let again = store.resolve(|| {
            calls.set(calls.get() + 1);
            Ok(topology("other", 9, Some(0x1000)))
        });
        let a = again.unwrap();
        assert_eq!(a.model, "riscv-virtio,qemu");
        assert_eq!(a.core_count, 4);
    }
    assert_eq!(calls.get(), 1);
}

#[test]
fn resolve_caches_a_failed_parse() {
    let calls = Cell::new(0u32);
    let mut store = DescriptorStore::new();
    let r = store.resolve(|| {
        calls.set(calls.get() + 1);
        Err(DescriptorError::Parse)
    });
    assert_eq!(r.unwrap_err(), DescriptorError::Parse);
    let r2 = store.resolve(|| {
        calls.set(calls.get() + 1);
        Ok(topology("m", 1, Some(0)))
    });
    assert_eq!(r2.unwrap_err(), DescriptorError::Parse);
    assert_eq!(calls.get(), 1);
}

#[test]
fn descriptor_without_memory_is_a_topology_error() {
    let r = descriptor_of(topology("m", 2, None));
    assert_eq!(r.unwrap_err(), DescriptorError::NoMemoryRegion);
    assert_eq!(DescriptorError::NoMemoryRegion.message(), "Unable to locate DRAM start");
    assert_eq!(DescriptorError::Parse.message(), "Unable to parse device tree");
}

#[test]
fn wake_three_cores_from_core_zero() {
    let plan = wake_targets(0, 3, ENTRY);
    assert_eq!(ids(&plan), vec![1, 2]);
    for w in &plan {
        assert_eq!(w.opaque, 0);
        assert_eq!(w.start_addr, ENTRY);
    }
}

#[test]
fn wake_skips_a_middle_boot_core() {
    let plan = wake_targets(2, 5, ENTRY);
    assert_eq!(ids(&plan), vec![0, 1, 3, 4]);
    assert_eq!(plan.len(), 5 - 1);
}

#[test]
fn wake_with_boot_core_outside_range_targets_all() {
    assert_eq!(ids(&wake_targets(7, 3, ENTRY)), vec![0, 1, 2]);
    assert!(wake_targets(0, 1, ENTRY).is_empty());
    assert!(wake_targets(0, 0, ENTRY).is_empty());
}

#[test]
fn console_frame_truncates_long_text() {
    let text = vec![b'x'; 300];
    let framed = console_frame(&text);
    assert_eq!(framed.len(), CONSOLE_CAPACITY);
    assert_eq!(framed.len(), 255);
    assert_eq!(&framed[..], &text[..255]);
}

#[test]
fn console_frame_keeps_short_text() {
    assert_eq!(console_frame(b"hello\n"), b"hello\n".to_vec());
    assert!(console_frame(b"").is_empty());
    let exact = vec![7u8; 255];
    assert_eq!(console_frame(&exact), exact);
}

#[test]
fn fault_without_location_reports_unknown() {
    assert_eq!(fault_report("boom", None), "boom in {unknown} at line 0\n");
}

#[test]
fn fault_with_location_reports_file_and_line() {
    assert_eq!(fault_report("Failed to start hart 2", Some(("src/main.rs", 117))), "Failed to start hart 2 in src/main.rs at line 117\n");
}

#[test]
fn message_lines_render_numbers() {
    assert_eq!(boot_core_line(0), "Boot hart: 0\n\n");
    assert_eq!(secondary_start_line(12), "Hart 12 starting...\n");
    assert_eq!(model_line("riscv-virtio,qemu"), "Model: riscv-virtio,qemu\n");
    assert_eq!(core_count_line(305), "No. CPUs: 305\n");
    assert_eq!(memory_start_line(0x8000_0000), "DRAM start: 0x80000000\n");
    assert_eq!(memory_start_line(0), "DRAM start: 0x0\n");
    assert_eq!(start_failure_message(3), "Failed to start hart 3");
}

#[test]
fn bootstrap_plan_reports_and_wakes_the_others() {
    let mut store = DescriptorStore::new();
    let plan = bootstrap_plan(&mut store, 1, ENTRY, || Ok(topology("virt", 3, Some(0x8000_0000))));
    assert_eq!(plan.role, Role::Bootstrap);
    assert!(plan.fatal.is_none());
    assert_eq!(
        plan.messages,
        vec![
            "\n\n\n",
            "Hack the planet!\n",
            "Boot hart: 1\n\n",
            "Device tree info:\n",
            "Model: virt\n",
            "No. CPUs: 3\n",
            "DRAM start: 0x80000000\n",
            "\n",
        ]
    );
    assert_eq!(ids(&plan.wakes), vec![0, 2]);
}

#[test]
fn bootstrap_without_memory_aborts_before_waking() {
    let mut store = DescriptorStore::new();
    let plan = bootstrap_plan(&mut store, 0, ENTRY, || Ok(topology("virt", 3, None)));
    assert_eq!(plan.fatal, Some(DescriptorError::NoMemoryRegion));
    assert!(plan.wakes.is_empty());
    assert_eq!(plan.messages.len(), 3);
}

#[test]
fn bootstrap_with_unparsable_blob_aborts() {
    let mut store = DescriptorStore::new();
    let plan = bootstrap_plan(&mut store, 0, ENTRY, || Err(DescriptorError::Parse));
    assert_eq!(plan.fatal, Some(DescriptorError::Parse));
    assert!(plan.wakes.is_empty());
}

#[test]
fn two_racing_cores_elect_one_bootstrap() {
    let flag = BootFlag::new();
    let mut store = DescriptorStore::new();
    let calls = Cell::new(0u32);
    let first = boot(&flag, &mut store, 1, ENTRY, || {
        calls.set(calls.get() + 1);
        Ok(topology("virt", 2, Some(0x8000_0000)))
    });
    let second = boot(&flag, &mut store, 0, ENTRY, || {
        calls.set(calls.get() + 1);
        Ok(topology("virt", 2, Some(0x8000_0000)))
    });
    assert_eq!(first.role, Role::Bootstrap);
    assert_eq!(ids(&first.wakes), vec![0]);
    assert_eq!(second.role, Role::Secondary);
    assert_eq!(second.messages, vec!["Hart 0 starting...\n"]);
    assert!(second.wakes.is_empty());
    assert!(second.fatal.is_none());
    assert_eq!(calls.get(), 1);
}

#[test]
fn secondary_plan_prints_one_line() {
    let plan = secondary_plan(2);
    assert_eq!(plan.role, Role::Secondary);
    assert_eq!(plan.messages, vec!["Hart 2 starting...\n"]);
    assert!(plan.wakes.is_empty());
}
