use rvsim::microbench::{
    run_interrupt_latency_benchmark, run_translation_caching_benchmark, run_virtual_memory_paths_benchmark,
};

#[test]
fn interrupt_latency_benchmark_reports_loaded_penalty() {
    let report = run_interrupt_latency_benchmark().expect("benchmark should run");

    assert!(report.reference.idle_cycles > 0);
    assert!(report.reference.loaded_cycles >= report.reference.idle_cycles);
    assert!(report.pipeline.idle_cycles > 0);
    assert!(report.pipeline.loaded_cycles >= report.pipeline.idle_cycles);
}

#[test]
fn translation_caching_benchmark_shows_namespace_and_flush_effects() {
    let report = run_translation_caching_benchmark().expect("benchmark should run");

    for sample in [report.reference, report.pipeline] {
        assert!(sample.cold_cycles >= sample.warm_cycles);
        assert!(sample.switched_asid_cycles >= sample.returned_asid_cycles);
        assert!(sample.global_switched_asid_cycles <= sample.switched_asid_cycles);
        assert!(sample.sfence_reload_cycles >= sample.returned_asid_cycles);
    }
}

#[test]
fn virtual_memory_paths_benchmark_reports_superpage_and_namespace_flows() {
    let report = run_virtual_memory_paths_benchmark().expect("benchmark should run");

    for sample in [report.reference, report.pipeline] {
        assert!(sample.superpage_access_cycles > 0);
        assert!(sample.namespace_preserved_cycles > 0);
        assert!(sample.namespace_reloaded_cycles > 0);
    }
}
