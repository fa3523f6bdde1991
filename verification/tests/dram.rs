use rvsim::bus::{Bus, BusError};
use rvsim::devices::dram::{Dram, DramConfig};
use rvsim::memory_map::MemoryMap;

fn run_load32(map: &mut MemoryMap<Dram>, addr: u64) -> (u32, u32) {
    let mut stalled_cycles = 0;
    loop {
        match map.load32(addr) {
            Ok(word) => return (word, stalled_cycles),
            Err(BusError::Busy { .. }) => {
                stalled_cycles += 1;
                map.tick();
            }
            Err(error) => panic!("unexpected dram load error: {error:?}"),
        }
    }
}

#[test]
fn row_miss_and_row_hit_have_distinct_latencies() {
    let mut map = MemoryMap::<Dram>::new();
    map.map_device(Dram::new(0, 256, DramConfig::new(16, 5, 2, 1)))
        .expect("dram should map");

    assert_eq!(run_load32(&mut map, 0).1, 5);
    assert_eq!(run_load32(&mut map, 12).1, 2);
    assert_eq!(run_load32(&mut map, 16).1, 5);
}

#[test]
fn sequential_accesses_use_burst_latency() {
    let mut map = MemoryMap::<Dram>::new();
    map.map_device(Dram::new(0, 256, DramConfig::new(32, 6, 3, 1)))
        .expect("dram should map");

    assert_eq!(run_load32(&mut map, 0).1, 6);
    assert_eq!(run_load32(&mut map, 4).1, 1);
    assert_eq!(run_load32(&mut map, 8).1, 1);
    assert_eq!(run_load32(&mut map, 20).1, 3);
}

#[test]
fn stores_update_memory_contents() {
    let mut map = MemoryMap::<Dram>::new();
    map.map_device(Dram::new(0, 256, DramConfig::new(32, 4, 2, 1)))
        .expect("dram should map");

    loop {
        match map.store32(0, 0x1234_5678) {
            Ok(()) => break,
            Err(BusError::Busy { .. }) => map.tick(),
            Err(error) => panic!("unexpected dram store error: {error:?}"),
        }
    }

    assert_eq!(run_load32(&mut map, 0).0, 0x1234_5678);
}
