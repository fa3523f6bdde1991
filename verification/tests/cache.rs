use rvsim::bus::{AccessKind, AddressRange, Addressable, Bus, BusError};
use rvsim::cache::{CacheConfig, DirectMappedCache};
use rvsim::memory_map::MemoryMap;

#[derive(Debug, Clone)]
struct WordDevice {
    range: AddressRange,
    data: Vec<u8>,
    latency_cycles: u32,
}

impl WordDevice {
    fn from_words(base: u64, words: &[u32], latency_cycles: u32) -> Self {
        let mut data = Vec::with_capacity(words.len() * 4);
        for word in words {
            data.extend_from_slice(&word.to_le_bytes());
        }

        Self {
            range: AddressRange::new(base, data.len() as u64),
            data,
            latency_cycles,
        }
    }

    fn new_zeroed(base: u64, size: usize, latency_cycles: u32) -> Self {
        Self {
            range: AddressRange::new(base, size as u64),
            data: vec![0; size],
            latency_cycles,
        }
    }

    fn offset(&self, addr: u64) -> Result<usize, BusError> {
        if !self.range.contains(addr) {
            return Err(BusError::UnmappedAddress { addr });
        }

        Ok((addr - self.range.start) as usize)
    }
}

impl Addressable for WordDevice {
    fn name(&self) -> &'static str {
        "word-device"
    }

    fn address_range(&self) -> AddressRange {
        self.range
    }

    fn access_latency(&mut self, _addr: u64, _kind: AccessKind, _width: usize) -> u32 {
        self.latency_cycles
    }

    fn load8(&mut self, addr: u64) -> Result<u8, BusError> {
        let offset = self.offset(addr)?;
        self.data
            .get(offset)
            .copied()
            .ok_or(BusError::UnmappedAddress { addr })
    }

    fn store8(&mut self, addr: u64, value: u8) -> Result<(), BusError> {
        let offset = self.offset(addr)?;
        let byte = self
            .data
            .get_mut(offset)
            .ok_or(BusError::UnmappedAddress { addr })?;
        *byte = value;
        Ok(())
    }
}

#[test]
fn hits_after_first_miss_on_cached_rom_word() {
    let mut memory = MemoryMap::new();
    memory
        .map_device(WordDevice::from_words(0, &[0x0050_0093, 0x0000_006f], 1))
        .expect("rom should map");

    let mut cache = DirectMappedCache::new(
        memory,
        CacheConfig::new(8, vec![AddressRange::new(0, 0x1000)]),
    );

    let error = cache.load32(0).expect_err("cold miss should stall");
    assert_eq!(
        error,
        BusError::Busy {
            remaining_cycles: 1
        }
    );
    cache.tick();

    assert_eq!(
        cache.load32(0).expect("retry should fill line"),
        0x0050_0093
    );
    assert_eq!(
        cache.load32(0).expect("second access should hit"),
        0x0050_0093
    );
    assert_eq!(cache.stats().read_misses, 1);
    assert_eq!(cache.stats().read_hits, 1);
}

#[test]
fn invalidates_cached_word_after_store() {
    const RAM_BASE: u64 = 0x1000_0000;

    let mut memory = MemoryMap::new();
    memory
        .map_device(WordDevice::new_zeroed(RAM_BASE, 0x1000, 1))
        .expect("ram should map");

    let mut cache = DirectMappedCache::new(
        memory,
        CacheConfig::new(8, vec![AddressRange::new(RAM_BASE, 0x1000)]),
    );

    let _ = cache.load32(RAM_BASE).expect_err("cold load should stall");
    cache.tick();
    assert_eq!(cache.load32(RAM_BASE).expect("fill should succeed"), 0);

    let _ = cache
        .store32(RAM_BASE, 9)
        .expect_err("write-through store should stall");
    cache.tick();
    cache
        .store32(RAM_BASE, 9)
        .expect("retry should complete write-through");

    let _ = cache
        .load32(RAM_BASE)
        .expect_err("load after invalidation should miss again");
    cache.tick();
    assert_eq!(cache.load32(RAM_BASE).expect("refill should succeed"), 9);
    assert!(cache.stats().invalidations >= 1);
}

#[test]
fn bypasses_uncached_mmio_ranges() {
    const MMIO_BASE: u64 = 0x4000_0000;

    let mut memory = MemoryMap::new();
    memory
        .map_device(WordDevice::from_words(MMIO_BASE, &[0x1234_5678], 0))
        .expect("mmio-like device should map");

    let mut cache = DirectMappedCache::new(
        memory,
        CacheConfig::new(8, vec![AddressRange::new(0, 0x1000)]),
    );

    assert_eq!(
        cache
            .load32(MMIO_BASE)
            .expect("uncached load should bypass"),
        0x1234_5678
    );
    assert_eq!(cache.stats().read_hits, 0);
    assert_eq!(cache.stats().read_misses, 0);
}
