//! A direct-mapped, write-through, no-write-allocate word cache in front of a
//! backing bus.

use vstd::prelude::*;
use crate::bus::{byte_writes, half_bytes, logged, word_bytes, Address, AddressRange, Bus, BusError, InterruptSet};
use crate::bytes::{half_from_le_bytes, le_half, word_byte, word_to_le_bytes};

verus! {

/// Static cache geometry and the address ranges the cache serves.
#[derive(Debug)]
pub struct CacheConfig {
    line_count: usize,
    cached_ranges: Vec<AddressRange>,
}

impl CacheConfig {
    /// The number of one-word lines.
    pub closed spec fn spec_line_count(&self) -> usize {
        self.line_count
    }

    /// The cached address ranges.
    pub closed spec fn spec_cached_ranges(&self) -> Seq<AddressRange> {
        self.cached_ranges@
    }

    /// Whether some cached range contains the address.
    pub open spec fn spec_caches(&self, addr: Address) -> bool {
        exists|i: int| 0 <= i < self.spec_cached_ranges().len() && #[trigger] self.spec_cached_ranges()[i].spec_contains(addr)
    }

    /// A cache of `line_count` lines (at least one) over `cached_ranges`.
    pub fn new(line_count: usize, cached_ranges: Vec<AddressRange>) -> (c: Self)
        requires
            line_count > 0,
        ensures
            c.spec_line_count() == line_count,
            c.spec_cached_ranges() == cached_ranges@,
    {
        CacheConfig { line_count, cached_ranges }
    }

    /// The number of lines.
    pub fn line_count(&self) -> (n: usize)
        ensures
            n == self.spec_line_count(),
    {
        self.line_count
    }

    /// The cached ranges.
    pub fn cached_ranges(&self) -> (r: &[AddressRange])
        ensures
            r@ == self.spec_cached_ranges(),
    {
        self.cached_ranges.as_slice()
    }

    /// Whether accesses to `addr` go through the cache.
    pub fn caches_address(&self, addr: Address) -> (b: bool)
        ensures
            b == self.spec_caches(addr),
    {
        let mut i: usize = 0;
        while i < self.cached_ranges.len()
            invariant
                i <= self.cached_ranges@.len(),
                forall|k: int| 0 <= k < i ==> !(#[trigger] self.cached_ranges@[k]).spec_contains(addr),
            decreases self.cached_ranges@.len() - i,
        {
            if self.cached_ranges[i].contains(addr) {
                proof {
                    assert(self.spec_cached_ranges()[i as int].spec_contains(addr));
                }
                return true;
            }
            i = i + 1;
        }
        false
    }
}

/// Cache counters.
#[derive(Debug, Clone, Copy, PartialEq, Eq, Structural)]
pub struct CacheStats {
    pub read_hits: u64,
    pub read_misses: u64,
    pub write_accesses: u64,
    pub invalidations: u64,
}

impl Default for CacheStats {
    fn default() -> (s: Self)
        ensures
            s == (CacheStats { read_hits: 0, read_misses: 0, write_accesses: 0, invalidations: 0 }),
    {
        CacheStats { read_hits: 0, read_misses: 0, write_accesses: 0, invalidations: 0 }
    }
}

/// One cached word.
#[derive(Debug, Clone, Copy, PartialEq, Eq, Structural)]
pub struct CacheLine {
    pub valid: bool,
    pub tag: u64,
    pub word: u32,
}

/// The line that caches the word at `word_addr` in a cache of `lines` lines.
pub open spec fn line_index(word_addr: Address, lines: nat) -> int {
    ((word_addr / 4) as int) % (lines as int)
}

/// The tag that tells apart the words sharing a line.
pub open spec fn line_tag(word_addr: Address, lines: nat) -> u64 {
    ((word_addr / 4) as int / (lines as int)) as u64
}

/// A counter one higher, stopping at its maximum.
pub open spec fn bumped(counter: u64) -> u64 {
    if counter == u64::MAX { counter } else { (counter + 1) as u64 }
}

/// A simple direct-mapped, write-through, no-write-allocate unified cache.
#[derive(Debug)]
pub struct DirectMappedCache<B> {
    inner: B,
    config: CacheConfig,
    lines: Vec<CacheLine>,
    stats: CacheStats,
    pending_fill: Option<Address>,
}

impl<B: Bus> DirectMappedCache<B> {
    /// The backing bus.
    pub closed spec fn spec_inner(&self) -> B {
        self.inner
    }

    /// The cache lines.
    pub closed spec fn spec_lines(&self) -> Seq<CacheLine> {
        self.lines@
    }

    /// The counters.
    pub closed spec fn spec_stats(&self) -> CacheStats {
        self.stats
    }

    /// The word whose miss has been counted and is still being filled, if any.
    pub closed spec fn spec_pending_fill(&self) -> Option<Address> {
        self.pending_fill
    }

    /// The configuration.
    pub closed spec fn spec_config(&self) -> &CacheConfig {
        &self.config
    }

    /// The word the cache holds for the word-aligned address, if any.
    pub open spec fn spec_holds(&self, word_addr: Address) -> Option<u32> {
        let n = self.spec_lines().len();
        if n == 0 {
            None
        } else {
            let line = self.spec_lines()[line_index(word_addr, n)];
            if line.valid && line.tag == line_tag(word_addr, n) {
                Some(line.word)
            } else {
                None
            }
        }
    }

    /// A cache with every line invalid in front of `inner`.
    pub fn new(inner: B, config: CacheConfig) -> (c: Self)
        ensures
            c.spec_inner() == inner,
            c.spec_lines().len() == config.spec_line_count(),
            forall|a: Address| #[trigger] c.spec_holds(a) is None,
            c.spec_stats() == (CacheStats { read_hits: 0, read_misses: 0, write_accesses: 0, invalidations: 0 }),
    {
        let mut lines: Vec<CacheLine> = Vec::new();
        let mut i: usize = 0;
        while i < config.line_count
            invariant
                i <= config.spec_line_count(),
                lines@.len() == i,
                forall|k: int| 0 <= k < i ==> !(#[trigger] lines@[k]).valid,
            decreases config.spec_line_count() - i,
        {
            lines.push(CacheLine { valid: false, tag: 0, word: 0 });
            i = i + 1;
        }
        DirectMappedCache { inner, config, lines, stats: CacheStats::default(), pending_fill: None }
    }

    /// The backing bus.
    pub fn inner(&self) -> (b: &B)
        ensures
            *b == self.spec_inner(),
    {
        &self.inner
    }

    /// The backing bus, for mutation.
    pub fn inner_mut(&mut self) -> (b: &mut B)
        ensures
            *b == old(self).spec_inner(),
            final(self).spec_inner() == *final(b),
            final(self).spec_lines() == old(self).spec_lines(),
            final(self).spec_stats() == old(self).spec_stats(),
    {
        &mut self.inner
    }

    /// The counters.
    pub fn stats(&self) -> (s: CacheStats)
        ensures
            s == self.spec_stats(),
    {
        self.stats
    }

    /// The configuration.
    pub fn config(&self) -> (c: &CacheConfig)
        ensures
            c == self.spec_config(),
    {
        &self.config
    }

    fn line_index_and_tag(&self, word_addr: Address) -> (r: (usize, u64))
        requires
            self.lines@.len() > 0,
        ensures
            r.0 == line_index(word_addr, self.lines@.len()),
            r.1 == line_tag(word_addr, self.lines@.len()),
            r.0 < self.lines@.len(),
    {
        let word_number = word_addr / 4;
        let count = self.lines.len() as u64;
        let index = (word_number % count) as usize;
        let tag = word_number / count;
        (index, tag)
    }

    /// Read the word at a word-aligned cached address: a hit answers from
    /// the line; a miss reads the backing bus and fills the line once the
    /// read completes. A miss is counted once however long the fill stalls.
    fn load_cached_word(&mut self, word_addr: Address) -> (r: Result<u32, BusError>)
        requires
            old(self).lines@.len() > 0,
        ensures
            old(self).spec_holds(word_addr) matches Some(w) ==> r == Ok::<u32, BusError>(w) && final(self).spec_lines()
                == old(self).spec_lines() && final(self).spec_inner() == old(self).spec_inner()
                && final(self).spec_stats() == (CacheStats { read_hits: bumped(old(self).spec_stats().read_hits), ..old(self).spec_stats() }),
            r matches Ok(w) ==> final(self).spec_holds(word_addr) == Some(w),
            final(self).spec_lines().len() == old(self).spec_lines().len(),
            r is Err ==> final(self).spec_lines() == old(self).spec_lines(),
            old(self).spec_holds(word_addr) is None ==> final(self).spec_stats() == (CacheStats {
                read_misses: if old(self).spec_pending_fill() == Some(word_addr) {
                    old(self).spec_stats().read_misses
                } else {
                    bumped(old(self).spec_stats().read_misses)
                },
                ..old(self).spec_stats()
            }),
    {
        let (index, tag) = self.line_index_and_tag(word_addr);
        let line = self.lines[index];
        if line.valid && line.tag == tag {
            self.stats.read_hits = self.stats.read_hits.saturating_add(1);
            return Ok(line.word);
        }
        let already_pending = match self.pending_fill {
            Some(pending) => pending == word_addr,
            None => false,
        };
        if !already_pending {
            self.stats.read_misses = self.stats.read_misses.saturating_add(1);
            self.pending_fill = Some(word_addr);
        }
        match self.inner.load32(word_addr) {
            Ok(word) => {
                self.lines.set(index, CacheLine { valid: true, tag, word });
                self.pending_fill = None;
                Ok(word)
            },
            Err(BusError::Busy { remaining_cycles }) => Err(BusError::Busy { remaining_cycles }),
            Err(error) => {
                self.pending_fill = None;
                Err(error)
            },
        }
    }

    /// Drop the cached copy of the word at `word_addr`, counting an invalidation when there was one.
    fn invalidate_line(&mut self, word_addr: Address)
        ensures
            final(self).spec_holds(word_addr) is None || !old(self).config.spec_caches(word_addr),
            final(self).spec_lines().len() == old(self).spec_lines().len(),
            forall|a: Address| #[trigger] final(self).spec_holds(a) is Some ==> final(self).spec_holds(a) == old(self).spec_holds(a),
            final(self).inner == old(self).inner,
            final(self).config == old(self).config,
            final(self).stats.read_hits == old(self).stats.read_hits,
            final(self).stats.read_misses == old(self).stats.read_misses,
            final(self).stats.write_accesses == old(self).stats.write_accesses,
            final(self).stats.invalidations == if old(self).config.spec_caches(word_addr) && old(self).spec_holds(word_addr) is Some {
                bumped(old(self).stats.invalidations)
            } else {
                old(self).stats.invalidations
            },
    {
        if !self.config.caches_address(word_addr) || self.lines.len() == 0 {
            return ;
        }
        let (index, tag) = self.line_index_and_tag(word_addr);
        if self.lines[index].valid && self.lines[index].tag == tag {
            let word = self.lines[index].word;
            self.lines.set(index, CacheLine { valid: false, tag, word });
            self.stats.invalidations = self.stats.invalidations.saturating_add(1);
        }
    }

    fn extract_byte(word: u32, addr: Address) -> (b: u8)
        ensures
            b == word_byte(word, (addr % 4) as int),
    {
        let bytes = word_to_le_bytes(word);
        let offset = addr % 4;
        if offset == 0 {
            bytes[0]
        } else if offset == 1 {
            bytes[1]
        } else if offset == 2 {
            bytes[2]
        } else {
            bytes[3]
        }
    }

    fn extract_half(word: u32, addr: Address) -> (h: u16)
        requires
            addr % 2 == 0,
        ensures
            h == le_half(word_byte(word, (addr % 4) as int), word_byte(word, (addr % 4) as int + 1)),
    {
        let bytes = word_to_le_bytes(word);
        if addr % 4 == 0 {
            half_from_le_bytes(bytes[0], bytes[1])
        } else {
            half_from_le_bytes(bytes[2], bytes[3])
        }
    }
}

impl<B: Bus> Bus for DirectMappedCache<B> {
    /// Invalidate every line, clear the counters, and reset the backing bus.
    fn reset(&mut self)
        ensures
            final(self).spec_lines() == Seq::new(
                old(self).spec_lines().len(),
                |i: int| CacheLine { valid: false, tag: 0, word: 0 },
            ),
            final(self).spec_stats() == (CacheStats { read_hits: 0, read_misses: 0, write_accesses: 0, invalidations: 0 }),
            final(self).spec_config() == old(self).spec_config(),
            forall|a: Address| #[trigger] final(self).spec_holds(a) is None,
    {
        self.pending_fill = None;
        self.stats = CacheStats::default();
        let mut i: usize = 0;
        while i < self.lines.len()
            invariant
                i <= self.lines@.len(),
                self.lines@.len() == old(self).lines@.len(),
                self.config == old(self).config,
                self.stats == (CacheStats { read_hits: 0, read_misses: 0, write_accesses: 0, invalidations: 0 }),
                forall|k: int| 0 <= k < i ==> #[trigger] self.lines@[k] == (CacheLine { valid: false, tag: 0, word: 0 }),
            decreases self.lines@.len() - i,
        {
            self.lines.set(i, CacheLine { valid: false, tag: 0, word: 0 });
            i = i + 1;
        }
        self.inner.reset();
        assert(self.spec_lines() =~= Seq::new(old(self).spec_lines().len(), |i: int| CacheLine { valid: false, tag: 0, word: 0 }));
    }

    /// A byte load from a cached range answers from the cached word on a hit.
    fn load8(&mut self, addr: Address) -> (r: Result<u8, BusError>)
        ensures
            old(self).spec_config().spec_caches(addr) && old(self).spec_lines().len() > 0 ==> {
                &&& old(self).spec_holds(addr & !3u64) matches Some(w) ==> r == Ok::<u8, BusError>(word_byte(w, (addr % 4) as int))
                &&& r matches Ok(b) ==> (final(self).spec_holds(addr & !3u64) matches Some(w) && b == word_byte(w, (addr % 4) as int))
            },
    {
        if !self.config.caches_address(addr) || self.lines.len() == 0 {
            return self.inner.load8(addr);
        }
        let word = self.load_cached_word(addr & !3u64)?;
        Ok(Self::extract_byte(word, addr))
    }

    /// Stores write through to the backing bus and drop the cached copy.
    fn store8(&mut self, addr: Address, value: u8) -> (r: Result<(), BusError>)
        ensures
            final(self).spec_holds(addr & !3u64) is None || !old(self).spec_config().spec_caches(addr & !3u64),
    {
        self.stats.write_accesses = self.stats.write_accesses.saturating_add(1);
        self.invalidate_line(addr & !3u64);
        self.inner.store8(addr, value)
    }

    fn load16(&mut self, addr: Address) -> (r: Result<u16, BusError>)
        ensures
            addr % 2 != 0 ==> r == Err::<u16, BusError>(BusError::MisalignedAccess { addr, width: 2 }),
    {
        if addr % 2 != 0 {
            return Err(BusError::MisalignedAccess { addr, width: 2 });
        }
        if !self.config.caches_address(addr) || !self.config.caches_address(addr + 1) || self.lines.len() == 0 {
            return self.inner.load16(addr);
        }
        let word = self.load_cached_word(addr & !3u64)?;
        Ok(Self::extract_half(word, addr))
    }

    /// A word load from a cached range answers from the cache on a hit.
    fn load32(&mut self, addr: Address) -> (r: Result<u32, BusError>)
        ensures
            addr % 4 != 0 ==> r == Err::<u32, BusError>(BusError::MisalignedAccess { addr, width: 4 }),
            addr % 4 == 0 && old(self).spec_config().spec_caches(addr) ==> (old(self).spec_holds(addr) matches Some(w) ==> r
                == Ok::<u32, BusError>(w)),
            addr % 4 == 0 && old(self).spec_config().spec_caches(addr) && old(self).spec_lines().len() > 0 ==> (r matches Ok(
                w,
            ) ==> final(self).spec_holds(addr) == Some(w)),
            addr % 4 == 0 && old(self).spec_config().spec_caches(addr) && old(self).spec_lines().len() > 0 ==> final(self).spec_stats() == (if old(self).spec_holds(addr) is Some {
                CacheStats { read_hits: bumped(old(self).spec_stats().read_hits), ..old(self).spec_stats() }
            } else {
                CacheStats {
                    read_misses: if old(self).spec_pending_fill() == Some(addr) {
                        old(self).spec_stats().read_misses
                    } else {
                        bumped(old(self).spec_stats().read_misses)
                    },
                    ..old(self).spec_stats()
                }
            }),
            !(addr % 4 == 0 && old(self).spec_config().spec_caches(addr) && old(self).spec_lines().len() > 0) ==> final(self).spec_stats() == old(self).spec_stats(),
    {
        if addr % 4 != 0 {
            return Err(BusError::MisalignedAccess { addr, width: 4 });
        }
        if !self.config.caches_address(addr) || self.lines.len() == 0 {
            return self.inner.load32(addr);
        }
        self.load_cached_word(addr)
    }

    fn store16(&mut self, addr: Address, value: u16) -> (r: Result<(), BusError>)
        ensures
            addr % 2 != 0 ==> r == Err::<(), BusError>(BusError::MisalignedAccess { addr, width: 2 }),
            addr % 2 == 0 ==> (final(self).spec_holds(addr & !3u64) is None || !old(self).spec_config().spec_caches(addr & !3u64)),
            addr % 2 == 0 && old(self).spec_inner().spec_keeps_log() ==> final(self).spec_inner().spec_keeps_log() && logged(
                old(self).spec_inner().spec_log(),
                final(self).spec_inner().spec_log(),
                byte_writes(addr, half_bytes(value)),
                r is Ok,
            ),
    {
        if addr % 2 != 0 {
            return Err(BusError::MisalignedAccess { addr, width: 2 });
        }
        self.stats.write_accesses = self.stats.write_accesses.saturating_add(1);
        self.invalidate_line(addr & !3u64);
        self.inner.store16(addr, value)
    }

    /// A word store writes through to the backing bus and leaves no cached
    /// copy of the word behind.
    fn store32(&mut self, addr: Address, value: u32) -> (r: Result<(), BusError>)
        ensures
            addr % 4 != 0 ==> r == Err::<(), BusError>(BusError::MisalignedAccess { addr, width: 4 }),
            addr % 4 == 0 ==> (final(self).spec_holds(addr & !3u64) is None || !old(self).spec_config().spec_caches(addr & !3u64)),
            addr % 4 == 0 ==> final(self).spec_stats().write_accesses == bumped(old(self).spec_stats().write_accesses)
                && final(self).spec_stats().read_hits == old(self).spec_stats().read_hits
                && final(self).spec_stats().read_misses == old(self).spec_stats().read_misses,
            addr % 4 == 0 ==> final(self).spec_stats().invalidations == if old(self).spec_config().spec_caches(addr & !3u64)
                && old(self).spec_holds(addr & !3u64) is Some {
                bumped(old(self).spec_stats().invalidations)
            } else {
                old(self).spec_stats().invalidations
            },
            addr % 4 != 0 ==> final(self).spec_stats() == old(self).spec_stats(),
            addr % 4 == 0 && old(self).spec_inner().spec_keeps_log() ==> final(self).spec_inner().spec_keeps_log() && logged(
                old(self).spec_inner().spec_log(),
                final(self).spec_inner().spec_log(),
                byte_writes(addr, word_bytes(value)),
                r is Ok,
            ),
    {
        if addr % 4 != 0 {
            return Err(BusError::MisalignedAccess { addr, width: 4 });
        }
        self.stats.write_accesses = self.stats.write_accesses.saturating_add(1);
        self.invalidate_line(addr & !3u64);
        self.inner.store32(addr, value)
    }

    /// Only the backing bus advances.
    fn tick(&mut self)
        ensures
            final(self).spec_lines() == old(self).spec_lines(),
            final(self).spec_stats() == old(self).spec_stats(),
            final(self).spec_config() == old(self).spec_config(),
    {
        self.inner.tick();
    }

    fn is_busy(&self) -> (b: bool) {
        self.inner.is_busy()
    }

    fn pending_interrupts(&self) -> (s: InterruptSet) {
        self.inner.pending_interrupts()
    }
}

} // verus!
