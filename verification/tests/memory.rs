//! Memory, reservations and caches.
use here::config::BASE_ADDR;
use here::device::{MemError, MemoryMapIO, MemoryMapItem};
use here::isa::cache::{Cache, CachePolicy, Cacheable, DirectCache, NullCache, SetCache};
use here::isa::riscv::mmu::{AccessPolicy, Address, AmoOp, VirtAddrManager};
use here::ram::Ram;
use here::utils::Width;

#[test]
fn lr_sc_rejects_mmio_and_sc_clears_ram_reservation() {
    let table = vec![MemoryMapItem::new(0x1000, 8)];
    let mmio = MemoryMapIO::from_mmio_items(Ram::new(), table);
    let mut memory = VirtAddrManager::from_ram_and_mmio(mmio);
    assert_eq!(
        memory.load_reserved_with_policy(0x1000, Width::W32, AccessPolicy::Direct),
        Err(MemError::LoadFault)
    );

    let ram_addr = BASE_ADDR;
    memory.load_reserved_with_policy(ram_addr, Width::W32, AccessPolicy::Direct).unwrap();
    assert_eq!(
        memory.store_conditional_with_policy(0x1000, Width::W32, 1, AccessPolicy::Direct),
        Err(MemError::StoreFault)
    );
    assert!(!memory
        .store_conditional_with_policy(ram_addr, Width::W32, 1, AccessPolicy::Direct)
        .unwrap());
}

#[test]
fn amo_invalidates_lr_reservation() {
    let mut memory = VirtAddrManager::from_ram_and_mmio(MemoryMapIO::from_ram(Ram::new()));
    let addr = BASE_ADDR + 8;

    memory.write_with_policy(addr, Width::W32, 0, AccessPolicy::Direct).unwrap();
    memory.load_reserved_with_policy(addr, Width::W32, AccessPolicy::Direct).unwrap();
    assert_eq!(
        memory
            .fetch_and_op_amo_with_policy(AmoOp::Add, addr, Width::W32, 1, AccessPolicy::Direct)
            .unwrap(),
        0
    );

    assert!(!memory
        .store_conditional_with_policy(addr, Width::W32, 2, AccessPolicy::Direct)
        .unwrap());
    assert_eq!(memory.read_with_policy(addr, Width::W32, AccessPolicy::Direct).unwrap(), 1);
}

#[test]
fn a_reservation_lets_one_store_succeed() {
    let mut memory = VirtAddrManager::from_ram_and_mmio(MemoryMapIO::from_ram(Ram::new()));
    let addr = BASE_ADDR + 16;
    memory.load_reserved_with_policy(addr, Width::W64, AccessPolicy::Direct).unwrap();
    assert!(memory
        .store_conditional_with_policy(addr, Width::W64, 7, AccessPolicy::Direct)
        .unwrap());
    assert!(!memory
        .store_conditional_with_policy(addr, Width::W64, 8, AccessPolicy::Direct)
        .unwrap());
    assert_eq!(memory.read_by_paddr(addr, Width::W64), Ok(7));
}

#[test]
fn a_load_gives_back_what_a_store_stored() {
    let mut ram = Ram::new();
    ram.write(0x100, Width::W64, 0x1122_3344_5566_7788);
    assert_eq!(ram.read(0x100, Width::W64), 0x1122_3344_5566_7788);
    assert_eq!(ram.read(0x100, Width::W8), 0x88);
    assert_eq!(ram.read(0x102, Width::W16), 0x5566);
    assert_eq!(ram.read(0x104, Width::W32), 0x1122_3344);
    assert_eq!(ram.read(0x108, Width::W64), 0);
}

#[test]
fn accesses_are_aligned_and_in_range() {
    let mut memory = VirtAddrManager::from_ram_and_mmio(MemoryMapIO::from_ram(Ram::new()));
    assert_eq!(
        memory.read_with_policy(BASE_ADDR + 1, Width::W32, AccessPolicy::Direct),
        Err(MemError::LoadMisaligned)
    );
    assert_eq!(
        memory.write_with_policy(BASE_ADDR + 1, Width::W16, 0, AccessPolicy::Direct),
        Err(MemError::StoreMisaligned)
    );
    assert_eq!(memory.read_by_paddr(0x10, Width::W8), Err(MemError::LoadFault));
    assert_eq!(memory.write_by_paddr(0x10, Width::W8, 0), Err(MemError::StoreFault));
    assert!(memory.debug_read(Address::Phys(BASE_ADDR), Width::W32).is_ok());
}

#[derive(Clone, Copy, Debug, PartialEq, Eq)]
struct MockCacheable(u32);

impl Cacheable for MockCacheable {
    const ADDR_SHIFT_BITS: usize = 0;
}

fn test_cache_common<C: CachePolicy<T = MockCacheable>>() {
    let mut cache = C::new();

    assert_eq!(cache.get(0), None);

    cache.put(0, MockCacheable(42));
    assert_eq!(cache.get(0), Some(MockCacheable(42)));

    cache.invalidate(0);
    assert_eq!(cache.get(0), None);

    cache.put(1, MockCacheable(100));
    cache.put(2, MockCacheable(200));
    assert_eq!(cache.get(1), Some(MockCacheable(100)));
    assert_eq!(cache.get(2), Some(MockCacheable(200)));

    cache.invalidate(1);
    assert_eq!(cache.get(1), None);

    cache.clear();
    assert_eq!(cache.get(1), None);
    assert_eq!(cache.get(2), None);
}

#[test]
fn common_cache_tests() {
    test_cache_common::<DirectCache<MockCacheable, 8>>();
    test_cache_common::<SetCache<MockCacheable, 4, 2>>();
}

#[test]
fn set_cache_test() {
    let mut cache = SetCache::<MockCacheable, 4, 2>::new();

    for i in 0..4 {
        cache.put(i, MockCacheable(i as u32));
    }

    cache.put(8, MockCacheable(8));

    for i in 0..4 {
        assert_eq!(cache.get(i), Some(MockCacheable(i as u32)));
    }

    assert_eq!(cache.get(8), Some(MockCacheable(8)));
}

#[test]
fn a_cache_counts_what_it_is_asked() {
    let mut cache = Cache::<DirectCache<MockCacheable, 8>>::new();
    cache.put(3, MockCacheable(1));
    assert_eq!(cache.get(3), Some(MockCacheable(1)));
    assert_eq!(cache.get(11), None);
    assert_eq!((cache.hit_count(), cache.access_count()), (1, 2));
    cache.put(11, MockCacheable(2));
    assert_eq!(cache.get(3), None);
}

#[test]
fn a_null_cache_keeps_nothing() {
    let mut cache = NullCache::<MockCacheable>::new();
    cache.put(0, MockCacheable(1));
    assert_eq!(cache.get(0), None);
}

#[test]
fn only_accesses_are_counted() {
    let mut cache = Cache::<DirectCache<MockCacheable, 8>>::new();
    assert_eq!((cache.hit_count(), cache.access_count()), (0, 0));
    cache.put(1, MockCacheable(1));
    cache.put(2, MockCacheable(2));
    cache.get(1);
    cache.invalidate(1);
    cache.get(1);
    cache.get(2);
    cache.clear();
    cache.get(2);
    assert_eq!((cache.hit_count(), cache.access_count()), (2, 4));
}
