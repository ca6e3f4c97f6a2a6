use ngx::base::{Addr, Allocation, Cleanup, Pool, PoolRequest};

fn addr(at: usize) -> Addr {
    Addr::new(at).unwrap()
}

/// Carries one exchange through with the answers given, and notes what it
/// registered and what it dropped.
fn carry<T>(
    begun: (Allocation<T>, Option<PoolRequest<T>>),
    block: usize,
    entry: usize,
    cleanups: &mut Vec<Cleanup>,
    drops: &mut Vec<Addr>,
) -> Option<Addr> {
    let (mut state, mut request) = begun;
    loop {
        match request {
            None => return state.result(),
            Some(PoolRequest::Alloc { .. }) | Some(PoolRequest::AllocZeroed { .. }) => {
                (state, request) = state.resume(block);
            }
            Some(PoolRequest::Place { .. }) => {
                (state, request) = state.resume(entry);
            }
            Some(PoolRequest::Register { cleanup }) => {
                cleanups.push(cleanup);
                request = None;
            }
            Some(PoolRequest::DropInPlace { block }) => {
                drops.push(block);
                request = None;
            }
        }
    }
}

#[test]
fn a_pool_is_known_by_its_address() {
    let pool = Pool::from_ngx_pool(0x1000);
    assert_eq!(pool.as_ptr().get(), 0x1000);
}

#[test]
fn a_value_without_size_never_reaches_the_pool() {
    let mut pool = Pool::from_ngx_pool(0x1000);
    let (state, request) = pool.allocate(());
    assert_eq!(request, None);
    assert!(state.is_done());
    assert_eq!(state.result(), Some(addr(std::mem::align_of::<()>())));

    let (state, request) = pool.allocate([0u64; 0]);
    assert_eq!(request, None);
    assert_eq!(state.result(), Some(addr(std::mem::align_of::<u64>())));

    let (state, request) = pool.allocate_uninit_zeroed::<()>();
    assert_eq!(request, None);
    assert_eq!(state.result(), Some(addr(1)));
}

#[test]
fn a_value_asks_for_a_block_of_its_size() {
    let mut pool = Pool::from_ngx_pool(0x1000);
    let (state, request) = pool.allocate(7u64);
    assert_eq!(state, Allocation::AwaitBlock { pool: addr(0x1000), value: 7u64 });
    assert_eq!(request, Some(PoolRequest::Alloc { pool: addr(0x1000), size: 8 }));
    assert!(!state.is_done());
    assert_eq!(state.result(), None);
}

#[test]
fn a_value_is_placed_then_registered() {
    let mut pool = Pool::from_ngx_pool(0x1000);
    let (state, _) = pool.allocate(7u64);
    let (state, request) = state.resume(0x2000);
    assert_eq!(state, Allocation::AwaitCleanup { block: addr(0x2000) });
    assert_eq!(request, Some(PoolRequest::Place { pool: addr(0x1000), block: addr(0x2000), value: 7u64 }));
    let (state, request) = state.resume(0x3000);
    assert_eq!(state, Allocation::Done { result: Some(addr(0x2000)) });
    assert_eq!(
        request,
        Some(PoolRequest::Register { cleanup: Cleanup { entry: addr(0x3000), data: addr(0x2000) } })
    );
    let (state, request) = state.resume(0x9999);
    assert_eq!(state, Allocation::Done { result: Some(addr(0x2000)) });
    assert_eq!(request, None);
}

#[test]
fn without_a_block_nothing_is_placed() {
    let mut pool = Pool::from_ngx_pool(0x1000);
    let (state, _) = pool.allocate(String::from("value"));
    let (state, request) = state.resume(0);
    assert_eq!(state, Allocation::Done { result: None });
    assert_eq!(request, None);
}

#[test]
fn without_a_cleanup_entry_the_value_is_dropped_at_once() {
    let mut pool = Pool::from_ngx_pool(0x1000);
    let (state, _) = pool.allocate(7u64);
    let (state, _) = state.resume(0x2000);
    let (state, request) = state.resume(0);
    assert_eq!(state, Allocation::Done { result: None });
    assert_eq!(request, Some(PoolRequest::DropInPlace { block: addr(0x2000) }));
}

#[test]
fn cleanups_are_registered_once_each_in_order() {
    let mut pool = Pool::from_ngx_pool(0x1000);
    let mut cleanups = Vec::new();
    let mut drops = Vec::new();
    // block, entry: the second has no block, the fourth no entry
    let answers = [(0x2000, 0x3000), (0, 0x3010), (0x2020, 0x3020), (0x2030, 0), (0x2040, 0x3040)];
    let mut results = Vec::new();
    for (n, (block, entry)) in answers.iter().enumerate() {
        results.push(carry(pool.allocate(n as u32), *block, *entry, &mut cleanups, &mut drops));
    }
    assert_eq!(results, vec![Some(addr(0x2000)), None, Some(addr(0x2020)), None, Some(addr(0x2040))]);
    assert_eq!(
        cleanups,
        vec![
            Cleanup { entry: addr(0x3000), data: addr(0x2000) },
            Cleanup { entry: addr(0x3020), data: addr(0x2020) },
            Cleanup { entry: addr(0x3040), data: addr(0x2040) },
        ]
    );
    assert_eq!(drops, vec![addr(0x2030)]);
}

#[test]
fn cleared_memory_has_no_cleanup() {
    let mut pool = Pool::from_ngx_pool(0x1000);
    let (state, request) = pool.allocate_uninit_zeroed::<[u8; 24]>();
    assert_eq!(state, Allocation::AwaitMemory);
    assert_eq!(request, Some(PoolRequest::AllocZeroed { pool: addr(0x1000), size: 24 }));
    let (state, request) = state.resume(0x2000);
    assert_eq!(state, Allocation::Done { result: Some(addr(0x2000)) });
    assert_eq!(request, None);

    let (state, _) = pool.allocate_uninit_zeroed::<u16>();
    let (state, request) = state.resume(0);
    assert_eq!(state, Allocation::Done { result: None });
    assert_eq!(request, None);
}

#[test]
fn raw_memory_is_asked_for_whatever_the_length() {
    let mut pool = Pool::from_ngx_pool(0x1000);
    let (state, request) = pool.allocate_raw(0);
    assert_eq!(state, Allocation::AwaitMemory);
    assert_eq!(request, Some(PoolRequest::Alloc { pool: addr(0x1000), size: 0 }));

    let (state, request) = pool.allocate_raw(100);
    assert_eq!(request, Some(PoolRequest::Alloc { pool: addr(0x1000), size: 100 }));
    let (state, request) = state.resume(0x2000);
    assert_eq!(state.result(), Some(addr(0x2000)));
    assert_eq!(request, None);

    let (state, _) = pool.allocate_raw(100);
    let (state, _) = state.resume(0);
    assert!(state.is_done());
    assert_eq!(state.result(), None);
}
