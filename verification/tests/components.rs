use proposals::caller::CallerId;
use proposals::id_alloc::IdAllocator;
use proposals::proposal::Proposal;
use proposals::store::ProposalStore;

fn record(id: u64, title: &str) -> Proposal {
    Proposal {
        id,
        title: title.to_string(),
        description: "d".to_string(),
        approve: 0,
        reject: 0,
        pass: 0,
        created_at: 0,
        owner: CallerId(vec![1]),
        voted: Vec::new(),
        has_ended: false,
    }
}

#[test]
fn allocator_counts_up_from_zero() {
    let mut alloc = IdAllocator::new();
    assert_eq!(alloc.current(), 0);
    assert_eq!(alloc.next_id(), 0);
    assert_eq!(alloc.next_id(), 1);
    assert_eq!(alloc.next_id(), 2);
    assert_eq!(alloc.current(), 3);
}

#[test]
fn two_allocators_do_not_share_a_counter() {
    let mut a = IdAllocator::new();
    let mut b = IdAllocator::new();
    assert_eq!(a.next_id(), 0);
    assert_eq!(b.next_id(), 0);
    assert_eq!(a.next_id(), 1);
}

#[test]
fn store_returns_copies_and_replaces_at_same_id() {
    let mut store = ProposalStore::new();
    assert!(store.get(7).is_none());
    store.insert_or_replace(record(7, "first"));
    let got = store.get(7).unwrap();
    assert_eq!(got.title, "first");
    store.insert_or_replace(record(7, "second"));
    let got = store.get(7).unwrap();
    assert_eq!(got.title, "second");
    let all = store.list_all();
    assert_eq!(all.len(), 1);
    assert_eq!(all[0].id, 7);
    assert_eq!(all[0].title, "second");
}

#[test]
fn store_lists_each_record_exactly_once() {
    let mut store = ProposalStore::new();
    store.insert_or_replace(record(3, "c"));
    store.insert_or_replace(record(1, "a"));
    store.insert_or_replace(record(2, "b"));
    store.insert_or_replace(record(1, "a2"));
    let mut ids: Vec<u64> = store.list_all().iter().map(|p| p.id).collect();
    ids.sort();
    assert_eq!(ids, vec![1, 2, 3]);
}

#[test]
fn proposal_clone_copies_every_field() {
    let mut p = record(9, "title");
    p.approve = 4;
    p.has_ended = true;
    p.voted = vec![CallerId(vec![5, 6])];
    let q = p.clone();
    assert_eq!(q.id, 9);
    assert_eq!(q.title, "title");
    assert_eq!(q.approve, 4);
    assert!(q.has_ended);
    assert_eq!(q.voted.len(), 1);
    assert!(q.voted[0].equals(&p.voted[0]));
}
