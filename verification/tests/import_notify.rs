use fuel_core::block::{header_id, BlockHeader, SealedBlock};
use fuel_core::importer::{BackpressurePolicy, BlockImporter, ImportError, RecvError};
use fuel_core::status::TxStatus;

fn block(height: u32, previous_id: u64) -> SealedBlock {
    let header = BlockHeader { height, previous_id, time: 1000 + height as u64, producer: 42 };
    SealedBlock::seal(header, vec![])
}

fn statuses() -> Vec<TxStatus> {
    vec![]
}

#[test]
fn import_must_be_strictly_consecutive() {
    let genesis = 0xabcd;
    let mut imp = BlockImporter::new(0, genesis);
    assert_eq!(imp.import(block(2, genesis), statuses()), Err(ImportError::NonConsecutiveHeight));
    assert_eq!(imp.import(block(1, 999), statuses()), Err(ImportError::BrokenChain));
    assert_eq!(imp.chain.len(), 0);
    assert!(imp.import(block(1, genesis), statuses()).is_ok());
    // Replaying the same height is refused.
    assert_eq!(imp.import(block(1, genesis), statuses()), Err(ImportError::NonConsecutiveHeight));
    assert_eq!(imp.height, 1);
    assert_eq!(imp.chain.len(), 1);
}

#[test]
fn subscriber_sees_every_block_from_subscription_in_order() {
    let genesis = 0xabcd;
    let mut imp = BlockImporter::new(0, genesis);
    let sub = imp.subscribe(BackpressurePolicy::Unbounded);
    let mut prev = genesis;
    for h in 1..=5u32 {
        let b = block(h, prev);
        prev = b.seal;
        imp.import(b, statuses()).unwrap();
    }
    for h in 1..=5u32 {
        let n = imp.try_recv(sub).unwrap().expect("notification");
        assert_eq!(n.header.height, h);
    }
    assert!(imp.try_recv(sub).unwrap().is_none());
}

#[test]
fn late_subscriber_gets_no_replay() {
    let genesis = 0xabcd;
    let mut imp = BlockImporter::new(0, genesis);
    let b1 = block(1, genesis);
    let id1 = b1.seal;
    imp.import(b1, statuses()).unwrap();
    let sub = imp.subscribe(BackpressurePolicy::Unbounded);
    assert!(imp.try_recv(sub).unwrap().is_none());
    imp.import(block(2, id1), statuses()).unwrap();
    let n = imp.try_recv(sub).unwrap().expect("only the new block");
    assert_eq!(n.header.height, 2);
    assert!(imp.try_recv(sub).unwrap().is_none());
}

#[test]
fn slow_bounded_subscriber_gets_gap_error_never_silent_skip() {
    let genesis = 0xabcd;
    let mut imp = BlockImporter::new(0, genesis);
    let sub = imp.subscribe(BackpressurePolicy::DropOldest { bound: 1 });
    let b1 = block(1, genesis);
    let id1 = b1.seal;
    imp.import(b1, statuses()).unwrap();
    imp.import(block(2, id1), statuses()).unwrap();
    // Block 1 was dropped on overflow: the gap is surfaced first ...
    assert!(matches!(imp.try_recv(sub), Err(RecvError::Gap)));
    // ... then the stream resumes at the oldest retained block.
    let n = imp.try_recv(sub).unwrap().expect("retained block");
    assert_eq!(n.header.height, 2);
    assert!(imp.try_recv(sub).unwrap().is_none());
}

#[test]
fn two_subscribers_are_independent() {
    let genesis = 0xabcd;
    let mut imp = BlockImporter::new(0, genesis);
    let fast = imp.subscribe(BackpressurePolicy::Unbounded);
    let slow = imp.subscribe(BackpressurePolicy::DropOldest { bound: 10 });
    let b1 = block(1, genesis);
    let id1 = b1.seal;
    imp.import(b1, statuses()).unwrap();
    assert_eq!(imp.try_recv(fast).unwrap().expect("block").header.height, 1);
    imp.import(block(2, id1), statuses()).unwrap();
    assert_eq!(imp.try_recv(fast).unwrap().expect("block").header.height, 2);
    assert_eq!(imp.try_recv(slow).unwrap().expect("block").header.height, 1);
    assert_eq!(imp.try_recv(slow).unwrap().expect("block").header.height, 2);
}

#[test]
fn seal_binds_the_header() {
    let header = BlockHeader { height: 3, previous_id: 77, time: 123, producer: 42 };
    let b = SealedBlock::seal(header, vec![]);
    assert_eq!(b.seal, header_id(&b.header));
    let other = BlockHeader { height: 4, previous_id: 77, time: 123, producer: 42 };
    assert_ne!(b.seal, header_id(&other));
}
