use sonora::batch::BatchStep;
use sonora::batch::OpenBatcher;

fn strings(items: &[&str]) -> Vec<String> {
    items.iter().map(|s| s.to_string()).collect()
}

fn delivered(step: BatchStep) -> Option<Vec<String>> {
    match step {
        BatchStep::Settle => None,
        BatchStep::Deliver(batch) => Some(batch),
    }
}

#[test]
fn a_single_hand_off_is_delivered_after_one_quiet_period() {
    let mut batcher = OpenBatcher::new();
    batcher.received(strings(&["a.mp3"]));
    assert_eq!(delivered(batcher.settle()), Some(strings(&["a.mp3"])));
}

#[test]
fn a_burst_is_delivered_as_one_batch_in_order() {
    let mut batcher = OpenBatcher::new();
    batcher.received(strings(&["a.mp3"]));
    batcher.drained(strings(&["b.mp3"]));
    batcher.drained(strings(&["c.mp3", "d.mp3"]));
    assert_eq!(delivered(batcher.settle()), None);
    batcher.drained(strings(&["e.mp3"]));
    assert_eq!(delivered(batcher.settle()), None);
    assert_eq!(
        delivered(batcher.settle()),
        Some(strings(&["a.mp3", "b.mp3", "c.mp3", "d.mp3", "e.mp3"]))
    );
}

#[test]
fn an_empty_hand_off_still_extends_the_burst() {
    let mut batcher = OpenBatcher::new();
    batcher.received(strings(&["a.mp3"]));
    batcher.drained(Vec::new());
    assert_eq!(delivered(batcher.settle()), None);
    assert_eq!(delivered(batcher.settle()), Some(strings(&["a.mp3"])));
}

#[test]
fn batches_do_not_mix() {
    let mut batcher = OpenBatcher::new();
    batcher.received(strings(&["a.mp3"]));
    assert_eq!(delivered(batcher.settle()), Some(strings(&["a.mp3"])));
    batcher.received(strings(&["b.mp3"]));
    assert_eq!(delivered(batcher.settle()), Some(strings(&["b.mp3"])));
}
