use libcmd::RingBuffer;

fn filled(limit: usize, count: usize) -> RingBuffer<String> {
    let mut buffer = RingBuffer::new(limit);
    for n in 0..count {
        buffer.push(format!("item {n}"));
    }
    buffer
}

#[test]
fn a_new_buffer_is_empty() {
    let buffer: RingBuffer<String> = RingBuffer::new(3);
    assert_eq!(buffer.len(), 0);
    assert!(buffer.to_vec().is_empty());
}

#[test]
fn a_buffer_keeps_all_items_up_to_its_limit() {
    let buffer = filled(3, 3);
    assert_eq!(buffer.len(), 3);
    assert_eq!(buffer.to_vec(), vec!["item 0", "item 1", "item 2"]);
}

#[test]
fn a_full_buffer_drops_its_oldest_item() {
    let buffer = filled(3, 8);
    assert_eq!(buffer.len(), 3);
    assert_eq!(buffer.to_vec(), vec!["item 5", "item 6", "item 7"]);
}

#[test]
fn a_buffer_of_one_keeps_the_newest_item() {
    assert_eq!(filled(1, 4).to_vec(), vec!["item 3"]);
}

#[test]
fn a_buffer_of_none_keeps_nothing() {
    let buffer = filled(0, 4);
    assert_eq!(buffer.len(), 0);
    assert!(buffer.to_vec().is_empty());
}

#[test]
fn a_clone_of_a_buffer_goes_its_own_way() {
    let buffer = filled(2, 3);
    let mut copy = buffer.clone();
    copy.push("new".to_string());
    assert_eq!(buffer.to_vec(), vec!["item 1", "item 2"]);
    assert_eq!(copy.to_vec(), vec!["item 2", "new"]);
}
