use rusty_tcp::mailbox::Mailbox;

#[test]
fn new_mailbox_is_empty() {
    let mut m = Mailbox::new();
    assert!(m.is_empty());
    assert_eq!(m.take(), None);
}

#[test]
fn deposit_then_take() {
    let mut m = Mailbox::new();
    m.deposit(vec![1, 2, 3]);
    assert!(!m.is_empty());
    assert_eq!(m.take(), Some(vec![1, 2, 3]));
    assert!(m.is_empty());
}

#[test]
fn second_deposit_overwrites_first() {
    let mut m = Mailbox::new();
    m.deposit(vec![0xaa; 5]);
    m.deposit(vec![0xbb; 2]);
    assert_eq!(m.take(), Some(vec![0xbb; 2]));
    assert_eq!(m.take(), None);
}

#[test]
fn clear_drops_pending_frame() {
    let mut m = Mailbox::new();
    m.deposit(vec![7]);
    m.clear();
    assert!(m.is_empty());
    assert_eq!(m.take(), None);
}
