use pinyin_parser::cursor::VecAndIndex;

#[test]
fn a_new_cursor_stands_at_the_front() {
    let c = VecAndIndex::new(vec![10u8, 20, 30]);
    assert_eq!(c.position(), 0);
    assert_eq!(c.items(), &vec![10u8, 20, 30]);
}

#[test]
fn reading_hands_out_the_items_in_order() {
    let mut c = VecAndIndex::new(vec![10u8, 20, 30]);
    assert_eq!(c.read_next_token(), Some(&10));
    assert_eq!(c.position(), 1);
    assert_eq!(c.read_next_token(), Some(&20));
    assert_eq!(c.read_next_token(), Some(&30));
    assert_eq!(c.position(), 3);
}

#[test]
fn reading_at_the_end_gives_nothing_and_stays() {
    let mut c = VecAndIndex::new(vec![7u8]);
    assert_eq!(c.read_next_token(), Some(&7));
    assert_eq!(c.read_next_token(), None);
    assert_eq!(c.position(), 1);
    assert_eq!(c.read_next_token(), None);
    assert_eq!(c.position(), 1);
}

#[test]
fn reading_an_empty_cursor_gives_nothing() {
    let mut c: VecAndIndex<u8> = VecAndIndex::new(Vec::new());
    assert_eq!(c.read_next_token(), None);
    assert_eq!(c.position(), 0);
}

#[test]
fn backtrack_undoes_the_last_read() {
    let mut c = VecAndIndex::new(vec![10u8, 20, 30]);
    assert_eq!(c.read_next_token(), Some(&10));
    assert_eq!(c.read_next_token(), Some(&20));
    c.backtrack();
    assert_eq!(c.position(), 1);
    assert_eq!(c.read_next_token(), Some(&20));
    assert_eq!(c.items(), &vec![10u8, 20, 30]);
}
