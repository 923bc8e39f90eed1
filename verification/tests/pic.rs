use moonlight_os::pic::ChainedPics;
use moonlight_os::port::PortWrite;

fn w(port: u16, value: u8) -> PortWrite {
    PortWrite { port, value }
}

#[test]
fn master_vector_is_acknowledged_at_the_master_alone() {
    let pics = ChainedPics::new(32, 40);
    let _ = pics.initialize(0xFB, 0xFF);
    let writes = pics.notify_end_of_interrupt(33);
    assert_eq!(writes, vec![w(0x20, 0x20)]);
    assert!(writes.iter().all(|write| write.port != 0xA0));
}

#[test]
fn slave_vector_is_acknowledged_at_the_slave_first() {
    let pics = ChainedPics::new(32, 40);
    for vector in 40u8..48 {
        assert_eq!(
            pics.notify_end_of_interrupt(vector),
            vec![w(0xA0, 0x20), w(0x20, 0x20)]
        );
    }
}

#[test]
fn foreign_vector_is_not_acknowledged() {
    let pics = ChainedPics::new(32, 40);
    assert_eq!(pics.notify_end_of_interrupt(31), vec![]);
    assert_eq!(pics.notify_end_of_interrupt(48), vec![]);
    assert_eq!(pics.notify_end_of_interrupt(0), vec![]);
    assert_eq!(pics.notify_end_of_interrupt(255), vec![]);
}

#[test]
fn handles_interrupt_covers_sixteen_vectors_from_the_offset() {
    let pics = ChainedPics::new(32, 40);
    for vector in 0u8..=255 {
        assert_eq!(pics.handles_interrupt(vector), (32..48).contains(&vector));
    }
    assert!(!pics.handles_interrupt(31));
    assert!(pics.handles_interrupt(32));
    assert!(pics.handles_interrupt(39));
    assert!(pics.handles_interrupt(40));
    assert!(pics.handles_interrupt(47));
    assert!(!pics.handles_interrupt(48));
}

#[test]
fn handles_interrupt_does_not_wrap_at_the_top() {
    let pics = ChainedPics::new(240, 248);
    assert!(pics.handles_interrupt(255));
    assert!(pics.handles_interrupt(248));
    assert!(pics.handles_interrupt(240));
    assert!(!pics.handles_interrupt(239));
    assert!(!pics.handles_interrupt(0));
    let high = ChainedPics::new(250, 252);
    assert!(high.handles_interrupt(255));
    assert!(!high.handles_interrupt(1));
    assert!(!high.handles_interrupt(249));
}

#[test]
fn initialize_sends_the_four_bytes_and_restores_the_masks() {
    let pics = ChainedPics::new(32, 40);
    assert_eq!(pics.mask_ports(), (0x21, 0xA1));
    let writes = pics.initialize(0xB8, 0x8E);
    let expected = vec![
        w(0x20, 0x11),
        w(0x80, 0),
        w(0xA0, 0x11),
        w(0x80, 0),
        w(0x21, 32),
        w(0x80, 0),
        w(0xA1, 40),
        w(0x80, 0),
        w(0x21, 4),
        w(0x80, 0),
        w(0xA1, 2),
        w(0x80, 0),
        w(0x21, 0x01),
        w(0x80, 0),
        w(0xA1, 0x01),
        w(0x80, 0),
        w(0x21, 0xB8),
        w(0xA1, 0x8E),
    ];
    assert_eq!(writes, expected);
}

#[test]
fn overlapping_ranges_acknowledge_both_controllers() {
    let pics = ChainedPics::new(32, 36);
    assert_eq!(pics.notify_end_of_interrupt(33), vec![w(0x20, 0x20)]);
    assert_eq!(
        pics.notify_end_of_interrupt(37),
        vec![w(0xA0, 0x20), w(0x20, 0x20)]
    );
    assert_eq!(
        pics.notify_end_of_interrupt(42),
        vec![w(0xA0, 0x20), w(0x20, 0x20)]
    );
}
