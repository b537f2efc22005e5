use mtrap::frame::TrapFrame;

fn writable_indices() -> Vec<u8> {
    let mut v: Vec<u8> = Vec::new();
    for i in 1..32u8 {
        if i != 2 && i != 3 && i != 4 {
            v.push(i);
        }
    }
    v
}

#[test]
fn set_then_get_returns_written_value() {
    for &i in writable_indices().iter() {
        let mut f = TrapFrame::new();
        let v: u64 = 0x1122_3344_5566_0000 + i as u64;
        f.set_register_xi(i, v);
        assert_eq!(f.get_register_xi(i), v);
    }
}

#[test]
fn set_leaves_every_other_register_alone() {
    let mut f = TrapFrame::new();
    for &i in writable_indices().iter() {
        f.set_register_xi(i, 100 + i as u64);
    }
    f.set_register_xi(10, 0xAAAA);
    for &j in writable_indices().iter() {
        if j != 10 {
            assert_eq!(f.get_register_xi(j), 100 + j as u64);
        }
    }
    assert_eq!(f.get_register_xi(10), 0xAAAA);
}

#[test]
fn register_zero_always_reads_zero() {
    let mut f = TrapFrame::new();
    assert_eq!(f.get_register_xi(0), 0);
    for &i in writable_indices().iter() {
        f.set_register_xi(i, u64::MAX);
    }
    assert_eq!(f.get_register_xi(0), 0);
}

#[test]
fn zero_and_pointer_registers_are_not_writable() {
    assert!(!TrapFrame::is_writable(0));
    assert!(!TrapFrame::is_writable(2));
    assert!(!TrapFrame::is_writable(3));
    assert!(!TrapFrame::is_writable(4));
    assert!(!TrapFrame::is_writable(32));
    assert!(!TrapFrame::is_writable(255));
    for &i in writable_indices().iter() {
        assert!(TrapFrame::is_writable(i));
    }
}

#[test]
fn compressed_index_addresses_same_register_as_standard() {
    // compressed 0..7 stand for s0, s1, a0..a5 = standard 8..15
    for c in 0..8u8 {
        let mut f = TrapFrame::new();
        let v: u64 = 0xC0DE_0000 + c as u64;
        f.set_register_xic(c, v);
        assert_eq!(f.get_register_xi(c + 8), v);
        assert_eq!(f.get_register_xic(c), v);

        let mut g = TrapFrame::new();
        g.set_register_xi(c + 8, v + 1);
        assert_eq!(g.get_register_xic(c), v + 1);
    }
}
