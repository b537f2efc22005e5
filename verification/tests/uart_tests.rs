use mtrap::uart::{
    needs_carriage_return, rx_has_data, tx_is_full, Uartlite, CTRL_REG_OFFSET, RX_FIFO_OFFSET,
    STAT_REG_OFFSET, TX_FIFO_OFFSET,
};

#[test]
fn register_addresses_follow_the_platform_shift() {
    let u = Uartlite::new(0x6000_0000, 0);
    assert_eq!(u.reg_addr(RX_FIFO_OFFSET), 0x6000_0000);
    assert_eq!(u.reg_addr(TX_FIFO_OFFSET), 0x6000_0004);
    assert_eq!(u.reg_addr(STAT_REG_OFFSET), 0x6000_0008);
    assert_eq!(u.reg_addr(CTRL_REG_OFFSET), 0x6000_000c);

    let wide = Uartlite::new(0x6000_0000, 2);
    assert_eq!(wide.reg_addr(STAT_REG_OFFSET), 0x6000_0020);
}

#[test]
fn status_bits_decode() {
    assert!(rx_has_data(0x01));
    assert!(rx_has_data(0x0F));
    assert!(!rx_has_data(0xFE));
    assert!(tx_is_full(0x08));
    assert!(!tx_is_full(0xF7));
}

#[test]
fn line_feed_takes_a_carriage_return_first() {
    assert!(needs_carriage_return(b'\n'));
    assert!(!needs_carriage_return(b'\r'));
    assert!(!needs_carriage_return(b'a'));
}
