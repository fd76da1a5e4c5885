use std::collections::HashMap;
use testbed::macswap::{packet, Action, Maps};
use testbed::text::{decimal, hex_byte, owned, replace_char, text_eq};

#[test]
fn decimal_matches_display() {
    for n in [0u64, 7, 9, 10, 42, 100, 9832, 1234567890, u64::MAX] {
        assert_eq!(decimal(n), n.to_string());
    }
}

#[test]
fn hex_bytes() {
    assert_eq!(hex_byte(0), "00");
    assert_eq!(hex_byte(0x0f), "0f");
    assert_eq!(hex_byte(0xab), "ab");
    assert_eq!(hex_byte(255), "ff");
}

#[test]
fn text_helpers() {
    assert_eq!(replace_char("a:b:c", ':', '.'), "a.b.c");
    assert_eq!(replace_char("", ':', '.'), "");
    assert_eq!(owned("x"), "x");
    assert!(text_eq("runner", "runner"));
    assert!(!text_eq("runner", "runners"));
    assert!(!text_eq("a", "b"));
}

#[test]
fn macswap_swaps_and_counts() {
    let mut pkt: Vec<u8> = (0u8..14).collect();
    let mut maps = Maps { count: HashMap::new() };
    maps.count.insert(0, 41);
    assert_eq!(packet(&mut pkt, &mut maps), Action::Continue);
    assert_eq!(pkt, vec![6, 7, 8, 9, 10, 11, 0, 1, 2, 3, 4, 5, 12, 13]);
    assert_eq!(maps.count[&0], 42);
    packet(&mut pkt, &mut maps);
    assert_eq!(pkt, (0u8..14).collect::<Vec<_>>());
    assert_eq!(maps.count[&0], 43);
}

#[test]
fn macswap_leaves_short_packets_and_missing_counter() {
    let mut pkt = vec![1u8; 11];
    let mut maps = Maps { count: HashMap::new() };
    maps.count.insert(0, 5);
    assert_eq!(packet(&mut pkt, &mut maps), Action::Continue);
    assert_eq!(pkt, vec![1u8; 11]);
    assert_eq!(maps.count[&0], 5);
    let mut pkt: Vec<u8> = (0u8..12).collect();
    let mut empty = Maps { count: HashMap::new() };
    packet(&mut pkt, &mut empty);
    assert_eq!(pkt, vec![6, 7, 8, 9, 10, 11, 0, 1, 2, 3, 4, 5]);
    assert!(empty.count.is_empty());
}
