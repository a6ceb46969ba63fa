use pair_vetter::address::Address;
use pair_vetter::record::PairRecord;
use pair_vetter::recorder::{column_names, lines_for, StoreLine, COLUMN_COUNT};

fn record(fill: u8) -> PairRecord {
    PairRecord {
        token1: Address { bytes: [fill; 20] },
        token1_symbol: Some("TKN".to_string()),
        token0: Address::base_asset(),
        token0_symbol: None,
        total_supply: None,
        pair: Address { bytes: [3u8; 20] },
        buy_tax: None,
        sell_tax: Some(1),
        dynamic_tax_detected: Some(6),
    }
}

#[test]
fn columns_stand_in_the_fixed_order() {
    assert_eq!(
        column_names(),
        vec![
            "token1",
            "token1_symbol",
            "token0",
            "token0_symbol",
            "total_supply",
            "pair",
            "buy_tax",
            "sell_tax",
            "dynamic_tax_detected",
        ]
    );
    assert_eq!(COLUMN_COUNT, 9);
}

#[test]
fn first_append_writes_the_header_and_the_record() {
    assert_eq!(lines_for(false, record(1)), vec![StoreLine::Header, StoreLine::Entry(record(1))]);
}

#[test]
fn later_append_writes_the_record_alone() {
    assert_eq!(lines_for(true, record(1)), vec![StoreLine::Entry(record(1))]);
}

#[test]
fn header_is_written_once_over_repeated_appends() {
    let mut store: Vec<StoreLine> = Vec::new();
    let mut exists = false;
    for fill in 1u8..=5 {
        store.extend(lines_for(exists, record(fill)));
        exists = true;
    }
    assert_eq!(store.len(), 6);
    assert_eq!(store[0], StoreLine::Header);
    assert_eq!(store.iter().filter(|line| **line == StoreLine::Header).count(), 1);
    for fill in 1u8..=5 {
        assert_eq!(store[fill as usize], StoreLine::Entry(record(fill)));
    }
}
