//! What the recorder appends to the store of accepted pairs.
//!
//! The store is an append-only table. The library decides which lines an
//! append writes and names the columns; writing them is left to the caller,
//! who owns the store.

use crate::record::PairRecord;
use vstd::prelude::*;

verus! {

/// Number of columns of the table.
pub const COLUMN_COUNT: usize = 9;

/// One line of the table.
#[derive(Clone, Debug, PartialEq, Eq)]
pub enum StoreLine {
    /// The line that names the columns.
    Header,
    /// The line of one accepted pair.
    Entry(PairRecord),
}

/// The store as the recorder sees it: whether it has been created, and the
/// lines written to it so far.
pub struct Store {
    pub exists: bool,
    pub lines: Seq<StoreLine>,
}

/// The names of the columns, in the order of the fields of a record.
pub open spec fn spec_column_names() -> Seq<Seq<char>> {
    seq![
        "token1"@,
        "token1_symbol"@,
        "token0"@,
        "token0_symbol"@,
        "total_supply"@,
        "pair"@,
        "buy_tax"@,
        "sell_tax"@,
        "dynamic_tax_detected"@,
    ]
}

/// The names that a list of string slices holds.
pub open spec fn names_of(names: Seq<&'static str>) -> Seq<Seq<char>> {
    names.map_values(|name: &'static str| name@)
}

/// The lines that one append writes: the header first where the store does
/// not exist yet, then the line of the record.
pub open spec fn spec_lines_for(store_exists: bool, record: PairRecord) -> Seq<StoreLine> {
    if store_exists {
        seq![StoreLine::Entry(record)]
    } else {
        seq![StoreLine::Header, StoreLine::Entry(record)]
    }
}

/// The store after one append.
pub open spec fn appended(store: Store, record: PairRecord) -> Store {
    Store { exists: true, lines: store.lines + spec_lines_for(store.exists, record) }
}

/// The store after the appends of `records`, in order.
pub open spec fn appended_all(store: Store, records: Seq<PairRecord>) -> Store
    decreases records.len(),
{
    if records.len() == 0 {
        store
    } else {
        appended(appended_all(store, records.drop_last()), records.last())
    }
}

/// The lines of a list of records, in order.
pub open spec fn entries(records: Seq<PairRecord>) -> Seq<StoreLine> {
    records.map_values(|record: PairRecord| StoreLine::Entry(record))
}

/// The number of header lines among `lines`.
pub open spec fn header_count(lines: Seq<StoreLine>) -> nat
    decreases lines.len(),
{
    if lines.len() == 0 {
        0
    } else {
        header_count(lines.drop_last()) + if lines.last() is Header {
            1nat
        } else {
            0nat
        }
    }
}

/// The store that has not been created.
pub open spec fn missing_store() -> Store {
    Store { exists: false, lines: Seq::empty() }
}

/// The names of the columns, in order.
pub fn column_names() -> (r: Vec<&'static str>)
    ensures
        names_of(r@) == spec_column_names(),
        r@.len() == COLUMN_COUNT,
{
    let mut names: Vec<&'static str> = Vec::new();
    names.push("token1");
    names.push("token1_symbol");
    names.push("token0");
    names.push("token0_symbol");
    names.push("total_supply");
    names.push("pair");
    names.push("buy_tax");
    names.push("sell_tax");
    names.push("dynamic_tax_detected");
    assert(names_of(names@) =~= spec_column_names());
    names
}

/// The lines that the append of `record` writes to a store.
pub fn lines_for(store_exists: bool, record: PairRecord) -> (r: Vec<StoreLine>)
    ensures
        r@ == spec_lines_for(store_exists, record),
{
    let mut lines: Vec<StoreLine> = Vec::new();
    if !store_exists {
        lines.push(StoreLine::Header);
    }
    lines.push(StoreLine::Entry(record));
    assert(lines@ =~= spec_lines_for(store_exists, record));
    lines
}

/// Appends to a store that exists add the records' lines and nothing else.
pub proof fn law_existing_store_gets_no_header(store: Store, records: Seq<PairRecord>)
    requires
        store.exists,
    ensures
        appended_all(store, records).exists,
        appended_all(store, records).lines == store.lines + entries(records),
        header_count(appended_all(store, records).lines) == header_count(store.lines),
    decreases records.len(),
{
    if records.len() == 0 {
        assert(store.lines + entries(records) =~= store.lines);
    } else {
        let before = records.drop_last();
        law_existing_store_gets_no_header(store, before);
        let earlier = appended_all(store, before);
        assert(earlier.lines + seq![StoreLine::Entry(records.last())] =~= store.lines + entries(
            records,
        ));
        let lines = appended_all(store, records).lines;
        assert(lines.drop_last() =~= earlier.lines);
    }
}

/// Over any number of appends to a store that did not exist, the header is
/// written exactly once, as the first line, and each record adds one line
/// after it, in the order of the appends.
pub proof fn law_header_is_written_once(records: Seq<PairRecord>)
    requires
        records.len() > 0,
    ensures
        appended_all(missing_store(), records).exists,
        appended_all(missing_store(), records).lines == seq![StoreLine::Header] + entries(records),
        header_count(appended_all(missing_store(), records).lines) == 1,
    decreases records.len(),
{
    let before = records.drop_last();
    let lines = appended_all(missing_store(), records).lines;
    if before.len() == 0 {
        assert(appended_all(missing_store(), before) == missing_store());
        assert(lines =~= seq![StoreLine::Header] + entries(records));
        assert(lines.drop_last() =~= seq![StoreLine::Header]);
        assert(lines.drop_last().drop_last() =~= Seq::<StoreLine>::empty());
        reveal_with_fuel(header_count, 3);
    } else {
        law_header_is_written_once(before);
        let earlier = appended_all(missing_store(), before);
        assert(lines =~= seq![StoreLine::Header] + entries(records));
        assert(lines.drop_last() =~= earlier.lines);
    }
}

} // verus!
