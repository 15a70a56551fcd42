use partition_report::partition::{
    decode_record, PartitionKind, PartitionSubkind, RawRecord, SUBTYPE_APP_FACTORY,
    SUBTYPE_DATA_NVS, SUBTYPE_DATA_PHY, TYPE_APP, TYPE_DATA,
};
use partition_report::report::record_report;
use partition_report::responder::greeting_body;
use partition_report::walker::{walk, PartitionTableWalker, WalkerState};

#[test]
fn empty_table_yields_empty_report() {
    let reports = walk(&Vec::new());
    assert!(reports.is_empty());
}

#[test]
fn first_null_exhausts_walker() {
    let mut walker = PartitionTableWalker::new();
    assert_eq!(walker.state, WalkerState::NotStarted);
    walker.feed(None);
    assert_eq!(walker.state, WalkerState::Exhausted);
    assert!(walker.reports.is_empty());
}

#[test]
fn walker_positions_on_each_record() {
    let mut walker = PartitionTableWalker::new();
    walker.feed(Some(RawRecord { type_code: TYPE_APP, subtype_code: SUBTYPE_APP_FACTORY, address: 0x10000, size: 0x100000 }));
    assert_eq!(walker.state, WalkerState::Positioned);
    assert_eq!(walker.reports.len(), 1);
    walker.feed(Some(RawRecord { type_code: TYPE_DATA, subtype_code: SUBTYPE_DATA_NVS, address: 0x9000, size: 0x6000 }));
    assert_eq!(walker.state, WalkerState::Positioned);
    assert_eq!(walker.reports.len(), 2);
    walker.feed(None);
    assert_eq!(walker.state, WalkerState::Exhausted);
    assert_eq!(walker.reports.len(), 2);
}

#[test]
fn walk_decodes_every_record_in_order() {
    let records = vec![
        RawRecord { type_code: TYPE_DATA, subtype_code: SUBTYPE_DATA_NVS, address: 0x9000, size: 0x6000 },
        RawRecord { type_code: TYPE_DATA, subtype_code: SUBTYPE_DATA_PHY, address: 0xf000, size: 0x1000 },
        RawRecord { type_code: TYPE_APP, subtype_code: SUBTYPE_APP_FACTORY, address: 0x10000, size: 0x100000 },
    ];
    let reports = walk(&records);
    assert_eq!(reports.len(), 3);
    for (report, raw) in reports.iter().zip(records.iter()) {
        assert_eq!(*report, decode_record(raw));
    }
    assert_eq!(reports[0].subkind, PartitionSubkind::DataNvs);
    assert_eq!(reports[1].subkind, PartitionSubkind::DataPhy);
    assert_eq!(reports[2].kind, PartitionKind::App);
}

#[test]
fn end_to_end_nvs_record() {
    let raw = RawRecord { type_code: TYPE_DATA, subtype_code: SUBTYPE_DATA_NVS, address: 0x9000, size: 0x6000 };
    let rec = decode_record(&raw);
    assert_eq!(rec.kind, PartitionKind::Data);
    assert_eq!(rec.subkind, PartitionSubkind::DataNvs);
    let lines = record_report(0, &raw);
    assert_eq!(lines.len(), 5);
    assert_eq!(lines[0], "Partition 0");
    assert_eq!(lines[1], "\ttype: 1 DATA");
    assert_eq!(lines[2], "\tsize: 24KB");
    assert_eq!(lines[3], "\tsubtype: DATA NVS");
    assert_eq!(lines[4], "\taddress: 36864");
}

#[test]
fn greeting_echoes_query() {
    assert_eq!(greeting_body("foo=bar"), "Lmao nice: foo=bar");
    assert_eq!(greeting_body(""), "Lmao nice: ");
}
