use partition_report::partition::{
    decode_kind, decode_record, decode_subkind, kind_label, subkind_label, PartitionKind,
    PartitionSubkind, RawRecord, SUBTYPE_APP_FACTORY, SUBTYPE_APP_OTA_MAX, SUBTYPE_APP_OTA_MIN,
    SUBTYPE_DATA_COREDUMP, SUBTYPE_DATA_EFUSE_EM, SUBTYPE_DATA_ESPHTTPD, SUBTYPE_DATA_FAT,
    SUBTYPE_DATA_NVS, SUBTYPE_DATA_NVS_KEYS, SUBTYPE_DATA_PHY, SUBTYPE_DATA_SPIFFS,
    SUBTYPE_DATA_UNDEFINED, TYPE_ANY, TYPE_APP, TYPE_DATA,
};

#[test]
fn kinds_decode() {
    assert_eq!(decode_kind(TYPE_APP), PartitionKind::App);
    assert_eq!(decode_kind(TYPE_DATA), PartitionKind::Data);
    assert_eq!(decode_kind(TYPE_ANY), PartitionKind::Any);
}

#[test]
fn unknown_type_degrades() {
    assert_eq!(decode_kind(7), PartitionKind::Unknown);
    assert_eq!(decode_subkind(7, SUBTYPE_DATA_NVS), PartitionSubkind::Unknown);
    let rec = decode_record(&RawRecord { type_code: 0x42, subtype_code: 0x42, address: 0, size: 0 });
    assert_eq!(rec.kind, PartitionKind::Unknown);
    assert_eq!(rec.subkind, PartitionSubkind::Unknown);
    assert_eq!(kind_label(PartitionKind::Unknown), "ERR_UNKNOWN");
    assert_eq!(subkind_label(PartitionSubkind::Unknown), "UNKNOWN");
}

#[test]
fn unknown_subtype_degrades() {
    assert_eq!(decode_subkind(TYPE_APP, 0x30), PartitionSubkind::Unknown);
    assert_eq!(decode_subkind(TYPE_DATA, 0x77), PartitionSubkind::Unknown);
    // The data table has no entry at zero: the pair degrades even though the
    // same subtype code is factory under the application kind.
    assert_eq!(decode_subkind(TYPE_DATA, 0x00), PartitionSubkind::Unknown);
    // The wildcard kind has no subtype table at all.
    assert_eq!(decode_subkind(TYPE_ANY, SUBTYPE_DATA_NVS), PartitionSubkind::Unknown);
}

#[test]
fn factory_decodes() {
    assert_eq!(decode_subkind(TYPE_APP, SUBTYPE_APP_FACTORY), PartitionSubkind::Factory);
    assert_eq!(subkind_label(PartitionSubkind::Factory), "FACTORY");
}

#[test]
fn ota_slots_share_one_label() {
    let lo = decode_subkind(TYPE_APP, SUBTYPE_APP_OTA_MIN);
    let mid = decode_subkind(TYPE_APP, SUBTYPE_APP_OTA_MIN + 6);
    let hi = decode_subkind(TYPE_APP, SUBTYPE_APP_OTA_MAX);
    assert_eq!(lo, PartitionSubkind::Ota(0));
    assert_eq!(mid, PartitionSubkind::Ota(6));
    assert_eq!(hi, PartitionSubkind::Ota(SUBTYPE_APP_OTA_MAX - SUBTYPE_APP_OTA_MIN));
    assert_eq!(subkind_label(lo), "OTA");
    assert_eq!(subkind_label(mid), "OTA");
    assert_eq!(subkind_label(hi), "OTA");
}

#[test]
fn data_subtypes_decode() {
    let table = [
        (SUBTYPE_DATA_COREDUMP, PartitionSubkind::DataCoredump, "DATA COREDUMP"),
        (SUBTYPE_DATA_FAT, PartitionSubkind::DataFat, "DATA FAT"),
        (SUBTYPE_DATA_EFUSE_EM, PartitionSubkind::DataEfuseEm, "DATA EFUSE EM"),
        (SUBTYPE_DATA_ESPHTTPD, PartitionSubkind::DataEspHttpd, "DATA ESPHTTPD"),
        (SUBTYPE_DATA_NVS, PartitionSubkind::DataNvs, "DATA NVS"),
        (SUBTYPE_DATA_NVS_KEYS, PartitionSubkind::DataNvsKeys, "DATA NVS KEYS"),
        (SUBTYPE_DATA_PHY, PartitionSubkind::DataPhy, "DATA PHY"),
        (SUBTYPE_DATA_SPIFFS, PartitionSubkind::DataSpiffs, "DATA SPIFFS"),
        (SUBTYPE_DATA_UNDEFINED, PartitionSubkind::DataUndefined, "DATA UNDEFINED"),
    ];
    for (code, subkind, label) in table {
        assert_eq!(decode_subkind(TYPE_DATA, code), subkind);
        assert_eq!(subkind_label(subkind), label);
    }
}

#[test]
fn record_passes_address_and_size_through() {
    let raw = RawRecord { type_code: TYPE_DATA, subtype_code: SUBTYPE_DATA_PHY, address: 0xf000, size: 0x1000 };
    let rec = decode_record(&raw);
    assert_eq!(rec.address, 0xf000);
    assert_eq!(rec.size, 0x1000);
}
