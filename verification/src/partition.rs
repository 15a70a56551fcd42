//! Decoding of raw partition-table records: numeric type and subtype codes,
//! as the device's partition table stores them, resolved to labeled variants.
//! Decoding is total: a code outside the known tables degrades to an explicit
//! unknown variant, never to a failure.

use vstd::prelude::*;

verus! {

pub const TYPE_APP: u32 = 0x00;

pub const TYPE_DATA: u32 = 0x01;

pub const TYPE_ANY: u32 = 0xff;

pub const SUBTYPE_APP_FACTORY: u32 = 0x00;

pub const SUBTYPE_APP_OTA_MIN: u32 = 0x10;

pub const SUBTYPE_APP_OTA_MAX: u32 = 0x20;

pub const SUBTYPE_DATA_PHY: u32 = 0x01;

pub const SUBTYPE_DATA_NVS: u32 = 0x02;

pub const SUBTYPE_DATA_COREDUMP: u32 = 0x03;

pub const SUBTYPE_DATA_NVS_KEYS: u32 = 0x04;

pub const SUBTYPE_DATA_EFUSE_EM: u32 = 0x05;

pub const SUBTYPE_DATA_UNDEFINED: u32 = 0x06;

pub const SUBTYPE_DATA_ESPHTTPD: u32 = 0x80;

pub const SUBTYPE_DATA_FAT: u32 = 0x81;

pub const SUBTYPE_DATA_SPIFFS: u32 = 0x82;

/// One record as the external partition table yields it: raw numeric codes
/// and the flash byte range, untouched.
#[derive(Clone, Copy, Debug, PartialEq, Eq, Structural)]
pub struct RawRecord {
    pub type_code: u32,
    pub subtype_code: u32,
    pub address: u32,
    pub size: u32,
}

/// The resolved partition type.
#[derive(Clone, Copy, Debug, PartialEq, Eq, Structural)]
pub enum PartitionKind {
    App,
    Data,
    Any,
    Unknown,
}

/// The resolved partition subtype. An over-the-air application slot keeps its
/// ordinal within the slot range, though its label collapses to plain "OTA".
#[derive(Clone, Copy, Debug, PartialEq, Eq, Structural)]
pub enum PartitionSubkind {
    Factory,
    Ota(u32),
    DataCoredump,
    DataFat,
    DataEfuseEm,
    DataEspHttpd,
    DataNvs,
    DataNvsKeys,
    DataPhy,
    DataSpiffs,
    DataUndefined,
    Unknown,
}

/// A decoded record: resolved kind and subkind, address and size passed
/// through as raw integers (formatting happens at report time).
#[derive(Clone, Copy, Debug, PartialEq, Eq, Structural)]
pub struct PartitionRecord {
    pub kind: PartitionKind,
    pub subkind: PartitionSubkind,
    pub address: u32,
    pub size: u32,
}

pub open spec fn decode_kind_spec(type_code: u32) -> PartitionKind {
    if type_code == TYPE_APP {
        PartitionKind::App
    } else if type_code == TYPE_DATA {
        PartitionKind::Data
    } else if type_code == TYPE_ANY {
        PartitionKind::Any
    } else {
        PartitionKind::Unknown
    }
}

pub open spec fn decode_subkind_spec(type_code: u32, subtype_code: u32) -> PartitionSubkind {
    if type_code == TYPE_APP {
        if subtype_code == SUBTYPE_APP_FACTORY {
            PartitionSubkind::Factory
        } else if SUBTYPE_APP_OTA_MIN <= subtype_code && subtype_code <= SUBTYPE_APP_OTA_MAX {
            PartitionSubkind::Ota((subtype_code - SUBTYPE_APP_OTA_MIN) as u32)
        } else {
            PartitionSubkind::Unknown
        }
    } else if type_code == TYPE_DATA {
        if subtype_code == SUBTYPE_DATA_COREDUMP {
            PartitionSubkind::DataCoredump
        } else if subtype_code == SUBTYPE_DATA_FAT {
            PartitionSubkind::DataFat
        } else if subtype_code == SUBTYPE_DATA_EFUSE_EM {
            PartitionSubkind::DataEfuseEm
        } else if subtype_code == SUBTYPE_DATA_ESPHTTPD {
            PartitionSubkind::DataEspHttpd
        } else if subtype_code == SUBTYPE_DATA_NVS {
            PartitionSubkind::DataNvs
        } else if subtype_code == SUBTYPE_DATA_NVS_KEYS {
            PartitionSubkind::DataNvsKeys
        } else if subtype_code == SUBTYPE_DATA_PHY {
            PartitionSubkind::DataPhy
        } else if subtype_code == SUBTYPE_DATA_SPIFFS {
            PartitionSubkind::DataSpiffs
        } else if subtype_code == SUBTYPE_DATA_UNDEFINED {
            PartitionSubkind::DataUndefined
        } else {
            PartitionSubkind::Unknown
        }
    } else {
        PartitionSubkind::Unknown
    }
}

pub open spec fn decode_record_spec(raw: RawRecord) -> PartitionRecord {
    PartitionRecord {
        kind: decode_kind_spec(raw.type_code),
        subkind: decode_subkind_spec(raw.type_code, raw.subtype_code),
        address: raw.address,
        size: raw.size,
    }
}

pub fn decode_kind(type_code: u32) -> (kind: PartitionKind)
    ensures
        kind == decode_kind_spec(type_code),
{
    if type_code == TYPE_APP {
        PartitionKind::App
    } else if type_code == TYPE_DATA {
        PartitionKind::Data
    } else if type_code == TYPE_ANY {
        PartitionKind::Any
    } else {
        PartitionKind::Unknown
    }
}

pub fn decode_subkind(type_code: u32, subtype_code: u32) -> (subkind: PartitionSubkind)
    ensures
        subkind == decode_subkind_spec(type_code, subtype_code),
{
    if type_code == TYPE_APP {
        if subtype_code == SUBTYPE_APP_FACTORY {
            PartitionSubkind::Factory
        } else if SUBTYPE_APP_OTA_MIN <= subtype_code && subtype_code <= SUBTYPE_APP_OTA_MAX {
            PartitionSubkind::Ota(subtype_code - SUBTYPE_APP_OTA_MIN)
        } else {
            PartitionSubkind::Unknown
        }
    } else if type_code == TYPE_DATA {
        if subtype_code == SUBTYPE_DATA_COREDUMP {
            PartitionSubkind::DataCoredump
        } else if subtype_code == SUBTYPE_DATA_FAT {
            PartitionSubkind::DataFat
        } else if subtype_code == SUBTYPE_DATA_EFUSE_EM {
            PartitionSubkind::DataEfuseEm
        } else if subtype_code == SUBTYPE_DATA_ESPHTTPD {
            PartitionSubkind::DataEspHttpd
        } else if subtype_code == SUBTYPE_DATA_NVS {
            PartitionSubkind::DataNvs
        } else if subtype_code == SUBTYPE_DATA_NVS_KEYS {
            PartitionSubkind::DataNvsKeys
        } else if subtype_code == SUBTYPE_DATA_PHY {
            PartitionSubkind::DataPhy
        } else if subtype_code == SUBTYPE_DATA_SPIFFS {
            PartitionSubkind::DataSpiffs
        } else if subtype_code == SUBTYPE_DATA_UNDEFINED {
            PartitionSubkind::DataUndefined
        } else {
            PartitionSubkind::Unknown
        }
    } else {
        PartitionSubkind::Unknown
    }
}

/// Decodes one raw record. Total over the whole input domain: unrecognized
/// codes resolve to the unknown variants, and address and size pass through.
pub fn decode_record(raw: &RawRecord) -> (rec: PartitionRecord)
    ensures
        rec == decode_record_spec(*raw),
{
    PartitionRecord {
        kind: decode_kind(raw.type_code),
        subkind: decode_subkind(raw.type_code, raw.subtype_code),
        address: raw.address,
        size: raw.size,
    }
}

/// The display label of a resolved kind.
pub open spec fn kind_label_spec(kind: PartitionKind) -> Seq<char> {
    match kind {
        PartitionKind::App => "APP"@,
        PartitionKind::Data => "DATA"@,
        PartitionKind::Any => "ANY"@,
        PartitionKind::Unknown => "ERR_UNKNOWN"@,
    }
}

pub fn kind_label(kind: PartitionKind) -> (label: &'static str)
    ensures
        label@ == kind_label_spec(kind),
{
    match kind {
        PartitionKind::App => "APP",
        PartitionKind::Data => "DATA",
        PartitionKind::Any => "ANY",
        PartitionKind::Unknown => "ERR_UNKNOWN",
    }
}

/// The display label of a resolved subkind. Every over-the-air slot shares
/// the one "OTA" label, whatever its ordinal.
pub open spec fn subkind_label_spec(subkind: PartitionSubkind) -> Seq<char> {
    match subkind {
        PartitionSubkind::Factory => "FACTORY"@,
        PartitionSubkind::Ota(_) => "OTA"@,
        PartitionSubkind::DataCoredump => "DATA COREDUMP"@,
        PartitionSubkind::DataFat => "DATA FAT"@,
        PartitionSubkind::DataEfuseEm => "DATA EFUSE EM"@,
        PartitionSubkind::DataEspHttpd => "DATA ESPHTTPD"@,
        PartitionSubkind::DataNvs => "DATA NVS"@,
        PartitionSubkind::DataNvsKeys => "DATA NVS KEYS"@,
        PartitionSubkind::DataPhy => "DATA PHY"@,
        PartitionSubkind::DataSpiffs => "DATA SPIFFS"@,
        PartitionSubkind::DataUndefined => "DATA UNDEFINED"@,
        PartitionSubkind::Unknown => "UNKNOWN"@,
    }
}

pub fn subkind_label(subkind: PartitionSubkind) -> (label: &'static str)
    ensures
        label@ == subkind_label_spec(subkind),
{
    match subkind {
        PartitionSubkind::Factory => "FACTORY",
        PartitionSubkind::Ota(_) => "OTA",
        PartitionSubkind::DataCoredump => "DATA COREDUMP",
        PartitionSubkind::DataFat => "DATA FAT",
        PartitionSubkind::DataEfuseEm => "DATA EFUSE EM",
        PartitionSubkind::DataEspHttpd => "DATA ESPHTTPD",
        PartitionSubkind::DataNvs => "DATA NVS",
        PartitionSubkind::DataNvsKeys => "DATA NVS KEYS",
        PartitionSubkind::DataPhy => "DATA PHY",
        PartitionSubkind::DataSpiffs => "DATA SPIFFS",
        PartitionSubkind::DataUndefined => "DATA UNDEFINED",
        PartitionSubkind::Unknown => "UNKNOWN",
    }
}

/// Whether a type code is in the known table.
pub open spec fn known_type(type_code: u32) -> bool {
    type_code == TYPE_APP || type_code == TYPE_DATA || type_code == TYPE_ANY
}

/// Whether a (type, subtype) pair is in the known subtype tables.
pub open spec fn known_pair(type_code: u32, subtype_code: u32) -> bool {
    if type_code == TYPE_APP {
        subtype_code == SUBTYPE_APP_FACTORY || (SUBTYPE_APP_OTA_MIN <= subtype_code
            && subtype_code <= SUBTYPE_APP_OTA_MAX)
    } else if type_code == TYPE_DATA {
        subtype_code == SUBTYPE_DATA_COREDUMP || subtype_code == SUBTYPE_DATA_FAT || subtype_code
            == SUBTYPE_DATA_EFUSE_EM || subtype_code == SUBTYPE_DATA_ESPHTTPD || subtype_code
            == SUBTYPE_DATA_NVS || subtype_code == SUBTYPE_DATA_NVS_KEYS || subtype_code
            == SUBTYPE_DATA_PHY || subtype_code == SUBTYPE_DATA_SPIFFS || subtype_code
            == SUBTYPE_DATA_UNDEFINED
    } else {
        false
    }
}

/// Decoding is total and degrades, never fails: a code outside the known
/// tables resolves to the unknown fallback variant, and exactly those codes
/// do.
pub proof fn lemma_decoder_total(type_code: u32, subtype_code: u32)
    ensures
        decode_kind_spec(type_code) == PartitionKind::Unknown <==> !known_type(type_code),
        decode_subkind_spec(type_code, subtype_code) == PartitionSubkind::Unknown <==> !known_pair(
            type_code,
            subtype_code,
        ),
{
}

/// Every subtype code in the over-the-air slot range, whichever its ordinal,
/// decodes under the application kind to a subkind labeled plain "OTA".
pub proof fn lemma_ota_slots_share_label(subtype_code: u32)
    requires
        SUBTYPE_APP_OTA_MIN <= subtype_code <= SUBTYPE_APP_OTA_MAX,
    ensures
        subkind_label_spec(decode_subkind_spec(TYPE_APP, subtype_code)) == "OTA"@,
        decode_subkind_spec(TYPE_APP, subtype_code) == (PartitionSubkind::Ota(
            (subtype_code - SUBTYPE_APP_OTA_MIN) as u32,
        )),
{
}

} // verus!
