//! The report layer: renders one walked record as the lines the bring-up
//! routine prints, with the raw size humanized at this point and only here.

use vstd::prelude::*;
use crate::format::{dec_str, human_readable_byte_size, human_size, u64_to_string};
use crate::partition::{
    decode_kind, decode_kind_spec, decode_subkind, decode_subkind_spec, kind_label,
    kind_label_spec, subkind_label, subkind_label_spec, RawRecord,
};

verus! {

/// Renders the report lines for the record at position `index` of the walk:
/// a heading, the raw type code with its label, the humanized size, the
/// subtype label, and the raw address.
pub fn record_report(index: u64, raw: &RawRecord) -> (lines: Vec<String>)
    ensures
        lines@.len() == 5,
        lines@[0]@ == "Partition "@ + dec_str(index as nat),
        lines@[1]@ == "\ttype: "@ + dec_str(raw.type_code as nat) + " "@ + kind_label_spec(
            decode_kind_spec(raw.type_code),
        ),
        lines@[2]@ == "\tsize: "@ + human_size(raw.size as nat),
        lines@[3]@ == "\tsubtype: "@ + subkind_label_spec(
            decode_subkind_spec(raw.type_code, raw.subtype_code),
        ),
        lines@[4]@ == "\taddress: "@ + dec_str(raw.address as nat),
{
    let mut lines: Vec<String> = Vec::new();

    let mut heading = String::from_str("Partition ");
    let index_str = u64_to_string(index);
    heading.append(index_str.as_str());
    lines.push(heading);

    let mut type_line = String::from_str("\ttype: ");
    let code_str = u64_to_string(raw.type_code as u64);
    type_line.append(code_str.as_str());
    type_line.append(" ");
    type_line.append(kind_label(decode_kind(raw.type_code)));
    lines.push(type_line);

    let mut size_line = String::from_str("\tsize: ");
    let size_str = human_readable_byte_size(raw.size as u64);
    size_line.append(size_str.as_str());
    lines.push(size_line);

    let mut subtype_line = String::from_str("\tsubtype: ");
    subtype_line.append(subkind_label(decode_subkind(raw.type_code, raw.subtype_code)));
    lines.push(subtype_line);

    let mut address_line = String::from_str("\taddress: ");
    let address_str = u64_to_string(raw.address as u64);
    address_line.append(address_str.as_str());
    lines.push(address_line);

    lines
}

} // verus!
