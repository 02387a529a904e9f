//! Reading a whole `.olean` file: its header, then the module data in the
//! compacted region after it.
use vstd::prelude::*;

use crate::deserialize::{module_at, root_of, Deserializer, ModuleData};
use crate::hash::le_word;
use crate::olean_error::OleanError;
use crate::olean_header::{has_magic, OleanHeader, HEADER_SIZE, OLEAN_VERSION};
use crate::region::CompactedRegion;

verus! {

/// The header of `data` is accepted: large enough, with the magic bytes and
/// the supported version.
pub open spec fn header_accepted(data: Seq<u8>) -> bool {
    data.len() >= HEADER_SIZE && has_magic(data) && data[5] == OLEAN_VERSION
}

/// `reg` is the region of the file `data`: the bytes after the header, at
/// the base address the header gives, in the big-number format its flags give.
pub open spec fn region_of_file(reg: CompactedRegion, data: Seq<u8>) -> bool {
    &&& reg.bytes() == data.subrange(HEADER_SIZE as int, data.len() as int)
    &&& reg.base() == le_word(data, 80, 8) + HEADER_SIZE
    &&& reg.gmp() == (data[6] & 1 != 0)
}

/// Load module data from the raw bytes of an `.olean` file.
pub fn load_module_from_bytes(data: &[u8]) -> (r: Result<(OleanHeader, ModuleData), OleanError>)
    requires
        header_accepted(data@) ==> le_word(data@, 80, 8) + HEADER_SIZE <= u64::MAX,
    ensures
        !header_accepted(data@) ==> r is Err,
        r matches Ok((h, m)) ==> {
            &&& header_accepted(data@)
            &&& h.version == data@[5]
            &&& h.flags == data@[6]
            &&& h.base_addr == le_word(data@, 80, 8)
            &&& exists|reg: CompactedRegion|
                region_of_file(reg, data@) && module_at(reg, root_of(reg)) == Some(m@)
        },
        r is Err && header_accepted(data@) ==> exists|reg: CompactedRegion|
            region_of_file(reg, data@) && module_at(reg, root_of(reg)) is None,
{
    let header = match OleanHeader::parse(data) {
        Ok(h) => h,
        Err(e) => {
            return Err(e);
        },
    };
    let region_data = vstd::slice::slice_to_vec(
        vstd::slice::slice_subrange(data, HEADER_SIZE, data.len()),
    );
    let region = CompactedRegion::new(region_data, header.base_addr, header.uses_gmp());
    proof {
        assert(region_of_file(region, data@));
    }
    let mut deser = Deserializer::new(&region);
    match deser.read_module_data() {
        Ok(module_data) => Ok((header, module_data)),
        Err(e) => Err(e),
    }
}

} // verus!
