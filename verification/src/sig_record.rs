//! Parsing of the Ed25519 verification instruction's payload.
//!
//! The payload starts with an entry count and a padding byte, followed by one
//! 14-byte offsets table per entry (seven little-endian u16 fields), followed
//! by the referenced data. An offsets field whose instruction index is 0xFFFF
//! points into this very instruction's data, so the referenced bytes can be
//! read back out; any other index points at another instruction and leaves
//! the field absent here. An entry is verifiable only when signature, public
//! key and message all live in the instruction itself.

use vstd::bytes::spec_u16_from_le_bytes;
use vstd::bytes::u16_from_le_bytes;
use vstd::prelude::*;
use vstd::slice::slice_subrange;
use vstd::slice::slice_to_vec;

verus! {

/// Size of one serialized offsets table.
pub const ENTRY_TABLE_BYTES: usize = 14;

/// Size of the count byte plus the padding byte.
pub const HEADER_BYTES: usize = 2;

/// Instruction index meaning "the data lives in this very instruction".
pub const CURRENT_INSTRUCTION: u16 = 0xFFFF;

/// One parsed signature entry, fields as the mathematical model sees them.
pub struct SigEntryView {
    pub is_verifiable: bool,
    pub public_key: Option<Seq<u8>>,
    pub signature: Option<Seq<u8>>,
    pub message: Option<Seq<u8>>,
}

/// One parsed signature entry: the verifiability flag, and the signer key
/// (32 bytes), signature (64 bytes) and signed message where the payload
/// carries them itself.
pub struct SigEntry {
    pub is_verifiable: bool,
    pub public_key: Option<Vec<u8>>,
    pub signature: Option<Vec<u8>>,
    pub message: Option<Vec<u8>>,
}

impl View for SigEntry {
    type V = SigEntryView;

    open spec fn view(&self) -> SigEntryView {
        SigEntryView {
            is_verifiable: self.is_verifiable,
            public_key: match self.public_key {
                Option::Some(v) => Option::Some(v@),
                Option::None => Option::None,
            },
            signature: match self.signature {
                Option::Some(v) => Option::Some(v@),
                Option::None => Option::None,
            },
            message: match self.message {
                Option::Some(v) => Option::Some(v@),
                Option::None => Option::None,
            },
        }
    }
}

/// The little-endian u16 at position `j` of `data`.
pub open spec fn le16_at(data: Seq<u8>, j: int) -> u16 {
    spec_u16_from_le_bytes(data.subrange(j, j + 2))
}

/// The entry described by the offsets table at slot `i`.
pub open spec fn entry_at(data: Seq<u8>, i: int) -> SigEntryView {
    let base = HEADER_BYTES + ENTRY_TABLE_BYTES * i;
    let sig_off = le16_at(data, base) as int;
    let sig_ix = le16_at(data, base + 2);
    let pk_off = le16_at(data, base + 4) as int;
    let pk_ix = le16_at(data, base + 6);
    let msg_off = le16_at(data, base + 8) as int;
    let msg_size = le16_at(data, base + 10) as int;
    let msg_ix = le16_at(data, base + 12);
    SigEntryView {
        is_verifiable: sig_ix == CURRENT_INSTRUCTION && pk_ix == CURRENT_INSTRUCTION
            && msg_ix == CURRENT_INSTRUCTION,
        public_key: if pk_ix == CURRENT_INSTRUCTION && pk_off + 32 <= data.len() {
            Option::Some(data.subrange(pk_off, pk_off + 32))
        } else {
            Option::None
        },
        signature: if sig_ix == CURRENT_INSTRUCTION && sig_off + 64 <= data.len() {
            Option::Some(data.subrange(sig_off, sig_off + 64))
        } else {
            Option::None
        },
        message: if msg_ix == CURRENT_INSTRUCTION && msg_off + msg_size <= data.len() {
            Option::Some(data.subrange(msg_off, msg_off + msg_size))
        } else {
            Option::None
        },
    }
}

/// What the payload parses to: `None` when it is too short for its own entry
/// count, otherwise exactly the declared number of entries.
pub open spec fn parse_entries(data: Seq<u8>) -> Option<Seq<SigEntryView>> {
    if data.len() < HEADER_BYTES {
        Option::None
    } else {
        let count = data[0] as int;
        if data.len() < HEADER_BYTES + ENTRY_TABLE_BYTES * count {
            Option::None
        } else {
            Option::Some(Seq::new(count as nat, |i: int| entry_at(data, i)))
        }
    }
}

/// The views of a sequence of parsed entries.
pub open spec fn entries_view(es: Seq<SigEntry>) -> Seq<SigEntryView> {
    es.map_values(|e: SigEntry| e@)
}

/// Parses the payload of a verification instruction; returns `None` exactly
/// when the payload is shorter than its declared entry count requires.
pub fn unpack(data: &[u8]) -> (r: Option<Vec<SigEntry>>)
    ensures
        r is Some <==> parse_entries(data@) is Some,
        r is Some ==> entries_view(r.unwrap()@) == parse_entries(data@).unwrap(),
{
    if data.len() < HEADER_BYTES {
        return None;
    }
    let count = data[0] as usize;
    if data.len() < HEADER_BYTES + ENTRY_TABLE_BYTES * count {
        return None;
    }
    let mut entries: Vec<SigEntry> = Vec::new();
    let mut i: usize = 0;
    while i < count
        invariant
            i <= count,
            count == data@[0] as int,
            HEADER_BYTES + ENTRY_TABLE_BYTES * count <= data@.len(),
            entries@.len() == i,
            forall|j: int| 0 <= j < i ==> #[trigger] entries@[j]@ == entry_at(data@, j),
        decreases count - i,
    {
        let base = HEADER_BYTES + ENTRY_TABLE_BYTES * i;
        proof {
            assert(ENTRY_TABLE_BYTES * i + ENTRY_TABLE_BYTES <= ENTRY_TABLE_BYTES * count)
                by (nonlinear_arith)
                requires
                    i < count,
            ;
        }
        let sig_off = u16_from_le_bytes(slice_subrange(data, base, base + 2)) as usize;
        let sig_ix = u16_from_le_bytes(slice_subrange(data, base + 2, base + 4));
        let pk_off = u16_from_le_bytes(slice_subrange(data, base + 4, base + 6)) as usize;
        let pk_ix = u16_from_le_bytes(slice_subrange(data, base + 6, base + 8));
        let msg_off = u16_from_le_bytes(slice_subrange(data, base + 8, base + 10)) as usize;
        let msg_size = u16_from_le_bytes(slice_subrange(data, base + 10, base + 12)) as usize;
        let msg_ix = u16_from_le_bytes(slice_subrange(data, base + 12, base + 14));
        let public_key: Option<Vec<u8>> = if pk_ix == CURRENT_INSTRUCTION && pk_off + 32
            <= data.len() {
            Some(slice_to_vec(slice_subrange(data, pk_off, pk_off + 32)))
        } else {
            None
        };
        let signature: Option<Vec<u8>> = if sig_ix == CURRENT_INSTRUCTION && sig_off + 64
            <= data.len() {
            Some(slice_to_vec(slice_subrange(data, sig_off, sig_off + 64)))
        } else {
            None
        };
        let message: Option<Vec<u8>> = if msg_ix == CURRENT_INSTRUCTION && msg_off + msg_size
            <= data.len() {
            Some(slice_to_vec(slice_subrange(data, msg_off, msg_off + msg_size)))
        } else {
            None
        };
        let entry = SigEntry {
            is_verifiable: sig_ix == CURRENT_INSTRUCTION && pk_ix == CURRENT_INSTRUCTION
                && msg_ix == CURRENT_INSTRUCTION,
            public_key,
            signature,
            message,
        };
        proof {
            assert(entry@ == entry_at(data@, i as int));
        }
        entries.push(entry);
        i = i + 1;
    }
    proof {
        let parsed = parse_entries(data@).unwrap();
        assert(entries_view(entries@) =~= parsed);
    }
    Some(entries)
}

} // verus!
