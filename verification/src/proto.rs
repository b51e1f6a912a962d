//! The fixed-size header of the old-style NBD negotiation.
use crate::endian::{lemma_u32_order_roundtrip, lemma_u64_order_roundtrip, NeU32, NeU64};
use vstd::prelude::*;
use vstd::std_specs::convert::FromSpec;

verus! {

pub const MAX_STRING_LEN: usize = 256;

pub const MAX_STRING_LEN_FORCE: usize = 4096;

pub const INIT_NBDMAGIC: u64 = 0x4e42444d41474943;

pub const CLISERV_MAGIC: u64 = 0x00420281861253;

/// A value that can fill in its wire-format counterpart `Raw`.
pub trait WriteRaw<Raw> {
    fn write_raw(&self, raw: &mut Raw);
}

/// The old-style negotiation header as it stands on the wire: every field in
/// network byte order.
#[derive(Debug, Default, Clone)]
pub struct NegOldRaw {
    pub init_nbdmagic: NeU64,
    pub cliserv_magic: NeU64,
    pub export_size: NeU64,
    pub flags: NeU32,
    pub reserved: [NeU64; 2],
}

/// The old-style negotiation header with its fields in host byte order.
#[derive(Debug, Default, Clone)]
pub struct NegOld {
    pub init_nbdmagic: u64,
    pub cliserv_magic: u64,
    pub export_size: u64,
    pub flags: u32,
}

impl<'a> From<&'a NegOldRaw> for NegOld {
    /// Decodes each field of the wire header.
    fn from(value: &'a NegOldRaw) -> (r: NegOld)
        ensures
            r.init_nbdmagic == value.init_nbdmagic.value(),
            r.cliserv_magic == value.cliserv_magic.value(),
            r.export_size == value.export_size.value(),
            r.flags == value.flags.value(),
    {
        NegOld {
            init_nbdmagic: value.init_nbdmagic.into(),
            cliserv_magic: value.cliserv_magic.into(),
            export_size: value.export_size.into(),
            flags: value.flags.into(),
        }
    }
}

impl<'a> vstd::std_specs::convert::FromSpecImpl<&'a NegOldRaw> for NegOld {
    open spec fn obeys_from_spec() -> bool {
        true
    }

    open spec fn from_spec(v: &'a NegOldRaw) -> NegOld {
        NegOld {
            init_nbdmagic: v.init_nbdmagic.value(),
            cliserv_magic: v.cliserv_magic.value(),
            export_size: v.export_size.value(),
            flags: v.flags.value(),
        }
    }
}

impl WriteRaw<NegOldRaw> for NegOld {
    /// Encodes each field into the wire header and zeroes the reserved words.
    fn write_raw(&self, raw: &mut NegOldRaw)
        ensures
            final(raw).init_nbdmagic.value() == self.init_nbdmagic,
            final(raw).cliserv_magic.value() == self.cliserv_magic,
            final(raw).export_size.value() == self.export_size,
            final(raw).flags.value() == self.flags,
            final(raw).reserved[0].value() == 0,
            final(raw).reserved[1].value() == 0,
    {
        proof {
            lemma_u64_order_roundtrip(self.init_nbdmagic);
            lemma_u64_order_roundtrip(self.cliserv_magic);
            lemma_u64_order_roundtrip(self.export_size);
            lemma_u32_order_roundtrip(self.flags);
            lemma_u64_order_roundtrip(0);
        }
        raw.init_nbdmagic = self.init_nbdmagic.into();
        raw.cliserv_magic = self.cliserv_magic.into();
        raw.export_size = self.export_size.into();
        raw.flags = self.flags.into();
        raw.reserved = [0.into(), 0.into()];
    }
}

/// Decoding the wire header that `write_raw` fills in gives back the header
/// that was written.
pub proof fn lemma_neg_old_roundtrip(neg: NegOld, raw: NegOldRaw)
    requires
        raw.init_nbdmagic.value() == neg.init_nbdmagic,
        raw.cliserv_magic.value() == neg.cliserv_magic,
        raw.export_size.value() == neg.export_size,
        raw.flags.value() == neg.flags,
    ensures
        <NegOld as FromSpec<&NegOldRaw>>::from_spec(&raw) == neg,
{
}

} // verus!
