use ganzhe::proto::{NegOld, NegOldRaw, WriteRaw, CLISERV_MAGIC, INIT_NBDMAGIC};

#[test]
fn neg_old_written_then_read_back() {
    let neg = NegOld {
        init_nbdmagic: INIT_NBDMAGIC,
        cliserv_magic: CLISERV_MAGIC,
        export_size: 1 << 30,
        flags: 3,
    };
    let mut raw = NegOldRaw::default();
    neg.write_raw(&mut raw);
    assert_eq!(raw.init_nbdmagic.inner().to_ne_bytes(), *b"NBDMAGIC");
    assert_eq!(raw.flags.inner().to_ne_bytes(), [0, 0, 0, 3]);
    let back = NegOld::from(&raw);
    assert_eq!(back.init_nbdmagic, INIT_NBDMAGIC);
    assert_eq!(back.cliserv_magic, CLISERV_MAGIC);
    assert_eq!(back.export_size, 1 << 30);
    assert_eq!(back.flags, 3);
    assert_eq!(u64::from(raw.reserved[0]), 0);
}
