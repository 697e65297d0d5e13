use valog::{
    Builder, Either, Error, Freelist, Sealed, GenericLogReader, GenericLogWriter, GenericValueLog,
    ImmutableGenericValueLog, Log, LogExt, LogReader, LogReaderExt, LogWriter, LogWriterExt,
    MutableLog, ValuePointer,
};

const MB: u32 = 1024 * 1024;

#[test]
fn test_read_out_of_bounds() {
    let log = Builder::new().with_capacity(100).alloc_log(0).unwrap();

    let err = log.read(log.id(), 0, 10).unwrap_err();
    assert!(matches!(err, Error::OutOfBounds { .. }));
    assert_eq!(err, Error::OutOfBounds { offset: 0, len: 18, data_offset: 8, end_offset: 8 });

    let err = log.read(log.id(), 10, 10).unwrap_err();
    assert!(matches!(err, Error::OutOfBounds { .. }));
    assert_eq!(err, Error::OutOfBounds { offset: 10, len: 18, data_offset: 8, end_offset: 8 });
}

#[test]
fn test_checksum_mismatch() {
    let mut log = Builder::new().with_capacity(100).alloc_log(0).unwrap();

    let vp = log.insert(b"Hello, valog!").unwrap();
    assert_eq!(*vp.id(), 0);
    log.arena.set_byte(vp.offset(), 0);
    let err = log.read(log.id(), vp.offset(), vp.size()).unwrap_err();
    assert!(matches!(err, Error::ChecksumMismatch));
}

#[test]
fn test_insert_big_value() {
    let mut log = Builder::new()
        .with_capacity(100)
        .with_maximum_value_size(3)
        .alloc_log(0)
        .unwrap();

    let err = log.insert(&[0; 10]).unwrap_err();
    assert!(matches!(err, Error::ValueTooLarge { .. }));
    assert_eq!(err, Error::ValueTooLarge { size: 18, maximum: 3 });
}

#[test]
fn test_insert_insufficient() {
    let mut log = Builder::new().with_capacity(100).alloc_log(0).unwrap();

    let err = log.insert(&[0; 100]).unwrap_err();
    assert!(matches!(err, Error::InsufficientSpace { .. }));
    assert_eq!(err, Error::InsufficientSpace { requested: 108, available: 92 });
}

#[test]
fn test_insert_empty_value() {
    let mut log = Builder::new().with_capacity(100).alloc_log(0).unwrap();

    let allocated_before = log.allocator().allocated();
    let vp = log.insert(&[]).unwrap();
    assert_eq!(*vp.id(), 0);
    assert_eq!(vp.offset(), 0);
    assert_eq!(vp.size(), 0);
    assert_eq!(log.allocator().allocated(), allocated_before);
    assert_eq!(log.discarded(), 0);
}

#[test]
fn test_basic() {
    let log = Builder::new().with_capacity(100).alloc_log(0).unwrap();
    assert_eq!(log.id(), 0);
    assert_eq!(log.options().capacity(), 100);

    let raw = Builder::new().with_capacity(100).alloc_log(0).unwrap();
    let log = GenericValueLog::<Vec<u8>>::new(raw);
    assert_eq!(log.id(), 0);
    assert_eq!(log.options().capacity(), 100);
}

#[test]
fn test_reopen_and_read() {
    let mut log = Builder::new()
        .with_capacity(MB)
        .with_unify(true)
        .alloc_log(0)
        .unwrap();

    let ptrs: Vec<ValuePointer<u32>> = (0..1000u32)
        .map(|i| log.insert(i.to_string().as_bytes()).unwrap())
        .collect();

    let mut bytes: Vec<u8> = Vec::new();
    log.flush_to(&mut bytes);
    drop(log);

    let log = Builder::new().open(bytes, 0).unwrap();

    let mut data: Vec<u32> = ptrs
        .iter()
        .map(|vp| {
            let payload = log.read(log.id(), vp.offset(), vp.size()).unwrap();
            std::str::from_utf8(payload).unwrap().parse().unwrap()
        })
        .collect();

    data.sort_unstable();
    assert_eq!(data, (0..1000).collect::<Vec<_>>());
}

#[test]
fn test_insert_read_round_trip() {
    let mut log = Builder::new().with_capacity(1024).alloc_log(7).unwrap();

    let vp = log.insert(b"Hello, valog!").unwrap();
    assert_eq!(*vp.id(), 7);
    assert_eq!(vp.size(), 13);
    assert_eq!(vp.offset(), 8);
    assert!(!vp.is_tombstone());

    let data = log.read(log.id(), vp.offset(), vp.size()).unwrap();
    assert_eq!(data, b"Hello, valog!");
}

#[test]
fn test_insert_bounds() {
    let mut log = Builder::new().with_capacity(100).alloc_log(0).unwrap();

    let vp = log.insert(b"abcde").unwrap();
    assert_eq!(vp.size() as usize, 5);
    assert!(vp.offset() as usize >= log.data_offset());
    assert!(vp.offset() + vp.size() + 8 <= log.options().capacity());

    let vp2 = log.insert(b"fgh").unwrap();
    assert!(vp.offset() + vp.size() + 8 <= vp2.offset());
}

#[test]
fn test_read_empty_and_id_mismatch() {
    let log = Builder::new().with_capacity(100).alloc_log(3).unwrap();

    // A zero-length read succeeds and ignores the offset.
    let data = log.read(log.id(), 999, 0).unwrap();
    assert_eq!(data, b"");

    // A pointer from another log is rejected before anything else.
    let err = log.read(4, 0, 10).unwrap_err();
    assert!(matches!(err, Error::IdMismatch));
}

#[test]
fn test_tombstone_discarded() {
    let mut log = Builder::new().with_capacity(100).alloc_log(1).unwrap();

    assert_eq!(log.discarded(), 0);
    let vp = log.insert_tombstone(b"Hello, valog!").unwrap();
    assert!(vp.is_tombstone());
    assert_eq!(log.discarded(), 13);

    // The tombstone's payload is stored exactly like a live value.
    let data = log.read(log.id(), vp.offset(), vp.size()).unwrap();
    assert_eq!(data, b"Hello, valog!");

    let vp = log.insert_tombstone(b"xy").unwrap();
    assert!(vp.is_tombstone());
    assert_eq!(log.discarded(), 15);
}

#[test]
fn test_corrupt_any_record_byte() {
    let mut log = Builder::new().with_capacity(100).alloc_log(0).unwrap();
    let vp = log.insert(b"Hello, valog!").unwrap();

    let mut image = Vec::new();
    log.flush_to(&mut image);

    let start = vp.offset();
    let end = vp.offset() + vp.size() + 8;
    for j in start..end {
        let byte = image[j as usize];
        log.arena.set_byte(j, byte ^ 0xFF);
        let err = log.read(log.id(), vp.offset(), vp.size()).unwrap_err();
        assert!(matches!(err, Error::ChecksumMismatch));
        log.arena.set_byte(j, byte);
        let payload = log.read(log.id(), vp.offset(), vp.size()).unwrap();
        assert_eq!(payload, b"Hello, valog!");
    }
}

#[test]
fn test_validate_checksum_off() {
    let mut log = Builder::new()
        .with_capacity(100)
        .with_validate_checksum(false)
        .alloc_log(0)
        .unwrap();
    let vp = log.insert(b"Hello, valog!").unwrap();
    log.arena.set_byte(vp.offset(), 0);
    let data = log.read(log.id(), vp.offset(), vp.size()).unwrap();
    assert_eq!(data[0], 0);
    assert_eq!(&data[1..], &b"Hello, valog!"[1..]);
}

#[test]
fn test_header_mismatch_on_reopen() {
    let mut log = Builder::new()
        .with_capacity(100)
        .with_unify(true)
        .alloc_log(0)
        .unwrap();
    log.insert(b"persisted").unwrap();
    let mut bytes = Vec::new();
    log.flush_to(&mut bytes);

    // Undamaged bytes reopen fine.
    let reopened = Builder::new().open(bytes.clone(), 0).unwrap();
    assert_eq!(reopened.id(), 0);

    // Corrupting the first magic byte is caught.
    let mut bad = bytes.clone();
    bad[0] = 0;
    let err = Builder::new().open(bad, 0).unwrap_err();
    assert!(matches!(err, Error::BadMagicText));

    // Corrupting a version byte is caught.
    let mut bad = bytes.clone();
    bad[7] = bad[7].wrapping_add(1);
    let err = Builder::new().open(bad, 0).unwrap_err();
    assert!(matches!(err, Error::BadMagicVersion));

    // Asking for a different magic version is caught too.
    let err = Builder::new().with_magic_version(9).open(bytes, 0).unwrap_err();
    assert!(matches!(err, Error::BadMagicVersion));
}

#[test]
fn test_magic_header_bytes() {
    let log = Builder::new()
        .with_capacity(100)
        .with_unify(true)
        .with_magic_version(0x0201)
        .alloc_log(0)
        .unwrap();
    assert_eq!(log.magic_version(), 0x0201);
    assert_eq!(log.version(), 0);
    let mut bytes = Vec::new();
    log.flush_to(&mut bytes);
    assert_eq!(&bytes[..6], b"valog!");
    assert_eq!(bytes[6], 0x01);
    assert_eq!(bytes[7], 0x02);
}

#[test]
fn test_flush_to_fresh_log() {
    let log = Builder::new().with_capacity(100).alloc_log(1).unwrap();
    let mut buf = Vec::new();
    log.flush_to(&mut buf);
    let data_offset = log.data_offset();
    assert_eq!(buf.len(), data_offset);
    assert_eq!(data_offset, 8);
}

#[test]
fn test_reserved_slice() {
    let mut log = Builder::new()
        .with_capacity(100)
        .with_reserved(8)
        .alloc_log(1)
        .unwrap();

    assert_eq!(log.data_offset(), 16);
    let reserved = log.reserved_slice();
    assert_eq!(reserved.len(), 8);

    log.write_reserved_slice(b"mysanity");
    let reserved = log.reserved_slice();
    assert_eq!(reserved, b"mysanity");
}

#[test]
fn test_checksum_known_answer() {
    let log = Builder::new().with_capacity(100).alloc_log(0).unwrap();
    // The standard CRC32 check value.
    assert_eq!(log.checksum(b"123456789"), 0xCBF4_3926u64);
    assert_eq!(log.checksum(b""), 0);
}

#[test]
fn test_insert_with_builder() {
    let mut log = Builder::new().with_capacity(1024).alloc_log(0).unwrap();
    let data = b"Hello, valog!";
    let vp = log
        .insert_with::<Error, _>(data.len() as u32, |mut buf| {
            buf.put_slice(data)?;
            Ok(buf)
        })
        .unwrap();
    assert_eq!(vp.size(), 13);
    let read_back = log.read(log.id(), vp.offset(), vp.size()).unwrap();
    assert_eq!(read_back, data);
}

#[test]
fn test_insert_with_pads_short_fill() {
    let mut log = Builder::new().with_capacity(1024).alloc_log(0).unwrap();
    let vp = log
        .insert_with::<Error, _>(4, |mut buf| {
            buf.put_slice(b"ab")?;
            Ok(buf)
        })
        .unwrap();
    assert_eq!(vp.size(), 4);
    let read_back = log.read(log.id(), vp.offset(), vp.size()).unwrap();
    assert_eq!(read_back, b"ab\0\0");
}

#[test]
fn test_insert_with_builder_error() {
    let mut log = Builder::new().with_capacity(1024).alloc_log(0).unwrap();
    let allocated_before = log.allocator().allocated();
    let err = log
        .insert_with::<&str, _>(4, |buf| {
            let _ = buf;
            Err("encoding refused")
        })
        .unwrap_err();
    assert!(matches!(err, Either::Left("encoding refused")));
    assert_eq!(log.allocator().allocated(), allocated_before);
}

#[test]
fn test_insert_with_error_precedence() {
    // The size checks run before the closure: a too-large record is reported
    // even when the closure would fail too.
    let mut log = Builder::new()
        .with_capacity(100)
        .with_maximum_value_size(3)
        .alloc_log(0)
        .unwrap();
    let err = log
        .insert_with::<&str, _>(10, |_buf| Err("never runs"))
        .unwrap_err();
    assert!(matches!(err, Either::Right(Error::ValueTooLarge { size: 18, maximum: 3 })));

    let mut log = Builder::new().with_capacity(100).alloc_log(0).unwrap();
    let err = log
        .insert_with::<&str, _>(100, |_buf| Err("never runs"))
        .unwrap_err();
    assert!(matches!(err, Either::Right(Error::InsufficientSpace { requested: 108, available: 92 })));
}

#[test]
fn test_insert_tombstone_with() {
    let mut log = Builder::new().with_capacity(1024).alloc_log(0).unwrap();
    let vp = log
        .insert_tombstone_with::<Error, _>(3, |mut buf| {
            buf.put_slice(b"xyz")?;
            Ok(buf)
        })
        .unwrap();
    assert!(vp.is_tombstone());
    assert_eq!(log.discarded(), 3);
    let read_back = log.read(log.id(), vp.offset(), vp.size()).unwrap();
    assert_eq!(read_back, b"xyz");
}

#[test]
fn test_generic_round_trip_u64() {
    let raw = Builder::new().with_capacity(1024).alloc_log(0).unwrap();
    let mut log = GenericValueLog::<u64>::new(raw);
    let vp = log.insert(&0xDEAD_BEEF_u64).unwrap();
    assert_eq!(vp.size(), 8);
    let value = log.read(log.id(), vp.offset(), vp.size()).unwrap();
    assert_eq!(value, 0xDEAD_BEEF_u64);
}

#[test]
fn test_generic_round_trip_bytes() {
    let raw = Builder::new().with_capacity(1024).alloc_log(0).unwrap();
    let mut log = GenericValueLog::<Vec<u8>>::new(raw);
    let vp = log.insert(&b"Hello, valog!".to_vec()).unwrap();
    let value = log.read(log.id(), vp.offset(), vp.size()).unwrap();
    assert_eq!(value, b"Hello, valog!".to_vec());
}

#[test]
fn test_generic_tombstone() {
    let raw = Builder::new().with_capacity(1024).alloc_log(0).unwrap();
    let mut log = GenericValueLog::<u64>::new(raw);
    let vp = log.insert_tombstone(&5u64).unwrap();
    assert!(vp.is_tombstone());
    assert_eq!(log.discarded(), 8);
    let value = log.read(log.id(), vp.offset(), vp.size()).unwrap();
    assert_eq!(value, 5u64);
}

#[test]
fn test_immutable_generic_log() {
    let raw = Builder::new()
        .with_capacity(1024)
        .with_unify(true)
        .alloc_log(0)
        .unwrap();
    let mut log = GenericValueLog::<u64>::new(raw);
    let vp = log.insert(&99u64).unwrap();

    let mut bytes = Vec::new();
    log.flush_to(&mut bytes);
    let frozen = Builder::new().open(bytes, 0).unwrap();
    let frozen = ImmutableGenericValueLog::<u64>::new(frozen);
    let value = frozen.read(frozen.id(), vp.offset(), vp.size()).unwrap();
    assert_eq!(value, 99u64);
}

#[test]
fn test_insert_variants_round_trip() {
    let mut log = Builder::new().with_capacity(MB).alloc_log(0).unwrap();

    let data: Vec<ValuePointer<u32>> = (0..500u32)
        .map(|i| {
            let val = i.to_string();
            match i % 6 {
                0 => log.insert(val.as_bytes()).unwrap(),
                1 => log.insert_generic(&val.clone().into_bytes()).unwrap(),
                2 => log
                    .insert_with::<Error, _>(val.len() as u32, |mut buf| {
                        buf.put_slice(val.as_bytes())?;
                        Ok(buf)
                    })
                    .unwrap(),
                3 => log.insert_tombstone(val.as_bytes()).unwrap(),
                4 => log.insert_generic_tombstone(&val.clone().into_bytes()).unwrap(),
                5 => log
                    .insert_tombstone_with::<Error, _>(val.len() as u32, |mut buf| {
                        buf.put_slice(val.as_bytes())?;
                        Ok(buf)
                    })
                    .unwrap(),
                _ => unreachable!(),
            }
        })
        .collect();

    let mut values: Vec<u32> = Vec::new();
    for (i, vp) in data.iter().enumerate() {
        let val: u32 = if i % 2 == 0 {
            let bytes = log.read(log.id(), vp.offset(), vp.size()).unwrap();
            std::str::from_utf8(bytes).unwrap().parse().unwrap()
        } else {
            let bytes: Vec<u8> = log.read_generic(log.id(), vp.offset(), vp.size()).unwrap();
            std::str::from_utf8(&bytes).unwrap().parse().unwrap()
        };
        assert_eq!(i, val as usize);
        values.push(val);
    }
    values.sort_unstable();
    assert_eq!(values, (0..500).collect::<Vec<_>>());
}

#[test]
fn test_open_mut_appends() {
    let mut log = Builder::new()
        .with_capacity(100)
        .with_unify(true)
        .alloc_log(0)
        .unwrap();
    let vp1 = log.insert(b"one").unwrap();
    let mut bytes = Vec::new();
    log.flush_to(&mut bytes);

    let mut log = Builder::new().with_capacity(100).open_mut(bytes, 0).unwrap();
    let vp2 = log.insert(b"two").unwrap();
    assert!(vp1.offset() + vp1.size() + 8 <= vp2.offset());
    assert_eq!(log.read(log.id(), vp1.offset(), vp1.size()).unwrap(), b"one");
    assert_eq!(log.read(log.id(), vp2.offset(), vp2.size()).unwrap(), b"two");
}

#[test]
fn test_builder_and_options_getters() {
    let builder = Builder::new()
        .with_capacity(123)
        .with_reserved(4)
        .with_sync(false)
        .with_unify(true)
        .with_magic_version(2)
        .with_maximum_value_size(77)
        .with_lock_meta(true);
    assert_eq!(builder.capacity(), 123);
    assert_eq!(builder.reserved(), 4);
    assert!(!builder.sync());
    assert!(builder.unify());
    assert_eq!(builder.magic_version(), 2);
    assert_eq!(builder.maximum_value_size(), 77);
    assert!(builder.lock_meta());

    let opts = valog::Options::new()
        .with_capacity(9)
        .with_validate_checksum(false)
        .with_read(true)
        .with_write(true)
        .with_create(true);
    assert_eq!(opts.capacity(), 9);
    assert!(!opts.validate_checksum());
    assert!(opts.read());
    assert!(opts.write());
    assert!(opts.create());
    assert!(!opts.create_new());
    assert_eq!(valog::Options::new().capacity(), 0);

    let defaults = valog::Options::new();
    assert_eq!(defaults.magic_version(), 0);
    assert_eq!(defaults.maximum_value_size(), u32::MAX);
    assert!(defaults.sync());
    assert!(defaults.validate_checksum());
    assert!(!defaults.unify());
    assert_eq!(defaults.reserved(), 0);
    assert_eq!(defaults.freelist(), Freelist::Disabled);

    let builder = Builder::new().with_freelist(Freelist::Optimistic);
    assert_eq!(builder.freelist(), Freelist::Optimistic);
}

#[test]
fn test_capacity_too_small_for_header() {
    let err = Builder::new().with_capacity(5).alloc_log(0).unwrap_err();
    assert_eq!(err, Error::InsufficientSpace { requested: 8, available: 5 });

    let err = Builder::new()
        .with_capacity(10)
        .with_reserved(4)
        .alloc_log(0)
        .unwrap_err();
    assert_eq!(err, Error::InsufficientSpace { requested: 12, available: 10 });
}

#[test]
fn test_value_pointer() {
    let vp = ValuePointer::new(9u32, 17, 4);
    assert_eq!(*vp.id(), 9);
    assert_eq!(vp.offset(), 17);
    assert_eq!(vp.size(), 4);
    assert!(!vp.is_tombstone());
    let t = vp.with_tombstone();
    assert!(t.is_tombstone());
    assert_eq!(t.offset(), 17);
    assert_eq!(t.size(), 4);
}
