use blosc2::buffer::{
    compress, compress_ctx_finish, compress_finish, compress_into, compress_into_ctx,
    compress_into_ctx_finish, compress_into_finish, decompress, decompress_finish,
    compressor_names, decompress_into, decompress_into_ctx, decompress_into_finish,
    free_resources_finish, get_complib_info, get_complib_info_finish, get_version_string,
    getitems, getitems_finish, list_compressors, read_header, set_compressor,
    set_compressor_finish, BLOSC2_VERSION_STRING,
};
use blosc2::schunk::{get_chunk_finish, Chunk, ReadAction, ReadEvent, SChunk, SChunkDecoder, Storage};
use blosc2::{
    compress_ctx, len, max_compress_len, max_compress_len_bytes, Blosc2Error, CLevel, CParams,
    Codec, CompressedBufferInfo, Context, DParams, Error, Filter, Step,
};

/// A chunk header: version 2, typesize 1, `nbytes` uncompressed, `blocksize`, then
/// `cbytes` compressed bytes in all (the rest zero-filled).
fn chunk_bytes(nbytes: i32, blocksize: i32, cbytes: i32, total: usize) -> Vec<u8> {
    let mut v = vec![2u8, 1, 0x11, 1];
    v.extend_from_slice(&nbytes.to_le_bytes());
    v.extend_from_slice(&blocksize.to_le_bytes());
    v.extend_from_slice(&cbytes.to_le_bytes());
    v.resize(total, 0);
    v
}

fn other_msg<T>(r: blosc2::Result<T>) -> String {
    match r {
        Err(Error::Other(m)) => m,
        Err(Error::Blosc2(e)) => panic!("engine error {:?}", e),
        Ok(_) => panic!("expected an error"),
    }
}

fn code_of<T>(r: blosc2::Result<T>) -> i32 {
    match r {
        Err(Error::Blosc2(e)) => e.code(),
        _ => panic!("expected an engine error"),
    }
}

#[test]
fn test_get_version_string() {
    let version = get_version_string().unwrap();
    assert_eq!(&version, "2.14.5.dev");
    assert_eq!(BLOSC2_VERSION_STRING, "2.14.5.dev");
}

#[test]
fn test_get_complib_version_string() {
    get_complib_info(0).unwrap();
    let info = get_complib_info_finish(0, "BloscLZ", "2.5.3").unwrap();
    assert_eq!(&info, "BloscLZ: 2.5.3");
}

#[test]
fn test_list_compressors() {
    let compressors = list_compressors("blosclz,lz4,lz4hc,zlib,zstd", &[0, 1, 2, 4, 5]).unwrap();
    for compressor in &[
        Codec::BloscLz,
        Codec::LZ4,
        Codec::LZ4HC,
        Codec::ZLIB,
        Codec::ZSTD,
    ] {
        assert!(compressors.contains(compressor));
    }
}

#[test]
fn list_compressors_keeps_order_and_refuses_unknown_names() {
    assert_eq!(
        list_compressors("zstd,blosclz", &[5, 0]).unwrap(),
        vec![Codec::ZSTD, Codec::BloscLz]
    );
    assert_eq!(list_compressors("lz4", &[1]).unwrap(), vec![Codec::LZ4]);
    assert_eq!(
        other_msg(list_compressors("lz4,snappy,zstd", &[1, -1, 5])),
        "Compcode snappy not recognized"
    );
    assert_eq!(
        other_msg(list_compressors("lz4,ndlz,snappy", &[1, 32, -1])),
        "Not match for compcode 32"
    );
    assert_eq!(other_msg(list_compressors("", &[-1])), "Compcode  not recognized");
}

#[test]
fn compressor_names_split_at_commas() {
    assert_eq!(compressor_names("blosclz,lz4,zstd"), vec!["blosclz", "lz4", "zstd"]);
    assert_eq!(compressor_names("lz4"), vec!["lz4"]);
    assert_eq!(compressor_names(""), vec![""]);
    assert_eq!(compressor_names("a,,b,"), vec!["a", "", "b", ""]);
}

#[test]
fn complib_info_errors() {
    assert_eq!(other_msg(get_complib_info(-1)), "Codec not recognized");
    assert_eq!(other_msg(get_complib_info_finish(-1, "", "")), "Codec not supported");
}

#[test]
fn error_codes_round_trip() {
    for code in -34..=-1 {
        let e = Blosc2Error::from(code);
        assert_eq!(e.code(), code);
        assert_eq!(Blosc2Error::from(e.code()), e);
    }
    assert_eq!(Blosc2Error::from(-1), Blosc2Error::Failure);
    assert_eq!(Blosc2Error::from(-22), Blosc2Error::TwoGBLimit);
    assert_eq!(Blosc2Error::from(-34), Blosc2Error::MetalayerNotFound);
    assert_eq!(Blosc2Error::ReadBuffer.code(), -5);
    assert_eq!(Blosc2Error::InvalidHeader.to_string(), "InvalidHeader");
    assert_eq!(Blosc2Error::PluginIO.name(), "PluginIO");
}

#[test]
fn error_conversions() {
    match Error::from(Blosc2Error::Data) {
        Error::Blosc2(Blosc2Error::Data) => {}
        _ => panic!(),
    }
    match Error::from(String::from("boom")) {
        Error::Other(m) => assert_eq!(m, "boom"),
        _ => panic!(),
    }
    match Error::other("bang") {
        Error::Other(m) => assert_eq!(m, "bang"),
        _ => panic!(),
    }
}

#[test]
fn filter_names() {
    assert_eq!(Filter::default(), Filter::Shuffle);
    assert_eq!(Filter::Shuffle.to_string(), "shuffle");
    assert_eq!(Filter::TruncPrec.to_string(), "truncprec");
    assert_eq!(Filter::try_from("BitShuffle").unwrap(), Filter::BitShuffle);
    assert_eq!(Filter::try_from("NOFILTER").unwrap(), Filter::NoFilter);
    assert_eq!(Filter::try_from("trunctprec").unwrap(), Filter::TruncPrec);
    assert_eq!(
        Filter::try_from("LastRegisteredFilter").unwrap(),
        Filter::LastRegisteredFilter
    );
    assert_eq!(other_msg(Filter::try_from("truncprec")), "No matching filter for 'truncprec'");
    assert_eq!(other_msg(Filter::try_from("zip")), "No matching filter for 'zip'");
    for f in [
        Filter::NoFilter,
        Filter::Shuffle,
        Filter::BitShuffle,
        Filter::Delta,
        Filter::LastFilter,
        Filter::LastRegisteredFilter,
    ] {
        assert_eq!(Filter::try_from(f.to_string().as_str()).unwrap(), f);
    }
    assert_eq!(Filter::Delta.code(), 3);
    assert_eq!(Filter::LastRegisteredFilter.code(), 36);
}

#[test]
fn codec_names_and_codes() {
    assert_eq!(Codec::default(), Codec::BloscLz);
    assert_eq!(Codec::ZSTD.to_name(0, "zstd").unwrap(), "zstd");
    assert_eq!(Codec::LZ4HC.try_into(0, "lz4hc").unwrap(), "lz4hc");
    assert_eq!(other_msg(Codec::LastCodec.to_name(-1, "")), "Unsupported Codec LastCodec");
    assert!(matches!(Codec::try_from("zlib"), Step::Call(())));
    match Codec::try_from("lz\u{0}4") {
        Step::Done(r) => {
            assert_eq!(other_msg(r), "nul byte found in provided data at position: 2")
        }
        Step::Call(_) => panic!(),
    }
    assert_eq!(Codec::try_from_finish("zlib", 4).unwrap(), Codec::ZLIB);
    assert_eq!(other_msg(Codec::try_from_finish("ZLIB2", -1)), "Compcode ZLIB2 not recognized");
    assert_eq!(other_msg(Codec::try_from_finish("ndlz", 32)), "Not match for compcode 32");
    assert_eq!(Codec::try_from_code(5).unwrap(), Codec::ZSTD);
    assert_eq!(Codec::try_from_code(36).unwrap(), Codec::LastRegisteredCodec);
    assert_eq!(other_msg(Codec::try_from_code(3)), "Not match for compcode 3");
    assert_eq!(other_msg(Codec::try_from_code(-12)), "Not match for compcode -12");
    for c in [
        Codec::BloscLz,
        Codec::LZ4,
        Codec::LZ4HC,
        Codec::ZLIB,
        Codec::ZSTD,
        Codec::LastCodec,
        Codec::LastRegisteredCodec,
    ] {
        assert_eq!(Codec::try_from_code(c.code() as i32).unwrap(), c);
    }
}

#[test]
fn clevels() {
    assert_eq!(CLevel::default(), CLevel::Nine);
    for n in 0..=9usize {
        assert_eq!(CLevel::try_from(n).unwrap().code() as usize, n);
    }
    assert_eq!(other_msg(CLevel::try_from(10)), "Compression level must be 0-9, got 10");
    assert_eq!(
        other_msg(CLevel::try_from(12345)),
        "Compression level must be 0-9, got 12345"
    );
}

#[test]
fn cparams_defaults_and_setters() {
    let c = CParams::default();
    assert_eq!(c.get_typesize(), 8);
    assert_eq!(c.get_nthreads(), 1);
    assert_eq!(c.clevel, 9);
    assert_eq!(c.compcode, 0);
    assert_eq!(c.filters, [0, 0, 0, 0, 0, 1]);
    assert_eq!(c.splitmode, 4);
    let c = CParams::new::<u16>()
        .set_nthreads(2)
        .set_codec(Codec::ZSTD)
        .set_clevel(CLevel::Three)
        .set_filter(Filter::BitShuffle);
    assert_eq!(c.get_typesize(), 2);
    assert_eq!(c.get_nthreads(), 2);
    assert_eq!(c.compcode, 5);
    assert_eq!(c.clevel, 3);
    assert_eq!(c.filters, [0, 0, 0, 0, 0, 2]);
    assert_eq!(CParams::from_typesize(12).get_typesize(), 12);
    assert_eq!(CParams::default().set_typesize::<i64>().get_typesize(), 8);
    assert_eq!(CParams::from(&1u32).get_typesize(), 4);
    assert_eq!(CParams::from(&b'a').get_typesize(), 1);
}

#[test]
fn default_clevel_is_nine() {
    let d = CParams::default();
    let nine = CParams::default().set_clevel(CLevel::Nine);
    assert_eq!(nine.clevel, d.clevel);
    assert_eq!(nine.compcode, d.compcode);
    assert_eq!(nine.typesize, d.typesize);
    assert_eq!(nine.nthreads, d.nthreads);
    assert_eq!(nine.filters, d.filters);
    assert_eq!(nine.splitmode, d.splitmode);
}

#[test]
fn dparams_and_context() {
    let d = DParams::default();
    assert_eq!(d.get_nthreads(), 1);
    assert_eq!(d.set_nthreads(12).get_nthreads(), 12);
    let ctx = Context::new(CParams::default().set_typesize::<i64>(), DParams::default());
    assert_eq!(ctx.get_cparams().unwrap().get_typesize(), 8);
    let ctx = Context::new(CParams::default(), DParams::default().set_nthreads(12));
    assert_eq!(ctx.get_dparams().unwrap().get_nthreads(), 12);
    let null = Context::null();
    assert_eq!(other_msg(null.get_cparams()), "Context pointer is null");
    assert_eq!(other_msg(null.get_dparams()), "Context pointer is null");
}

#[test]
fn storage_settings() {
    let storage = Storage::default();
    assert!(!storage.get_contiguous());
    assert_eq!(storage.get_urlpath().unwrap(), None);
    let storage = storage.set_urlpath("/some/path.blosc2").unwrap();
    assert_eq!(storage.get_urlpath().unwrap().unwrap(), "/some/path.blosc2");
    let storage = storage
        .set_contiguous(true)
        .set_cparams(CParams::from(&0u8))
        .set_dparams(DParams::default().set_nthreads(3));
    assert!(storage.get_contiguous());
    assert_eq!(storage.get_cparams().get_typesize(), 1);
    assert_eq!(storage.get_dparams().get_nthreads(), 3);
    assert_eq!(
        other_msg(Storage::default().set_urlpath("a\u{0}b")),
        "nul byte found in provided data at position: 1"
    );
}

#[test]
fn header_reading() {
    let v = chunk_bytes(9, 9, 25, 25);
    let info = CompressedBufferInfo::try_from(&v).unwrap();
    assert_eq!(info.nbytes(), 9);
    assert_eq!(info.cbytes(), 25);
    assert_eq!(info.blocksize(), 9);
    assert_eq!(read_header(&v).unwrap(), (9, 9, 25));
    assert_eq!(len::<u8>(&v).unwrap(), 9);
    assert_eq!(len::<u32>(&chunk_bytes(40, 40, 48, 48)).unwrap(), 10);
    // too short to hold a header
    assert_eq!(code_of(CompressedBufferInfo::try_from(&v[..15])), -5);
    // compressed size smaller than a header
    assert_eq!(code_of(CompressedBufferInfo::try_from(&chunk_bytes(9, 9, 15, 25))), -11);
    // block size zero, or larger than the uncompressed size
    assert_eq!(code_of(CompressedBufferInfo::try_from(&chunk_bytes(9, 0, 25, 25))), -11);
    assert_eq!(code_of(CompressedBufferInfo::try_from(&chunk_bytes(9, 10, 25, 25))), -11);
    // format version from the future
    let mut future = chunk_bytes(9, 9, 25, 25);
    future[0] = 6;
    assert_eq!(code_of(CompressedBufferInfo::try_from(&future)), -10);
    // zero type size
    let mut no_type = chunk_bytes(9, 9, 25, 25);
    no_type[3] = 0;
    assert_eq!(code_of(len::<u8>(&no_type)), -11);
}

#[test]
fn compress_lengths() {
    let src = vec![0i32; 1000];
    assert_eq!(max_compress_len(&src, None), 4032);
    assert_eq!(max_compress_len(&src, Some(1)), 1032);
    assert_eq!(max_compress_len_bytes(100), 132);
}

#[test]
fn compress_plans() {
    let src = b"some data";
    match compress(src, None, None, None, None, true) {
        Step::Call(c) => {
            assert_eq!(c.codec, Codec::BloscLz);
            assert_eq!(c.clevel, 9);
            assert_eq!(c.doshuffle, 1);
            assert_eq!(c.typesize, 1);
            assert_eq!(c.src_size, 9);
            assert_eq!(c.dst_capacity, 41);
        }
        Step::Done(_) => panic!(),
    }
    let ints = [1u32, 2, 3];
    match compress(&ints, Some(4), Some(CLevel::Two), Some(Filter::NoFilter), Some(Codec::ZSTD), false) {
        Step::Call(c) => {
            assert_eq!(c.codec, Codec::ZSTD);
            assert_eq!(c.clevel, 2);
            assert_eq!(c.doshuffle, 0);
            assert_eq!(c.src_size, 12);
            assert_eq!(c.dst_capacity, 44);
        }
        Step::Done(_) => panic!(),
    }
    let empty: [u8; 0] = [];
    match compress(&empty, None, None, None, None, true) {
        Step::Done(Ok(v)) => assert!(v.is_empty()),
        _ => panic!(),
    }
    match compress(src, None, None, None, Some(Codec::LastCodec), true) {
        Step::Call(c) => assert_eq!(c.codec, Codec::LastCodec),
        Step::Done(_) => panic!(),
    }
    match compress_into(src, 100, None, None, None, None, true) {
        Step::Call(c) => assert_eq!(c.dst_capacity, 100),
        Step::Done(_) => panic!(),
    }
    match compress_into(&empty, 100, None, None, None, None, true) {
        Step::Done(Ok(0)) => {}
        _ => panic!(),
    }
}

#[test]
fn compress_results() {
    let written = vec![7u8; 41];
    assert_eq!(compress_finish(25, written.clone()).unwrap(), vec![7u8; 25]);
    assert_eq!(other_msg(compress_finish(0, written.clone())), "Data is not compressable.");
    assert_eq!(code_of(compress_finish(-6, written)), -6);
    assert_eq!(compress_into_finish(30).unwrap(), 30);
    assert_eq!(other_msg(compress_into_finish(0)), "Data is not compressable.");
    assert_eq!(code_of(compress_into_finish(-1)), -1);
    assert_eq!(set_compressor(Codec::LZ4, 0, "lz4").unwrap(), "lz4");
    assert_eq!(other_msg(set_compressor(Codec::LastCodec, -1, "")), "Unsupported Codec LastCodec");
    assert!(set_compressor_finish(0).is_ok());
    assert_eq!(code_of(set_compressor_finish(-7)), -7);
    assert!(free_resources_finish(0).is_ok());
    assert_eq!(code_of(free_resources_finish(-26)), -26);
}

#[test]
fn ctx_compression() {
    let ctx = Context::new(CParams::from(&0u8), DParams::default());
    let src = b"some data";
    match compress_ctx(src, &ctx) {
        Step::Call(c) => {
            assert_eq!(c.src_size, 9);
            assert_eq!(c.dst, vec![0u8; 41]);
            assert_eq!(compress_ctx_finish(c.dst, 20).unwrap().len(), 20);
        }
        Step::Done(_) => panic!(),
    }
    match compress_ctx(src, &Context::null()) {
        Step::Done(r) => assert_eq!(other_msg(r), "Context pointer is null"),
        Step::Call(_) => panic!(),
    }
    let empty: [u8; 0] = [];
    match compress_ctx(&empty, &ctx) {
        Step::Done(Ok(v)) => assert!(v.is_empty()),
        _ => panic!(),
    }
    let wide = Context::new(CParams::default(), DParams::default());
    match compress_into_ctx(&[1u16, 2, 3], 100, &wide) {
        Step::Call(n) => assert_eq!(n, 24),
        Step::Done(_) => panic!(),
    }
    assert_eq!(other_msg(compress_into_ctx_finish(0)), "Buffer is incompressible");
    assert_eq!(code_of(compress_into_ctx_finish(-2)), -2);
    assert_eq!(compress_into_ctx_finish(17).unwrap(), 17);
    assert_eq!(other_msg(compress_ctx_finish(vec![0u8; 41], 0)), "Buffer is incompressible");
}

#[test]
fn decompress_plans() {
    let v = chunk_bytes(40, 40, 48, 48);
    match decompress::<u32>(&v) {
        Step::Call(c) => {
            assert_eq!(c.src_size, 48);
            assert_eq!(c.dst_size, 40);
            assert_eq!(c.n_items, 10);
            assert_eq!(decompress_finish(40, &c).unwrap(), 10);
            assert_eq!(code_of(decompress_finish(-3, &c)), -3);
        }
        Step::Done(_) => panic!(),
    }
    match decompress::<u8>(&[]) {
        Step::Done(Ok(v)) => assert!(v.is_empty()),
        _ => panic!(),
    }
    match decompress::<u8>(&v[..10]) {
        Step::Done(r) => assert_eq!(code_of(r), -5),
        Step::Call(_) => panic!(),
    }
    match decompress_into(&v, 64) {
        Step::Call((s, d)) => assert_eq!((s, d), (48, 40)),
        Step::Done(_) => panic!(),
    }
    match decompress_into(&v, 24) {
        Step::Call((s, d)) => assert_eq!((s, d), (48, 24)),
        Step::Done(_) => panic!(),
    }
    match decompress_into(&v[..10], 64) {
        Step::Done(r) => assert_eq!(code_of(r), -5),
        Step::Call(_) => panic!(),
    }
    match decompress_into_ctx(&v, 12, 64) {
        Step::Call((s, d)) => assert_eq!((s, d), (12, 40)),
        Step::Done(_) => panic!(),
    }
    match decompress_into_ctx(&v, 0, 64) {
        Step::Done(Ok(0)) => {}
        _ => panic!(),
    }
    match decompress_into(&[], 64) {
        Step::Done(Ok(0)) => {}
        _ => panic!(),
    }
    assert_eq!(decompress_into_finish(40).unwrap(), 40);
    assert_eq!(code_of(decompress_into_finish(-6)), -6);
}

#[test]
fn items_retrieval() {
    let c = getitems::<u32>(&chunk_bytes(20, 20, 40, 40), 1, 2);
    assert_eq!((c.src_size, c.start, c.nitems, c.dst_size), (40, 1, 2, 8));
    assert_eq!(getitems_finish::<u32>(8).unwrap(), 2);
    assert_eq!(code_of(getitems_finish::<u32>(-12)), -12);
}

#[test]
fn chunks() {
    let v = chunk_bytes(20, 20, 40, 40);
    let chunk = Chunk::from_vec(v.clone()).unwrap();
    assert_eq!(chunk.nbytes().unwrap(), 20);
    assert_eq!(chunk.cbytes().unwrap(), 40);
    assert_eq!(chunk.info().unwrap().blocksize(), 20);
    assert_eq!(chunk.len::<u32>().unwrap(), 5);
    assert_eq!(chunk.as_slice().unwrap(), &v[..]);
    match chunk.decompress::<u32>() {
        Step::Call(c) => assert_eq!(c.n_items, 5),
        Step::Done(_) => panic!(),
    }
    let call = chunk.getitems::<u32>(3, 2).unwrap();
    assert_eq!((call.start, call.nitems), (3, 2));
    assert_eq!(
        other_msg(chunk.getitems::<u32>(4, 2)),
        "Would be out of bounds. Chunk contains 5 elements"
    );
    assert!(chunk.holds_all());
    assert_eq!(chunk.into_vec().unwrap(), v);
    // a longer buffer keeps only the chunk's compressed size
    let longer = chunk_bytes(20, 20, 40, 50);
    assert_eq!(Chunk::from_vec(longer).unwrap().into_vec().unwrap().len(), 40);
    // a buffer whose header reads is a chunk, though it holds less than its compressed size
    let short = Chunk::from_vec(chunk_bytes(20, 20, 40, 30)).unwrap();
    assert!(!short.holds_all());
    assert_eq!(short.cbytes().unwrap(), 40);
    assert_eq!(short.info().unwrap().nbytes(), 20);
    assert_eq!(short.into_buf(), chunk_bytes(20, 20, 40, 30));
    let header_only = Chunk::from_vec(chunk_bytes(16, 16, 32, 16)).unwrap();
    assert_eq!(header_only.cbytes().unwrap(), 32);
    assert_eq!(
        other_msg(Chunk::from_vec(chunk_bytes(20, 20, 8, 30))),
        "Appears this buffer is not a valid blosc2 chunk"
    );
    assert_eq!(
        other_msg(Chunk::from_vec(vec![1, 2, 3])),
        "Appears this buffer is not a valid blosc2 chunk"
    );
}

#[test]
fn special_chunks() {
    let call = Chunk::init_call::<u32>(CParams::default(), 10);
    assert_eq!(call.cparams.get_typesize(), 4);
    assert_eq!(call.nbytes, 40);
    assert_eq!(call.capacity, 72);
    let written = chunk_bytes(40, 40, 32, 72);
    let chunk = Chunk::zeros_finish(32, written.clone()).unwrap();
    assert_eq!(chunk.nbytes().unwrap(), 40);
    assert_eq!(code_of(Chunk::zeros_finish(-4, written.clone())), -4);
    assert_eq!(
        other_msg(Chunk::uninit_finish(-1, written.clone())),
        "Failed to create uninitialized chunk"
    );
    assert_eq!(other_msg(Chunk::repeatval_finish(-1, written.clone())), "Failed to create chunk");
    assert_eq!(Chunk::repeatval_finish(32, written).unwrap().cbytes().unwrap(), 32);
    assert!(get_chunk_finish(3).is_ok());
    assert_eq!(code_of(get_chunk_finish(-16)), -16);
}

fn schunk(nbytes: i64, typesize: i32) -> SChunk {
    SChunk::new(typesize, 2, 8 * typesize, 8, nbytes, 20, true, None, true)
}

#[test]
fn schunk_properties() {
    let s = schunk(36, 4);
    assert!(s.is_contiguous());
    assert_eq!(s.typesize(), 4);
    assert_eq!(s.n_chunks(), 2);
    assert_eq!(s.chunk_shape(), 8);
    assert_eq!(s.blocksize(), 8);
    assert_eq!(s.nbytes(), 36);
    assert_eq!(s.cbytes(), 20);
    assert_eq!(s.len(), 9);
    assert!(!s.is_empty());
    assert!(s.path().is_none());
    assert!(s.frame().is_ok());
    let f = SChunk::new(1, 0, 0, 0, 0, 0, false, Some(String::from("/tmp/x.b2frame")), false);
    assert_eq!(f.path(), Some("/tmp/x.b2frame"));
    assert!(f.is_empty());
    assert_eq!(other_msg(f.frame()), "schunk frame is null");
}

#[test]
fn chunk_shape_rounds_toward_zero() {
    let fresh = SChunk::new(4, 0, -1, 0, 0, 0, false, None, true);
    assert_eq!(fresh.chunk_shape(), 0);
    let odd = SChunk::new(4, 0, 10, 0, 0, 0, false, None, true);
    assert_eq!(odd.chunk_shape(), 2);
    let negative = SChunk::new(4, 0, -10, 0, 0, 0, false, None, true);
    assert_eq!(negative.chunk_shape(), (-2i64) as usize);
    let both = SChunk::new(-4, 0, -10, 0, 0, 0, false, None, true);
    assert_eq!(both.chunk_shape(), 2);
}

#[test]
fn schunk_appending() {
    let s = schunk(36, 4);
    match s.append_buffer::<u8>(&[]) {
        Step::Done(Ok(n)) => assert_eq!(n, 2),
        _ => panic!(),
    }
    match s.append_buffer(&[1u8, 2, 3]) {
        Step::Done(r) => {
            assert_eq!(other_msg(r), "Buffer (3) not evenly divisible by typesize: 4")
        }
        Step::Call(_) => panic!(),
    }
    match s.append_buffer(&[1u16, 2, 3, 4]) {
        Step::Call(n) => assert_eq!(n, 8),
        Step::Done(_) => panic!(),
    }
    let untyped = SChunk::new(0, 5, 0, 0, 0, 0, false, None, true);
    match untyped.append_buffer::<u32>(&[]) {
        Step::Done(Ok(n)) => assert_eq!(n, 5),
        _ => panic!(),
    }
    assert_eq!(SChunk::append_buffer_finish(3).unwrap(), 3);
    assert_eq!(code_of(SChunk::append_buffer_finish(-20)), -20);
}

#[test]
fn schunk_decompress_chunk() {
    let s = schunk(36, 1);
    let info = CompressedBufferInfo::try_from(&chunk_bytes(9, 9, 25, 25)).unwrap();
    assert_eq!(s.decompress_chunk::<u8>(0, &info, 9).unwrap(), 9);
    assert_eq!(
        other_msg(s.decompress_chunk::<u8>(0, &info, 4)),
        "Not large enough, need 9 bytes but got buffer w/ 4 bytes of storage"
    );
    assert_eq!(SChunk::decompress_chunk_finish::<u8>(0, 9).unwrap(), 9);
    assert_eq!(SChunk::decompress_chunk_finish::<u32>(0, 8).unwrap(), 2);
    assert_eq!(
        other_msg(SChunk::decompress_chunk_finish::<u8>(7, 0)),
        "Non-initialized error decompressing chunk '7'"
    );
    assert_eq!(code_of(SChunk::decompress_chunk_finish::<u8>(1, -11)), -11);
}

#[test]
fn schunk_slices() {
    let s = schunk(36, 4);
    assert_eq!(s.get_slice_buffer(1, 3).unwrap(), vec![0u8; 8]);
    assert_eq!(
        other_msg(s.get_slice_buffer(1, 10)),
        "Out of bounds. `stop`=10, is more than length=9"
    );
    assert_eq!(other_msg(s.get_slice_buffer(3, 3)), "start must be less than stop");
    assert_eq!(s.get_slice_buffer_as_type::<u32>(0, 9).unwrap().len(), 36);
    assert_eq!(
        other_msg(s.get_slice_buffer_as_type::<u8>(0, 9)),
        "Size of T does not match schunk typesize"
    );
    assert!(s.set_slice_buffer(0, 2, 8).is_ok());
    assert_eq!(other_msg(s.set_slice_buffer(0, 12, 8)), "`stop`: 12 must be less than len: 9");
    assert_eq!(
        other_msg(s.set_slice_buffer(0, 2, 7)),
        "Buffer is not evenly divisible by SChunk typesize"
    );
    assert!(SChunk::slice_finish(0).is_ok());
    assert_eq!(code_of(SChunk::slice_finish(-33)), -33);
}

#[test]
fn schunk_export() {
    let empty = schunk(0, 1);
    match empty.into_vec() {
        Step::Done(Ok(v)) => assert!(v.is_empty()),
        _ => panic!(),
    }
    match schunk(9, 1).into_vec() {
        Step::Call(()) => {}
        Step::Done(_) => panic!(),
    }
    assert_eq!(SChunk::into_vec_finish(3, vec![1, 2, 3]).unwrap(), vec![1, 2, 3]);
    assert_eq!(code_of(SChunk::into_vec_finish(-1, vec![])), -1);
    assert!(SChunk::from_vec_finish(true).is_ok());
    assert_eq!(
        other_msg(SChunk::from_vec_finish(false)),
        "Failed to get schunk from buffer; might not be valid buffer for schunk"
    );
}

/// Reads `chunks` through the decoder into a buffer of `out_len` bytes at a time,
/// playing the engine's part.
fn read_all(chunks: &[&[u8]], out_len: usize) -> Vec<u8> {
    let mut d = SChunkDecoder::new();
    let mut all = Vec::new();
    loop {
        let mut out = vec![0u8; out_len];
        let mut event = ReadEvent::Begin { n_chunks: chunks.len() };
        let k = loop {
            match d.read(&mut out, event) {
                ReadAction::Return(k) => break k,
                ReadAction::FetchInfo(n) => event = ReadEvent::ChunkInfo { nbytes: chunks[n].len() },
                ReadAction::DecompressDirect { nchunk, nbytes } => {
                    assert_eq!(nbytes, chunks[nchunk].len());
                    out[..nbytes].copy_from_slice(chunks[nchunk]);
                    event = ReadEvent::Decompressed;
                }
                ReadAction::DecompressBuffered { nchunk, mut buf } => {
                    assert_eq!(buf, vec![0u8; chunks[nchunk].len()]);
                    buf.copy_from_slice(chunks[nchunk]);
                    event = ReadEvent::Filled(buf);
                }
            }
        };
        if k == 0 {
            return all;
        }
        all.extend_from_slice(&out[..k]);
    }
}

#[test]
fn decoder_hands_out_chunks_in_order() {
    let chunks: Vec<&[u8]> = vec![b"some", b"data!", b"x"];
    assert_eq!(read_all(&chunks, 3), b"somedata!x".to_vec());
    assert_eq!(read_all(&chunks, 2), b"somedata!x".to_vec());
    assert_eq!(read_all(&chunks, 64), b"somedata!x".to_vec());
    assert_eq!(read_all(&[], 8), Vec::<u8>::new());
}

#[test]
fn decoder_steps() {
    let mut d = SChunkDecoder::new();
    let mut out = [9u8; 4];
    match d.read(&mut out, ReadEvent::Begin { n_chunks: 1 }) {
        ReadAction::FetchInfo(0) => {}
        _ => panic!(),
    }
    match d.read(&mut out, ReadEvent::ChunkInfo { nbytes: 4 }) {
        ReadAction::DecompressDirect { nchunk: 0, nbytes: 4 } => {}
        _ => panic!(),
    }
    out.copy_from_slice(b"abcd");
    match d.read(&mut out, ReadEvent::Decompressed) {
        ReadAction::Return(4) => {}
        _ => panic!(),
    }
    match d.read(&mut out, ReadEvent::Begin { n_chunks: 1 }) {
        ReadAction::Return(0) => {}
        _ => panic!(),
    }
    assert_eq!(&out, b"abcd");
    // a chunk larger than the caller's buffer is held and handed out in pieces
    let mut d = SChunkDecoder::new();
    let mut small = [0u8; 2];
    d.read(&mut small, ReadEvent::Begin { n_chunks: 1 });
    match d.read(&mut small, ReadEvent::ChunkInfo { nbytes: 3 }) {
        ReadAction::DecompressBuffered { nchunk: 0, buf } => assert_eq!(buf, vec![0u8; 3]),
        _ => panic!(),
    }
    match d.read(&mut small, ReadEvent::Filled(b"xyz".to_vec())) {
        ReadAction::Return(2) => assert_eq!(&small, b"xy"),
        _ => panic!(),
    }
    match d.read(&mut small, ReadEvent::Begin { n_chunks: 1 }) {
        ReadAction::Return(1) => assert_eq!(&small, b"zy"),
        _ => panic!(),
    }
}
