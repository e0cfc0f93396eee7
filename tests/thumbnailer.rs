use std::io::{Cursor, Read, Seek, SeekFrom};

use fuzzpaint_thumbnailer::scan::{
    parse_chunk_header, parse_container_header, scan_chunk, ScanError, ScanState, ScanStep,
    CHUNK_HEADER_LEN, CONTAINER_HEADER_LEN,
};
use fuzzpaint_thumbnailer::take::{MyTake, SeekPlan, SeekPos, WindowError};
use fuzzpaint_thumbnailer::thumb::{
    check_requested_size, check_source_dimensions, resize_thumbnail, scaled_dimensions,
    thumbnail_metadata, SizeError, MAX_INPUT_IMAGE_DIMENSION, MIME_TYPE, SOFTWARE,
};

fn container(total: u32, chunks: &[(&[u8; 4], u32, &[u8])]) -> Vec<u8> {
    let mut v = Vec::new();
    v.extend_from_slice(b"RIFF");
    v.extend_from_slice(&total.to_le_bytes());
    v.extend_from_slice(b"fzp ");
    for (tag, size, payload) in chunks {
        v.extend_from_slice(*tag);
        v.extend_from_slice(&size.to_le_bytes());
        v.extend_from_slice(payload);
    }
    v
}

#[derive(Debug, PartialEq)]
enum Located {
    Window { start: u64, len: u64 },
    Scan(ScanError),
    Truncated { at: u64 },
}

/// Drives the scanner over an in-memory stream, as the thumbnailer does over
/// a file.
fn locate(data: &[u8]) -> (Located, Vec<u64>) {
    let mut r = Cursor::new(data);
    let mut header_offsets = Vec::new();
    let mut header = [0u8; CONTAINER_HEADER_LEN];
    if r.read_exact(&mut header).is_err() {
        return (Located::Truncated { at: r.position() }, header_offsets);
    }
    let total = match parse_container_header(&header) {
        Ok(t) => t,
        Err(e) => return (Located::Scan(e), header_offsets),
    };
    let mut state = ScanState::start(total);
    loop {
        header_offsets.push(r.position());
        let mut block = [0u8; CHUNK_HEADER_LEN];
        if r.read_exact(&mut block).is_err() {
            return (Located::Truncated { at: r.position() }, header_offsets);
        }
        match scan_chunk(state, parse_chunk_header(&block)) {
            ScanStep::Found(len) => {
                return (Located::Window { start: r.position(), len }, header_offsets)
            }
            ScanStep::Skip { bytes, next } => {
                r.seek(SeekFrom::Current(i64::from(bytes))).unwrap();
                state = next;
            }
            ScanStep::NotFound => return (Located::Scan(ScanError::NotFound), header_offsets),
        }
    }
}

/// Reads everything a window lets through, `step` bytes at a time.
fn read_through_window(data: &[u8], start: u64, len: u64, step: usize) -> Vec<u8> {
    let mut c = Cursor::new(data.to_vec());
    c.set_position(start);
    let mut w = MyTake::new(c, len);
    let mut out = Vec::new();
    loop {
        let n = w.clamp_len(step);
        if n == 0 {
            break;
        }
        let mut buf = vec![0u8; n];
        let got = w.reader_mut().read(&mut buf).unwrap();
        assert_eq!(w.advance_read(got), Ok(w.cursor()));
        if got == 0 {
            break;
        }
        out.extend_from_slice(&buf[..got]);
    }
    assert!(out.len() as u64 <= len);
    if out.len() as u64 == len {
        // An exhausted window grants nothing more, without an error.
        assert_eq!(w.clamp_len(step), 0);
        assert_eq!(w.advance_read(0), Ok(len));
    }
    out
}

#[test]
fn window_starts_empty_and_gives_back_its_reader() {
    let w = MyTake::new(vec![1u8, 2, 3], 10);
    assert_eq!(w.remaining(), 10);
    assert_eq!(w.cursor(), 0);
    assert_eq!(w.len(), 10);
    assert_eq!(w.into_inner(), vec![1u8, 2, 3]);
}

#[test]
fn window_read_is_clamped_and_exhausts_to_zero() {
    let mut w = MyTake::new((), 5);
    assert_eq!(w.clamp_len(100), 5);
    assert_eq!(w.clamp_len(3), 3);
    assert_eq!(w.advance_read(3), Ok(3));
    assert_eq!(w.clamp_len(100), 2);
    assert_eq!(w.advance_read(2), Ok(5));
    assert_eq!(w.remaining(), 0);
    assert_eq!(w.clamp_len(100), 0);
    assert_eq!(w.advance_read(0), Ok(5));
}

#[test]
fn window_refuses_an_overlong_inner_read() {
    let mut w = MyTake::new((), 4);
    assert_eq!(w.advance_read(3), Ok(3));
    assert_eq!(w.advance_read(2), Err(WindowError::ReadOverflow));
    assert_eq!(w.cursor(), 3);
}

#[test]
fn window_reads_sum_to_at_most_its_length() {
    let data: Vec<u8> = (0u8..100).collect();
    for step in [1usize, 3, 7, 64, 1000] {
        let got = read_through_window(&data, 20, 10, step);
        assert_eq!(got, (20u8..30).collect::<Vec<u8>>());
    }
    // A window longer than what the stream holds stops at its end.
    let got = read_through_window(&data, 95, 50, 4);
    assert_eq!(got, vec![95, 96, 97, 98, 99]);
}

#[test]
fn window_consume_is_clamped() {
    let mut w = MyTake::new((), 10);
    assert_eq!(w.consume(4), 4);
    assert_eq!(w.consume(20), 6);
    assert_eq!(w.cursor(), 10);
    assert_eq!(w.consume(1), 0);
}

#[test]
fn window_forward_seek_clamps_to_the_end() {
    let mut w = MyTake::new((), 10);
    assert_eq!(w.plan_seek(SeekPos::Start(50)), Ok(SeekPlan { target: 10, delta: 10 }));
    assert_eq!(w.plan_seek(SeekPos::Start(4)), Ok(SeekPlan { target: 4, delta: 4 }));
    w.set_cursor(4);
    assert_eq!(w.plan_seek(SeekPos::Current(100)), Ok(SeekPlan { target: 10, delta: 6 }));
    assert_eq!(w.plan_seek(SeekPos::Current(i64::MAX)), Ok(SeekPlan { target: 10, delta: 6 }));
    assert_eq!(w.plan_seek(SeekPos::Current(-4)), Ok(SeekPlan { target: 0, delta: -4 }));
    assert_eq!(w.plan_seek(SeekPos::End(7)), Ok(SeekPlan { target: 10, delta: 6 }));
    assert_eq!(w.plan_seek(SeekPos::End(-3)), Ok(SeekPlan { target: 7, delta: 3 }));
    assert_eq!(w.plan_seek(SeekPos::End(0)), Ok(SeekPlan { target: 10, delta: 6 }));
}

#[test]
fn window_backward_seek_past_start_fails() {
    let mut w = MyTake::new((), 10);
    w.set_cursor(2);
    assert_eq!(w.plan_seek(SeekPos::Current(-3)), Err(WindowError::PastTheStart));
    assert_eq!(w.plan_seek(SeekPos::Current(i64::MIN)), Err(WindowError::PastTheStart));
    assert_eq!(w.plan_seek(SeekPos::End(-11)), Err(WindowError::PastTheStart));
    assert_eq!(w.plan_seek(SeekPos::End(-10)), Ok(SeekPlan { target: 0, delta: -2 }));
}

#[test]
fn window_seeks_an_inner_stream_relatively() {
    let data: Vec<u8> = (0u8..50).collect();
    let mut c = Cursor::new(data);
    c.set_position(30);
    let mut w = MyTake::new(c, 10);
    let plan = w.plan_seek(SeekPos::End(-2)).unwrap();
    let inner = w.reader_mut().seek(SeekFrom::Current(plan.delta)).unwrap();
    w.set_cursor(plan.target);
    assert_eq!(inner, 38);
    assert_eq!(w.cursor(), 8);
    let mut b = [0u8; 1];
    w.reader_mut().read_exact(&mut b).unwrap();
    assert_eq!(b, [38]);
}

#[test]
fn scan_finds_thumbnail_in_first_chunk() {
    let payload = [7u8; 40];
    let data = container(30, &[(b"thmb", 50, &payload)]);
    let (found, offsets) = locate(&data);
    assert_eq!(offsets, vec![12]);
    assert_eq!(found, Located::Window { start: 20, len: 30 });
    let got = read_through_window(&data, 20, 30, 8);
    assert_eq!(got.len(), 30);

    let data = container(1000, &[(b"thmb", 5, &payload)]);
    assert_eq!(locate(&data).0, Located::Window { start: 20, len: 5 });
    assert_eq!(read_through_window(&data, 20, 5, 100), vec![7u8; 5]);
}

#[test]
fn scan_skips_first_chunk_exactly() {
    let data = container(100, &[(b"LIST", 6, b"abcdef"), (b"thmb", 200, b"0123456789")]);
    let (found, offsets) = locate(&data);
    assert_eq!(offsets, vec![12, 12 + 8 + 6]);
    // 100 - 6 - 8 remain declared after the first chunk.
    assert_eq!(found, Located::Window { start: 34, len: 86 });
    assert_eq!(read_through_window(&data, 34, 86, 4), b"0123456789".to_vec());

    let data = container(100, &[(b"LIST", 6, b"abcdef"), (b"thmb", 3, b"0123456789")]);
    assert_eq!(locate(&data).0, Located::Window { start: 34, len: 3 });
    assert_eq!(read_through_window(&data, 34, 3, 4), b"012".to_vec());
}

#[test]
fn scan_saturates_the_declared_remainder() {
    let data = container(4, &[(b"LIST", 6, b"abcdef"), (b"thmb", 3, b"012")]);
    assert_eq!(locate(&data).0, Located::Window { start: 34, len: 0 });
}

#[test]
fn scan_refuses_a_wrong_header() {
    let mut data = container(100, &[(b"thmb", 3, b"012")]);
    data[0] = b'X';
    let (found, offsets) = locate(&data);
    assert_eq!(found, Located::Scan(ScanError::Format));
    assert!(offsets.is_empty());

    let mut data = container(100, &[(b"thmb", 3, b"012")]);
    data[11] = b'x';
    assert_eq!(parse_container_header(&data[..12]), Err(ScanError::Format));
    assert_eq!(locate(&data).0, Located::Scan(ScanError::Format));
}

#[test]
fn scan_reads_header_size_little_endian() {
    let data = container(0x0403_0201, &[]);
    assert_eq!(parse_container_header(&data[..12]), Ok(0x0403_0201));
    let c = parse_chunk_header(&[b't', b'h', b'm', b'b', 0x10, 0x00, 0x00, 0x80]);
    assert_eq!(c.tag, *b"thmb");
    assert_eq!(c.size, 0x8000_0010);
}

#[test]
fn scan_gives_up_after_two_chunks() {
    let data = container(
        100,
        &[(b"LIST", 2, b"ab"), (b"INFO", 2, b"cd"), (b"thmb", 3, b"012")],
    );
    let (found, offsets) = locate(&data);
    assert_eq!(found, Located::Scan(ScanError::NotFound));
    assert_eq!(offsets, vec![12, 22]);
}

#[test]
fn scan_step_decisions() {
    let state = ScanState::start(10);
    let other = parse_chunk_header(b"LIST\x04\x00\x00\x00");
    let thumb = parse_chunk_header(b"thmb\x09\x00\x00\x00");
    assert_eq!(scan_chunk(state, thumb), ScanStep::Found(9));
    let next = ScanState { remaining_file_size: 0, chunks_seen: 1 };
    assert_eq!(scan_chunk(state, other), ScanStep::Skip { bytes: 4, next });
    assert_eq!(scan_chunk(next, other), ScanStep::NotFound);
    assert_eq!(scan_chunk(next, thumb), ScanStep::Found(0));
}

#[test]
fn scaled_dimensions_keep_the_aspect_ratio() {
    assert_eq!(scaled_dimensions(2000, 1000, 100), Ok((100, 50)));
    assert_eq!(scaled_dimensions(1000, 2000, 100), Ok((50, 100)));
    assert_eq!(scaled_dimensions(1, 1, 50), Ok((50, 50)));
    assert_eq!(scaled_dimensions(3, 1, 10), Ok((10, 4)));
    assert_eq!(scaled_dimensions(1024, 1, 16), Ok((16, 1)));
    assert_eq!(scaled_dimensions(0, 10, 10), Err(SizeError::ScaledToZero));
    assert_eq!(scaled_dimensions(10, 10, 0), Err(SizeError::ScaledToZero));
}

#[test]
fn oversized_source_is_refused() {
    assert_eq!(MAX_INPUT_IMAGE_DIMENSION, 1024);
    assert_eq!(
        check_source_dimensions(1025, 10, MAX_INPUT_IMAGE_DIMENSION),
        Err(SizeError::SourceTooLarge { width: 1025, height: 10 })
    );
    assert_eq!(
        check_source_dimensions(10, 5000, MAX_INPUT_IMAGE_DIMENSION),
        Err(SizeError::SourceTooLarge { width: 10, height: 5000 })
    );
    assert_eq!(check_source_dimensions(0, 5, 1024), Err(SizeError::SourceEmpty));
    assert_eq!(check_source_dimensions(1024, 1024, 1024), Ok(()));
    assert_eq!(check_source_dimensions(20, 20, 16), Err(SizeError::SourceTooLarge { width: 20, height: 20 }));
}

#[test]
fn oversized_qoi_header_is_refused_before_decoding() {
    // A header that declares 2000 x 1 with no pixel data behind it.
    let mut bytes = Vec::new();
    bytes.extend_from_slice(b"qoif");
    bytes.extend_from_slice(&2000u32.to_be_bytes());
    bytes.extend_from_slice(&1u32.to_be_bytes());
    bytes.extend_from_slice(&[4, 0]);
    let header = qoi::decode_header(&bytes).unwrap();
    assert_eq!(
        check_source_dimensions(header.width, header.height, MAX_INPUT_IMAGE_DIMENSION),
        Err(SizeError::SourceTooLarge { width: 2000, height: 1 })
    );
}

#[test]
fn requested_size_bounds() {
    assert_eq!(check_requested_size(0), Err(SizeError::RequestZero));
    assert_eq!(check_requested_size(1), Ok(1));
    assert_eq!(check_requested_size(2048), Ok(2048));
    assert_eq!(check_requested_size(2049), Err(SizeError::RequestTooLarge));
}

#[test]
fn resize_produces_the_scaled_size() {
    let src = vec![10u8, 20, 30, 255, 10, 20, 30, 255];
    let out = resize_thumbnail(&src, 2, 1, 4, 2);
    assert_eq!(out.len(), 4 * 2 * 4);
}

#[test]
fn metadata_entries() {
    let m = thumbnail_metadata("file:///home/a/b.fzp", 1_700_000_000, 3, 40);
    let expected: Vec<(String, String)> = vec![
        ("Software".into(), SOFTWARE.into()),
        ("Thumb::URI".into(), "file:///home/a/b.fzp".into()),
        ("Thumb::MTime".into(), "1700000000".into()),
        ("Thumb::Mimetype".into(), MIME_TYPE.into()),
        ("Thumb::Image::Width".into(), "3".into()),
        ("Thumb::Image::Height".into(), "40".into()),
    ];
    assert_eq!(m, expected);
    assert_eq!(SOFTWARE, "Fuzzpaint");
    assert_eq!(MIME_TYPE, "application/x.fuzzpaint-doc");
    let m = thumbnail_metadata("", 0, 0, 0);
    assert_eq!(m[2].1, "0");
}

#[test]
fn end_to_end_one_pixel_thumbnail() {
    let image = qoi::encode_to_vec([200u8, 100, 50, 255], 1, 1).unwrap();
    let total = (4 + 8 + image.len()) as u32;
    let data = container(total, &[(b"thmb", image.len() as u32, &image)]);

    let (found, _) = locate(&data);
    let Located::Window { start, len } = found else {
        panic!("no thumbnail found: {found:?}");
    };
    assert_eq!(len, image.len() as u64);
    let bytes = read_through_window(&data, start, len, 5);
    assert_eq!(bytes, image);

    let (header, rgba) = qoi::decode_to_vec(&bytes).unwrap();
    assert_eq!(check_source_dimensions(header.width, header.height, MAX_INPUT_IMAGE_DIMENSION), Ok(()));
    let size = check_requested_size(50).unwrap();
    let (w, h) = scaled_dimensions(header.width, header.height, size).unwrap();
    assert_eq!((w, h), (50, 50));
    let scaled = resize_thumbnail(&rgba, header.width, header.height, w, h);
    assert_eq!(scaled.len(), 50 * 50 * 4);

    let meta = thumbnail_metadata("file:///tmp/one.fzp", 1_234_567_890, header.width, header.height);
    let mut png_bytes = Vec::new();
    {
        let mut enc = png::Encoder::new(&mut png_bytes, w, h);
        enc.set_color(png::ColorType::Rgba);
        enc.set_depth(png::BitDepth::Eight);
        for (k, v) in meta {
            enc.add_text_chunk(k, v).unwrap();
        }
        let mut writer = enc.write_header().unwrap();
        writer.write_image_data(&scaled).unwrap();
    }
    let decoder = png::Decoder::new(Cursor::new(png_bytes));
    let reader = decoder.read_info().unwrap();
    let info = reader.info();
    assert_eq!((info.width, info.height), (50, 50));
    let text: Vec<(String, String)> = info
        .uncompressed_latin1_text
        .iter()
        .map(|t| (t.keyword.clone(), t.text.clone()))
        .collect();
    assert!(text.contains(&("Thumb::URI".to_string(), "file:///tmp/one.fzp".to_string())));
    assert!(text.contains(&("Thumb::MTime".to_string(), "1234567890".to_string())));
    assert!(text.contains(&("Thumb::Mimetype".to_string(), "application/x.fuzzpaint-doc".to_string())));
}
