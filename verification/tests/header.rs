use mkswap::{Buffer, Error, SwapWriter};

const UUID_BYTES: [u8; 16] = [
    0x87, 0x70, 0x5c, 0x6e, 0x96, 0x73, 0x42, 0x83, 0xb3, 0x3a, 0xb8, 0x7d, 0xbf, 0x6e, 0xc4,
    0x90,
];

fn shuffle_label() -> Vec<u8> {
    // UTF-8 encoding of the shuffle-arrows character used as a label
    vec![0xf0, 0x9f, 0x94, 0x80]
}

#[test]
fn header_layout_bytes() {
    let mut buffer = Buffer::new(vec![0u8; 40 * 1024]);
    let size = SwapWriter::new()
        .label(shuffle_label())
        .unwrap()
        .uuid(UUID_BYTES.to_vec())
        .page_size(4096)
        .write(&mut buffer)
        .unwrap();
    assert_eq!(size, 40 * 1024);
    assert_eq!(buffer.stream_position(), 0);

    let out = buffer.into_inner();
    assert_eq!(out.len(), 40 * 1024);

    let mut expected = vec![0u8; 40 * 1024];
    expected[1024..1028].copy_from_slice(&[1, 0, 0, 0]); // version
    expected[1028..1032].copy_from_slice(&[9, 0, 0, 0]); // last page: 40960 / 4096 - 1
    expected[1032..1036].copy_from_slice(&[0, 0, 0, 0]); // bad pages
    expected[1036..1052].copy_from_slice(&UUID_BYTES);
    expected[1052..1056].copy_from_slice(&shuffle_label());
    expected[4086..4096].copy_from_slice(b"SWAPSPACE2");
    assert_eq!(out, expected);
}

#[test]
fn label_round_trip() {
    let mut buffer = Buffer::new(vec![0u8; 40 * 1024]);
    let label: Vec<u8> = b"swaparea".to_vec();
    SwapWriter::new()
        .label(label.clone())
        .unwrap()
        .uuid(UUID_BYTES.to_vec())
        .page_size(4096)
        .write(&mut buffer)
        .unwrap();
    let out = buffer.into_inner();
    assert_eq!(&out[1052..1052 + label.len()], &label[..]);
}

#[test]
fn sixteen_byte_label_is_accepted() {
    let label = vec![b'x'; 16];
    let w = SwapWriter::new().label(label.clone());
    assert!(w.is_ok());
    let mut buffer = Buffer::new(vec![0u8; 40 * 1024]);
    w.unwrap()
        .uuid(UUID_BYTES.to_vec())
        .page_size(4096)
        .write(&mut buffer)
        .unwrap();
    let out = buffer.into_inner();
    assert_eq!(&out[1052..1068], &label[..]);
}

#[test]
fn label_too_long() {
    let r = SwapWriter::new().label(vec![b'a'; 17]);
    assert!(matches!(r, Err(Error::LabelTooLong)));
}

#[test]
fn write_returns_total_and_rewinds() {
    let mut buffer = Buffer::new(vec![0u8; 123 * 4096]);
    let size = SwapWriter::new()
        .page_size(4096)
        .write(&mut buffer)
        .unwrap();
    assert_eq!(size, 123 * 4096);
    assert_eq!(buffer.stream_position(), 0);
}

#[test]
fn too_few_pages() {
    let mut buffer = Buffer::new(vec![0u8; 9 * 4096]);
    let r = SwapWriter::new().page_size(4096).write(&mut buffer);
    assert_eq!(r, Err(Error::TooFewPages(9)));
    // the destination was not touched
    assert_eq!(buffer.into_inner(), vec![0u8; 9 * 4096]);
}

#[test]
fn too_few_pages_counts_whole_pages() {
    // 10 pages and a fraction of an eleventh still succeed; just under 10 fail
    let mut buffer = Buffer::new(vec![0u8; 10 * 4096 - 1]);
    let r = SwapWriter::new().page_size(4096).write(&mut buffer);
    assert_eq!(r, Err(Error::TooFewPages(9)));

    let mut buffer = Buffer::new(vec![0u8; 10 * 4096]);
    let r = SwapWriter::new().page_size(4096).write(&mut buffer);
    assert_eq!(r, Ok(10 * 4096));
}

#[test]
fn deterministic_headers() {
    let mut first = Buffer::new(vec![0u8; 40 * 1024]);
    let mut second = Buffer::new(vec![0u8; 40 * 1024]);
    SwapWriter::new()
        .label(shuffle_label())
        .unwrap()
        .uuid(UUID_BYTES.to_vec())
        .page_size(4096)
        .write(&mut first)
        .unwrap();
    SwapWriter::new()
        .label(shuffle_label())
        .unwrap()
        .uuid(UUID_BYTES.to_vec())
        .page_size(4096)
        .write(&mut second)
        .unwrap();
    assert_eq!(first.into_inner(), second.into_inner());
}

#[test]
fn auto_detected_size() {
    let mut buffer = Buffer::new(vec![0u8; 4 * 1024 * 1024]);
    let size = SwapWriter::new().write(&mut buffer).unwrap();
    assert_eq!(size, 4 * 1024 * 1024);
    assert_eq!(buffer.stream_position(), 0);
}

#[test]
fn random_identifier_varies() {
    let mut regions: Vec<Vec<u8>> = Vec::new();
    for _ in 0..8 {
        let mut buffer = Buffer::new(vec![0u8; 40 * 1024]);
        SwapWriter::new().page_size(4096).write(&mut buffer).unwrap();
        let out = buffer.into_inner();
        regions.push(out[1036..1052].to_vec());
    }
    let first = regions[0].clone();
    assert!(regions.iter().any(|r| *r != first));
}

#[test]
fn existing_bytes_outside_header_are_kept() {
    let mut data = vec![0xabu8; 40 * 1024];
    for (i, b) in data.iter_mut().enumerate() {
        *b = (i % 251) as u8;
    }
    let before = data.clone();
    let mut buffer = Buffer::new(data);
    SwapWriter::new()
        .label(shuffle_label())
        .unwrap()
        .uuid(UUID_BYTES.to_vec())
        .page_size(4096)
        .write(&mut buffer)
        .unwrap();
    let out = buffer.into_inner();
    // the reserved boot region, the gap between label and magic, and
    // everything after the first page are untouched
    assert_eq!(&out[..1024], &before[..1024]);
    assert_eq!(&out[1056..4086], &before[1056..4086]);
    assert_eq!(&out[4096..], &before[4096..]);
}

#[test]
fn buffer_grows_zero_filled() {
    let mut buffer = Buffer::new(vec![1, 2, 3]);
    buffer.seek_to(5);
    buffer.write_bytes(&vec![9]);
    assert_eq!(buffer.stream_position(), 6);
    assert_eq!(buffer.into_inner(), vec![1, 2, 3, 0, 0, 9]);
}

#[test]
fn buffer_overwrites_at_cursor() {
    let mut buffer = Buffer::new(vec![7u8; 6]);
    buffer.seek_to(2);
    buffer.write_bytes(&vec![1, 2]);
    assert_eq!(buffer.into_inner(), vec![7, 7, 1, 2, 7, 7]);
}
