use png_chunk_type::chunk_type::ChunkType;

#[test]
fn text_is_the_four_letters() {
    assert_eq!(ChunkType::try_from([82, 117, 83, 116]).unwrap().to_string(), "RuSt");
    assert_eq!(ChunkType::try_from(*b"IHDR").unwrap().to_string(), "IHDR");
    assert_eq!(ChunkType::try_from([65, 90, 97, 122]).unwrap().to_string(), "AZaz");
    let text = ChunkType::try_from(*b"tEXt").unwrap().to_string();
    assert_eq!(text.len(), 4);
    assert_eq!(text.chars().count(), 4);
    assert_eq!(text.as_bytes(), b"tEXt");
}

#[test]
fn text_round_trip() {
    let letters: Vec<u8> = (b'A'..=b'Z').chain(b'a'..=b'z').collect();
    for &x in &letters {
        for &y in &letters {
            let c = ChunkType::try_from([x, y, y, x]).unwrap();
            let text = c.to_string();
            let back = ChunkType::from_str(&text).unwrap();
            assert_eq!(back, c);
            assert_eq!(back.bytes(), [x, y, y, x]);
        }
    }
}

#[test]
fn text_round_trip_from_text() {
    for s in ["RuSt", "ruSt", "RUSt", "Rust", "RuST", "IDAT"] {
        assert_eq!(ChunkType::from_str(s).unwrap().to_string(), s);
    }
}

#[test]
fn equality_is_reflexive_and_symmetric() {
    let a = ChunkType::from_str("RuSt").unwrap();
    let b = ChunkType::try_from([82, 117, 83, 116]).unwrap();
    let c = ChunkType::from_str("RuST").unwrap();
    assert!(a == a);
    assert!(a == b && b == a);
    assert!(a != c && c != a);
    assert!(!(a != b));
}

#[test]
fn equality_is_that_of_the_bytes() {
    let base = *b"RuSt";
    let a = ChunkType::try_from(base).unwrap();
    for pos in 0..4 {
        let mut other = base;
        other[pos] = b'Q';
        let b = ChunkType::try_from(other).unwrap();
        assert!(a != b, "position {}", pos);
        assert_eq!(a == b, a.bytes() == b.bytes());
    }
    // the order of the bytes counts
    assert!(ChunkType::try_from(*b"abcd").unwrap() != ChunkType::try_from(*b"dcba").unwrap());
    assert!(ChunkType::try_from(*b"abcd").unwrap() == ChunkType::try_from(*b"abcd").unwrap());
}

#[test]
fn a_copy_is_equal_to_its_source() {
    let a = ChunkType::from_str("bLOb").unwrap();
    let b = a;
    let c = a.clone();
    assert_eq!(a, b);
    assert_eq!(a, c);
    assert_eq!(c.bytes(), *b"bLOb");
}
