use gstr::{encode_legacy, GStr, GStrError, GlobalHeap};

#[test]
fn gstr_test() {
    {
        let mut heap = GlobalHeap::new();
        let text = "適当なGSTR";
        let src = GStr::clone_from_slice_nofree(&mut heap, text.as_bytes());
        assert_eq!(src.to_utf8_str(&heap).unwrap(), text);
        assert_eq!(src.len(), 13);

        let dst = GStr::capture(src.handle(), src.len());
        assert_eq!(dst.to_utf8_str(&heap).unwrap(), text);
        dst.release(&mut heap);
    }
    {
        let mut heap = GlobalHeap::new();
        let text = "適当なGSTR";
        let sjis = encode_legacy(text).unwrap();
        assert_eq!(sjis.len(), 10);
        let src = GStr::clone_from_slice_nofree(&mut heap, &sjis[..]);
        assert_eq!(src.len(), 10);
        let src_osstr = src.to_ansi_str(&heap).unwrap();
        assert_eq!(src_osstr.len(), 13);

        let dst = GStr::capture(src.handle(), src.len());
        assert_eq!(src_osstr, dst.to_ansi_str(&heap).unwrap());

        let src_str = src_osstr.as_str();
        assert_eq!(src_str, text);
        dst.release(&mut heap);
    }
}

#[test]
fn utf8_round_trip() {
    let mut heap = GlobalHeap::new();
    for text in ["", "plain ascii", "適当なGSTR", "émoji: 😀", "\u{7FF}\u{800}\u{FFFF}\u{10000}"] {
        let wrapper = GStr::clone_from_slice_nofree(&mut heap, text.as_bytes());
        assert_eq!(wrapper.len(), text.len());
        assert_eq!(wrapper.to_bytes(&heap), text.as_bytes());
        assert_eq!(wrapper.to_utf8_str(&heap).unwrap(), text);
    }
}

#[test]
fn legacy_round_trip() {
    let mut heap = GlobalHeap::new();
    for text in ["", "GSTR", "適当なGSTR", "カタカナとascii"] {
        let encoded = encode_legacy(text).unwrap();
        let wrapper = GStr::clone_from_slice_nofree(&mut heap, &encoded[..]);
        assert_eq!(wrapper.len(), encoded.len());
        assert_eq!(wrapper.to_ansi_str(&heap).unwrap(), text);
    }
}

#[test]
fn length_invariant() {
    let mut heap = GlobalHeap::new();
    let bytes = [7u8, 0, 255, 3];
    let cloned = GStr::clone_from_slice_nofree(&mut heap, &bytes);
    assert_eq!(cloned.len(), 4);
    assert_eq!(heap.block_len(cloned.handle()), 4);

    let captured = GStr::capture(cloned.handle(), cloned.len());
    assert_eq!(captured.len(), 4);
    assert_eq!(captured.to_bytes(&heap), &bytes);
    captured.release(&mut heap);
}

#[test]
fn nofree_release_keeps_block() {
    let mut heap = GlobalHeap::new();
    let text = "survives the borrower";
    let src = GStr::clone_from_slice_nofree(&mut heap, text.as_bytes());
    let h = src.handle();
    let n = src.len();
    src.release(&mut heap);
    assert!(heap.is_live(h));

    let dst = GStr::capture(h, n);
    assert_eq!(dst.to_utf8_str(&heap).unwrap(), text);
    dst.release(&mut heap);
    assert!(!heap.is_live(h));
}

#[test]
fn owning_release_frees_block() {
    let mut heap = GlobalHeap::new();
    let src = GStr::clone_from_slice_nofree(&mut heap, b"owned once");
    let h = src.handle();
    let owner = GStr::capture(h, src.len());
    assert!(heap.is_live(h));
    owner.release(&mut heap);
    assert!(!heap.is_live(h));
}

#[test]
fn multibyte_byte_counts() {
    let mut heap = GlobalHeap::new();
    let text = "適当なGSTR";
    let utf8_wrapper = GStr::clone_from_slice_nofree(&mut heap, text.as_bytes());
    assert_eq!(utf8_wrapper.len(), 13);

    let sjis = encode_legacy(text).unwrap();
    assert_eq!(sjis.len(), 10);
    let sjis_wrapper = GStr::clone_from_slice_nofree(&mut heap, &sjis[..]);
    assert_eq!(sjis_wrapper.len(), 10);
}

#[test]
fn invalid_utf8_is_reported() {
    let mut heap = GlobalHeap::new();
    let lone_continuation = GStr::clone_from_slice_nofree(&mut heap, &[0x80u8]);
    match lone_continuation.to_utf8_str(&heap) {
        Err(GStrError::Utf8Error(fault)) => {
            assert_eq!(fault.valid_up_to, 0);
            assert_eq!(fault.error_len, Some(1));
        }
        other => panic!("expected a UTF-8 validation error, got {:?}", other),
    }

    let after_prefix = GStr::clone_from_slice_nofree(&mut heap, &[b'a', b'b', 0x80u8]);
    match after_prefix.to_utf8_str(&heap) {
        Err(GStrError::Utf8Error(fault)) => {
            assert_eq!(fault.valid_up_to, 2);
            assert_eq!(fault.error_len, Some(1));
        }
        other => panic!("expected a UTF-8 validation error, got {:?}", other),
    }

    let truncated_char = GStr::clone_from_slice_nofree(&mut heap, &[0xE9u8, 0x81u8]);
    match truncated_char.to_utf8_str(&heap) {
        Err(GStrError::Utf8Error(fault)) => {
            assert_eq!(fault.valid_up_to, 0);
            assert_eq!(fault.error_len, None);
        }
        other => panic!("expected a UTF-8 validation error, got {:?}", other),
    }
}

#[test]
fn invalid_legacy_bytes_are_reported() {
    let mut heap = GlobalHeap::new();
    let bad_lead = GStr::clone_from_slice_nofree(&mut heap, &[0xFFu8]);
    assert_eq!(bad_lead.to_ansi_str(&heap), Err(GStrError::AnsiEncode));

    let truncated_pair = GStr::clone_from_slice_nofree(&mut heap, &[0x93u8]);
    assert_eq!(truncated_pair.to_ansi_str(&heap), Err(GStrError::AnsiEncode));
}

#[test]
fn unmappable_text_fails_legacy_encode() {
    assert_eq!(encode_legacy("한글"), None);
}

#[test]
fn capture_after_nofree_clone_reproduces_text() {
    let mut heap = GlobalHeap::new();
    let text = "適当なGSTR";
    let src = GStr::clone_from_slice_nofree(&mut heap, text.as_bytes());
    let h = src.handle();
    let n = src.len();
    src.release(&mut heap);

    let dst = GStr::capture(h, n);
    assert_eq!(dst.to_utf8_str(&heap).unwrap(), text);
    dst.release(&mut heap);
}

#[test]
fn empty_buffer_decodes_to_empty_text() {
    let mut heap = GlobalHeap::new();
    let empty = GStr::clone_from_slice_nofree(&mut heap, &[]);
    assert_eq!(empty.len(), 0);
    assert_eq!(empty.to_bytes(&heap), &[] as &[u8]);
    assert_eq!(empty.to_utf8_str(&heap).unwrap(), "");
    assert_eq!(empty.to_ansi_str(&heap).unwrap(), "");
}
