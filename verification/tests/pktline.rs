use git_http_backend::pktline::{encode, service_announcement, service_text, PackService, MAX_PAYLOAD};

#[test]
fn upload_pack_announcement_bytes() {
    assert_eq!(
        service_announcement(PackService::UploadPack),
        b"001e# service=git-upload-pack\n0000".to_vec()
    );
}

#[test]
fn receive_pack_announcement_bytes() {
    assert_eq!(
        service_announcement(PackService::ReceivePack),
        b"001f# service=git-receive-pack\n0000".to_vec()
    );
}

#[test]
fn service_lines() {
    assert_eq!(service_text(PackService::UploadPack), "# service=git-upload-pack\n");
    assert_eq!(service_text(PackService::ReceivePack), "# service=git-receive-pack\n");
}

#[test]
fn length_counts_its_own_digits() {
    assert_eq!(encode(b""), Some(b"0004".to_vec()));
    assert_eq!(encode(b"a"), Some(b"0005a".to_vec()));
    assert_eq!(encode(b"hello\n"), Some(b"000ahello\n".to_vec()));
    assert_eq!(encode(&[0u8; 12]).unwrap()[..4], *b"0010");
    assert_eq!(encode(&[7u8; 251]).unwrap()[..4], *b"00ff");
    assert_eq!(encode(&[7u8; 252]).unwrap()[..4], *b"0100");
    assert_eq!(encode(&[7u8; 0xabcd - 4]).unwrap()[..4], *b"abcd");
}

#[test]
fn longest_payload() {
    let payload = vec![1u8; MAX_PAYLOAD];
    let line = encode(&payload).unwrap();
    assert_eq!(line.len(), 65535);
    assert_eq!(line[..4], *b"ffff");
    assert_eq!(line[4..], payload[..]);
    assert_eq!(encode(&vec![1u8; MAX_PAYLOAD + 1]), None);
}
