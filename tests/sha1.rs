use almetica::sha1::Sha1;
use byteorder::{ByteOrder, LittleEndian};
use hex::encode;

fn digest_to_hex(msg: &str) -> String {
    bytes_to_hex(msg.as_bytes())
}

fn bytes_to_hex(msg: &[u8]) -> String {
    let mut h = Sha1::new();
    h.update(msg);
    let hash = h.hash();
    let mut buf = [0; 20];
    for i in 0..5 {
        LittleEndian::write_u32(&mut buf[i * 4..], hash[i])
    }
    encode(buf)
}

#[test]
fn test_sha1_empty() {
    assert_eq!(
        "19ea6cf956ddd18a4a08ac1710c6923defc00877",
        digest_to_hex("")
    );
}

#[test]
fn test_sha1_hello_world() {
    assert_eq!(
        "c382ce9f95c18748a2b3403b85183e88a6a84f0c",
        digest_to_hex("hello world")
    );
    assert_eq!(
        "cd4df1db2c067776df20233f305e1c8bb9101d94",
        digest_to_hex("hello, world")
    );
    assert_eq!(
        "8a3e3ab2ba039d638aa171b17a1a477b06d19b53",
        digest_to_hex("Hello, World")
    );
}

#[test]
fn sha1_padding_boundaries() {
    let cases: [(usize, &str); 6] = [
        (55, "7c9ff50f0dc1afb99adcbc7a0e0ec0b84f03027b"),
        (56, "dbf126f870b2dd56a7215fe263410ca4ff471cb5"),
        (63, "bb1a1961c7d1b5fd55aece7b392be86d9acbbfbf"),
        (64, "11398163db01b93469035a7aa3bc3993de9d401c"),
        (119, "323a68863bc6ed4c42d620ef0e68b15c57cf5440"),
        (120, "e8a41f45061c1232a4b575da05f7bcd49cecdea1"),
    ];
    for (n, expected) in cases.iter() {
        let msg = vec![b'a'; *n];
        assert_eq!(*expected, bytes_to_hex(&msg), "length {}", n);
    }
}

#[test]
fn sha1_split_updates_match_one_update() {
    let msg: Vec<u8> = (0..200u32).map(|i| (i * 7 % 256) as u8).collect();
    let mut whole = Sha1::new();
    whole.update(&msg);
    let mut parts = Sha1::new();
    parts.update(&msg[..3]);
    parts.update(&msg[3..70]);
    parts.update(&msg[70..]);
    assert_eq!(whole.hash(), parts.hash());
}

#[test]
fn sha1_hash_twice_gives_same_words() {
    let mut h = Sha1::new();
    h.update(b"hello world");
    let first = h.hash();
    let second = h.hash();
    assert_eq!(first, second);
}
