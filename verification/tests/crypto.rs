use aes::Aes128;
use block_modes::block_padding::Pkcs7;
use block_modes::{BlockMode, Cbc};
use messagerie::crypto::{chiffrer, dechiffrer, try_dechiffrer, DecryptError, IV, KEY};

fn raw_encrypt(data: &[u8]) -> Vec<u8> {
    Cbc::<Aes128, Pkcs7>::new_from_slices(&KEY, &IV).unwrap().encrypt_vec(data)
}

#[test]
fn key_and_iv_are_the_shared_constants() {
    let key: Vec<u8> = (0u8..16).collect();
    let iv: Vec<u8> = (0xf0u8..=0xff).collect();
    assert_eq!(KEY.to_vec(), key);
    assert_eq!(IV.to_vec(), iv);
}

#[test]
fn chiffrer_matches_known_ciphertext() {
    let ct = chiffrer("Hello world!".to_string());
    let expected: Vec<u8> = vec![
        0x1b, 0x7a, 0x4c, 0x40, 0x31, 0x24, 0xae, 0x2f, 0xb5, 0x2b, 0xed, 0xc5, 0x34, 0xd8, 0x2f, 0xa8,
    ];
    assert_eq!(ct, expected);
}

#[test]
fn chiffrer_pads_to_whole_blocks() {
    assert_eq!(chiffrer(String::new()).len(), 16);
    assert_eq!(chiffrer("a".repeat(15)).len(), 16);
    assert_eq!(chiffrer("a".repeat(16)).len(), 32);
    assert_eq!(chiffrer("é".to_string()).len(), 16);
}

#[test]
fn dechiffrer_gives_back_what_chiffrer_sent() {
    for s in ["", "salut\n", "Entrez votre pseudo :", "àéî ünïcode ✓", &"x".repeat(100)] {
        let ct = chiffrer(s.to_string());
        assert_eq!(try_dechiffrer(&ct), Ok(s.to_string()));
        assert_eq!(dechiffrer(&ct), s.to_string());
        assert!(ct.len() >= 16 && ct.len() % 16 == 0 && s.len() < ct.len());
    }
}

#[test]
fn dechiffrer_rejects_empty_and_partial_blocks() {
    assert_eq!(try_dechiffrer(&[]), Err(DecryptError::Cipher));
    assert_eq!(try_dechiffrer(&[0u8; 15]), Err(DecryptError::Cipher));
    assert_eq!(try_dechiffrer(&[1, 2, 3, 4, 5]), Err(DecryptError::Cipher));
    let ct = chiffrer("hello".to_string());
    assert_eq!(try_dechiffrer(&ct[..15]), Err(DecryptError::Cipher));
}

#[test]
fn dechiffrer_rejects_bad_padding() {
    let mut ct = chiffrer("hello".to_string());
    // A block of zeros after the message decrypts to a block whose padding is
    // wrong with overwhelming probability; here it is checked on this input.
    ct.extend_from_slice(&[0u8; 16]);
    assert_eq!(try_dechiffrer(&ct), Err(DecryptError::Cipher));
}

#[test]
fn dechiffrer_rejects_invalid_utf8() {
    let ct = raw_encrypt(&[0x66, 0xff, 0x66]);
    assert_eq!(try_dechiffrer(&ct), Err(DecryptError::Utf8));
}

#[test]
fn dechiffrer_reads_utf8_encrypted_elsewhere() {
    let ct = raw_encrypt("bonjour".as_bytes());
    assert_eq!(try_dechiffrer(&ct), Ok("bonjour".to_string()));
    assert_eq!(dechiffrer(&ct), "bonjour");
}
