use ed25519_dalek::Signer;
use rcli::genpass::charset;
use rcli::{
    parse_text_sign_format, process_genpass, process_key_generate, process_text_sign,
    process_text_verify, verify_file, verify_input_file, verify_path, Blake3, Ed25519Signer, Ed25519Verifier,
    TextError, TextSignFormat, TextSigner, TextVerifier,
};

const KEY: &[u8] = b"Kx7#mQ2&vLp9^Zr4*Tn6!Wb8_Yd3@Hf5";

fn hex(text: &str) -> Vec<u8> {
    let digits: Vec<u8> = text
        .bytes()
        .map(|c| match c {
            b'0'..=b'9' => c - b'0',
            b'a'..=b'f' => c - b'a' + 10,
            _ => panic!("not a hex digit"),
        })
        .collect();
    digits.chunks(2).map(|pair| pair[0] * 16 + pair[1]).collect()
}

#[test]
fn test_process_text_sign() {
    let format = TextSignFormat::Blake3;
    let sig = process_text_sign("hello".as_bytes(), KEY, format).unwrap();
    let ret = process_text_verify("hello".as_bytes(), KEY, &sig, format).unwrap();
    assert!(ret);
}

#[test]
fn test_verify_input_file() {
    assert!(verify_file("-", false).is_ok());
    assert!(verify_file("*", false).is_err());
    assert!(verify_file("Cargo.toml", true).is_ok());
    assert!(verify_file("not-exist", false).is_err());
}

#[test]
fn verify_file_hands_the_name_back() {
    assert_eq!(verify_file("-", false), Ok("-".to_string()));
    assert_eq!(verify_file("-", true), Ok("-".to_string()));
    assert_eq!(verify_file("notes.txt", true), Ok("notes.txt".to_string()));
    assert_eq!(verify_file("notes.txt", false), Err(TextError::Io));
}

#[test]
fn verify_input_file_wants_an_existing_file() {
    assert_eq!(verify_input_file("data.csv", true), Ok("data.csv".to_string()));
    assert_eq!(verify_input_file("data.csv", false), Err(TextError::Io));
    assert_eq!(verify_input_file("-", false), Err(TextError::Io));
}

#[test]
fn verify_path_wants_an_existing_directory() {
    assert_eq!(verify_path("out", true, true), Ok("out".to_string()));
    assert_eq!(verify_path("out", true, false), Err(TextError::Io));
    assert_eq!(verify_path("out", false, false), Err(TextError::Io));
    assert_eq!(verify_path("out", false, true), Err(TextError::Io));
}

#[test]
fn blake3_hello_then_hellp() {
    assert_eq!(KEY.len(), 32);
    let sig = process_text_sign(b"hello", KEY, TextSignFormat::Blake3).unwrap();
    assert_eq!(sig.len(), 32);
    assert_eq!(
        process_text_verify(b"hello", KEY, &sig, TextSignFormat::Blake3),
        Ok(true)
    );
    assert_eq!(
        process_text_verify(b"hellp", KEY, &sig, TextSignFormat::Blake3),
        Ok(false)
    );
}

#[test]
fn blake3_signature_is_the_keyed_hash() {
    let mut key = [0u8; 32];
    key.copy_from_slice(KEY);
    let sig = process_text_sign(b"hello", KEY, TextSignFormat::Blake3).unwrap();
    assert_eq!(sig, blake3::keyed_hash(&key, b"hello").as_bytes().to_vec());
    assert_ne!(sig, KEY.to_vec());
    assert_ne!(sig, b"hello".to_vec());
    let empty = process_text_sign(b"", KEY, TextSignFormat::Blake3).unwrap();
    assert_eq!(empty, blake3::keyed_hash(&key, b"").as_bytes().to_vec());
    assert_ne!(empty, sig);
}

#[test]
fn blake3_sign_is_deterministic() {
    let a = process_text_sign(b"some content", KEY, TextSignFormat::Blake3).unwrap();
    let b = process_text_sign(b"some content", KEY, TextSignFormat::Blake3).unwrap();
    assert_eq!(a, b);
}

#[test]
fn blake3_sign_then_verify_on_several_contents() {
    let contents: [&[u8]; 4] = [b"", b"a", b"hello world", &[0u8; 5000]];
    for content in contents {
        let sig = process_text_sign(content, KEY, TextSignFormat::Blake3).unwrap();
        assert_eq!(
            process_text_verify(content, KEY, &sig, TextSignFormat::Blake3),
            Ok(true)
        );
    }
}

#[test]
fn blake3_rejects_signature_of_other_content() {
    let sig = process_text_sign(b"first message", KEY, TextSignFormat::Blake3).unwrap();
    assert_eq!(
        process_text_verify(b"second message", KEY, &sig, TextSignFormat::Blake3),
        Ok(false)
    );
    assert_eq!(
        process_text_verify(b"first messag", KEY, &sig, TextSignFormat::Blake3),
        Ok(false)
    );
}

#[test]
fn blake3_rejects_signature_under_other_key() {
    let other = b"0123456789abcdef0123456789abcdef";
    let sig = process_text_sign(b"hello", KEY, TextSignFormat::Blake3).unwrap();
    assert_eq!(
        process_text_verify(b"hello", other, &sig, TextSignFormat::Blake3),
        Ok(false)
    );
}

#[test]
fn blake3_signature_of_wrong_length_is_false() {
    let sig = process_text_sign(b"hello", KEY, TextSignFormat::Blake3).unwrap();
    assert_eq!(
        process_text_verify(b"hello", KEY, &sig[..31], TextSignFormat::Blake3),
        Ok(false)
    );
    let mut longer = sig.clone();
    longer.push(0);
    assert_eq!(
        process_text_verify(b"hello", KEY, &longer, TextSignFormat::Blake3),
        Ok(false)
    );
    assert_eq!(
        process_text_verify(b"hello", KEY, &[], TextSignFormat::Blake3),
        Ok(false)
    );
}

#[test]
fn blake3_flipped_bit_is_false() {
    let sig = process_text_sign(b"hello", KEY, TextSignFormat::Blake3).unwrap();
    for i in 0..32 {
        let mut bad = sig.clone();
        bad[i] ^= 1;
        assert_eq!(
            process_text_verify(b"hello", KEY, &bad, TextSignFormat::Blake3),
            Ok(false)
        );
    }
}

#[test]
fn blake3_short_key_is_refused() {
    assert!(matches!(Blake3::try_new(&[7u8; 16]), Err(TextError::KeyLength)));
    assert!(matches!(Blake3::try_new(&[7u8; 31]), Err(TextError::KeyLength)));
    assert!(matches!(Blake3::try_new(&[]), Err(TextError::KeyLength)));
    assert!(Blake3::try_new(&[7u8; 32]).is_ok());
    assert_eq!(
        process_text_sign(b"hello", &[7u8; 16], TextSignFormat::Blake3),
        Err(TextError::KeyLength)
    );
    assert_eq!(
        process_text_verify(b"hello", &[7u8; 16], &[0u8; 32], TextSignFormat::Blake3),
        Err(TextError::KeyLength)
    );
}

#[test]
fn blake3_long_key_uses_first_32_bytes() {
    let mut long_a = KEY.to_vec();
    long_a.extend_from_slice(b"AAAAAAAA");
    let mut long_b = KEY.to_vec();
    long_b.extend_from_slice(b"BBBBBBBB");
    assert_eq!(long_a.len(), 40);
    assert!(Blake3::try_new(&long_a).is_ok());
    let short = process_text_sign(b"hello", KEY, TextSignFormat::Blake3).unwrap();
    let a = process_text_sign(b"hello", &long_a, TextSignFormat::Blake3).unwrap();
    let b = process_text_sign(b"hello", &long_b, TextSignFormat::Blake3).unwrap();
    assert_eq!(a, short);
    assert_eq!(b, short);
    assert_eq!(
        process_text_verify(b"hello", &long_b, &a, TextSignFormat::Blake3),
        Ok(true)
    );
}

#[test]
fn blake3_backend_signs_and_verifies() {
    let mut key = [0u8; 32];
    key.copy_from_slice(KEY);
    let mac = Blake3::new(key);
    let sig = mac.sign(b"hello").unwrap();
    assert_eq!(
        sig,
        process_text_sign(b"hello", KEY, TextSignFormat::Blake3).unwrap()
    );
    assert_eq!(mac.verify(b"hello", &sig), Ok(true));
    assert_eq!(mac.verify(b"hello!", &sig), Ok(false));
}

#[test]
fn ed25519_known_answer() {
    let seed = hex("9d61b19deffd5a60ba844af492ec2cc44449c5697b326919703bac031cae7f60");
    let public = hex("d75a980182b10ab7d54bfed3c964073a0ee172f3daa62325af021a68f707511a");
    let signer = Ed25519Signer::try_new(&seed).unwrap();
    assert_eq!(signer.seed_bytes().to_vec(), seed);
    assert_eq!(signer.public_key_bytes().to_vec(), public);
    let sig = process_text_sign(b"", &seed, TextSignFormat::Ed25519).unwrap();
    assert_eq!(sig.len(), 64);
    assert_eq!(
        process_text_verify(b"", &public, &sig, TextSignFormat::Ed25519),
        Ok(true)
    );
    assert_eq!(
        process_text_verify(b"x", &public, &sig, TextSignFormat::Ed25519),
        Ok(false)
    );
}

#[test]
fn ed25519_agrees_with_the_primitive() {
    let seed = [42u8; 32];
    let dalek = ed25519_dalek::SigningKey::from_bytes(&seed);
    let signer = Ed25519Signer::new(&seed);
    assert_eq!(signer.public_key_bytes(), dalek.verifying_key().to_bytes());
    assert_ne!(signer.public_key_bytes(), seed);
    let sig = signer.sign(b"hello").unwrap();
    assert_eq!(sig, dalek.sign(b"hello").to_bytes().to_vec());
    assert_ne!(sig[..32], seed[..]);
    let verifier = signer.to_verifier();
    assert_eq!(verifier.key_bytes(), dalek.verifying_key().to_bytes());
    assert_eq!(verifier.verify(b"hello", &sig), Ok(true));
    assert_eq!(verifier.verify(b"hellp", &sig), Ok(false));
}

#[test]
fn ed25519_sign_then_verify_on_several_seeds() {
    for s in 0u8..8 {
        let seed = [s; 32];
        let public = Ed25519Signer::new(&seed).public_key_bytes();
        let contents: [&[u8]; 3] = [b"", b"hello", &[9u8; 1000]];
        for content in contents {
            let sig = process_text_sign(content, &seed, TextSignFormat::Ed25519).unwrap();
            assert_eq!(sig.len(), 64);
            assert_eq!(
                process_text_verify(content, &public, &sig, TextSignFormat::Ed25519),
                Ok(true)
            );
        }
    }
}

#[test]
fn ed25519_any_flipped_bit_is_false() {
    let seed = [3u8; 32];
    let public = Ed25519Signer::new(&seed).public_key_bytes();
    let sig = process_text_sign(b"hello", &seed, TextSignFormat::Ed25519).unwrap();
    for byte in 0..64 {
        for bit in 0..8 {
            let mut bad = sig.clone();
            bad[byte] ^= 1 << bit;
            assert_eq!(
                process_text_verify(b"hello", &public, &bad, TextSignFormat::Ed25519),
                Ok(false)
            );
        }
    }
}

#[test]
fn ed25519_signer_takes_first_32_bytes() {
    let mut long = vec![5u8; 32];
    long.extend_from_slice(&[6u8; 8]);
    let a = process_text_sign(b"hello", &long, TextSignFormat::Ed25519).unwrap();
    let b = process_text_sign(b"hello", &[5u8; 32], TextSignFormat::Ed25519).unwrap();
    assert_eq!(a, b);
    assert!(matches!(
        Ed25519Signer::try_new(&[5u8; 31]),
        Err(TextError::KeyLength)
    ));
    assert_eq!(
        process_text_sign(b"hello", &[5u8; 16], TextSignFormat::Ed25519),
        Err(TextError::KeyLength)
    );
}

#[test]
fn ed25519_verifier_wants_exactly_32_bytes() {
    let public = Ed25519Signer::new(&[1u8; 32]).public_key_bytes();
    assert!(Ed25519Verifier::try_new(&public).is_ok());
    assert!(matches!(
        Ed25519Verifier::try_new(&public[..31]),
        Err(TextError::KeyLength)
    ));
    let mut long = public.to_vec();
    long.push(0);
    assert!(matches!(
        Ed25519Verifier::try_new(&long),
        Err(TextError::KeyLength)
    ));
    assert_eq!(
        process_text_verify(b"hello", &long, &[0u8; 64], TextSignFormat::Ed25519),
        Err(TextError::KeyLength)
    );
}

#[test]
fn ed25519_verifier_refuses_bytes_that_are_no_point() {
    let mut refused = 0;
    let mut accepted = 0;
    for b in 0u8..=255 {
        let key = [b; 32];
        let decodes = ed25519_dalek::VerifyingKey::from_bytes(&key).is_ok();
        let made = Ed25519Verifier::try_new(&key);
        assert_eq!(made.is_ok(), decodes);
        if decodes {
            accepted += 1;
        } else {
            refused += 1;
            assert!(matches!(made, Err(TextError::KeyLength)));
            assert_eq!(
                process_text_verify(b"hello", &key, &[0u8; 64], TextSignFormat::Ed25519),
                Err(TextError::KeyLength)
            );
        }
    }
    assert!(refused > 0);
    assert!(accepted > 0);
}

#[test]
fn ed25519_signature_of_wrong_length_is_an_error() {
    let seed = [3u8; 32];
    let public = Ed25519Signer::new(&seed).public_key_bytes();
    let sig = process_text_sign(b"hello", &seed, TextSignFormat::Ed25519).unwrap();
    assert_eq!(
        process_text_verify(b"hello", &public, &sig[..63], TextSignFormat::Ed25519),
        Err(TextError::SignatureLength)
    );
    let mut long = sig.clone();
    long.push(0);
    assert_eq!(
        process_text_verify(b"hello", &public, &long, TextSignFormat::Ed25519),
        Err(TextError::SignatureLength)
    );
    assert_eq!(
        process_text_verify(b"hello", &public, &[], TextSignFormat::Ed25519),
        Err(TextError::SignatureLength)
    );
}

#[test]
fn mismatched_algorithms_fail_without_panic() {
    let mac = process_text_sign(b"hello", KEY, TextSignFormat::Blake3).unwrap();
    let got = process_text_verify(b"hello", KEY, &mac, TextSignFormat::Ed25519);
    assert!(matches!(
        got,
        Err(TextError::KeyLength) | Err(TextError::SignatureLength) | Ok(false)
    ));
    let seed = [3u8; 32];
    let public = Ed25519Signer::new(&seed).public_key_bytes();
    let sig = process_text_sign(b"hello", &seed, TextSignFormat::Ed25519).unwrap();
    assert_eq!(
        process_text_verify(b"hello", &public, &sig, TextSignFormat::Blake3),
        Ok(false)
    );
}

#[test]
fn generated_blake3_key() {
    let files = process_key_generate(TextSignFormat::Blake3).unwrap();
    assert_eq!(files.len(), 1);
    assert_eq!(files[0].name, "blake3.txt");
    assert_eq!(files[0].bytes.len(), 32);
    let chars = charset(true, true, true, true);
    assert!(files[0].bytes.iter().all(|b| chars.contains(b)));
    let sig = process_text_sign(b"hello", &files[0].bytes, TextSignFormat::Blake3).unwrap();
    assert_eq!(
        process_text_verify(b"hello", &files[0].bytes, &sig, TextSignFormat::Blake3),
        Ok(true)
    );
}

#[test]
fn generated_ed25519_key_pair() {
    let files = process_key_generate(TextSignFormat::Ed25519).unwrap();
    assert_eq!(files.len(), 2);
    assert_eq!(files[0].name, "ed25519.sk");
    assert_eq!(files[1].name, "ed25519.pk");
    assert_eq!(files[0].bytes.len(), 32);
    assert_eq!(files[1].bytes.len(), 32);
    let signer = Ed25519Signer::try_new(&files[0].bytes).unwrap();
    assert_eq!(signer.public_key_bytes().to_vec(), files[1].bytes);
    let mut seed = [0u8; 32];
    seed.copy_from_slice(&files[0].bytes);
    let dalek = ed25519_dalek::SigningKey::from_bytes(&seed);
    assert_eq!(dalek.verifying_key().to_bytes().to_vec(), files[1].bytes);
    let sig = process_text_sign(b"hello", &files[0].bytes, TextSignFormat::Ed25519).unwrap();
    assert_eq!(
        process_text_verify(b"hello", &files[1].bytes, &sig, TextSignFormat::Ed25519),
        Ok(true)
    );
}

#[test]
fn generated_keys_differ_from_call_to_call() {
    let a = process_key_generate(TextSignFormat::Ed25519).unwrap();
    let b = process_key_generate(TextSignFormat::Ed25519).unwrap();
    assert_ne!(a[0].bytes, b[0].bytes);
    let c = process_key_generate(TextSignFormat::Blake3).unwrap();
    let d = process_key_generate(TextSignFormat::Blake3).unwrap();
    assert_ne!(c[0].bytes, d[0].bytes);
}

#[test]
fn key_files_of_a_known_seed() {
    let seed = hex("9d61b19deffd5a60ba844af492ec2cc44449c5697b326919703bac031cae7f60");
    let files = Ed25519Signer::try_new(&seed).unwrap().key_files();
    assert_eq!(files.len(), 2);
    assert_eq!(files[0].name, "ed25519.sk");
    assert_eq!(files[0].bytes, seed);
    assert_eq!(files[1].name, "ed25519.pk");
    assert_eq!(
        files[1].bytes,
        hex("d75a980182b10ab7d54bfed3c964073a0ee172f3daa62325af021a68f707511a")
    );
}

#[test]
fn format_tokens() {
    assert_eq!(parse_text_sign_format("blake3"), Ok(TextSignFormat::Blake3));
    assert_eq!(parse_text_sign_format("ed25519"), Ok(TextSignFormat::Ed25519));
    assert_eq!(TextSignFormat::Blake3.as_str(), "blake3");
    assert_eq!(TextSignFormat::Ed25519.as_str(), "ed25519");
    assert_eq!(TextSignFormat::Blake3.to_string(), "blake3".to_string());
    assert_eq!(TextSignFormat::Ed25519.to_string(), "ed25519".to_string());
    assert_eq!(
        parse_text_sign_format("blake3").unwrap().to_string(),
        "blake3".to_string()
    );
    assert_eq!(<&str>::from(TextSignFormat::Blake3), "blake3");
    assert_eq!(<&str>::from(TextSignFormat::Ed25519), "ed25519");
    assert_eq!("ed25519".parse::<TextSignFormat>(), Ok(TextSignFormat::Ed25519));
    assert_eq!("blake3".parse::<TextSignFormat>(), Ok(TextSignFormat::Blake3));
}

#[test]
fn unknown_format_tokens_are_refused() {
    for token in ["", "Blake3", "BLAKE3", "blake", "blake3 ", " ed25519", "ed25519x", "sha256", "b3"] {
        assert_eq!(parse_text_sign_format(token), Err(TextError::FormatParse));
        assert_eq!(token.parse::<TextSignFormat>(), Err(TextError::FormatParse));
    }
}

#[test]
fn error_messages() {
    assert_eq!(TextError::FormatParse.message(), "Invalid text sign format");
    assert_eq!(TextError::KeyLength.message(), "Invalid key length or key material");
    assert_eq!(TextError::SignatureLength.message(), "Invalid signature length");
    assert_eq!(TextError::Io.message(), "File or directory does not exist");
}

#[test]
fn charset_by_class() {
    assert_eq!(charset(true, false, false, false), b"ABCDEFGHIJKLMNOPQRSTUVWXYZ".to_vec());
    assert_eq!(charset(false, true, false, false), b"abcdefghijklmnopqrstuvwxyz".to_vec());
    assert_eq!(charset(false, false, true, false), b"0123456789".to_vec());
    assert_eq!(charset(false, false, false, true), b"!@#$%^&*_".to_vec());
    assert_eq!(charset(false, false, false, false), Vec::<u8>::new());
    assert_eq!(
        charset(true, true, true, true),
        b"ABCDEFGHIJKLMNOPQRSTUVWXYZabcdefghijklmnopqrstuvwxyz0123456789!@#$%^&*_".to_vec()
    );
}

#[test]
fn select_picks_in_order() {
    assert_eq!(rcli::genpass::select(b"abc", &[2, 0, 1, 1]), b"cabb".to_vec());
    assert_eq!(rcli::genpass::select(b"abc", &[]), Vec::<u8>::new());
}

#[test]
fn genpass_length_and_classes() {
    for length in [0u8, 1, 16, 32, 255] {
        let digits = process_genpass(length, false, false, true, false);
        assert_eq!(digits.len(), length as usize);
        assert!(digits.iter().all(|b| b.is_ascii_digit()));
        let letters = process_genpass(length, true, true, false, false);
        assert_eq!(letters.len(), length as usize);
        assert!(letters.iter().all(|b| b.is_ascii_alphabetic()));
    }
    let long = process_genpass(255, true, true, true, true);
    assert!(long.iter().any(|b| *b != long[0]));
}

#[test]
fn byte_helpers() {
    assert_eq!(rcli::bytes::head_array::<4>(b"abcdef"), *b"abcd");
    assert_eq!(rcli::bytes::to_vec(b"abc"), b"abc".to_vec());
    assert!(rcli::bytes::bytes_equal(b"abc", b"abc"));
    assert!(!rcli::bytes::bytes_equal(b"abc", b"abd"));
    assert!(!rcli::bytes::bytes_equal(b"abc", b"ab"));
    assert!(rcli::bytes::bytes_equal(b"", b""));
}
