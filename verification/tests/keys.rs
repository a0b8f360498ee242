use darknode::service::failed::SolFailed;
use darknode::service::keys::{Keypair, Pubkey, SecretKey};

const SECRET: [u8; 32] = [
    157, 97, 177, 157, 239, 253, 90, 96, 186, 132, 74, 244, 146, 236, 44, 196, 68, 73, 197, 105,
    123, 50, 105, 25, 112, 59, 172, 3, 28, 174, 127, 96,
];
const PUBLIC: [u8; 32] = [
    215, 90, 152, 1, 130, 177, 10, 183, 213, 75, 254, 211, 201, 100, 7, 58, 14, 225, 114, 243, 218,
    166, 35, 37, 175, 2, 26, 104, 247, 7, 81, 26,
];
const ADDRESS: &str = "FVen3X669xLzsi6N2V91DoiyzHzg1uAgqiT8jZ9nS96Z";

fn pair() -> Vec<u8> {
    [SECRET, PUBLIC].concat()
}

#[test]
fn keypair_reads_back() {
    let keypair = Keypair::decode(pair());
    assert_eq!(keypair.encode(), pair());
    assert_eq!(keypair.pubkey().bytes, PUBLIC);
    assert_eq!(keypair.secret().encode(), SECRET.to_vec());
}

#[test]
fn keypair_refuses_what_is_none() {
    assert!(Keypair::try_decode(pair()).is_some());
    assert!(Keypair::try_decode(Vec::new()).is_none());
    assert!(Keypair::try_decode(pair()[..63].to_vec()).is_none());
    let mut long = pair();
    long.push(0);
    assert!(Keypair::try_decode(long).is_none());
    let mut off_curve = vec![0u8; 64];
    off_curve[32] = 2;
    assert!(Keypair::try_decode(off_curve).is_none());
}

#[test]
fn keypair_does_not_compare_its_halves() {
    let mut bytes = pair();
    bytes[0] = bytes[0].wrapping_add(1);
    let keypair = Keypair::try_decode(bytes.clone()).unwrap();
    assert_eq!(keypair.encode(), bytes);
}

#[test]
fn generated_pairs_are_fresh_and_consistent() {
    let first = Keypair::generate();
    let second = Keypair::generate();
    assert_ne!(first.encode(), second.encode());
    let secret = ed25519_dalek::SecretKey::from_bytes(&first.secret().encode()).unwrap();
    let public = ed25519_dalek::PublicKey::from(&secret);
    assert_eq!(first.pubkey().bytes, public.to_bytes());
    assert!(Keypair::try_decode(first.encode()).is_some());
}

#[test]
fn pubkey_reads_back() {
    let key = Pubkey { bytes: PUBLIC };
    assert_eq!(key.encode(), ADDRESS);
    assert_eq!(Pubkey::decode(ADDRESS.to_string()), key);
    let zero = Pubkey { bytes: [0; 32] };
    assert_eq!(zero.encode(), "11111111111111111111111111111111");
    assert_eq!(Pubkey::try_decode(zero.encode()), Some(zero));
}

#[test]
fn pubkey_is_written_in_base58() {
    let mut bytes = [0; 32];
    bytes[30] = 1;
    let key = Pubkey { bytes };
    assert_eq!(key.encode(), "1111111111111111111111111111115R");
    assert_eq!(Pubkey::try_decode(key.encode()), Some(key));
    let highest = Pubkey { bytes: [255; 32] };
    assert_eq!(highest.encode(), "JEKNVnkbo3jma5nREBBJCDoXFVeKkD56V3xKrvRmWxFG");
    assert_eq!(Pubkey::try_decode(highest.encode()), Some(highest));
}

#[test]
fn pubkey_refuses_what_is_none() {
    assert_eq!(Pubkey::try_decode(String::new()), None);
    assert_eq!(Pubkey::try_decode("1111111111111111111111111111111".to_string()), None);
    assert_eq!(Pubkey::try_decode("111111111111111111111111111111111".to_string()), None);
    assert_eq!(Pubkey::try_decode(ADDRESS.replace('F', "0")), None);
    assert_eq!(Pubkey::try_decode("z".repeat(45)), None);
}

#[test]
fn secret_key_reads_back() {
    let secret = SecretKey::decode(SECRET.to_vec()).unwrap();
    assert_eq!(secret.encode(), SECRET.to_vec());
}

#[test]
fn secret_key_has_one_length() {
    for length in [0, 31, 33, 64] {
        match SecretKey::decode(vec![5; length]) {
            Err(SolFailed::DecodeAndEncodeError(err)) => {
                assert_eq!(err, "load secret key from slice")
            }
            other => panic!("{:?}", other),
        }
    }
}

#[test]
fn failures_read_as_told() {
    assert_eq!(SolFailed::NotEnoughValue(0).to_string(), "There is no enough value 0");
    assert_eq!(
        SolFailed::NotEnoughValue(u64::MAX).to_string(),
        "There is no enough value 18446744073709551615"
    );
    assert_eq!(SolFailed::BadSolAddress("x".to_string()).to_string(), "Bad Sol Address: x");
    assert_eq!(
        SolFailed::DecodeAndEncodeError("y".to_string()).to_string(),
        "Decode and decode keys error: y"
    );
    assert_eq!(SolFailed::from("z".to_string()).to_string(), "SolFailed: z");
}
