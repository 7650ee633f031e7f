use acme_client::crypto::error::{ComposeError, ParseError};
use acme_client::crypto::{ES256Pub, ES256};
use acme_client::jwk::{Algorithm, Ec, EcCurves, Jwk, Key, Parameters, Signing};

fn hex(s: &str) -> Vec<u8> {
    (0..s.len() / 2)
        .map(|i| u8::from_str_radix(&s[2 * i..2 * i + 2], 16).unwrap())
        .collect()
}

const GX: &str = "6b17d1f2e12c4247f8bce6e563a440f277037d812deb33a0f4a13945d898c296";
const GY: &str = "4fe342e2fe1a7f9b8ee7eb4a7c0f9e162bce33576b315ececbb6406837bf51f5";
const ORDER: &str = "ffffffff00000000ffffffffffffffffbce6faada7179e84f3b9cac2fc632551";

fn ec_jwk(alg: Option<Algorithm>, crv: EcCurves, x: Vec<u8>, y: Vec<u8>, d: Option<Vec<u8>>) -> Jwk {
    Jwk {
        key: Key::Ec(Ec { crv, x, y, d }),
        prm: Parameters { alg },
    }
}

fn es256() -> Option<Algorithm> {
    Some(Algorithm::Signing(Signing::Es256))
}

fn one() -> Vec<u8> {
    let mut d = vec![0u8; 32];
    d[31] = 1;
    d
}

#[test]
fn test_jwk() {
    let es256_sk = ES256::new();
    let es256_sk_jwk = es256_sk.to_jwk().unwrap();
    let recovered_es256_sk = ES256::from_jwk(&es256_sk_jwk).unwrap();
    assert_eq!(&es256_sk, &recovered_es256_sk);
    let es256_pk = es256_sk.pubkey();
    let es256_pk_jwk = es256_pk.to_jwk().unwrap();
    let recovered_es256_pk = ES256Pub::from_jwk(&es256_pk_jwk).unwrap();
    assert_eq!(&es256_pk, &recovered_es256_pk);
}

#[test]
fn generated_keys_differ() {
    assert_ne!(ES256::new(), ES256::new());
}

#[test]
fn scalar_one_has_generator_as_public_point() {
    let jwk = ec_jwk(es256(), EcCurves::P256, vec![], vec![], Some(one()));
    let sk = ES256::from_jwk(&jwk).unwrap();
    let out = sk.to_jwk().unwrap();
    let expected = ec_jwk(es256(), EcCurves::P256, hex(GX), hex(GY), Some(one()));
    assert_eq!(out, expected);
    let pk_jwk = sk.pubkey().to_jwk().unwrap();
    assert_eq!(pk_jwk, ec_jwk(es256(), EcCurves::P256, hex(GX), hex(GY), None));
}

#[test]
fn verifying_key_of_generator() {
    let jwk = ec_jwk(es256(), EcCurves::P256, hex(GX), hex(GY), None);
    let pk = ES256Pub::from_jwk(&jwk).unwrap();
    assert_eq!(pk.to_jwk().unwrap(), jwk);
    let sk = ES256::from_jwk(&ec_jwk(es256(), EcCurves::P256, vec![], vec![], Some(one()))).unwrap();
    assert_eq!(sk.pubkey(), pk);
}

#[test]
fn public_projection_round_trip() {
    let sk = ES256::new();
    let pk = sk.pubkey();
    assert_eq!(ES256Pub::from_jwk(&pk.to_jwk().unwrap()).unwrap(), pk);
}

#[test]
fn wrong_algorithm_is_rejected() {
    let sk = ES256::new();
    for alg in [None, Some(Algorithm::Signing(Signing::Es384)), Some(Algorithm::Signing(Signing::Rs256))] {
        let mut jwk = sk.to_jwk().unwrap();
        jwk.prm.alg = alg;
        assert_eq!(ES256::from_jwk(&jwk), Err(ParseError::InvalidKeyParameters));
        assert_eq!(ES256Pub::from_jwk(&jwk), Err(ParseError::InvalidKeyParameters));
    }
}

#[test]
fn wrong_curve_is_rejected() {
    let sk = ES256::new();
    for crv in [EcCurves::P384, EcCurves::P521, EcCurves::P256K] {
        let mut jwk = sk.to_jwk().unwrap();
        if let Key::Ec(ec) = &mut jwk.key {
            ec.crv = crv;
        }
        assert_eq!(ES256::from_jwk(&jwk), Err(ParseError::UnsupportedCurve));
        assert_eq!(ES256Pub::from_jwk(&jwk), Err(ParseError::UnsupportedCurve));
    }
    for key in [Key::Rsa, Key::Oct, Key::Okp] {
        let jwk = Jwk { key, prm: Parameters::es256() };
        assert_eq!(ES256::from_jwk(&jwk), Err(ParseError::UnsupportedCurve));
        assert_eq!(ES256Pub::from_jwk(&jwk), Err(ParseError::UnsupportedCurve));
    }
}

#[test]
fn missing_private_field() {
    let pk_jwk = ES256::new().pubkey().to_jwk().unwrap();
    assert_eq!(ES256::from_jwk(&pk_jwk), Err(ParseError::MissingField));
    assert!(ES256Pub::from_jwk(&pk_jwk).is_ok());
}

#[test]
fn invalid_scalars_are_rejected() {
    for d in [vec![], vec![1u8; 31], vec![1u8; 33], vec![0u8; 32], hex(ORDER), vec![0xffu8; 32]] {
        let jwk = ec_jwk(es256(), EcCurves::P256, hex(GX), hex(GY), Some(d));
        assert_eq!(ES256::from_jwk(&jwk), Err(ParseError::InvalidKeyParameters));
    }
    let mut below_order = hex(ORDER);
    below_order[31] -= 1;
    let jwk = ec_jwk(es256(), EcCurves::P256, vec![], vec![], Some(below_order));
    assert!(ES256::from_jwk(&jwk).is_ok());
}

#[test]
fn invalid_points_are_rejected() {
    let mut off_curve = hex(GY);
    off_curve[31] ^= 1;
    let cases = [
        (vec![0u8; 32], vec![0u8; 32]),
        (hex(GX), off_curve),
        (hex(GX)[..31].to_vec(), hex(GY)),
        (hex(GX), vec![]),
        (vec![0xffu8; 32], hex(GY)),
    ];
    for (x, y) in cases {
        let jwk = ec_jwk(es256(), EcCurves::P256, x, y, None);
        assert_eq!(ES256Pub::from_jwk(&jwk), Err(ParseError::InvalidKeyParameters));
    }
}

#[test]
fn verifying_parse_ignores_d() {
    let jwk = ec_jwk(es256(), EcCurves::P256, hex(GX), hex(GY), Some(vec![0u8; 3]));
    assert!(ES256Pub::from_jwk(&jwk).is_ok());
}

#[test]
fn error_messages() {
    assert_eq!(ParseError::UnsupportedCurve.message(), "unsupported curve");
    assert_eq!(ParseError::MissingField.message(), "missing required field");
    assert_eq!(ParseError::InvalidKeyParameters.message(), "invalid key parameters");
    assert_eq!(ParseError::UnsupportedAlgorithm.message(), "unsupported algorithm");
    assert_eq!(ComposeError::KeyConversionFailed.message(), "key conversion failed");
}

#[test]
fn parameters_declare_es256() {
    assert!(Parameters::es256().is_es256());
    assert_eq!(Parameters::es256().alg, es256());
    assert!(!Parameters { alg: None }.is_es256());
}
