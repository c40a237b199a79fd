use flo_client::token::NodeConnectToken;

#[test]
fn token_round_trip() {
    let bytes: Vec<u8> = (1u8..=16).collect();
    let token = NodeConnectToken::from_vec(bytes.clone()).unwrap();
    assert_eq!(token.to_vec(), bytes);
    assert_eq!(NodeConnectToken::from_vec(token.to_vec()), Some(token));
}

#[test]
fn token_of_zeros() {
    let token = NodeConnectToken::from_vec(vec![0u8; 16]).unwrap();
    assert_eq!(token.to_vec(), vec![0u8; 16]);
}

#[test]
fn token_rejects_wrong_length() {
    assert_eq!(NodeConnectToken::from_vec(vec![]), None);
    assert_eq!(NodeConnectToken::from_vec(vec![7u8; 15]), None);
    assert_eq!(NodeConnectToken::from_vec(vec![7u8; 17]), None);
    assert_eq!(NodeConnectToken::from_vec(vec![7u8; 32]), None);
}

#[test]
fn token_keeps_byte_order() {
    let mut bytes = vec![0u8; 16];
    bytes[0] = 255;
    bytes[15] = 1;
    let token = NodeConnectToken::from_vec(bytes.clone()).unwrap();
    let out = token.to_vec();
    assert_eq!(out.len(), 16);
    assert_eq!(out[0], 255);
    assert_eq!(out[15], 1);
    assert_ne!(NodeConnectToken::from_vec(vec![0u8; 16]), Some(token));
}
