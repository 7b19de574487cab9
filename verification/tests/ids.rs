use finlife::shared::ids::Uuid;
use finlife::shared::utils::{bu, obu, oub, read_stored_id, read_stored_owner, ub};

const BYTES: [u8; 16] = [
    0x67, 0xe5, 0x50, 0x44, 0x10, 0xb1, 0x42, 0x6f, 0x92, 0x47, 0xbb, 0x68, 0x0e, 0x5f, 0xe0, 0xc8,
];

#[test]
fn identity_text_is_hyphenated_lower_case() {
    let id = Uuid::from_bytes(BYTES);
    assert_eq!(id.to_string(), "67e55044-10b1-426f-9247-bb680e5fe0c8");
}

#[test]
fn identity_text_of_zero_and_of_all_ones() {
    assert_eq!(Uuid::from_bytes([0u8; 16]).to_string(), "00000000-0000-0000-0000-000000000000");
    assert_eq!(Uuid::from_bytes([0xff; 16]).to_string(), "ffffffff-ffff-ffff-ffff-ffffffffffff");
}

#[test]
fn identity_keeps_its_bytes() {
    let id = Uuid::from_bytes(BYTES);
    assert_eq!(id.as_bytes(), &BYTES);
    assert_eq!(ub(id), BYTES.to_vec());
}

#[test]
fn from_slice_takes_sixteen_bytes_only() {
    assert_eq!(Uuid::from_slice(&BYTES), Some(Uuid::from_bytes(BYTES)));
    assert_eq!(Uuid::from_slice(&BYTES[..15]), None);
    assert_eq!(Uuid::from_slice(&[0u8; 17]), None);
    assert_eq!(Uuid::from_slice(&[]), None);
}

#[test]
fn bytes_and_identity_convert_both_ways() {
    let id = Uuid::from_bytes(BYTES);
    assert_eq!(bu(&ub(id)), id);
    assert_eq!(oub(Some(id)), Some(BYTES.to_vec()));
    assert_eq!(oub(None), None);
    assert_eq!(obu(Some(&BYTES)), Some(id));
    assert_eq!(obu(None), None);
}

#[test]
fn parse_str_reads_the_hyphenated_text() {
    let id = Uuid::parse_str("67e55044-10b1-426f-9247-bb680e5fe0c8");
    assert_eq!(id, Some(Uuid::from_bytes(BYTES)));
}

#[test]
fn parse_str_reads_what_to_string_writes() {
    let id = Uuid::from_bytes([7u8; 16]);
    assert_eq!(Uuid::parse_str(&id.to_string()), Some(id));
}

#[test]
fn parse_str_refuses_what_is_no_identity() {
    assert_eq!(Uuid::parse_str(""), None);
    assert_eq!(Uuid::parse_str("not-an-identity"), None);
    assert_eq!(Uuid::parse_str("67e55044-10b1-426f-9247-bb680e5fe0c"), None);
}

#[test]
fn stored_identity_must_be_present_and_sixteen_bytes_long() {
    assert_eq!(read_stored_id(&Some(BYTES.to_vec())), Ok(Uuid::from_bytes(BYTES)));
    let missing = read_stored_id(&None).unwrap_err();
    assert_eq!(missing.column, "id");
    let short = read_stored_id(&Some(vec![1, 2, 3])).unwrap_err();
    assert_eq!(short.column, "id");
    assert_ne!(missing.problem, short.problem);
}

#[test]
fn stored_owner_must_be_sixteen_bytes_long() {
    assert_eq!(read_stored_owner(&BYTES.to_vec()), Ok(Uuid::from_bytes(BYTES)));
    assert_eq!(read_stored_owner(&vec![0u8; 4]).unwrap_err().column, "user_id");
}
