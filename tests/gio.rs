use gio_oracle::account::{encode_account_fields, parse_account, parse_storage, Account, AccountFields};
use gio_oracle::bytes::concat_bytes;
use gio_oracle::client::{decode_response, encode_request, GIORequest, GIOResponse};
use gio_oracle::codec::{GIODomain, GIOHash, GIOHint, GIOQuery};
use gio_oracle::database::GIODatabase;
use gio_oracle::error::{EVMError, GIOError, ProtocolError};
use gio_oracle::hex::{hex_decode, hex_encode};
use gio_oracle::walker::{BlockWalk, HeaderLink, WalkStep};

fn to_hex_text(b: &[u8]) -> String {
    let mut s = String::from("0x");
    for x in b {
        s.push_str(&format!("{:02x}", x));
    }
    s
}

/// A scripted oracle: answers each request by domain, counting round trips.
struct MockOracle {
    account: Vec<u8>,
    images: Vec<(Vec<u8>, Vec<u8>)>,
    storage: Vec<u8>,
    calls: usize,
    image_calls: usize,
}

impl MockOracle {
    fn answer(&mut self, req: &GIORequest) -> (u32, String) {
        self.calls += 1;
        let payload = hex_decode(&req.id).expect("request id is hex");
        if req.domain == 0x29 {
            (200, to_hex_text(&self.account))
        } else if req.domain == 0x27 {
            (200, to_hex_text(&self.storage))
        } else if req.domain == 0x2e {
            (200, String::from("0x"))
        } else if req.domain == 0x2a {
            self.image_calls += 1;
            assert_eq!(payload[0], 2);
            for (k, v) in &self.images {
                if &payload[1..] == k.as_slice() {
                    return (200, to_hex_text(v));
                }
            }
            (404, String::from("0x"))
        } else {
            (400, String::from("0x"))
        }
    }

    fn emit(&mut self, q: &GIOQuery) -> Result<Vec<u8>, GIOError> {
        let req = encode_request(q);
        let (code, text) = self.answer(&req);
        decode_response(code, &text).map(|r| r.data)
    }
}

fn mock() -> MockOracle {
    MockOracle { account: vec![], images: vec![], storage: vec![], calls: 0, image_calls: 0 }
}

fn account_bytes(balance: u8, nonce: u64, code_hash: [u8; 32]) -> Vec<u8> {
    let mut p = vec![0u8; 31];
    p.push(balance);
    p.extend_from_slice(&nonce.to_be_bytes());
    p.extend_from_slice(&code_hash);
    p
}

fn header_bytes(number: u64, parent: [u8; 32]) -> Vec<u8> {
    let h = alloy_consensus::Header {
        number,
        parent_hash: alloy_primitives::B256::from(parent),
        ..Default::default()
    };
    let mut out = Vec::new();
    alloy_rlp::Encodable::encode(&h, &mut out);
    out
}

fn lookup_account(db: &GIODatabase, oracle: &mut MockOracle, address: &[u8; 20]) -> Result<Account, GIOError> {
    let payload = oracle.emit(&db.account_query(address))?;
    let fields = parse_account(&payload)?;
    let mut last = Vec::new();
    for q in db.code_queries(address, &fields) {
        last = oracle.emit(&q)?;
    }
    Ok(Account::assemble(fields, last))
}

fn lookup_block_hash(db: &GIODatabase, oracle: &mut MockOracle, number: u64) -> Result<[u8; 32], GIOError> {
    let mut walk = db.block_walk(number);
    loop {
        let mut last = Vec::new();
        for q in walk.requests() {
            last = oracle.emit(&q)?;
        }
        match walk.on_header(&last) {
            WalkStep::Found(h) => return Ok(h),
            WalkStep::Next(w) => walk = w,
            WalkStep::Failed(e) => return Err(e),
        }
    }
}

#[test]
fn domain_tags_are_big_endian() {
    assert_eq!(GIODomain::GetStorage.to_bytes(), [0, 0, 0, 0x27]);
    assert_eq!(GIODomain::GetAccount.to_bytes(), [0, 0, 0, 0x29]);
    assert_eq!(GIODomain::GetImage.to_bytes(), [0, 0, 0, 0x2a]);
    assert_eq!(GIODomain::PreimageHint.to_bytes(), [0, 0, 0, 0x2e]);
    assert_eq!(GIODomain::PreimageHint.code(), 0x2e);
}

#[test]
fn hint_and_hash_tags() {
    assert_eq!(GIOHint::EthCodePreimage.to_bytes(), [1]);
    assert_eq!(GIOHint::EthBlockPreimage.to_bytes(), [2]);
    assert_eq!(GIOHash::Keccak256.to_bytes(), [2]);
}

#[test]
fn response_is_ok_only_for_200() {
    assert!(GIOResponse { code: 200, data: vec![] }.is_ok());
    assert!(!GIOResponse { code: 404, data: vec![1] }.is_ok());
    assert!(!GIOResponse { code: 201, data: vec![] }.is_ok());
}

#[test]
fn concat_keeps_order() {
    assert_eq!(concat_bytes(&vec![1, 2], &vec![3]), vec![1, 2, 3]);
    assert_eq!(concat_bytes(&vec![], &vec![]), Vec::<u8>::new());
}

#[test]
fn hex_encode_is_prefixed_lowercase() {
    assert_eq!(hex_encode(&vec![0x01, 0xab, 0xff, 0x00]), "0x01abff00");
    assert_eq!(hex_encode(&vec![]), "0x");
}

#[test]
fn hex_round_trip_on_samples() {
    let samples: Vec<Vec<u8>> = vec![vec![], vec![0], vec![0xde, 0xad, 0xbe, 0xef], (0..=255).collect()];
    for b in samples {
        assert_eq!(hex_decode(&hex_encode(&b)), Ok(b));
    }
}

#[test]
fn hex_decode_accepts_either_case_and_prefix() {
    assert_eq!(hex_decode("0XABcd"), Ok(vec![0xab, 0xcd]));
    assert_eq!(hex_decode("abcd"), Ok(vec![0xab, 0xcd]));
    assert_eq!(hex_decode("0x"), Ok(vec![]));
}

#[test]
fn hex_decode_rejects_bad_text() {
    let bad = Err(GIOError::BadResponseData(ProtocolError::InvalidHex));
    assert_eq!(hex_decode("0x123"), bad);
    assert_eq!(hex_decode("0xzz"), bad);
    assert_eq!(hex_decode("0x12é"), bad);
}

#[test]
fn request_carries_domain_and_hex_id() {
    let q = GIOQuery { domain: GIODomain::GetAccount, payload: vec![0x12, 0x34] };
    assert_eq!(encode_request(&q), GIORequest { domain: 0x29, id: String::from("0x1234") });
}

#[test]
fn non_200_response_is_oracle_error() {
    assert_eq!(decode_response(500, "0x00"), Err(GIOError::BadResponse { response_code: 500 }));
    assert_eq!(decode_response(404, "not hex"), Err(GIOError::BadResponse { response_code: 404 }));
    assert_eq!(decode_response(0, ""), Err(GIOError::BadResponse { response_code: 0 }));
}

#[test]
fn response_payload_is_decoded() {
    assert_eq!(decode_response(200, "0x6001"), Ok(GIOResponse { code: 200, data: vec![0x60, 0x01] }));
    assert_eq!(
        decode_response(200, "0x6"),
        Err(GIOError::BadResponseData(ProtocolError::InvalidHex))
    );
}

#[test]
fn account_payload_fields_and_round_trip() {
    let mut p = Vec::new();
    for i in 0..72u8 {
        p.push(i.wrapping_mul(37));
    }
    let f = parse_account(&p).unwrap();
    assert_eq!(&f.balance[..], &p[0..32]);
    assert_eq!(f.nonce, u64::from_be_bytes(p[32..40].try_into().unwrap()));
    assert_eq!(&f.code_hash[..], &p[40..72]);
    assert_eq!(encode_account_fields(&f), p);
}

#[test]
fn account_fields_encode_big_endian_nonce() {
    let f = AccountFields { balance: [0; 32], nonce: 0x0102030405060708, code_hash: [9; 32] };
    let p = encode_account_fields(&f);
    assert_eq!(&p[32..40], &[1, 2, 3, 4, 5, 6, 7, 8]);
    assert_eq!(parse_account(&p), Ok(f));
}

#[test]
fn account_payload_of_wrong_length_is_rejected() {
    assert_eq!(
        parse_account(&vec![0; 71]),
        Err(GIOError::BadResponseData(ProtocolError::InvalidLength { expected: 72, actual: 71 }))
    );
    assert_eq!(
        parse_account(&vec![]),
        Err(GIOError::BadResponseData(ProtocolError::InvalidLength { expected: 72, actual: 0 }))
    );
}

#[test]
fn storage_word_parsing() {
    let mut w = vec![0u8; 31];
    w.push(7);
    let r = parse_storage(&w).unwrap();
    assert_eq!(r[31], 7);
    assert_eq!(
        parse_storage(&vec![1; 33]),
        Err(GIOError::BadResponseData(ProtocolError::InvalidLength { expected: 32, actual: 33 }))
    );
}

#[test]
fn query_payload_layouts() {
    let db = GIODatabase::new([0x11; 32]);
    let address = [0x22; 20];
    let q = db.account_query(&address);
    assert_eq!(q.domain, GIODomain::GetAccount);
    assert_eq!(q.payload, [vec![0x11; 32], vec![0x22; 20]].concat());
    let s = db.storage_query(&address, &[0x33; 32]);
    assert_eq!(s.domain, GIODomain::GetStorage);
    assert_eq!(s.payload, [vec![0x11; 32], vec![0x22; 20], vec![0x33; 32]].concat());
    let fields = AccountFields { balance: [0; 32], nonce: 0, code_hash: [0x44; 32] };
    let c = db.code_queries(&address, &fields);
    assert_eq!(c[0].domain, GIODomain::PreimageHint);
    assert_eq!(c[0].payload, [vec![1], vec![0x11; 32], vec![0x22; 20]].concat());
    assert_eq!(c[1].domain, GIODomain::GetImage);
    assert_eq!(c[1].payload, [vec![2], vec![0x44; 32]].concat());
}

#[test]
fn end_to_end_account_lookup() {
    let db = GIODatabase::new([0x01; 32]);
    let mut oracle = mock();
    oracle.account = account_bytes(1, 0, [0xaa; 32]);
    oracle.images = vec![(vec![0xaa; 32], vec![0x60, 0x01])];
    let a = lookup_account(&db, &mut oracle, &[0x05; 20]).unwrap();
    let mut one = [0u8; 32];
    one[31] = 1;
    assert_eq!(a, Account { balance: one, nonce: 0, code_hash: [0xaa; 32], code: vec![0x60, 0x01] });
    assert_eq!(oracle.calls, 3);
}

#[test]
fn account_lookup_fails_on_missing_code() {
    let db = GIODatabase::new([0x01; 32]);
    let mut oracle = mock();
    oracle.account = account_bytes(1, 0, [0xbb; 32]);
    assert_eq!(
        lookup_account(&db, &mut oracle, &[0x05; 20]),
        Err(GIOError::BadResponse { response_code: 404 })
    );
}

#[test]
fn storage_lookups_are_not_memoized() {
    let db = GIODatabase::new([0x01; 32]);
    let mut oracle = mock();
    let mut w = vec![0u8; 32];
    w[0] = 0x80;
    oracle.storage = w.clone();
    let slot = [0x02; 32];
    let a = parse_storage(&oracle.emit(&db.storage_query(&[0x03; 20], &slot)).unwrap()).unwrap();
    let b = parse_storage(&oracle.emit(&db.storage_query(&[0x03; 20], &slot)).unwrap()).unwrap();
    assert_eq!(a, b);
    assert_eq!(&a[..], &w[..]);
    assert_eq!(oracle.calls, 2);
}

#[test]
fn block_walk_finds_parent_after_two_fetches() {
    let (h0, h1, h2) = ([0xa0; 32], [0xa1; 32], [0xa2; 32]);
    let mut oracle = mock();
    oracle.images = vec![
        (h0.to_vec(), header_bytes(10, h1)),
        (h1.to_vec(), header_bytes(9, h2)),
        (h2.to_vec(), header_bytes(8, [0xa3; 32])),
    ];
    let db = GIODatabase::new(h0);
    assert_eq!(lookup_block_hash(&db, &mut oracle, 9), Ok(h1));
    assert_eq!(oracle.image_calls, 2);
    assert_eq!(oracle.calls, 4);
}

#[test]
fn block_walk_start_block_is_its_own_answer() {
    let (h0, h1) = ([0xb0; 32], [0xb1; 32]);
    let mut oracle = mock();
    oracle.images = vec![(h0.to_vec(), header_bytes(10, h1))];
    let db = GIODatabase::new(h0);
    assert_eq!(lookup_block_hash(&db, &mut oracle, 10), Ok(h0));
    assert_eq!(oracle.image_calls, 1);
}

#[test]
fn block_walk_above_start_is_not_found() {
    let (h0, h1) = ([0xc0; 32], [0xc1; 32]);
    let mut oracle = mock();
    oracle.images = vec![(h0.to_vec(), header_bytes(10, h1))];
    let db = GIODatabase::new(h0);
    assert_eq!(lookup_block_hash(&db, &mut oracle, 11), Err(GIOError::BlockNotFound { number: 11 }));
    assert_eq!(oracle.image_calls, 1);
}

#[test]
fn block_walk_past_genesis_is_not_found() {
    let (h0, h1) = ([0xd0; 32], [0xd1; 32]);
    let mut oracle = mock();
    oracle.images = vec![(h0.to_vec(), header_bytes(1, h1)), (h1.to_vec(), header_bytes(0, [0; 32]))];
    let db = GIODatabase::new(h0);
    let mut walk = db.block_walk(5);
    walk = match walk.on_header_link(HeaderLink { number: 7, parent_hash: h0 }) {
        WalkStep::Next(w) => w,
        _ => panic!("the walk goes on"),
    };
    assert_eq!(walk.current(), h0);
    assert_eq!(walk.target(), 5);
    match walk.on_header_link(HeaderLink { number: 4, parent_hash: h1 }) {
        WalkStep::Failed(e) => assert_eq!(e, GIOError::BlockNotFound { number: 5 }),
        _ => panic!("the walk passed its target"),
    }
    assert_eq!(lookup_block_hash(&db, &mut oracle, 3), Err(GIOError::BlockNotFound { number: 3 }));
}

#[test]
fn block_walk_rejects_non_descending_chain() {
    let walk = BlockWalk::new([0xe0; 32], 2);
    let walk = match walk.on_header_link(HeaderLink { number: 5, parent_hash: [0xe1; 32] }) {
        WalkStep::Next(w) => w,
        _ => panic!("the walk goes on"),
    };
    match walk.on_header_link(HeaderLink { number: 5, parent_hash: [0xe2; 32] }) {
        WalkStep::Failed(e) => assert_eq!(e, GIOError::BadResponseData(ProtocolError::BrokenChain)),
        _ => panic!("a parent must carry a lower number"),
    }
}

#[test]
fn block_walk_rejects_undecodable_header() {
    let walk = BlockWalk::new([0xf0; 32], 2);
    let hint = walk.requests();
    assert_eq!(hint[0].payload, [vec![2], vec![0xf0; 32]].concat());
    assert_eq!(hint[1].payload, [vec![2], vec![0xf0; 32]].concat());
    match walk.on_header(&vec![0x01, 0x02]) {
        WalkStep::Failed(e) => assert_eq!(e, GIOError::BadResponseData(ProtocolError::InvalidHeader)),
        _ => panic!("not a header"),
    }
}

#[test]
fn header_bytes_are_decoded() {
    let walk = BlockWalk::new([0x10; 32], 3);
    match walk.on_header(&header_bytes(4, [0x11; 32])) {
        WalkStep::Next(w) => assert_eq!(w.current(), [0x11; 32]),
        _ => panic!("the walk goes on"),
    }
}

#[test]
fn evm_error_carries_details() {
    let e = EVMError::ExecutionFailed(String::from("revert"));
    assert_eq!(e.clone(), EVMError::ExecutionFailed(String::from("revert")));
}
