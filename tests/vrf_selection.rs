use bandwidth_market::ledger::Identity;
use bandwidth_market::vrf_selection::{
    fulfill_random_selection, get_selected_node, random_value_from_bytes, request_random_node,
    select_weighted_node, ErrorCode,
};

fn id(n: u128) -> Identity {
    Identity::new(5, n)
}

fn random_bytes(value: u64) -> [u8; 32] {
    let mut bytes = [0xAAu8; 32];
    bytes[..8].copy_from_slice(&value.to_le_bytes());
    bytes
}

#[test]
fn random_value_reads_first_eight_bytes_little_endian() {
    let mut bytes = [0xFFu8; 32];
    bytes[..8].copy_from_slice(&[1, 2, 3, 4, 5, 6, 7, 8]);
    assert_eq!(random_value_from_bytes(&bytes), 0x0807_0605_0403_0201);
    assert_eq!(random_value_from_bytes(&random_bytes(u64::MAX)), u64::MAX);
}

#[test]
fn request_starts_unfulfilled() {
    let (request, event) = request_random_node(id(1), [9u8; 32], 77);
    assert_eq!(request.user, id(1));
    assert_eq!(request.seed, [9u8; 32]);
    assert!(!request.is_fulfilled);
    assert_eq!(get_selected_node(&request), None);
    assert_eq!(event.timestamp, 77);
}

#[test]
fn weights_ten_twenty_seventy_target_fifteen_picks_second() {
    let nodes = vec![id(10), id(11), id(12)];
    let weights = vec![10u8, 20, 70];
    let (mut request, _) = request_random_node(id(1), [0u8; 32], 0);
    let event = fulfill_random_selection(&mut request, random_bytes(315), &nodes, &weights, 5).unwrap();
    assert_eq!(event.selected_node, id(11));
    assert!(request.is_fulfilled);
    assert_eq!(get_selected_node(&request), Some(id(11)));
}

#[test]
fn selection_bucket_boundaries() {
    let nodes = vec![id(10), id(11), id(12)];
    let weights = vec![10u8, 20, 70];
    assert_eq!(select_weighted_node(9, &nodes, &weights), Ok(id(10)));
    assert_eq!(select_weighted_node(10, &nodes, &weights), Ok(id(11)));
    assert_eq!(select_weighted_node(29, &nodes, &weights), Ok(id(11)));
    assert_eq!(select_weighted_node(30, &nodes, &weights), Ok(id(12)));
    assert_eq!(select_weighted_node(99, &nodes, &weights), Ok(id(12)));
    assert_eq!(select_weighted_node(100, &nodes, &weights), Ok(id(10)));
    let skip = vec![0u8, 5, 0];
    assert_eq!(select_weighted_node(0, &nodes, &skip), Ok(id(11)));
    assert_eq!(select_weighted_node(0, &nodes, &vec![0u8, 0, 0]), Err(ErrorCode::ZeroTotalWeight));
}

#[test]
fn fulfilled_request_refuses_again_and_keeps_node() {
    let nodes = vec![id(10), id(11), id(12)];
    let weights = vec![10u8, 20, 70];
    let (mut request, _) = request_random_node(id(1), [0u8; 32], 0);
    fulfill_random_selection(&mut request, random_bytes(15), &nodes, &weights, 5).unwrap();
    let again = fulfill_random_selection(&mut request, random_bytes(95), &nodes, &weights, 6);
    assert_eq!(again.err(), Some(ErrorCode::AlreadyFulfilled));
    let mismatched = fulfill_random_selection(&mut request, random_bytes(95), &nodes, &vec![1u8], 6);
    assert_eq!(mismatched.err(), Some(ErrorCode::AlreadyFulfilled));
    assert_eq!(get_selected_node(&request), Some(id(11)));
}

#[test]
fn fulfill_rejects_bad_inputs() {
    let (mut request, _) = request_random_node(id(1), [0u8; 32], 0);
    let nodes = vec![id(10), id(11)];
    let r = fulfill_random_selection(&mut request, random_bytes(1), &nodes, &vec![1u8], 0);
    assert_eq!(r.err(), Some(ErrorCode::MismatchedLengths));
    let r = fulfill_random_selection(&mut request, random_bytes(1), &vec![], &vec![], 0);
    assert_eq!(r.err(), Some(ErrorCode::EmptyNodePool));
    let r = fulfill_random_selection(&mut request, random_bytes(1), &nodes, &vec![0u8, 0], 0);
    assert_eq!(r.err(), Some(ErrorCode::ZeroTotalWeight));
    assert!(!request.is_fulfilled);
    assert_eq!(get_selected_node(&request), None);
}
