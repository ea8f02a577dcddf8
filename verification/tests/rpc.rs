use serviceless::rpc::{check_status, status_is_success, RpcClient, RpcClientError, RpcError, RpcResponse};

#[test]
fn response_with_result_resolves_to_it() {
    let resp: RpcResponse<u64> = RpcResponse {
        jsonrpc: String::from("2.0"),
        result: Some(7),
        error: None,
        id: 1,
    };
    assert_eq!(resp.into_result(), Ok(Some(7)));
}

#[test]
fn response_with_error_resolves_to_the_error() {
    let resp: RpcResponse<u64> = RpcResponse {
        jsonrpc: String::from("2.0"),
        result: None,
        error: Some(RpcError { code: -32601, message: String::from("method not found") }),
        id: 2,
    };
    assert_eq!(
        resp.into_result(),
        Err(RpcError { code: -32601, message: String::from("method not found") })
    );
}

#[test]
fn response_with_result_wins_over_error() {
    let resp: RpcResponse<u64> = RpcResponse {
        jsonrpc: String::from("2.0"),
        result: Some(3),
        error: Some(RpcError { code: -1, message: String::from("ignored") }),
        id: 3,
    };
    assert_eq!(resp.into_result(), Ok(Some(3)));
}

#[test]
fn empty_response_is_an_empty_success() {
    let resp: RpcResponse<u64> = RpcResponse {
        jsonrpc: String::from("2.0"),
        result: None,
        error: None,
        id: 4,
    };
    assert_eq!(resp.into_result(), Ok(None));
}

#[test]
fn request_identifiers_increase_monotonically() {
    let mut client = RpcClient::new(String::from("http://localhost:8545"), Some(vec![1, 2, 3]));
    assert_eq!(client.next_request_id(), 0);
    assert_eq!(client.next_request_id(), 1);
    assert_eq!(client.next_request_id(), 2);
    assert_eq!(client.url, String::from("http://localhost:8545"));
    assert_eq!(client.jwt_secret, Some(vec![1, 2, 3]));
}

#[test]
fn success_statuses_pass_and_others_map_to_errors() {
    assert!(status_is_success(200));
    assert!(status_is_success(299));
    assert!(!status_is_success(199));
    assert!(!status_is_success(300));
    assert_eq!(check_status(200), Ok(()));
    assert_eq!(check_status(404), Err(RpcClientError::NotSuccessCode(404)));
    assert_eq!(check_status(500), Err(RpcClientError::NotSuccessCode(500)));
}
