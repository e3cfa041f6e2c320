use nautilus_core::UUID4;
use trading_cache::identifiers::ClientId;
use trading_cache::messages::{DataRequest, DataResponse};

#[test]
fn response_carries_its_parts() {
    let response_id = UUID4::new();
    let correlation_id = UUID4::new();
    let response =
        DataResponse::new(response_id, correlation_id, ClientId::new("C-1").unwrap(), vec![1_u8, 2]);
    assert_eq!(response.response_id, response_id);
    assert_eq!(response.correlation_id, correlation_id);
    assert_eq!(response.client_id.as_str(), "C-1");
    assert_eq!(response.data, vec![1_u8, 2]);
    assert_eq!(response.into_data(), vec![1_u8, 2]);
}

#[test]
fn answer_carries_the_correlation_id_and_client_of_the_request() {
    let request_id = UUID4::from("2d89666b-1a1e-4a75-b193-4eb3b454c757");
    let correlation_id = UUID4::from("6ba7b810-9dad-41d1-80b4-00c04fd430c8");
    let request = DataRequest::new(request_id, correlation_id, ClientId::new("C-9").unwrap());
    assert_eq!(request.request_id, request_id);
    assert_eq!(request.correlation_id, correlation_id);

    let response_id = UUID4::new();
    let response = DataResponse::answering(&request, response_id, String::from("payload"));
    assert_eq!(response.response_id, response_id);
    assert_eq!(response.correlation_id, correlation_id);
    assert_eq!(response.client_id.as_str(), "C-9");
    assert_eq!(response.data, "payload");
}
