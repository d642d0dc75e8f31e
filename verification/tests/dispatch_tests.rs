use omglol::client::{interpret_response, HttpVerb, OmglolClient};
use omglol::structures::{
    DNStype, DispatchError, DNSrecords, MessageResponse, RequestError, ServiceStatus,
};

#[test]
fn non_200_is_remote_status_failure_401() {
    let r = interpret_response::<DNSrecords>(401, "ignored");
    match r {
        Err(DispatchError::RemoteStatusFailure(e)) => assert_eq!(e.status_code, 401),
        _ => panic!("expected a remote status failure"),
    }
}

#[test]
fn non_200_is_remote_status_failure_404() {
    let r = interpret_response::<DNSrecords>(404, "{not even json");
    match r {
        Err(DispatchError::RemoteStatusFailure(e)) => assert_eq!(e.status_code, 404),
        _ => panic!("expected a remote status failure"),
    }
}

#[test]
fn non_200_is_remote_status_failure_500() {
    let r = interpret_response::<MessageResponse>(500, "");
    match r {
        Err(DispatchError::RemoteStatusFailure(e)) => assert_eq!(e.status_code, 500),
        _ => panic!("expected a remote status failure"),
    }
}

#[test]
fn ok_body_decodes_to_envelope() {
    let body = "{\"request\":{\"status_code\":200,\"success\":true},\"response\":{\"message\":\"hello\"}}";
    let env = interpret_response::<MessageResponse>(200, body).unwrap();
    assert_eq!(env.request.status_code, 200);
    assert!(env.request.success);
    assert_eq!(env.response.message, "hello");
}

#[test]
fn unknown_fields_are_ignored() {
    let body = "{\"request\":{\"status_code\":200,\"success\":true,\"spare\":1},\"response\":{\"message\":\"hello\",\"extra\":[1,2,3]},\"more\":null}";
    let env = interpret_response::<MessageResponse>(200, body).unwrap();
    assert_eq!(env.request.status_code, 200);
    assert_eq!(env.response.message, "hello");
}

#[test]
fn missing_required_field_is_decode_failure() {
    // the response object lacks the required message field
    let body = "{\"request\":{\"status_code\":200,\"success\":true},\"response\":{\"note\":\"hello\"}}";
    let r = interpret_response::<MessageResponse>(200, body);
    assert_eq!(r, Err(DispatchError::DecodeFailure));
}

#[test]
fn wrong_field_type_is_decode_failure() {
    let body = "{\"request\":{\"status_code\":200,\"success\":true},\"response\":{\"message\":7}}";
    let r = interpret_response::<MessageResponse>(200, body);
    assert_eq!(r, Err(DispatchError::DecodeFailure));
}

#[test]
fn malformed_json_is_decode_failure() {
    let r = interpret_response::<MessageResponse>(200, "{\"request\":");
    assert_eq!(r, Err(DispatchError::DecodeFailure));
}

#[test]
fn envelope_missing_request_is_decode_failure() {
    let body = "{\"response\":{\"message\":\"hello\"}}";
    let r = interpret_response::<MessageResponse>(200, body);
    assert_eq!(r, Err(DispatchError::DecodeFailure));
}

#[test]
fn status_code_out_of_range_is_decode_failure() {
    let body = "{\"request\":{\"status_code\":70000,\"success\":true},\"response\":{\"message\":\"hello\"}}";
    let r = interpret_response::<MessageResponse>(200, body);
    assert_eq!(r, Err(DispatchError::DecodeFailure));
}

#[test]
fn get_dns_records_scenario() {
    // an authenticated "get DNS records" call for address "example"
    let client = OmglolClient::new().auth("T1".to_string());
    let req = client.get_dns_records("example");
    assert_eq!(req.method, HttpVerb::Get);
    assert_eq!(req.url, "https://api.omg.lol/address/example/dns");
    assert_eq!(req.bearer, Some("T1".to_string()));
    assert_eq!(req.body, None);
    // ... and its 200 reply with an empty record list decodes cleanly
    let body =
        "{\"request\":{\"status_code\":200,\"success\":true},\"response\":{\"message\":\"ok\",\"dns\":[]}}";
    let env = interpret_response::<DNSrecords>(200, body).unwrap();
    assert_eq!(env.request.status_code, 200);
    assert!(env.request.success);
    assert_eq!(env.response.message, "ok");
    assert!(env.response.dns.is_empty());
}

#[test]
fn dns_records_with_one_record() {
    let body = "{\"request\":{\"status_code\":200,\"success\":true},\"response\":{\"message\":\"ok\",\"dns\":[{\"id\":42,\"name\":\"foo.example.omg.lol\",\"data\":\"1.2.3.4\",\"priority\":null,\"ttl\":3600,\"created_at\":\"then\",\"updated_at\":null,\"type\":\"A\"}]}}";
    let env = interpret_response::<DNSrecords>(200, body).unwrap();
    assert_eq!(env.response.dns.len(), 1);
    let rec = &env.response.dns[0];
    assert_eq!(rec.id, 42);
    assert_eq!(rec.name, "foo.example.omg.lol");
    assert_eq!(rec.data, "1.2.3.4");
    assert_eq!(rec.priority, None);
    assert_eq!(rec.ttl, 3600);
    assert_eq!(rec.created_at.as_deref(), Some("then"));
    assert_eq!(rec.updated_at, None);
    assert_eq!(rec.record_type, DNStype::A);
}

#[test]
fn dns_record_bad_type_is_decode_failure() {
    let body = "{\"request\":{\"status_code\":200,\"success\":true},\"response\":{\"message\":\"ok\",\"dns\":[{\"id\":1,\"name\":\"n\",\"data\":\"d\",\"priority\":null,\"ttl\":1,\"created_at\":null,\"updated_at\":null,\"type\":\"WRONG\"}]}}";
    let r = interpret_response::<DNSrecords>(200, body);
    assert_eq!(r, Err(DispatchError::DecodeFailure));
}

#[test]
fn service_status_decodes() {
    let body = "{\"request\":{\"status_code\":200,\"success\":true},\"response\":{\"message\":\"all well\",\"members\":3,\"addresses\":5,\"profiles\":7}}";
    let env = interpret_response::<ServiceStatus>(200, body).unwrap();
    assert_eq!(env.response.message, "all well");
    assert_eq!(env.response.members, 3);
    assert_eq!(env.response.addresses, 5);
    assert_eq!(env.response.profiles, 7);
}

#[test]
fn transport_failure_variant_is_distinct() {
    let e = DispatchError::TransportFailure;
    assert!(e != DispatchError::DecodeFailure);
    assert!(e != DispatchError::PreconditionViolation);
    assert!(e != DispatchError::RemoteStatusFailure(RequestError { status_code: 500 }));
}
