//! Whole exchanges, with a stand-in for the transport: it answers the request
//! that it is handed with a fixed body, as a local server would.

use httper::client::error::Error;
use httper::client::request::Method;
use httper::client::request::Request;
use httper::client::response_future::Event;
use httper::client::response_future::Poll;
use httper::client::response_future::Response;
use httper::client::HttperClient;
use std::collections::BTreeMap;

#[derive(Debug, PartialEq)]
struct Data {
    name: String,
}

/// The address of the server that the stand-in plays.
fn address(host: [u8; 4], port: u16) -> String {
    format!("{}.{}.{}.{}:{}", host[0], host[1], host[2], host[3], port)
}

/// The stand-in transport: serves `body` for the request.
fn serve(body: &'static [u8], request: &Request) -> Event<Vec<u8>> {
    assert!(request.uri.starts_with("http://"));
    Event::Response(Response {
        status: http::StatusCode::OK.as_u16(),
        headers: vec![("content-length".to_string(), body.len().to_string())],
        body: body.to_vec(),
    })
}

/// Decodes a JSON object with the one field `name`.
fn decode_data(body: &Vec<u8>) -> Result<Data, String> {
    let fields: BTreeMap<String, String> =
        serde_json::from_slice(body).map_err(|e| e.to_string())?;
    match fields.get("name") {
        Some(name) if fields.len() == 1 => Ok(Data { name: name.clone() }),
        _ => Err("expected the one field `name`".to_string()),
    }
}

#[test]
fn it_should_handle_get_requests() {
    let addr = address([127, 0, 0, 1], 9091);
    let buffer: &'static [u8] = br#"{"name": "Bumblebee"}"#;

    let httper_client = HttperClient::new();

    let future = httper_client.get(&("http://".to_string() + &addr)).send();
    let event = serve(buffer, future.request().unwrap());
    let result = match future.poll(event) {
        Poll::Ready(response) => Ok(response),
        Poll::Failed(error) => Err(error),
        Poll::NotReady(_) => panic!("the response was there"),
    };

    assert!(result.is_ok());
    let body = result.unwrap().body;
    assert_eq!(buffer, &body[..]);
}

#[test]
fn it_should_be_able_to_be_chained_into_json_for_get() {
    let addr = address([127, 0, 0, 1], 9090);
    let buffer: &'static [u8] = br#"{"name": "Optimus Prime"}"#;

    let httper_client = HttperClient::new();

    let data = Data {
        name: "Optimus Prime".to_string(),
    };

    let future = httper_client.get(&("http://".to_string() + &addr)).send();
    let event = serve(buffer, future.request().unwrap());
    let result = match future.json::<Data>().poll(event, decode_data) {
        Poll::Ready(value) => Ok(value),
        Poll::Failed(error) => Err(error),
        Poll::NotReady(_) => panic!("the response was there"),
    };

    assert_eq!(data, result.unwrap());
}

#[test]
fn it_should_handle_post_requests() {
    let addr = address([127, 0, 0, 1], 9092);
    let buffer: &'static [u8] = br#"{"name": "Bumblebee"}"#;

    let httper_client = HttperClient::new();

    let future = httper_client
        .post(&("http://".to_string() + &addr))
        .payload(buffer.to_vec())
        .send();
    assert_eq!(future.request().unwrap().method, Method::Post);
    assert_eq!(&future.request().unwrap().body[..], buffer);
    let event = serve(buffer, future.request().unwrap());
    let result = match future.poll(event) {
        Poll::Ready(response) => Ok(response),
        Poll::Failed(error) => Err(error),
        Poll::NotReady(_) => panic!("the response was there"),
    };

    assert!(result.is_ok());
    assert_eq!(http::StatusCode::OK.as_u16(), result.unwrap().status);
}

#[test]
fn it_should_be_able_to_be_chained_into_json_for_post() {
    let addr = address([127, 0, 0, 1], 9093);
    let buffer: &'static [u8] = br#"{"name": "Optimus Prime"}"#;

    let httper_client = HttperClient::new();

    let data = Data {
        name: "Optimus Prime".to_string(),
    };

    let future = httper_client
        .post(&("http://".to_string() + &addr))
        .payload(buffer.to_vec())
        .send();
    let event = serve(buffer, future.request().unwrap());
    let result = match future.json::<Data>().poll(event, decode_data) {
        Poll::Ready(value) => Ok(value),
        Poll::Failed(error) => Err(error),
        Poll::NotReady(_) => panic!("the response was there"),
    };

    assert_eq!(data, result.unwrap());
}

#[test]
fn it_should_handle_put_requests() {
    let addr = address([127, 0, 0, 1], 9094);
    let buffer: &'static [u8] = br#"{"name": "Bumblebee"}"#;

    let httper_client = HttperClient::new();

    let future = httper_client
        .put(&("http://".to_string() + &addr))
        .payload(buffer.to_vec())
        .send();
    assert_eq!(future.request().unwrap().method, Method::Put);
    let event = serve(buffer, future.request().unwrap());
    let result = match future.poll(event) {
        Poll::Ready(response) => Ok(response),
        Poll::Failed(error) => Err(error),
        Poll::NotReady(_) => panic!("the response was there"),
    };

    assert!(result.is_ok());
    assert_eq!(http::StatusCode::OK.as_u16(), result.unwrap().status);
}

#[test]
fn it_should_be_able_to_be_chained_into_json_for_put() {
    let addr = address([127, 0, 0, 1], 9095);
    let buffer: &'static [u8] = br#"{"name": "Optimus Prime"}"#;

    let httper_client = HttperClient::new();

    let data = Data {
        name: "Optimus Prime".to_string(),
    };

    let future = httper_client
        .put(&("http://".to_string() + &addr))
        .payload(buffer.to_vec())
        .send();
    let event = serve(buffer, future.request().unwrap());
    let result = match future.json::<Data>().poll(event, decode_data) {
        Poll::Ready(value) => Ok(value),
        Poll::Failed(error) => Err(error),
        Poll::NotReady(_) => panic!("the response was there"),
    };

    assert_eq!(data, result.unwrap());
}

#[test]
fn json_yields_the_decoded_value() {
    let client = HttperClient::new();
    let future = client.get("http://localhost:8000/transformer").send();
    let event = Event::Response(Response {
        status: 200,
        headers: Vec::new(),
        body: br#"{"name":"Bumblebee"}"#.to_vec(),
    });
    match future.json::<Data>().poll(event, decode_data) {
        Poll::Ready(value) => assert_eq!(value, Data { name: "Bumblebee".to_string() }),
        other => panic!("not decoded: {:?}", other),
    }
}

#[test]
fn malformed_body_is_a_decode_failure_that_keeps_the_response() {
    let client = HttperClient::new();
    let future = client.get("http://localhost:8000/transformer").send();
    let event = Event::Response(Response {
        status: 200,
        headers: vec![("content-type".to_string(), "application/json".to_string())],
        body: br#"{"name": "Bumblebee""#.to_vec(),
    });
    match future.json::<Data>().poll(event, decode_data) {
        Poll::Failed(error) => {
            assert!(error.response_arrived());
            assert_eq!(error.response_status(), Some(200));
            match error {
                Error::Decode { status, headers, reason } => {
                    assert_eq!(status, 200);
                    assert_eq!(
                        headers,
                        vec![("content-type".to_string(), "application/json".to_string())]
                    );
                    assert!(!reason.is_empty());
                }
                other => panic!("another kind of failure: {:?}", other),
            }
        }
        other => panic!("no failure: {:?}", other),
    }
}

#[test]
fn body_of_another_shape_is_a_decode_failure() {
    let client = HttperClient::new();
    let future = client.get("http://localhost:8000/").send();
    let event = Event::Response(Response {
        status: 200,
        headers: Vec::new(),
        body: br#"{"id": "7"}"#.to_vec(),
    });
    match future.json::<Data>().poll(event, decode_data) {
        Poll::Failed(Error::Decode { status, reason, .. }) => {
            assert_eq!(status, 200);
            assert_eq!(reason, "expected the one field `name`");
        }
        other => panic!("no decode failure: {:?}", other),
    }
}

#[test]
fn transport_failure_is_not_a_decode_failure() {
    let client = HttperClient::new();
    let future = client.get("http://localhost:8000/").send();
    let event = Event::Failure("connection refused".to_string());
    let mut called = false;
    let step = future.json::<Data>().poll(event, |body| {
        called = true;
        decode_data(body)
    });
    match step {
        Poll::Failed(error) => {
            assert!(!error.response_arrived());
            assert_eq!(error.response_status(), None);
            match error {
                Error::Transport(report) => assert_eq!(report, "connection refused"),
                other => panic!("another kind of failure: {:?}", other),
            }
        }
        other => panic!("no failure: {:?}", other),
    }
    assert!(!called);
}

#[test]
fn transport_failure_resolves_the_future() {
    let client = HttperClient::new();
    let future = client.delete("http://localhost:8000/item/1").send();
    assert!(future.request().is_some());
    match future.poll(Event::<Vec<u8>>::Failure("timed out".to_string())) {
        Poll::Failed(Error::Transport(report)) => assert_eq!(report, "timed out"),
        other => panic!("no transport failure: {:?}", other),
    }
}

#[test]
fn pending_future_stays_as_it_is() {
    let client = HttperClient::new();
    let future = client.patch("http://localhost:8000/item/1").payload(vec![1, 2, 3]).send();
    let future = match future.poll(Event::<Vec<u8>>::Pending) {
        Poll::NotReady(future) => future,
        other => panic!("resolved without news: {:?}", other),
    };
    let request = future.request().unwrap();
    assert_eq!(request.method, Method::Patch);
    assert_eq!(request.uri, "http://localhost:8000/item/1");
    assert_eq!(request.body, vec![1, 2, 3]);

    let stage = match future.json::<Data>().poll(Event::Pending, decode_data) {
        Poll::NotReady(stage) => stage,
        other => panic!("resolved without news: {:?}", other),
    };
    let event = Event::Response(Response {
        status: 201,
        headers: Vec::new(),
        body: br#"{"name":"Jazz"}"#.to_vec(),
    });
    match stage.poll(event, decode_data) {
        Poll::Ready(value) => assert_eq!(value.name, "Jazz"),
        other => panic!("not decoded: {:?}", other),
    }
}

#[test]
fn failed_assembly_sends_nothing_and_wins_over_any_report() {
    let client = HttperClient::new();
    let future = client.get("").send();
    assert!(future.request().is_none());
    let event = Event::Response(Response { status: 200, headers: Vec::new(), body: Vec::<u8>::new() });
    match future.poll(event) {
        Poll::Failed(Error::Url { target, reason }) => {
            assert_eq!(target, "");
            assert_eq!(reason, "empty string");
        }
        other => panic!("no URL failure: {:?}", other),
    }
}
