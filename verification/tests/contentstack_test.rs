use cs_ts::contentstack::{Answer, Client, ContentstackError};
use cs_ts::region::Region;

#[test]
fn test_client_creation_with_valid_credentials() {
    let client = Client::new(Region::NorthAmerica, "test_key", "test_token");
    assert!(client.is_ok());
}

#[test]
fn test_client_creation_with_empty_api_key() {
    let client = Client::new(Region::NorthAmerica, "", "test_token");
    assert!(client.is_err());

    if let Err(ContentstackError::InvalidCredentials { field }) = client {
        assert_eq!(field, "api_key");
    } else {
        panic!("Expected InvalidCredentials error for api_key");
    }
}

#[test]
fn test_client_creation_with_empty_access_token() {
    let client = Client::new(Region::NorthAmerica, "test_key", "");
    assert!(client.is_err());

    if let Err(ContentstackError::InvalidCredentials { field }) = client {
        assert_eq!(field, "access_token");
    } else {
        panic!("Expected InvalidCredentials error for access_token");
    }
}

#[test]
fn test_client_creation_with_whitespace_api_key() {
    let client = Client::new(Region::NorthAmerica, "   ", "test_token");
    assert!(client.is_err());

    if let Err(ContentstackError::InvalidCredentials { field }) = client {
        assert_eq!(field, "api_key");
    } else {
        panic!("Expected InvalidCredentials error for api_key");
    }
}

#[test]
fn test_client_creation_with_whitespace_access_token() {
    let client = Client::new(Region::NorthAmerica, "test_key", "   ");
    assert!(client.is_err());

    if let Err(ContentstackError::InvalidCredentials { field }) = client {
        assert_eq!(field, "access_token");
    } else {
        panic!("Expected InvalidCredentials error for access_token");
    }
}

#[test]
fn test_client_creation_with_different_regions() {
    let na_client = Client::new(Region::NorthAmerica, "test_key", "test_token");
    let eu_client = Client::new(Region::Europe, "test_key", "test_token");
    let au_client = Client::new(Region::Australia, "test_key", "test_token");

    assert!(na_client.is_ok());
    assert!(eu_client.is_ok());
    assert!(au_client.is_ok());
}

#[test]
fn test_contentstack_error_display() {
    let error = ContentstackError::InvalidCredentials {
        field: "api_key".to_string(),
    };
    assert_eq!(error.to_string(), "Invalid credentials: api_key");

    let error = ContentstackError::Api {
        status: 404,
        message: "Not found".to_string(),
    };
    assert_eq!(error.to_string(), "API error: 404 - Not found");
}

#[test]
fn client_keeps_trimmed_credentials() {
    let client = Client::new(Region::Europe, "  key \n", "\ttoken ").unwrap();
    assert_eq!(client.api_key(), "key");
    assert_eq!(client.access_token(), "token");
}

#[test]
fn client_looks_at_the_api_key_first() {
    match Client::new(Region::Europe, " ", " ") {
        Err(ContentstackError::InvalidCredentials { field }) => assert_eq!(field, "api_key"),
        _ => panic!("both credentials are blank"),
    }
}

#[test]
fn client_addresses_follow_the_region() {
    let eu = Client::new(Region::Europe, "k", "t").unwrap();
    let na = Client::new(Region::NorthAmerica, "k", "t").unwrap();
    let au = Client::new(Region::Australia, "k", "t").unwrap();
    assert_eq!(
        eu.content_types_url(),
        "https://eu-cdn.contentstack.com/v3/content_types"
    );
    assert_eq!(
        na.content_types_url(),
        "https://cdn.contentstack.io/v3/content_types"
    );
    assert_eq!(
        au.global_fields_url(),
        "https://au-cdn.contentstack.com/v3/global_fields?include_global_field_schema=true"
    );
}

#[test]
fn default_region_is_europe() {
    assert_eq!(Region::default(), Region::Europe);
}

#[test]
fn status_failure_takes_the_body_or_a_default() {
    let with_body = ContentstackError::from_status(500, Some("broken".to_string()));
    assert_eq!(with_body.to_string(), "API error: 500 - broken");
    let without = ContentstackError::from_status(502, None);
    assert_eq!(without.to_string(), "API error: 502 - Unknown error");
}

#[test]
fn answer_with_a_body_gives_the_body() {
    let body = Client::read_answer(Answer::Body("{}".to_string()));
    assert_eq!(body.unwrap(), "{}");
}

#[test]
fn unread_body_is_a_failure_of_reading() {
    let failure = std::io::Error::new(std::io::ErrorKind::UnexpectedEof, "cut off");
    match Client::read_answer(Answer::Unread(failure)) {
        Err(ContentstackError::Io(e)) => assert_eq!(e.to_string(), "cut off"),
        _ => panic!("Expected Io error"),
    }
}

#[test]
fn status_of_failure_is_a_failure_of_the_api() {
    match Client::read_answer(Answer::Status(401, Some("Unauthorized".to_string()))) {
        Err(ContentstackError::Api { status, message }) => {
            assert_eq!(status, 401);
            assert_eq!(message, "Unauthorized");
        }
        _ => panic!("Expected Api error"),
    }
    match Client::read_answer(Answer::Status(503, None)) {
        Err(ContentstackError::Api { status, message }) => {
            assert_eq!(status, 503);
            assert_eq!(message, "Unknown error");
        }
        _ => panic!("Expected Api error"),
    }
}

#[test]
fn request_without_answer_is_a_failure_of_the_request() {
    let failure = ureq::get("not a url").call().unwrap_err();
    let text = failure.to_string();
    match Client::read_answer(Answer::Failed(Box::new(failure))) {
        Err(ContentstackError::Http(e)) => assert_eq!(e.to_string(), text),
        _ => panic!("Expected Http error"),
    }
}
