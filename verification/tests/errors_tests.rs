use restaurant_app::errors::{AxumErrorResponse, AxumErrors, ErrorResponse};
use restaurant_app::sort::{SortDirectionBsonEnum, SortDirectionEnum};

#[test]
fn error_names_match_their_variants() {
    assert_eq!(AxumErrors::NotFound.to_string(), "NotFound");
    assert_eq!(AxumErrors::SerializationError.to_string(), "SerializationError");
    assert_eq!(AxumErrors::DeserializationError.to_string(), "DeserializationError");
    assert_eq!(AxumErrors::DBError.to_string(), "DBError");
    assert_eq!(AxumErrors::BsonSerializeError.to_string(), "BsonSerializeError");
    assert_eq!(AxumErrors::BsonDeserializeError.to_string(), "BsonDeserializeError");
}

#[test]
fn status_hints_blame_the_caller_only_for_not_found() {
    assert_eq!(AxumErrors::NotFound.status_code(), 404);
    assert_eq!(AxumErrors::SerializationError.status_code(), 500);
    assert_eq!(AxumErrors::DeserializationError.status_code(), 500);
    assert_eq!(AxumErrors::DBError.status_code(), 500);
    assert_eq!(AxumErrors::BsonSerializeError.status_code(), 500);
    assert_eq!(AxumErrors::BsonDeserializeError.status_code(), 500);
}

#[test]
fn error_bodies_carry_name_and_message() {
    let body = AxumErrorResponse::from(AxumErrors::DBError);
    assert_eq!(body.error_type, "DBError");
    assert_eq!(body.error_message, "Unexpected Error response from MongoDB!");
    let body = AxumErrorResponse::from(AxumErrors::BsonSerializeError);
    assert_eq!(body.error_type, "BsonSerializeError");
    assert_eq!(
        body.error_message,
        "Unexpected error from serializing struct into Bson Document!"
    );
}

#[test]
fn error_response_pairs_status_with_body() {
    let e = ErrorResponse::from_error(AxumErrors::NotFound);
    let (status, body) = e.to_axum_error();
    assert_eq!(status, 404);
    assert_eq!(body.error_type, "NotFound");
    assert_eq!(body.error_message, "Document Was Not Found!");
    let e = ErrorResponse::from_error(AxumErrors::BsonDeserializeError);
    let (status, body) = e.to_axum_error();
    assert_eq!(status, 500);
    assert_eq!(body.error_type, "BsonDeserializeError");
}

#[test]
fn sort_directions_name_and_encode() {
    assert_eq!(SortDirectionEnum::Ascending.to_string(), "Ascending");
    assert_eq!(SortDirectionEnum::Descending.to_string(), "Descending");
    assert_eq!(SortDirectionBsonEnum::Ascending.to_i8(), 1);
    assert_eq!(SortDirectionBsonEnum::Descending.to_i8(), -1);
}
