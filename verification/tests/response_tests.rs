use auth_service::response::{
    handle_404, handle_405, response_status, GlobalResponse, JsonRejectionKind, ResponseBody,
};
use auth_service::validation::ValidationErrors;


#[test]
fn response_status_falls_back_to_500() {
    assert_eq!(response_status(200), 200);
    assert_eq!(response_status(100), 100);
    assert_eq!(response_status(999), 999);
    assert_eq!(response_status(99), 500);
    assert_eq!(response_status(1000), 500);
    assert_eq!(response_status(0), 500);
}

#[test]
fn success_response_carries_data() {
    let r = GlobalResponse::success(ResponseBody::Message("hi".to_string()));
    assert_eq!(r.meta.status_code, 200);
    assert!(r.meta.error.is_none());
    assert!(r.meta.details.is_none());
    assert_eq!(r.data.as_deref(), Some(&ResponseBody::Message("hi".to_string())));
}

#[test]
fn error_response_has_no_data() {
    let r: GlobalResponse<()> = GlobalResponse::error(418, "teapot".to_string());
    assert_eq!(r.meta.status_code, 418);
    assert_eq!(r.meta.error.as_deref(), Some("teapot"));
    assert!(r.data.is_none());
    assert!(r.meta.page.is_none());
}

#[test]
fn builders_keep_the_rest() {
    let r: GlobalResponse<()> = GlobalResponse::error(400, "bad".to_string())
        .with_validation_errors(ValidationErrors::new())
        .with_pagination(2, 10, 35, 4);
    assert_eq!(r.meta.status_code, 400);
    assert_eq!(r.meta.error.as_deref(), Some("bad"));
    assert!(r.meta.details.is_some());
    assert_eq!((r.meta.page, r.meta.per_page, r.meta.total, r.meta.last_page), (Some(2), Some(10), Some(35), Some(4)));
}

#[test]
fn json_rejections_map_to_statuses() {
    let r = GlobalResponse::from_json_rejection(JsonRejectionKind::DataError, "missing field `email`");
    assert_eq!(r.meta.status_code, 422);
    assert_eq!(r.meta.error.as_deref(), Some("Invalid JSON data: missing field `email`"));
    let r = GlobalResponse::from_json_rejection(JsonRejectionKind::SyntaxError, "x");
    assert_eq!((r.meta.status_code, r.meta.error.as_deref()), (400, Some("Invalid JSON syntax: x")));
    let r = GlobalResponse::from_json_rejection(JsonRejectionKind::MissingContentType, "x");
    assert_eq!((r.meta.status_code, r.meta.error.as_deref()), (415, Some("Missing Content-Type: x")));
    let r = GlobalResponse::from_json_rejection(JsonRejectionKind::BytesRejection, "x");
    assert_eq!((r.meta.status_code, r.meta.error.as_deref()), (400, Some("Failed to read request body: x")));
    let r = GlobalResponse::from_json_rejection(JsonRejectionKind::Other, "x");
    assert_eq!((r.meta.status_code, r.meta.error.as_deref()), (500, Some("Unknown JSON processing error")));
}

#[test]
fn fallback_handlers() {
    let r = handle_404();
    assert_eq!(r.meta.status_code, 404);
    assert_eq!(r.meta.error.as_deref(), Some("404 Not Found"));
    let d = r.meta.details.unwrap();
    assert_eq!(d.errors.len(), 1);
    assert_eq!(d.errors[0].field, "404");
    assert_eq!(d.errors[0].code, "404");
    assert_eq!(d.errors[0].message.as_deref(), Some("404 Not Found"));
    let r = handle_405();
    assert_eq!(r.meta.status_code, 405);
    assert_eq!(r.meta.error.as_deref(), Some("405 Method Not Allowed"));
    assert_eq!(r.meta.details.unwrap().errors[0].field, "405");
}
