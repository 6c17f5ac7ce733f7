use cr_api::http_response::HttpResponse;

#[test]
fn redirects_carry_location_and_flash() {
    let resp = HttpResponse::redirect_with_flash("/admin/newsletter", "flash-info", "accepted");
    assert_eq!(resp.status, 303);
    assert_eq!(resp.headers.len(), 2);
    assert_eq!(resp.headers[0].name, "location");
    assert_eq!(resp.headers[0].value, "/admin/newsletter");
    assert_eq!(resp.headers[1].name, "flash-info");
    assert_eq!(resp.headers[1].value, "accepted");
    assert!(resp.body.is_empty());
}

#[test]
fn duplicates_are_byte_identical() {
    let resp = HttpResponse::redirect_with_flash("/x", "flash-info", "ok");
    assert!(resp.same_as(&resp.duplicate()));
}

#[test]
fn responses_differing_anywhere_are_not_the_same() {
    let a = HttpResponse::text(200, "hello");
    assert!(a.same_as(&HttpResponse::text(200, "hello")));
    assert!(!a.same_as(&HttpResponse::text(201, "hello")));
    assert!(!a.same_as(&HttpResponse::text(200, "hellO")));
    assert!(!a.same_as(&HttpResponse::redirect_with_flash("/x", "flash-info", "hello")));
}

#[test]
fn health_check_is_an_empty_ok() {
    let resp = cr_api::health_check::health_check();
    assert_eq!(resp.status, 200);
    assert!(resp.headers.is_empty());
    assert!(resp.body.is_empty());
}
