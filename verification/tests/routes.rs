use weather_station::routes::{api_route, route, template_route, DemoTemplate, IndexTemplate, Route};
use weather_station::station::data::Data;

#[test]
fn non_get_is_method_not_allowed() {
    assert_eq!(route(false, "/api/health"), Route::MethodNotAllowed);
    assert_eq!(route(false, "/"), Route::MethodNotAllowed);
}

#[test]
fn api_routes() {
    assert_eq!(route(true, "/api/health"), Route::Health);
    assert_eq!(route(true, "/api/data"), Route::Data);
    assert_eq!(route(true, "/api/random-data"), Route::RandomData);
    assert_eq!(route(true, "/api/other"), Route::NotFound);
    assert_eq!(route(true, "/api"), Route::NotFound);
    assert_eq!(route(true, "/apihealth"), Route::NotFound);
}

#[test]
fn page_routes() {
    assert_eq!(route(true, "/"), Route::Index);
    assert_eq!(route(true, "/demo"), Route::Demo);
    assert_eq!(route(true, "/demo/"), Route::NotFound);
    assert_eq!(route(true, ""), Route::NotFound);
}

#[test]
fn sub_routers() {
    assert_eq!(api_route(b"/health"), Some(Route::Health));
    assert_eq!(api_route(b"/"), None);
    assert_eq!(template_route(b"/demo"), Some(Route::Demo));
    assert_eq!(template_route(b"/api/data"), None);
}

#[test]
fn response_heads() {
    let h = Route::MethodNotAllowed.head();
    assert_eq!((h.status, h.reason, h.content_type), (405, "Method Not Allowed", None));
    let h = Route::NotFound.head();
    assert_eq!((h.status, h.reason, h.content_type), (404, "Not Found", None));
    let h = Route::Health.head();
    assert_eq!((h.status, h.reason, h.content_type), (200, "OK", Some("text/plain")));
    let h = Route::RandomData.head();
    assert_eq!(h.content_type, Some("application/json"));
    let h = Route::Demo.head();
    assert_eq!(h.content_type, Some("text/html; charset=utf-8"));
}

#[test]
fn templates_hold_their_data() {
    let mut data = Data::default();
    data.temperature = Some(70);
    assert_eq!(IndexTemplate::new(data).data(), data);
    assert_eq!(DemoTemplate::new(data).data().temperature, Some(70));
}
