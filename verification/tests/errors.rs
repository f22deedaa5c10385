use kubefront_core::backend::{fallback_body, ApiError};
use kubefront_core::error::CoreError;

#[test]
fn not_connected_message_is_stable() {
    assert_eq!(
        CoreError::NotConnected.to_string(),
        "Not connected to a cluster"
    );
}

#[test]
fn passthrough_variants_display_inner() {
    assert_eq!(
        CoreError::Other("A namespace is required for this resource".into()).to_string(),
        "A namespace is required for this resource"
    );
    assert_eq!(
        CoreError::Other("Unknown resource kind: widgets".into()).to_string(),
        "Unknown resource kind: widgets"
    );
    assert_eq!(
        CoreError::Kubeconfig("kubeconfig error: boom".into()).to_string(),
        "kubeconfig error: boom"
    );
}

#[test]
fn http_status_mapping() {
    assert_eq!(CoreError::NotFound("x".into()).http_status(), 404);
    assert_eq!(CoreError::Forbidden("x".into()).http_status(), 403);
    assert_eq!(CoreError::Timeout("x".into()).http_status(), 504);
    assert_eq!(CoreError::Upstream("x".into()).http_status(), 502);
    assert_eq!(CoreError::NotConnected.http_status(), 502);
    assert_eq!(CoreError::Other("x".into()).http_status(), 500);
}

#[test]
fn kubeconfig_errors_are_bad_gateway() {
    assert_eq!(CoreError::Kubeconfig("x".into()).http_status(), 502);
}

#[test]
fn api_status_codes_classify_errors() {
    assert!(matches!(
        CoreError::from_api_status(Some(404), "gone".into()),
        CoreError::NotFound(m) if m == "gone"
    ));
    assert!(matches!(
        CoreError::from_api_status(Some(403), "no".into()),
        CoreError::Forbidden(m) if m == "no"
    ));
    assert!(matches!(
        CoreError::from_api_status(Some(500), "boom".into()),
        CoreError::Upstream(m) if m == "boom"
    ));
    assert!(matches!(
        CoreError::from_api_status(None, "net".into()),
        CoreError::Upstream(m) if m == "net"
    ));
}

#[test]
fn api_errors_answer_status_and_text() {
    let (code, body) = ApiError::UnknownConnection("zzz".into()).status_and_body();
    assert_eq!(code, 404);
    assert_eq!(body.error, "Unknown connection 'zzz'");

    let (code, body) = ApiError::ReadOnly.status_and_body();
    assert_eq!(code, 403);
    assert_eq!(body.error, "This connection is read-only");

    let (code, body) = ApiError::Core(CoreError::Timeout("slow".into())).status_and_body();
    assert_eq!(code, 504);
    assert_eq!(body.error, "slow");

    let (code, body) = ApiError::from(CoreError::NotConnected).status_and_body();
    assert_eq!(code, 502);
    assert_eq!(body.error, "Not connected to a cluster");
}

#[test]
fn remote_error_text_equals_local_text() {
    let e = CoreError::Forbidden("pods is forbidden".into());
    let local = e.to_string();
    let (_, body) = ApiError::Core(e).status_and_body();
    assert_eq!(body.error, local);
}

#[test]
fn unknown_route_body() {
    assert_eq!(fallback_body("/nope").error, "No route for /nope");
}

#[test]
fn client_errors_are_classified_by_status_code() {
    let status = kube::core::Status {
        code: 404,
        message: "pods \"web\" not found".into(),
        reason: "NotFound".into(),
        ..Default::default()
    };
    let err = kube::Error::Api(Box::new(status));
    let text = err.to_string();
    match CoreError::from_kube(&err) {
        CoreError::NotFound(m) => assert_eq!(m, text),
        _ => panic!("expected NotFound"),
    }
    let forbidden = kube::Error::Api(Box::new(kube::core::Status { code: 403, ..Default::default() }));
    assert!(matches!(CoreError::from_kube(&forbidden), CoreError::Forbidden(_)));
    let other = kube::Error::Api(Box::new(kube::core::Status { code: 500, ..Default::default() }));
    assert!(matches!(CoreError::from_kube(&other), CoreError::Upstream(_)));
}
