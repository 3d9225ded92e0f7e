use task_manager_backend::cors::{cors_middleware, CorsAction};

fn header(name: &str, value: &str) -> (String, String) {
    (name.to_string(), value.to_string())
}

#[test]
fn preflight_is_answered_on_the_spot() {
    assert_eq!(
        cors_middleware("OPTIONS"),
        CorsAction::Answer(
            204,
            vec![
                header("Access-Control-Allow-Origin", "http://localhost:5173"),
                header("Access-Control-Allow-Methods", "*"),
                header("Access-Control-Allow-Headers", "*"),
                header("Access-Control-Max-Age", "86400"),
            ],
        )
    );
}

#[test]
fn other_methods_go_on_with_the_allowed_origin() {
    for method in ["GET", "POST", "PATCH", "DELETE", "PUT", "HEAD"] {
        assert_eq!(
            cors_middleware(method),
            CorsAction::Forward(header("Access-Control-Allow-Origin", "http://localhost:5173")),
            "{}",
            method
        );
    }
}

#[test]
fn only_the_exact_method_name_is_a_preflight() {
    for method in ["options", "Options", "OPTIONS ", "", "OPTION"] {
        assert!(matches!(cors_middleware(method), CorsAction::Forward(_)), "{:?}", method);
    }
}
