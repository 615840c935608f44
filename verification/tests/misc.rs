use lobster_waku_gateway::governance::GatewayRuntime;
use lobster_waku_gateway::mailer::EmailOtpMailerConfig;

#[test]
fn email_otp_mailer_requires_https_except_for_local_test_endpoints() {
    assert!(
        EmailOtpMailerConfig::new(
            "http://mailer.example.com/send".into(),
            "secret".into(),
            None,
        )
        .is_err()
    );
    assert!(
        EmailOtpMailerConfig::new("https://mailer.example.com/send".into(), "".into(), None,)
            .is_err()
    );
}

#[test]
fn email_otp_mailer_accepts_https_and_local_http() {
    assert!(EmailOtpMailerConfig::new("https://mailer.example.com/send".into(), "secret".into(), None).is_ok());
    let local = EmailOtpMailerConfig::new(
        "http://127.0.0.1:4100/deliver".into(),
        "mailer-secret".into(),
        Some("no-reply@example.com".into()),
    )
    .expect("localhost mailer config");
    assert_eq!(local.endpoint, "http://127.0.0.1:4100/deliver");
    assert_eq!(local.from.as_deref(), Some("no-reply@example.com"));
    assert!(EmailOtpMailerConfig::new("http://localhost/deliver".into(), "t".into(), None).is_ok());
    assert_eq!(
        EmailOtpMailerConfig::new("http://localhost.example.com/x".into(), "t".into(), None)
            .expect_err("remote http"),
        "email otp mailer endpoint must use https"
    );
    assert_eq!(
        EmailOtpMailerConfig::new("https://m.example.com".into(), "  ".into(), None)
            .expect_err("blank token"),
        "email otp mailer token is required"
    );
}

#[test]
fn default_scene_image_layer_uses_canonical_16_9_ratio() {
    let layer = GatewayRuntime::scene_image_layer("private-room-loft", true);
    assert_eq!(layer.aspect_ratio_permyriad, 5_625);
    assert_eq!(layer.preset, "private-room-loft");
    assert!(layer.owner_editable);
}

#[test]
fn demo_messages_seed_only_for_tests_or_explicit_dev_bypass() {
    assert!(!GatewayRuntime::should_seed_demo_messages(false, false));
    assert!(GatewayRuntime::should_seed_demo_messages(true, false));
    assert!(GatewayRuntime::should_seed_demo_messages(false, true));
}
