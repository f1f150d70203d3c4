use v2ray_rs::backend::{
    all_install_guidance, auto_select, backend_name, detect_all, detect_single, install_guidance,
    validate_custom_path, version_from_output, well_known_paths, BackendError, DetectedBackend,
};
use v2ray_rs::settings::BackendType;

#[test]
fn test_backend_name() {
    assert_eq!(backend_name(BackendType::V2ray), "v2ray");
    assert_eq!(backend_name(BackendType::Xray), "xray");
    assert_eq!(backend_name(BackendType::SingBox), "sing-box");
}

#[test]
fn test_well_known_paths() {
    let paths = well_known_paths(BackendType::V2ray);
    assert_eq!(paths[0], "/usr/bin/v2ray");
    assert_eq!(paths[1], "/usr/local/bin/v2ray");

    let paths = well_known_paths(BackendType::SingBox);
    assert_eq!(paths[0], "/usr/bin/sing-box");
    assert_eq!(paths[1], "/usr/local/bin/sing-box");
}

#[test]
fn test_validate_custom_path_not_found() {
    let result = validate_custom_path("/nonexistent/binary", BackendType::Xray);
    assert!(result.is_err());
    let err = result.unwrap_err();
    assert!(matches!(err, BackendError::NotFound { .. }));
}

#[test]
fn test_detect_single_nonexistent() {
    // Unless v2ray is actually installed, this tests the not-found path.
    // We just verify the function doesn't panic.
    let _ = detect_single(BackendType::V2ray);
}

#[test]
fn test_detect_all_no_panic() {
    let _ = detect_all();
}

#[test]
fn test_auto_select_no_panic() {
    let _ = auto_select();
}

#[test]
fn test_install_guidance_not_empty() {
    assert!(!install_guidance(BackendType::V2ray).is_empty());
    assert!(!install_guidance(BackendType::Xray).is_empty());
    assert!(!install_guidance(BackendType::SingBox).is_empty());
}

#[test]
fn test_all_install_guidance_contains_all_backends() {
    let guidance = all_install_guidance();
    assert!(guidance.contains("v2ray"));
    assert!(guidance.contains("xray"));
    assert!(guidance.contains("sing-box"));
}

#[test]
fn test_error_display_none_found() {
    let err = BackendError::NoneFound;
    let msg = err.message();
    assert!(msg.contains("no supported backend found"));
    assert!(msg.contains("v2ray"));
    assert!(msg.contains("xray"));
    assert!(msg.contains("sing-box"));
}

#[test]
fn test_error_display_not_found() {
    let err = BackendError::NotFound {
        path: "/usr/bin/v2ray".to_string(),
    };
    assert!(err.message().contains("/usr/bin/v2ray"));
}

#[test]
fn test_error_display_not_executable() {
    let err = BackendError::NotExecutable {
        path: "/usr/bin/v2ray".to_string(),
    };
    assert!(err.message().contains("not executable"));
}

#[test]
fn test_detected_backend_display() {
    let d = DetectedBackend {
        backend_type: BackendType::Xray,
        binary_path: "/usr/bin/xray".to_string(),
        version: Some("Xray 1.8.4".into()),
    };
    let s = d.display_string();
    assert!(s.contains("xray"));
    assert!(s.contains("1.8.4"));
    assert!(s.contains("/usr/bin/xray"));
}

#[test]
fn test_detected_backend_display_no_version() {
    let d = DetectedBackend {
        backend_type: BackendType::SingBox,
        binary_path: "/usr/local/bin/sing-box".to_string(),
        version: None,
    };
    let s = d.display_string();
    assert!(s.contains("sing-box"));
    assert!(s.contains("/usr/local/bin/sing-box"));
}

#[test]
fn version_from_output_takes_first_line_of_trimmed_stdout() {
    let r = version_from_output(true, "  TestBackend v1.0.0\nbuild abc\n", "", "", "/b");
    assert_eq!(r.unwrap(), "TestBackend v1.0.0");

    let single = version_from_output(true, "Xray 1.8.4\n", "", "", "/b");
    assert_eq!(single.unwrap(), "Xray 1.8.4");
}

#[test]
fn version_from_output_reports_failures() {
    let from_stderr = version_from_output(false, "", "  broken install\n", "exit status: 1", "/b");
    match from_stderr.unwrap_err() {
        BackendError::VersionDetectionFailed { path, reason } => {
            assert_eq!(path, "/b");
            assert_eq!(reason, "broken install");
        }
        other => panic!("unexpected error {:?}", other),
    }

    let from_status = version_from_output(false, "", "", "exit status: 1", "/b");
    match from_status.unwrap_err() {
        BackendError::VersionDetectionFailed { reason, .. } => {
            assert_eq!(reason, "exit code exit status: 1");
        }
        other => panic!("unexpected error {:?}", other),
    }

    let empty = version_from_output(true, "  \n ", "", "", "/b");
    match empty.unwrap_err() {
        BackendError::VersionDetectionFailed { reason, .. } => {
            assert_eq!(reason, "empty version output");
        }
        other => panic!("unexpected error {:?}", other),
    }
}

#[test]
fn test_validate_custom_path_accepts_executable() {
    // A binary that exists everywhere and is executable.
    let result = validate_custom_path("/bin/sh", BackendType::Xray);
    let detected = result.unwrap();
    assert_eq!(detected.backend_type, BackendType::Xray);
    assert_eq!(detected.binary_path, "/bin/sh");
    assert!(detected.version.is_none());
}
