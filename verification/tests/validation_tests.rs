use v2ray_rs::validation::{
    validate_country_code, validate_domain_pattern, validate_geosite_category, ValidationError,
};

#[test]
fn test_validate_country_code() {
    let tests = vec![
        ("US", true),
        ("CN", true),
        ("RU", true),
        ("us", false),
        ("USA", false),
        ("U", false),
        ("ZZ", false),
        ("A1", false),
        ("", false),
    ];

    for (code, expected_valid) in tests {
        let result = validate_country_code(code);
        assert_eq!(
            result.is_ok(),
            expected_valid,
            "code={} expected_valid={} got={:?}",
            code,
            expected_valid,
            result
        );
    }
}

#[test]
fn test_validate_domain_pattern() {
    let tests = vec![
        ("example.com", true),
        ("sub.example.com", true),
        ("*.example.com", true),
        ("*.sub.example.com", true),
        ("example-site.com", true),
        (".example.com", false),
        ("example", false),
        ("", false),
        ("example.com*", false),
        ("*example.com", false),
        ("*.*.example.com", false),
        ("example$.com", false),
        ("exam ple.com", false),
    ];

    for (pattern, expected_valid) in tests {
        let result = validate_domain_pattern(pattern);
        assert_eq!(
            result.is_ok(),
            expected_valid,
            "pattern={} expected_valid={} got={:?}",
            pattern,
            expected_valid,
            result
        );
    }
}

#[test]
fn test_validate_geosite_category() {
    let tests = vec![
        ("google", true),
        ("geolocation-cn", true),
        ("geolocation-!cn", true),
        ("category-ads", true),
        ("tld-cn", true),
        ("Google", false),
        ("GOOGLE", false),
        ("unknown-category", false),
        ("", false),
        ("category with spaces", false),
        ("category_underscore", false),
    ];

    for (category, expected_valid) in tests {
        let result = validate_geosite_category(category);
        assert_eq!(
            result.is_ok(),
            expected_valid,
            "category={} expected_valid={} got={:?}",
            category,
            expected_valid,
            result
        );
    }
}

#[test]
fn test_validation_error_carries_value() {
    assert_eq!(
        validate_country_code("zz").unwrap_err(),
        ValidationError::InvalidCountryCode("zz".to_string())
    );
    assert_eq!(
        validate_domain_pattern("nodot").unwrap_err(),
        ValidationError::InvalidDomainPattern("nodot".to_string())
    );
    assert_eq!(
        validate_geosite_category("Nope").unwrap_err(),
        ValidationError::InvalidGeoSiteCategory("Nope".to_string())
    );
}
