use lichking::compat::Compat;
use lichking::license::License;
use lichking::text::TextError;

fn named() -> Vec<License> {
    vec![
        License::MIT,
        License::X11,
        License::BSD_3_Clause,
        License::Apache_2_0,
        License::LGPL_2_0,
        License::LGPL_2_1,
        License::LGPL_2_1Plus,
        License::LGPL_3_0,
        License::LGPL_3_0Plus,
        License::MPL_1_1,
        License::MPL_2_0,
        License::GPL_2_0,
        License::GPL_2_0Plus,
        License::GPL_3_0,
        License::GPL_3_0Plus,
        License::AGPL_1_0,
    ]
}

#[test]
fn parse_is_total_on_arbitrary_text() {
    assert_eq!(License::parse(""), License::Custom(String::new()));
    assert_eq!(
        License::parse("no such license"),
        License::Custom("no such license".to_string())
    );
    assert_eq!(License::parse("   "), License::Custom(String::new()));
    assert_eq!(
        License::parse("W\u{00e4}hrung-1.0"),
        License::Custom("W\u{00e4}hrung-1.0".to_string())
    );
}

#[test]
fn parse_trims_whitespace() {
    assert_eq!(License::parse("  MIT\t"), License::MIT);
    assert_eq!(License::parse("\nGPL-3.0+\r\n"), License::GPL_3_0Plus);
}

#[test]
fn parse_format_round_trip_on_named_variants() {
    for v in named() {
        let text = v.format();
        assert_eq!(License::parse(&text), v);
    }
}

#[test]
fn parse_is_order_independent_on_composites() {
    let a = License::parse("GPL-2.0/MIT");
    let b = License::parse("MIT/GPL-2.0");
    assert_eq!(a, b);
    assert_eq!(a, License::Multiple(vec![License::MIT, License::GPL_2_0]));
}

#[test]
fn parse_splits_and_trims_alternatives() {
    assert_eq!(
        License::parse("MIT / X11"),
        License::Multiple(vec![License::MIT, License::X11])
    );
    assert_eq!(
        License::parse("Foo/MIT"),
        License::Multiple(vec![License::MIT, License::Custom("Foo".to_string())])
    );
}

#[test]
fn format_canonical_texts() {
    assert_eq!(License::MIT.format(), "MIT");
    assert_eq!(License::LGPL_2_1Plus.format(), "LGPL-2.1+");
    assert_eq!(License::Unspecified.format(), "Unlicensed");
    assert_eq!(License::Custom("Foo".to_string()).format(), "Custom(Foo)");
    assert_eq!(License::File("terms.txt".to_string()).format(), "File(terms.txt)");
    assert_eq!(
        License::Multiple(vec![License::MIT, License::X11]).format(),
        "MIT OR X11"
    );
}

#[test]
fn default_license_is_unspecified() {
    assert_eq!(License::default(), License::Unspecified);
}

#[test]
fn unspecified_dependency_is_never_includable() {
    let samples = vec![
        License::MIT,
        License::GPL_3_0,
        License::Custom("Foo".to_string()),
        License::File("f".to_string()),
        License::Multiple(vec![License::MIT, License::X11]),
        License::Unspecified,
        License::LGPL_2_0,
    ];
    for x in &samples {
        assert_eq!(x.can_include(&License::Unspecified), Compat::Excluded);
    }
}

#[test]
fn permissive_and_copyleft_pairs() {
    assert_eq!(License::MIT.can_include(&License::MIT), Compat::Included);
    assert_eq!(License::MIT.can_include(&License::GPL_3_0), Compat::Excluded);
    assert_eq!(License::GPL_3_0.can_include(&License::MIT), Compat::Included);
    assert_eq!(License::MIT.can_include(&License::X11), Compat::Included);
    assert_eq!(License::Apache_2_0.can_include(&License::BSD_3_Clause), Compat::Included);
    assert_eq!(License::BSD_3_Clause.can_include(&License::Apache_2_0), Compat::Excluded);
    assert_eq!(License::GPL_2_0.can_include(&License::Apache_2_0), Compat::Excluded);
    assert_eq!(License::GPL_3_0.can_include(&License::Apache_2_0), Compat::Included);
    assert_eq!(License::AGPL_1_0.can_include(&License::GPL_3_0), Compat::Included);
    assert_eq!(License::MPL_1_1.can_include(&License::MPL_2_0), Compat::Excluded);
    assert_eq!(License::Unspecified.can_include(&License::MIT), Compat::Included);
}

#[test]
fn custom_and_file_terms_are_unknown() {
    let foo = License::Custom("Foo".to_string());
    assert_eq!(foo.can_include(&License::MIT), Compat::Unknown);
    assert_eq!(License::MIT.can_include(&foo), Compat::Unknown);
    let f = License::File("terms".to_string());
    assert_eq!(f.can_include(&License::MIT), Compat::Unknown);
    assert_eq!(License::MIT.can_include(&f), Compat::Unknown);
}

#[test]
fn lgpl_2_0_is_deliberately_unmodeled() {
    assert_eq!(License::LGPL_2_0.can_include(&License::MIT), Compat::Unknown);
    assert_eq!(License::GPL_3_0.can_include(&License::LGPL_2_0), Compat::Unknown);
}

#[test]
fn composite_consumer_needs_every_alternative() {
    let both = License::Multiple(vec![License::MIT, License::GPL_3_0]);
    assert_eq!(both.can_include(&License::MIT), Compat::Included);
    assert_eq!(both.can_include(&License::Apache_2_0), Compat::Excluded);
    let with_custom = License::Multiple(vec![License::MIT, License::Custom("Foo".to_string())]);
    assert_eq!(with_custom.can_include(&License::MIT), Compat::Unknown);
}

#[test]
fn composite_dependency_needs_one_alternative() {
    let dep = License::Multiple(vec![License::Custom("Foo".to_string()), License::MIT]);
    assert_eq!(License::MIT.can_include(&dep), Compat::Included);
    let gpls = License::Multiple(vec![License::GPL_2_0, License::GPL_3_0]);
    assert_eq!(License::MIT.can_include(&gpls), Compat::Excluded);
    let mixed = License::Multiple(vec![License::Custom("Foo".to_string()), License::GPL_3_0]);
    assert_eq!(License::MIT.can_include(&mixed), Compat::Unknown);
}

#[test]
fn full_text_for_embedded_and_failing_licenses() {
    let mit = License::MIT.full_text().unwrap();
    assert!(!mit.is_empty());
    assert!(mit.contains("Permission is hereby granted"));
    let apache = License::Apache_2_0.full_text().unwrap();
    assert!(!apache.is_empty());
    assert!(apache.contains("Apache License"));
    assert_eq!(
        License::Custom("Foo".to_string()).full_text(),
        Err(TextError::UnrecognizedLicense)
    );
    assert_eq!(
        License::Unspecified.full_text(),
        Err(TextError::InvalidCompositeRequest)
    );
    assert_eq!(
        License::Multiple(vec![License::MIT, License::X11]).full_text(),
        Err(TextError::InvalidCompositeRequest)
    );
    assert_eq!(License::X11.full_text(), Err(TextError::UnsupportedLicenseText));
    assert_eq!(License::GPL_3_0.full_text(), Err(TextError::UnsupportedLicenseText));
    assert_eq!(
        License::File("terms".to_string()).full_text(),
        Err(TextError::UnsupportedLicenseText)
    );
}
