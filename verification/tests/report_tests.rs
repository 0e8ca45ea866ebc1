use lichking::group::{packages_by_license, LicenseGroup, PackageId, PackageLicense};
use lichking::license::License;
use lichking::render::{render_bundle, render_list};
use lichking::text::TextError;

fn pkg(name: &str) -> PackageId {
    PackageId { name: name.to_string(), version: "1.0.0".to_string() }
}

fn pair(name: &str, license: License) -> PackageLicense {
    PackageLicense { id: pkg(name), license }
}

#[test]
fn grouping_keeps_input_order_within_groups() {
    let groups = packages_by_license(vec![
        pair("A", License::MIT),
        pair("B", License::MIT),
        pair("C", License::Apache_2_0),
    ]);
    assert_eq!(groups.len(), 2);
    assert_eq!(groups[0].license, License::MIT);
    assert_eq!(groups[0].packages, vec![pkg("A"), pkg("B")]);
    assert_eq!(groups[1].license, License::Apache_2_0);
    assert_eq!(groups[1].packages, vec![pkg("C")]);
}

#[test]
fn grouping_orders_groups_by_first_occurrence() {
    let groups = packages_by_license(vec![
        pair("A", License::MIT),
        pair("B", License::Apache_2_0),
        pair("C", License::MIT),
    ]);
    assert_eq!(groups.len(), 2);
    assert_eq!(groups[0].license, License::MIT);
    assert_eq!(groups[1].license, License::Apache_2_0);
    assert_eq!(groups[0].packages, vec![pkg("A"), pkg("C")]);
}

#[test]
fn grouping_distinguishes_composites_from_members() {
    let groups = packages_by_license(vec![
        pair("A", License::parse("MIT/X11")),
        pair("B", License::MIT),
        pair("C", License::parse("X11 / MIT")),
    ]);
    assert_eq!(groups.len(), 2);
    assert_eq!(groups[0].license, License::Multiple(vec![License::MIT, License::X11]));
    assert_eq!(groups[0].packages, vec![pkg("A"), pkg("C")]);
    assert_eq!(groups[1].packages, vec![pkg("B")]);
}

#[test]
fn list_rendering_emits_one_line_per_group() {
    let groups = packages_by_license(vec![
        pair("A", License::parse("MIT")),
        pair("B", License::parse("Apache-2.0")),
        pair("C", License::Unspecified),
    ]);
    let lines = render_list(&groups);
    assert_eq!(lines.len(), 3);
    assert_eq!(lines[0], "MIT: A");
    assert_eq!(lines[1], "Apache-2.0: B");
    assert_eq!(lines[2], "Unlicensed: C");
}

#[test]
fn list_rendering_joins_names_with_commas() {
    let groups = packages_by_license(vec![
        pair("A", License::MIT),
        pair("B", License::MIT),
        pair("C", License::MIT),
    ]);
    let lines = render_list(&groups);
    assert_eq!(lines, vec!["MIT: A, B, C".to_string()]);
}

#[test]
fn bundle_rendering_end_to_end() {
    let groups = packages_by_license(vec![
        pair("A", License::parse("MIT")),
        pair("B", License::parse("Apache-2.0")),
        pair("C", License::Unspecified),
    ]);
    let doc = render_bundle("demo", &groups).unwrap();
    assert!(doc.starts_with(
        "The demo package uses some third party libraries under their own license terms:\n\n"
    ));
    assert!(doc.contains(" * A - MIT\n"));
    assert!(doc.contains(" * B - Apache-2.0\n"));
    assert!(doc.contains(" * C - Unlicensed\n"));
    // the MIT section holds the embedded text, indented by four spaces
    assert!(doc.contains("    MIT License\n"));
    assert!(doc.contains("\n    Permission is hereby granted"));
    // the section of the unspecified license holds no text block
    assert!(doc.contains(" * C - Unlicensed\n\n"));
}

#[test]
fn bundle_rendering_indents_every_text_line() {
    let groups = vec![LicenseGroup { license: License::MIT, packages: vec![pkg("A")] }];
    let doc = render_bundle("demo", &groups).unwrap();
    let text_part = doc.split_once(" * A - MIT\n").unwrap().1;
    for line in text_part.lines() {
        assert!(line.is_empty() || line.starts_with("    "));
    }
}

#[test]
fn bundle_rendering_joins_composite_texts_with_separators() {
    let both = License::Multiple(vec![License::MIT, License::Apache_2_0]);
    let groups = vec![LicenseGroup { license: both, packages: vec![pkg("A")] }];
    let doc = render_bundle("demo", &groups).unwrap();
    assert!(doc.contains(" * A - MIT OR Apache-2.0\n"));
    assert!(doc.contains(" ---\n"));
    assert!(doc.contains("    MIT License\n"));
    assert!(doc.contains("Apache License"));
}

#[test]
fn bundle_rendering_fails_on_first_unsupported_text() {
    let groups = packages_by_license(vec![
        pair("A", License::MIT),
        pair("B", License::X11),
    ]);
    assert_eq!(render_bundle("demo", &groups), Err(TextError::UnsupportedLicenseText));
    let groups2 = packages_by_license(vec![pair("A", License::Custom("Foo".to_string()))]);
    assert_eq!(render_bundle("demo", &groups2), Err(TextError::UnrecognizedLicense));
}
