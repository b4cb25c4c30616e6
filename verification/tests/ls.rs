use s3_wayfinder::commands::ls::{
    PLACEHOLDER, listing_header, listing_report, names_or_placeholder,
};

#[test]
fn names_of_missing_listing() {
    assert!(names_or_placeholder(None).is_empty());
}

#[test]
fn names_take_placeholder_when_unnamed() {
    let names = names_or_placeholder(Some(vec![
        Some("alpha".to_string()),
        None,
        Some("gamma".to_string()),
    ]));
    assert_eq!(names, vec!["alpha", "N/A", "gamma"]);
    assert_eq!(PLACEHOLDER, "N/A");
}

#[test]
fn header_lines() {
    assert_eq!(listing_header(&None), "Listing S3 buckets...");
    assert_eq!(
        listing_header(&Some("photos".to_string())),
        "Listing objects in bucket: photos"
    );
}

#[test]
fn report_of_no_buckets() {
    assert_eq!(listing_report(&None, &vec![]), vec!["No S3 buckets found."]);
}

#[test]
fn report_of_buckets() {
    let names = vec!["a".to_string(), "b".to_string()];
    assert_eq!(
        listing_report(&None, &names),
        vec!["S3 Buckets:", "  - a", "  - b"]
    );
}

#[test]
fn report_of_empty_bucket() {
    assert_eq!(
        listing_report(&Some("photos".to_string()), &vec![]),
        vec!["No objects found in bucket 'photos'."]
    );
}

#[test]
fn report_of_objects() {
    let names = vec!["x.jpg".to_string(), "dir/y.jpg".to_string()];
    assert_eq!(
        listing_report(&Some("photos".to_string()), &names),
        vec!["Objects in 'photos':", "  - x.jpg", "  - dir/y.jpg"]
    );
}
