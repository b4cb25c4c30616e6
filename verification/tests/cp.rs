use s3_wayfinder::commands::cp::{
    EMPTY_PART, MISSING_SCHEME, copy_source, MISSING_SEPARATOR, NO_S3_SIDE, Transfer, has_s3_scheme,
    parse_s3_path, plan_cp,
};

#[test]
fn parse_bucket_and_key() {
    assert_eq!(parse_s3_path("s3://bucket/key"), Ok(("bucket", "key")));
}

#[test]
fn parse_key_keeps_later_slashes() {
    assert_eq!(
        parse_s3_path("s3://bucket/dir/sub/file.txt"),
        Ok(("bucket", "dir/sub/file.txt"))
    );
}

#[test]
fn parse_non_ascii_address() {
    assert_eq!(parse_s3_path("s3://bücket/ключ"), Ok(("bücket", "ключ")));
}

#[test]
fn parse_refuses_missing_scheme() {
    assert_eq!(parse_s3_path("bucket/key"), Err(MISSING_SCHEME));
    assert_eq!(parse_s3_path("S3://bucket/key"), Err(MISSING_SCHEME));
    assert_eq!(parse_s3_path("s3:/"), Err(MISSING_SCHEME));
    assert_eq!(parse_s3_path(""), Err(MISSING_SCHEME));
    assert_eq!(MISSING_SCHEME, "S3 path must start with 's3://'");
}

#[test]
fn parse_refuses_missing_separator() {
    assert_eq!(parse_s3_path("s3://bucket"), Err(MISSING_SEPARATOR));
    assert_eq!(parse_s3_path("s3://"), Err(MISSING_SEPARATOR));
    assert_eq!(
        MISSING_SEPARATOR,
        "S3 path must include a bucket and a key separated by a '/'"
    );
}

#[test]
fn parse_refuses_empty_parts() {
    assert_eq!(parse_s3_path("s3:///key"), Err(EMPTY_PART));
    assert_eq!(parse_s3_path("s3://bucket/"), Err(EMPTY_PART));
    assert_eq!(parse_s3_path("s3:///"), Err(EMPTY_PART));
    assert_eq!(EMPTY_PART, "Bucket and key cannot be empty.");
}

#[test]
fn parse_of_written_address_gives_parts_back() {
    for (bucket, key) in [("b", "k"), ("my-bucket", "a/b/c"), ("x", "/"), ("é", "ü/")] {
        let address = format!("s3://{}/{}", bucket, key);
        assert_eq!(parse_s3_path(&address), Ok((bucket, key)));
    }
}

#[test]
fn scheme_detection() {
    assert!(has_s3_scheme("s3://"));
    assert!(has_s3_scheme("s3://b/k"));
    assert!(!has_s3_scheme("s3:/b"));
    assert!(!has_s3_scheme("./s3://b/k"));
    assert!(!has_s3_scheme(""));
}

#[test]
fn plan_copy_between_buckets() {
    let t = plan_cp("s3://a/x", "s3://b/y/z").unwrap();
    assert_eq!(
        t,
        Transfer::Copy {
            source_bucket: "a",
            source_key: "x",
            dest_bucket: "b",
            dest_key: "y/z"
        }
    );
    assert_eq!(
        t.announcement("s3://a/x", "s3://b/y/z"),
        "Copying from 's3://a/x' to 's3://b/y/z'"
    );
    assert_eq!(
        t.completion("s3://a/x", "s3://b/y/z"),
        "Successfully copied object from 's3://a/x' to 's3://b/y/z'"
    );
}

#[test]
fn plan_upload() {
    let t = plan_cp("./notes.txt", "s3://b/notes.txt").unwrap();
    assert_eq!(
        t,
        Transfer::Upload {
            local_path: "./notes.txt",
            dest_bucket: "b",
            dest_key: "notes.txt"
        }
    );
    assert_eq!(
        t.announcement("./notes.txt", "s3://b/notes.txt"),
        "Uploading from local './notes.txt' to S3 's3://b/notes.txt'..."
    );
    assert_eq!(
        t.completion("./notes.txt", "s3://b/notes.txt"),
        "Successfully uploaded local file './notes.txt' to S3 's3://b/notes.txt'"
    );
}

#[test]
fn plan_download() {
    let t = plan_cp("s3://b/k", "out.bin").unwrap();
    assert_eq!(
        t,
        Transfer::Download {
            source_bucket: "b",
            source_key: "k",
            local_path: "out.bin"
        }
    );
    assert_eq!(
        t.announcement("s3://b/k", "out.bin"),
        "Downloading from S3 's3://b/k' to local 'out.bin'..."
    );
    assert_eq!(
        t.completion("s3://b/k", "out.bin"),
        "Successfully downloaded S3 's3://b/k' to local 'out.bin'"
    );
}

#[test]
fn plan_refuses_two_local_paths() {
    assert_eq!(plan_cp("a.txt", "b.txt"), Err(NO_S3_SIDE));
    assert_eq!(
        NO_S3_SIDE,
        "Invalid arguments: at least one of source or destination must be an S3 path."
    );
}

#[test]
fn plan_reports_the_source_error_first() {
    assert_eq!(plan_cp("s3://bucket", "s3:///k"), Err(MISSING_SEPARATOR));
    assert_eq!(plan_cp("s3://b/k", "s3:///k"), Err(EMPTY_PART));
    assert_eq!(plan_cp("local", "s3://b"), Err(MISSING_SEPARATOR));
    assert_eq!(plan_cp("s3://b/", "local"), Err(EMPTY_PART));
}

#[test]
fn copy_source_joins_bucket_and_key() {
    assert_eq!(copy_source("src", "dir/file.txt"), "src/dir/file.txt");
}
