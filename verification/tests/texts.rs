use s3_browser_tool::commands::{outcome_line, FileCommand, DEFAULT_REGION};
use s3_browser_tool::error::S3ExampleError;
use s3_browser_tool::paths::{upload_key, upload_key_from};
use s3_browser_tool::text::decimal_string;

#[test]
fn decimal_of_small_and_large_numbers() {
    assert_eq!(decimal_string(0), "0");
    assert_eq!(decimal_string(7), "7");
    assert_eq!(decimal_string(10), "10");
    assert_eq!(decimal_string(1234), "1234");
    assert_eq!(decimal_string(usize::MAX), usize::MAX.to_string());
}

#[test]
fn error_from_metadata_joins_code_and_reason() {
    let e = S3ExampleError::from_metadata(Some("NoSuchBucket"), Some("The bucket does not exist"));
    assert_eq!(e.to_string(), "NoSuchBucket: The bucket does not exist");
}

#[test]
fn error_from_metadata_fills_in_missing_parts() {
    assert_eq!(S3ExampleError::from_metadata(None, None).to_string(), "unknown code: missing reason");
    assert_eq!(S3ExampleError::from_metadata(Some("X"), None).to_string(), "X: missing reason");
    assert_eq!(S3ExampleError::from_metadata(None, Some("why")).to_string(), "unknown code: why");
}

#[test]
fn upload_key_takes_final_component() {
    assert_eq!(upload_key("/tmp/report.pdf"), "report.pdf");
    assert_eq!(upload_key("report.pdf"), "report.pdf");
    assert_eq!(upload_key("dir/sub/"), "sub");
    assert_eq!(upload_key("dir/file.txt/."), "file.txt");
}

#[test]
fn upload_key_falls_back_to_path() {
    assert_eq!(upload_key("/"), "/");
    assert_eq!(upload_key(""), "");
    assert_eq!(upload_key("a/.."), "a/..");
}

#[test]
fn upload_key_from_given_name() {
    assert_eq!(upload_key_from("/x/y", Some("y".to_string())), "y");
    assert_eq!(upload_key_from("/x/..", None), "/x/..");
}

#[test]
fn command_outcome_lines() {
    assert_eq!(outcome_line(FileCommand::Upload, "a.txt", &Ok(())), "Uploaded 'a.txt' successfully.");
    assert_eq!(outcome_line(FileCommand::Delete, "a.txt", &Ok(())), "Deleted 'a.txt' successfully.");
    let e = S3ExampleError("AccessDenied: no".to_string());
    assert_eq!(
        outcome_line(FileCommand::Upload, "a.txt", &Err(e.clone())),
        "Failed to upload 'a.txt': AccessDenied: no"
    );
    assert_eq!(
        outcome_line(FileCommand::Delete, "a.txt", &Err(e)),
        "Failed to delete 'a.txt': AccessDenied: no"
    );
}

#[test]
fn default_region_is_us_east_1() {
    assert_eq!(DEFAULT_REGION, "us-east-1");
}
