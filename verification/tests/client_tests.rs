use bloblist::client::{
    auth_header_value, csv_fields, csv_header, listing_url, output_path, protocol_version_header,
};
use bloblist::records::{ObjectProperties, ObjectRecord};

#[test]
fn url_without_marker() {
    let url = listing_url("acct1", "cont1", &None);
    assert_eq!(
        url,
        "https://acct1.blob.core.windows.net/cont1?restype=container&comp=list"
    );
}

#[test]
fn url_with_marker() {
    let url = listing_url("acct1", "cont1", &Some("abc123".to_string()));
    assert_eq!(
        url,
        "https://acct1.blob.core.windows.net/cont1?restype=container&comp=list&marker=abc123"
    );
}

#[test]
fn auth_and_version_headers() {
    assert_eq!(auth_header_value("tok"), "Bearer tok");
    let (name, value) = protocol_version_header();
    assert_eq!(name, "x-ms-version");
    assert_eq!(value, "2020-04-08");
}

#[test]
fn output_path_shape() {
    assert_eq!(output_path("out/", "acct1", "cont1"), "out/acct1-cont1.csv");
    assert_eq!(output_path("", "a", "c"), "a-c.csv");
}

#[test]
fn csv_columns_in_fixed_order() {
    let rec = ObjectRecord {
        name: "n".to_string(),
        properties: ObjectProperties {
            creation_time: "ct".to_string(),
            last_modified: "lm".to_string(),
            content_length: "cl".to_string(),
            content_type: "ty".to_string(),
            content_md5: "md".to_string(),
            blob_type: "bt".to_string(),
            access_tier: "at".to_string(),
            resource_type: "rt".to_string(),
        },
    };
    let fields = csv_fields(&rec);
    assert_eq!(fields, ["n", "ct", "lm", "cl", "ty", "md", "bt", "at", "rt"]);
    let header = csv_header();
    assert_eq!(
        header,
        [
            "name",
            "creationtime",
            "lastmodified",
            "contentlength",
            "contenttype",
            "contentmd5",
            "blobtype",
            "accesstier",
            "resourcetype"
        ]
    );
}
