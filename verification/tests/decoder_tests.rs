use bloblist::decoder::decode_page;
use bloblist::records::ListingPage;

fn blob(name: &str, extra: &str) -> String {
    format!(
        "<Blob><Name>{}</Name><Properties>\
         <Creation-Time>ct</Creation-Time>\
         <Last-Modified>lm</Last-Modified>\
         <Content-Length>42</Content-Length>\
         <Content-Type>text/plain</Content-Type>\
         <Content-MD5>md5</Content-MD5>\
         <BlobType>BlockBlob</BlobType>{}\
         </Properties></Blob>",
        name, extra
    )
}

fn doc(body: &str) -> String {
    format!(
        "<?xml version=\"1.0\" encoding=\"utf-8\"?>\
         <EnumerationResults ServiceEndpoint=\"https://acct1.blob.core.windows.net/\" ContainerName=\"cont1\">\
         <Blobs>{}</Blobs></EnumerationResults>",
        body
    )
}

#[test]
fn two_blobs_and_marker() {
    let body = format!(
        "<?xml version=\"1.0\"?><EnumerationResults><Blobs>{}{}</Blobs><NextMarker>m2</NextMarker></EnumerationResults>",
        blob("a.txt", "<AccessTier>Hot</AccessTier><ResourceType>file</ResourceType>"),
        blob("b.txt", "<AccessTier>Cool</AccessTier>")
    );
    match decode_page(&body) {
        ListingPage::Results { records, marker } => {
            assert_eq!(records.len(), 2);
            assert_eq!(records[0].name, "a.txt");
            assert_eq!(records[0].properties.creation_time, "ct");
            assert_eq!(records[0].properties.last_modified, "lm");
            assert_eq!(records[0].properties.content_length, "42");
            assert_eq!(records[0].properties.content_type, "text/plain");
            assert_eq!(records[0].properties.content_md5, "md5");
            assert_eq!(records[0].properties.blob_type, "BlockBlob");
            assert_eq!(records[0].properties.access_tier, "Hot");
            assert_eq!(records[0].properties.resource_type, "file");
            assert_eq!(records[1].name, "b.txt");
            assert_eq!(records[1].properties.access_tier, "Cool");
            assert_eq!(records[1].properties.resource_type, "");
            assert_eq!(marker.as_deref(), Some("m2"));
        }
        _ => panic!("expected a result set"),
    }
}

#[test]
fn empty_marker_element_is_absent_marker() {
    let with_empty = doc("").replace("</Blobs>", "</Blobs><NextMarker></NextMarker>");
    let without = doc("");
    let a = decode_page(&with_empty);
    let b = decode_page(&without);
    for page in [a, b] {
        match page {
            ListingPage::Results { records, marker } => {
                assert_eq!(records.len(), 0);
                assert!(marker.is_none());
            }
            _ => panic!("expected a result set"),
        }
    }
}

#[test]
fn self_closing_marker_is_absent_marker() {
    let body = doc("").replace("</Blobs>", "</Blobs><NextMarker />");
    match decode_page(&body) {
        ListingPage::Results { marker, .. } => assert!(marker.is_none()),
        _ => panic!("expected a result set"),
    }
}

#[test]
fn whitespace_only_marker_is_absent_marker() {
    let body = doc("").replace("</Blobs>", "</Blobs><NextMarker>  \n </NextMarker>");
    match decode_page(&body) {
        ListingPage::Results { marker, .. } => assert!(marker.is_none()),
        _ => panic!("expected a result set"),
    }
}

#[test]
fn missing_access_tier_defaults_to_none() {
    let body = doc(&blob("a", ""));
    match decode_page(&body) {
        ListingPage::Results { records, .. } => {
            assert_eq!(records.len(), 1);
            assert_eq!(records[0].properties.access_tier, "None");
            assert_eq!(records[0].properties.resource_type, "");
        }
        _ => panic!("expected a result set"),
    }
}

#[test]
fn service_error_wins_over_records() {
    let body = format!(
        "<?xml version=\"1.0\"?><EnumerationResults>\
         <Error><Code>ServerBusy</Code><Message>slow down</Message></Error>\
         <Blobs>{}</Blobs></EnumerationResults>",
        blob("a", "")
    );
    match decode_page(&body) {
        ListingPage::ServiceError { code, message } => {
            assert_eq!(code, "ServerBusy");
            assert_eq!(message, "slow down");
        }
        _ => panic!("expected a service error"),
    }
}

#[test]
fn top_level_error_document() {
    let body = "<?xml version=\"1.0\"?><Error><Code>AuthenticationFailed</Code>\
                <Message>bad token</Message></Error>";
    match decode_page(body) {
        ListingPage::ServiceError { code, .. } => assert_eq!(code, "AuthenticationFailed"),
        _ => panic!("expected a service error"),
    }
}

#[test]
fn error_without_code_is_malformed() {
    let body = "<Error><Message>m</Message></Error>";
    match decode_page(body) {
        ListingPage::Malformed { .. } => {}
        _ => panic!("expected a decode failure"),
    }
}

#[test]
fn unclosed_tag_is_malformed_at_end() {
    let body = "<EnumerationResults><Blobs>";
    match decode_page(body) {
        ListingPage::Malformed { offset } => assert_eq!(offset, body.len()),
        _ => panic!("expected a decode failure"),
    }
}

#[test]
fn mismatched_close_is_malformed_at_tag() {
    let body = "<EnumerationResults></Wrong>";
    match decode_page(body) {
        ListingPage::Malformed { offset } => assert_eq!(offset, 20),
        _ => panic!("expected a decode failure"),
    }
}

#[test]
fn truncated_tag_is_malformed() {
    let body = "<EnumerationResults></EnumerationResu";
    match decode_page(body) {
        ListingPage::Malformed { .. } => {}
        _ => panic!("expected a decode failure"),
    }
}

#[test]
fn blob_missing_required_property_is_malformed() {
    let body = doc("<Blob><Name>a</Name><Properties><BlobType>b</BlobType></Properties></Blob>");
    match decode_page(&body) {
        ListingPage::Malformed { .. } => {}
        _ => panic!("expected a decode failure"),
    }
}

#[test]
fn empty_result_set() {
    match decode_page(&doc("")) {
        ListingPage::Results { records, marker } => {
            assert_eq!(records.len(), 0);
            assert!(marker.is_none());
        }
        _ => panic!("expected a result set"),
    }
}

#[test]
fn unknown_properties_are_ignored() {
    let body = doc(&blob("a", "<Etag>0x8D</Etag><LeaseStatus>unlocked</LeaseStatus>"));
    match decode_page(&body) {
        ListingPage::Results { records, .. } => {
            assert_eq!(records.len(), 1);
            assert_eq!(records[0].name, "a");
        }
        _ => panic!("expected a result set"),
    }
}

#[test]
fn text_is_trimmed() {
    let body = doc("<Blob>\n  <Name>  spaced name  </Name>\n  <Properties>\
        <Creation-Time> ct </Creation-Time><Last-Modified>lm</Last-Modified>\
        <Content-Length>1</Content-Length><Content-Type>t</Content-Type>\
        <Content-MD5>m</Content-MD5><BlobType>B</BlobType></Properties></Blob>");
    match decode_page(&body) {
        ListingPage::Results { records, .. } => {
            assert_eq!(records[0].name, "spaced name");
            assert_eq!(records[0].properties.creation_time, "ct");
        }
        _ => panic!("expected a result set"),
    }
}

#[test]
fn text_outside_any_element_is_malformed() {
    let body = "stray<EnumerationResults></EnumerationResults>";
    match decode_page(body) {
        ListingPage::Malformed { offset } => assert_eq!(offset, 0),
        _ => panic!("expected a decode failure"),
    }
}
