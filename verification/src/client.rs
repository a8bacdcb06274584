//! Request and output shaping for one listing call: the listing URL built
//! deterministically from account, container and marker; the authorization
//! and protocol-version headers; the per-target output path; and the fixed
//! column order of the delimited output.
use vstd::prelude::*;
use vstd::string::*;
use crate::records::ObjectRecord;

verus! {

/// The listing URL for one page: the container's listing endpoint, with the
/// marker appended only when one is present.
pub open spec fn spec_listing_url(
    account: Seq<char>,
    container: Seq<char>,
    marker: Option<Seq<char>>,
) -> Seq<char> {
    let base = "https://"@ + account + ".blob.core.windows.net/"@ + container
        + "?restype=container&comp=list"@;
    match marker {
        Option::Some(m) => base + "&marker="@ + m,
        Option::None => base,
    }
}

/// Build the listing URL for one page of `account`/`container`.
pub fn listing_url(account: &str, container: &str, marker: &Option<String>) -> (r: String)
    ensures
        r@ == spec_listing_url(account@, container@, crate::records::opt_text_view(*marker)),
{
    let mut url = String::from_str("https://");
    url.append(account);
    url.append(".blob.core.windows.net/");
    url.append(container);
    url.append("?restype=container&comp=list");
    match marker {
        Option::Some(m) => {
            url.append("&marker=");
            url.append(m.as_str());
        },
        Option::None => {},
    }
    url
}

/// The value of the authorization header for one bearer token.
pub fn auth_header_value(token: &str) -> (r: String)
    ensures
        r@ == "Bearer "@ + token@,
{
    let mut v = String::from_str("Bearer ");
    v.append(token);
    v
}

/// The protocol-version header sent with every listing request: its name and
/// its fixed value.
pub fn protocol_version_header() -> (r: (String, String))
    ensures
        r.0@ == "x-ms-version"@,
        r.1@ == "2020-04-08"@,
{
    (String::from_str("x-ms-version"), String::from_str("2020-04-08"))
}

/// The output path for one target: the prefix, then `account-container.csv`.
pub fn output_path(prefix: &str, account: &str, container: &str) -> (r: String)
    ensures
        r@ == prefix@ + account@ + "-"@ + container@ + ".csv"@,
{
    let mut p = String::from_str(prefix);
    p.append(account);
    p.append("-");
    p.append(container);
    p.append(".csv");
    p
}

/// The columns of one output row, in the fixed documented order: the
/// object's name, then its properties.
pub fn csv_fields(r: &ObjectRecord) -> (out: Vec<String>)
    ensures
        out@.len() == 9,
        out@[0]@ == r@.name,
        out@[1]@ == r@.properties.creation_time,
        out@[2]@ == r@.properties.last_modified,
        out@[3]@ == r@.properties.content_length,
        out@[4]@ == r@.properties.content_type,
        out@[5]@ == r@.properties.content_md5,
        out@[6]@ == r@.properties.blob_type,
        out@[7]@ == r@.properties.access_tier,
        out@[8]@ == r@.properties.resource_type,
{
    let mut out: Vec<String> = Vec::new();
    out.push(r.name.clone());
    out.push(r.properties.creation_time.clone());
    out.push(r.properties.last_modified.clone());
    out.push(r.properties.content_length.clone());
    out.push(r.properties.content_type.clone());
    out.push(r.properties.content_md5.clone());
    out.push(r.properties.blob_type.clone());
    out.push(r.properties.access_tier.clone());
    out.push(r.properties.resource_type.clone());
    out
}

/// The header row of the delimited output, one column name per field of
/// `csv_fields`, in the same order.
pub fn csv_header() -> (out: Vec<String>)
    ensures
        out@.len() == 9,
        out@[0]@ == "name"@,
        out@[1]@ == "creationtime"@,
        out@[2]@ == "lastmodified"@,
        out@[3]@ == "contentlength"@,
        out@[4]@ == "contenttype"@,
        out@[5]@ == "contentmd5"@,
        out@[6]@ == "blobtype"@,
        out@[7]@ == "accesstier"@,
        out@[8]@ == "resourcetype"@,
{
    let mut out: Vec<String> = Vec::new();
    out.push(String::from_str("name"));
    out.push(String::from_str("creationtime"));
    out.push(String::from_str("lastmodified"));
    out.push(String::from_str("contentlength"));
    out.push(String::from_str("contenttype"));
    out.push(String::from_str("contentmd5"));
    out.push(String::from_str("blobtype"));
    out.push(String::from_str("accesstier"));
    out.push(String::from_str("resourcetype"));
    out
}

} // verus!
