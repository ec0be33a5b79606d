//! The conversion service's endpoints and request bodies.
//!
//! The vendor's REST surface is fixed: each workflow call goes to a
//! known URL, task polls address the synchronous host, and each posted
//! body is a small set of named fields. These builders state exactly
//! which URL and which fields each call carries, so the embedding
//! application only moves them onto the wire.

use vstd::prelude::*;
use vstd::string::StringExecFns;

verus! {

/// Where an upload slot is requested from the vendor.
pub fn upload_slot_endpoint() -> (r: String)
    ensures
        r@ == "https://api.cloudconvert.com/v2/import/upload"@,
{
    "https://api.cloudconvert.com/v2/import/upload".to_owned()
}

/// Where a file reachable by URL is registered.
pub fn import_endpoint() -> (r: String)
    ensures
        r@ == "https://api.cloudconvert.com/v2/import/url"@,
{
    "https://api.cloudconvert.com/v2/import/url".to_owned()
}

/// Where a conversion is requested.
pub fn convert_endpoint() -> (r: String)
    ensures
        r@ == "https://api.cloudconvert.com/v2/convert"@,
{
    "https://api.cloudconvert.com/v2/convert".to_owned()
}

/// Where an export of a converted task is requested.
pub fn export_endpoint() -> (r: String)
    ensures
        r@ == "https://api.cloudconvert.com/v2/export/url"@,
{
    "https://api.cloudconvert.com/v2/export/url".to_owned()
}

/// Where a task is fetched by id: the synchronous host, with the
/// task's opaque id appended unchanged.
pub fn task_poll_endpoint(id: &str) -> (r: String)
    ensures
        r@ == "https://sync.api.cloudconvert.com/v2/tasks/"@ + id@,
{
    let mut s: String = "https://sync.api.cloudconvert.com/v2/tasks/".to_owned();
    s.append(id);
    s
}

/// The body of an import call: the uploaded file's URL, and nothing
/// else.
pub fn import_body(url: &str) -> (r: Vec<(String, String)>)
    ensures
        r@.len() == 1,
        r@[0].0@ == "url"@ && r@[0].1@ == url@,
{
    let mut v: Vec<(String, String)> = Vec::new();
    v.push(("url".to_owned(), url.to_owned()));
    v
}

/// The body of a convert call: the input task's id and the two
/// formats, passed through verbatim.
pub fn convert_body(input: &str, input_format: &str, output_format: &str) -> (r: Vec<
    (String, String),
>)
    ensures
        r@.len() == 3,
        r@[0].0@ == "input"@ && r@[0].1@ == input@,
        r@[1].0@ == "input_format"@ && r@[1].1@ == input_format@,
        r@[2].0@ == "output_format"@ && r@[2].1@ == output_format@,
{
    let mut v: Vec<(String, String)> = Vec::new();
    v.push(("input".to_owned(), input.to_owned()));
    v.push(("input_format".to_owned(), input_format.to_owned()));
    v.push(("output_format".to_owned(), output_format.to_owned()));
    v
}

/// The body of an export call: the converted task's id, and nothing
/// else.
pub fn export_body(input: &str) -> (r: Vec<(String, String)>)
    ensures
        r@.len() == 1,
        r@[0].0@ == "input"@ && r@[0].1@ == input@,
{
    let mut v: Vec<(String, String)> = Vec::new();
    v.push(("input".to_owned(), input.to_owned()));
    v
}

} // verus!
