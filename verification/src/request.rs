//! The one request that a scan makes.

use vstd::prelude::*;

verus! {

/// The method of a request. A scan only ever reads.
#[derive(Clone, Copy, Debug, PartialEq, Eq)]
pub enum Method {
    Get,
}

/// A request for the transport to carry out.
#[derive(Clone, Debug, PartialEq, Eq)]
pub struct Request {
    pub method: Method,
    pub url: String,
    pub headers: Vec<(String, String)>,
    pub body: String,
}

/// The address of a document's export, or of one of its sheets.
pub open spec fn url_text(base_url: Seq<char>, document: Seq<char>, sheet: Option<Seq<char>>) -> Seq<
    char,
> {
    match sheet {
        None => base_url + "/"@ + document + "/gviz/tq?tqx=out:json"@,
        Some(gid) => base_url + "/"@ + document + "/gviz/tq?gid="@ + gid + "&tqx=out:json"@,
    }
}

/// Whether a request is the scan's request for an address: a `GET` without a
/// body, with the two fixed headers in their order.
pub open spec fn is_scan_request(request: Request, url: Seq<char>) -> bool {
    &&& request.method == Method::Get
    &&& request.url@ == url
    &&& request.body@ == Seq::<char>::empty()
    &&& request.headers@.len() == 2
    &&& request.headers@[0].0@ == "user-agent"@
    &&& request.headers@[0].1@ == "Sheets FDW"@
    &&& request.headers@[1].0@ == "x-datasource-auth"@
    &&& request.headers@[1].1@ == "true"@
}

/// Builds the address of a document's export, or of one of its sheets.
pub fn request_url(base_url: &str, document: &str, sheet: Option<&str>) -> (url: String)
    ensures
        url@ == url_text(
            base_url@,
            document@,
            match sheet {
                Some(gid) => Some(gid@),
                None => None,
            },
        ),
{
    let document_url = base_url.to_owned().concat("/").concat(document);
    match sheet {
        None => document_url.concat("/gviz/tq?tqx=out:json"),
        Some(gid) => document_url.concat("/gviz/tq?gid=").concat(gid).concat("&tqx=out:json"),
    }
}

/// Builds the scan's request for an address.
pub fn scan_request(url: String) -> (request: Request)
    ensures
        is_scan_request(request, url@),
{
    let mut headers: Vec<(String, String)> = Vec::new();
    headers.push(("user-agent".to_owned(), "Sheets FDW".to_owned()));
    headers.push(("x-datasource-auth".to_owned(), "true".to_owned()));
    Request { method: Method::Get, url, headers, body: String::new() }
}

} // verus!
