use vstd::prelude::*;

verus! {

/// HTTP method of a request.
#[derive(Debug, Clone, Copy, PartialEq, Eq, Structural)]
pub enum HttpMethod {
    Post,
    Put,
    Get,
    Patch,
    Delete,
}

/// How the body of a response is read.
#[derive(Debug, Clone, Copy, PartialEq, Eq, Structural)]
pub enum Format {
    Json,
    String,
}

/// The method as written in a request line; `PATCH` is logged as `UNKNOWN`.
pub open spec fn spec_method_name(method: HttpMethod) -> Seq<char> {
    match method {
        HttpMethod::Get => "GET"@,
        HttpMethod::Post => "POST"@,
        HttpMethod::Put => "PUT"@,
        HttpMethod::Delete => "DELETE"@,
        HttpMethod::Patch => "UNKNOWN"@,
    }
}

/// The method in capitals, as logged for a request.
pub fn method_to_uppercase(method: &HttpMethod) -> (res: String)
    ensures
        res@ == spec_method_name(*method),
{
    let name = match method {
        HttpMethod::Get => "GET",
        HttpMethod::Post => "POST",
        HttpMethod::Put => "PUT",
        HttpMethod::Delete => "DELETE",
        _ => "UNKNOWN",
    };
    name.to_owned()
}

} // verus!
