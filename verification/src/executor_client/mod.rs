//! The executor client that names request methods by string.

use vstd::prelude::*;

use crate::executor::HttpMethod;

pub use crate::executor::config::ExecutorConfig;

verus! {

/// The method that the executor client sends for a method name: `DELETE`
/// and `POST` as named, `GET` as a `POST`, and anything else as a `GET`.
pub open spec fn method_of(name: Seq<char>) -> HttpMethod {
    if name == "DELETE"@ {
        HttpMethod::Delete
    } else if name == "POST"@ {
        HttpMethod::Post
    } else if name == "GET"@ {
        HttpMethod::Post
    } else {
        HttpMethod::Get
    }
}

/// The executor client sends `DELETE` only for the name `DELETE`, `POST`
/// for the names `POST` and `GET`, and `GET` for every other name.
pub proof fn lemma_method_of_names(name: Seq<char>)
    ensures
        method_of(name) == HttpMethod::Delete <==> name == "DELETE"@,
        method_of(name) == HttpMethod::Post <==> (name == "POST"@ || name == "GET"@),
        method_of(name) == HttpMethod::Get <==> (name != "DELETE"@ && name != "POST"@ && name != "GET"@),
{
    reveal_strlit("DELETE");
    reveal_strlit("POST");
    reveal_strlit("GET");
    assert("DELETE"@.len() != "POST"@.len() && "DELETE"@.len() != "GET"@.len() && "POST"@.len() != "GET"@.len());
}

/// The method that the executor client sends for `method`.
pub fn request_method(method: &String) -> (m: HttpMethod)
    ensures
        m == method_of(method@),
{
    if *method == String::from_str("DELETE") {
        HttpMethod::Delete
    } else if *method == String::from_str("POST") {
        HttpMethod::Post
    } else if *method == String::from_str("GET") {
        HttpMethod::Post
    } else {
        HttpMethod::Get
    }
}

} // verus!
