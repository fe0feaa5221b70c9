use crate::text::bool_text;
use crate::text::bool_to_string;
use vstd::prelude::*;

verus! {

/// The link with the query parameter `key=value` appended, or none when there is no link.
pub open spec fn spec_add_boolean_query(url: Option<Seq<char>>, key: Seq<char>, value: bool) -> Option<Seq<char>> {
    match url {
        Some(u) => Some(u + "&"@ + key + "="@ + bool_text(value)),
        None => None,
    }
}

/// The view of an optional string.
pub open spec fn opt_view(o: Option<String>) -> Option<Seq<char>> {
    match o {
        Some(s) => Some(s@),
        None => None,
    }
}

/// Appends `&key=value` to an archive link, if there is one.
pub fn add_boolean_query(url: Option<&String>, key: &str, value: bool) -> (r: Option<String>)
    ensures
        opt_view(r) == spec_add_boolean_query(
            match url { Some(u) => Some(u@), None => None },
            key@,
            value,
        ),
{
    match url {
        Some(u) => {
            let mut s = String::from_str(u.as_str());
            s.append("&");
            s.append(key);
            s.append("=");
            let b = bool_to_string(value);
            s.append(b.as_str());
            Some(s)
        },
        None => None,
    }
}

} // verus!
