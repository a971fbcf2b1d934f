//! HTTP request methods and their names.

use vstd::prelude::*;
use vstd::string::StringExecFns;
use crate::text::same_text;

verus! {

/// The method of a request.
///
/// `Unknown` stands for a request whose method has not been read yet. It has
/// a name for display, and no text parses to it.
#[derive(Debug, Copy, Clone, PartialEq, Eq, Structural)]
pub enum Method {
    Unknown,
    Get,
    Head,
    Post,
    Put,
    Delete,
    Connect,
    Trace,
    Patch,
}

impl Method {
    /// The name of the method, in upper case.
    pub open spec fn name(self) -> Seq<char> {
        match self {
            Method::Unknown => "UNKNOWN"@,
            Method::Get => "GET"@,
            Method::Head => "HEAD"@,
            Method::Post => "POST"@,
            Method::Put => "PUT"@,
            Method::Delete => "DELETE"@,
            Method::Connect => "CONNECT"@,
            Method::Trace => "TRACE"@,
            Method::Patch => "PATCH"@,
        }
    }

    /// The method that a request can name as `s`, if there is one: a method
    /// other than `Unknown` whose name is `s`.
    pub open spec fn spec_from_str(s: Seq<char>) -> Option<Method> {
        if exists|method: Method| method != Method::Unknown && method.name() == s {
            Some(choose|method: Method| method != Method::Unknown && method.name() == s)
        } else {
            None
        }
    }

    /// The message that reports that `s` names no method.
    pub open spec fn spec_invalid(s: Seq<char>) -> Seq<char> {
        "'"@ + s + "' is not a valid value for Http::Method"@
    }

    fn label(&self) -> (s: &'static str)
        ensures
            s@ == self.name(),
    {
        match self {
            Method::Unknown => "UNKNOWN",
            Method::Get => "GET",
            Method::Head => "HEAD",
            Method::Post => "POST",
            Method::Put => "PUT",
            Method::Delete => "DELETE",
            Method::Connect => "CONNECT",
            Method::Trace => "TRACE",
            Method::Patch => "PATCH",
        }
    }

    /// The name of the method, as text.
    pub fn to_string(&self) -> (s: String)
        ensures
            s@ == self.name(),
    {
        String::from_str(self.label())
    }

    /// The method that `s` names. The comparison is exact and case-sensitive.
    /// Any other text, "UNKNOWN" included, is an error that quotes it.
    pub fn from_str(s: &str) -> (r: Result<Method, String>)
        ensures
            match r {
                Ok(method) => Method::spec_from_str(s@) == Some(method),
                Err(message) => Method::spec_from_str(s@) is None && message@
                    == Method::spec_invalid(s@),
            },
    {
        match Method::lookup(s) {
            Some(method) => {
                proof {
                    lemma_name_injective(
                        method,
                        choose|other: Method| other != Method::Unknown && other.name() == s@,
                    );
                }
                Ok(method)
            },
            None => {
                let message = String::from_str("'").concat(s).concat(
                    "' is not a valid value for Http::Method",
                );
                Err(message)
            },
        }
    }

    fn lookup(s: &str) -> (r: Option<Method>)
        ensures
            match r {
                Some(method) => method != Method::Unknown && method.name() == s@,
                None => forall|method: Method|
                    method != Method::Unknown ==> method.name() != s@,
            },
    {
        if same_text(s, "GET") {
            Some(Method::Get)
        } else if same_text(s, "HEAD") {
            Some(Method::Head)
        } else if same_text(s, "POST") {
            Some(Method::Post)
        } else if same_text(s, "PUT") {
            Some(Method::Put)
        } else if same_text(s, "DELETE") {
            Some(Method::Delete)
        } else if same_text(s, "CONNECT") {
            Some(Method::Connect)
        } else if same_text(s, "TRACE") {
            Some(Method::Trace)
        } else if same_text(s, "PATCH") {
            Some(Method::Patch)
        } else {
            None
        }
    }
}

impl std::str::FromStr for Method {
    type Err = String;

    /// The method that `s` names, as `Method::from_str` gives it: this is
    /// what `str::parse` calls.
    fn from_str(s: &str) -> (r: Result<Method, String>)
        ensures
            match r {
                Ok(method) => Method::spec_from_str(s@) == Some(method),
                Err(message) => Method::spec_from_str(s@) is None && message@
                    == Method::spec_invalid(s@),
            },
    {
        Method::from_str(s)
    }
}

/// No two methods share a name.
pub proof fn lemma_name_injective(a: Method, b: Method)
    requires
        a.name() == b.name(),
    ensures
        a == b,
{
    reveal_strlit("UNKNOWN");
    reveal_strlit("GET");
    reveal_strlit("HEAD");
    reveal_strlit("POST");
    reveal_strlit("PUT");
    reveal_strlit("DELETE");
    reveal_strlit("CONNECT");
    reveal_strlit("TRACE");
    reveal_strlit("PATCH");
    let s = a.name();
    let t = b.name();
    assert(s.len() == t.len());
    assert(s[0] == t[0]);
    assert(s[1] == t[1]);
}

/// Parsing the name of a method that a request can carry gives that method
/// back, and the method's text is that name.
pub proof fn lemma_method_round_trip(method: Method)
    requires
        method != Method::Unknown,
    ensures
        Method::spec_from_str(method.name()) == Some(method),
{
    let found = choose|other: Method| other != Method::Unknown && other.name() == method.name();
    lemma_name_injective(found, method);
}

/// "UNKNOWN" is the name of no method that a request can carry.
pub proof fn lemma_unknown_never_parsed()
    ensures
        Method::spec_from_str(Method::Unknown.name()) is None,
{
    let unknown = Method::Unknown.name();
    assert forall|method: Method| method != Method::Unknown implies #[trigger] method.name()
        != unknown by {
        if method.name() == unknown {
            lemma_name_injective(method, Method::Unknown);
        }
    }
}

} // verus!
