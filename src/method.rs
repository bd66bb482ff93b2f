use vstd::prelude::*;

verus! {

/// An HTTP verb. The order of the variants is a fixed wire contract: the
/// ordinal of each variant is the tag the engine uses for it.
#[derive(Debug, PartialEq, Eq, Copy, Clone, Structural)]
#[allow(non_camel_case_types)]
pub enum HttpMethod {
    GET,
    HEAD,
    POST,
    PUT,
    DELETE,
    PATCH,
    PURGE,
    OPTIONS,
    TRACE,
    COPY,
    LOCK,
    MKCOL,
    MOVE,
    PROPFIND,
    PROPPATCH,
    SEARCH,
    UNLOCK,
    ACL,
    REPORT,
    MKACTIVITY,
    CHECKOUT,
    MERGE,
    MSEARCH,
    NOTIFY,
    SUBSCRIBE,
    UNSUBSCRIBE,
    QUERY,
    BAN,
}

/// Number of HTTP verbs.
pub const METHOD_COUNT: u32 = 28;

/// The wire tag of each verb, by position in declaration order.
pub open spec fn method_ordinal(m: HttpMethod) -> nat {
    match m {
        HttpMethod::GET => 0,
        HttpMethod::HEAD => 1,
        HttpMethod::POST => 2,
        HttpMethod::PUT => 3,
        HttpMethod::DELETE => 4,
        HttpMethod::PATCH => 5,
        HttpMethod::PURGE => 6,
        HttpMethod::OPTIONS => 7,
        HttpMethod::TRACE => 8,
        HttpMethod::COPY => 9,
        HttpMethod::LOCK => 10,
        HttpMethod::MKCOL => 11,
        HttpMethod::MOVE => 12,
        HttpMethod::PROPFIND => 13,
        HttpMethod::PROPPATCH => 14,
        HttpMethod::SEARCH => 15,
        HttpMethod::UNLOCK => 16,
        HttpMethod::ACL => 17,
        HttpMethod::REPORT => 18,
        HttpMethod::MKACTIVITY => 19,
        HttpMethod::CHECKOUT => 20,
        HttpMethod::MERGE => 21,
        HttpMethod::MSEARCH => 22,
        HttpMethod::NOTIFY => 23,
        HttpMethod::SUBSCRIBE => 24,
        HttpMethod::UNSUBSCRIBE => 25,
        HttpMethod::QUERY => 26,
        HttpMethod::BAN => 27,
    }
}

impl HttpMethod {
    /// The wire tag of this verb.
    pub fn ordinal(self) -> (r: u32)
        ensures
            r as nat == method_ordinal(self),
            r < METHOD_COUNT,
    {
        match self {
            HttpMethod::GET => 0,
            HttpMethod::HEAD => 1,
            HttpMethod::POST => 2,
            HttpMethod::PUT => 3,
            HttpMethod::DELETE => 4,
            HttpMethod::PATCH => 5,
            HttpMethod::PURGE => 6,
            HttpMethod::OPTIONS => 7,
            HttpMethod::TRACE => 8,
            HttpMethod::COPY => 9,
            HttpMethod::LOCK => 10,
            HttpMethod::MKCOL => 11,
            HttpMethod::MOVE => 12,
            HttpMethod::PROPFIND => 13,
            HttpMethod::PROPPATCH => 14,
            HttpMethod::SEARCH => 15,
            HttpMethod::UNLOCK => 16,
            HttpMethod::ACL => 17,
            HttpMethod::REPORT => 18,
            HttpMethod::MKACTIVITY => 19,
            HttpMethod::CHECKOUT => 20,
            HttpMethod::MERGE => 21,
            HttpMethod::MSEARCH => 22,
            HttpMethod::NOTIFY => 23,
            HttpMethod::SUBSCRIBE => 24,
            HttpMethod::UNSUBSCRIBE => 25,
            HttpMethod::QUERY => 26,
            HttpMethod::BAN => 27,
        }
    }

    /// The verb carrying wire tag `n`, if any.
    pub fn from_ordinal(n: u32) -> (r: Option<HttpMethod>)
        ensures
            r.is_some() <==> n < METHOD_COUNT,
            r matches Some(m) ==> method_ordinal(m) == n as nat,
    {
        match n {
            0 => Some(HttpMethod::GET),
            1 => Some(HttpMethod::HEAD),
            2 => Some(HttpMethod::POST),
            3 => Some(HttpMethod::PUT),
            4 => Some(HttpMethod::DELETE),
            5 => Some(HttpMethod::PATCH),
            6 => Some(HttpMethod::PURGE),
            7 => Some(HttpMethod::OPTIONS),
            8 => Some(HttpMethod::TRACE),
            9 => Some(HttpMethod::COPY),
            10 => Some(HttpMethod::LOCK),
            11 => Some(HttpMethod::MKCOL),
            12 => Some(HttpMethod::MOVE),
            13 => Some(HttpMethod::PROPFIND),
            14 => Some(HttpMethod::PROPPATCH),
            15 => Some(HttpMethod::SEARCH),
            16 => Some(HttpMethod::UNLOCK),
            17 => Some(HttpMethod::ACL),
            18 => Some(HttpMethod::REPORT),
            19 => Some(HttpMethod::MKACTIVITY),
            20 => Some(HttpMethod::CHECKOUT),
            21 => Some(HttpMethod::MERGE),
            22 => Some(HttpMethod::MSEARCH),
            23 => Some(HttpMethod::NOTIFY),
            24 => Some(HttpMethod::SUBSCRIBE),
            25 => Some(HttpMethod::UNSUBSCRIBE),
            26 => Some(HttpMethod::QUERY),
            27 => Some(HttpMethod::BAN),
            _ => None,
        }
    }
}

/// Distinct verbs carry distinct wire tags, so the tag identifies the verb.
pub proof fn lemma_method_ordinal_injective(a: HttpMethod, b: HttpMethod)
    ensures
        method_ordinal(a) == method_ordinal(b) ==> a == b,
        method_ordinal(a) < METHOD_COUNT,
{
}

} // verus!
