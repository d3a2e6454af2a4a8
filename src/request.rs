//! Lookup parameters as given on the command line, the request they make, and
//! the JSON body that carries it to the service.

use vstd::prelude::*;
use crate::text::{json_str_of, json_string, split_on, split_at_char, joined, lemma_split_join};

verus! {

/// The resolvers asked when the command line names none.
pub open spec fn default_servers() -> Seq<Seq<char>> {
    seq!["8.8.8.8"@, "1.1.1.1"@]
}

/// The resolver list for an optional comma-separated override.
pub open spec fn servers_for(arg: Option<Seq<char>>) -> Seq<Seq<char>> {
    match arg {
        None => default_servers(),
        Some(list) => split_on(list, ','),
    }
}

/// A JSON array of string literals, written compactly.
pub open spec fn json_array(items: Seq<Seq<char>>) -> Seq<char> {
    "["@ + joined(items.map_values(|x: Seq<char>| json_str_of(x)), ","@) + "]"@
}

/// A JSON boolean.
pub open spec fn json_bool(b: bool) -> Seq<char> {
    if b {
        "true"@
    } else {
        "false"@
    }
}

/// The compact JSON body of a lookup request; the transport protocol is
/// always UDP.
pub open spec fn request_json(
    name: Seq<char>,
    rtype: Seq<char>,
    servers: Seq<Seq<char>>,
    advanced: bool,
) -> Seq<char> {
    "{\"dns_name\":"@ + json_str_of(name) + ",\"dns_type\":"@ + json_str_of(rtype)
        + ",\"dns_servers\":"@ + json_array(servers) + ",\"protocol\":"@ + json_str_of("UDP"@)
        + ",\"advanced\":"@ + json_bool(advanced) + "}"@
}

/// Without an override, every request body names exactly the two default
/// resolvers, in order.
pub proof fn lemma_default_resolvers(name: Seq<char>, rtype: Seq<char>, advanced: bool)
    ensures
        servers_for(None) == seq!["8.8.8.8"@, "1.1.1.1"@],
        request_json(name, rtype, servers_for(None), advanced) == request_json(
            name,
            rtype,
            seq!["8.8.8.8"@, "1.1.1.1"@],
            advanced,
        ),
{
}

/// An override list is split at each comma as written: joined back with
/// commas it gives the list itself, so nothing is trimmed, merged or dropped.
pub proof fn lemma_override_resolvers(list: Seq<char>)
    ensures
        servers_for(Some(list)) == split_on(list, ','),
        joined(servers_for(Some(list)), seq![',']) == list,
{
    lemma_split_join(list, ',');
}

/// What a lookup command carries: the domain, the record type, the output
/// mode, and an optional comma-separated list of resolvers.
pub struct LookupArgs {
    pub domain: String,
    pub record_type: String,
    pub advanced: bool,
    pub dns_servers: Option<String>,
}

/// The request sent to the service.
pub struct LookupRequest {
    pub dns_name: String,
    pub dns_type: String,
    pub dns_servers: Vec<String>,
    pub advanced: bool,
}

/// The two public resolvers asked by default.
pub fn default_dns_servers() -> (r: Vec<String>)
    ensures
        r.deep_view() == default_servers(),
{
    let r = vec!["8.8.8.8".to_string(), "1.1.1.1".to_string()];
    assert(r.deep_view() =~= default_servers());
    r
}

/// The resolvers to ask: the override split at each comma, or the defaults.
pub fn dns_server_list(arg: &Option<String>) -> (r: Vec<String>)
    ensures
        r.deep_view() == servers_for(arg.deep_view()),
{
    match arg {
        None => default_dns_servers(),
        Some(list) => split_at_char(list.as_str(), ','),
    }
}

/// Appends the JSON array of string literals for `items` to `out`.
fn write_json_array(out: &mut String, items: &Vec<String>)
    ensures
        final(out)@ == old(out)@ + json_array(items.deep_view()),
{
    let ghost quoted = items.deep_view().map_values(|x: Seq<char>| json_str_of(x));
    let ghost start = out@;
    out.append("[");
    let mut j: usize = 0;
    assert(quoted.take(0) =~= Seq::<Seq<char>>::empty());
    while j < items.len()
        invariant
            0 <= j <= items.len(),
            quoted == items.deep_view().map_values(|x: Seq<char>| json_str_of(x)),
            out@ == start + "["@ + joined(quoted.take(j as int), ","@),
        decreases items.len() - j,
    {
        if j > 0 {
            out.append(",");
        }
        let q = json_string(items[j].as_str());
        out.append(q.as_str());
        assert(quoted.take(j + 1).drop_last() =~= quoted.take(j as int));
        assert(quoted.take(j + 1).last() == q@);
        j = j + 1;
    }
    assert(quoted.take(j as int) =~= quoted);
    out.append("]");
}

impl LookupRequest {
    /// The request for `args`: its resolvers are the override split at each
    /// comma, or the two defaults when there is none.
    pub fn from_args(args: &LookupArgs) -> (r: LookupRequest)
        ensures
            r.dns_name@ == args.domain@,
            r.dns_type@ == args.record_type@,
            r.dns_servers.deep_view() == servers_for(args.dns_servers.deep_view()),
            r.advanced == args.advanced,
    {
        LookupRequest {
            dns_name: args.domain.clone(),
            dns_type: args.record_type.clone(),
            dns_servers: dns_server_list(&args.dns_servers),
            advanced: args.advanced,
        }
    }

    /// The JSON body posted to the service.
    pub fn to_json(&self) -> (r: String)
        ensures
            r@ == request_json(
                self.dns_name@,
                self.dns_type@,
                self.dns_servers.deep_view(),
                self.advanced,
            ),
    {
        let mut out = "{\"dns_name\":".to_string();
        out.append(json_string(self.dns_name.as_str()).as_str());
        out.append(",\"dns_type\":");
        out.append(json_string(self.dns_type.as_str()).as_str());
        out.append(",\"dns_servers\":");
        write_json_array(&mut out, &self.dns_servers);
        out.append(",\"protocol\":");
        out.append(json_string("UDP").as_str());
        out.append(",\"advanced\":");
        if self.advanced {
            out.append("true");
        } else {
            out.append("false");
        }
        out.append("}");
        out
    }
}

} // verus!
