//! The answer of the service and its rendering as output lines, in summary or
//! in zone-file style.

use vstd::prelude::*;
use crate::text::{decimal, decimal_string, joined};

verus! {

/// One record that one resolver returned.
pub struct RecordResult {
    pub query_name: String,
    pub record: String,
    pub record_type: String,
    pub ttl: u32,
    pub authoritative: bool,
}

/// The records that one resolver returned.
pub struct ServerResult {
    pub friendly_name: String,
    pub server: String,
    pub results: Vec<RecordResult>,
}

/// The whole answer: the name and type asked for and each resolver's records.
pub struct DnsResult {
    pub dns_name: String,
    pub dns_type: String,
    pub results: Vec<ServerResult>,
}

/// The line for one record: `- <record>` in summary mode, and
/// `<name>\t<ttl>\tIN\t<type>\t<record>` in advanced mode.
pub open spec fn record_line(r: RecordResult, advanced: bool) -> Seq<char> {
    if advanced {
        r.query_name@ + "\t"@ + decimal(r.ttl as nat) + "\tIN\t"@ + r.record_type@ + "\t"@
            + r.record@
    } else {
        "- "@ + r.record@
    }
}

/// In summary mode a record's line is `- ` followed by its value.
/// In advanced mode it is five fields joined by tabs: the query name, the TTL
/// in decimal, the class `IN`, the record type and the value.
pub proof fn lemma_record_line_shape(r: RecordResult)
    ensures
        record_line(r, false) == "- "@ + r.record@,
        record_line(r, true) == joined(
            seq![r.query_name@, decimal(r.ttl as nat), "IN"@, r.record_type@, r.record@],
            seq!['\t'],
        ),
{
    let fields = seq![r.query_name@, decimal(r.ttl as nat), "IN"@, r.record_type@, r.record@];
    let tab = seq!['\t'];
    reveal_strlit("\t");
    reveal_strlit("\tIN\t");
    reveal_strlit("IN");
    assert(fields.drop_last().drop_last().drop_last().drop_last() =~= seq![r.query_name@]);
    assert(fields.drop_last().drop_last().drop_last() =~= seq![r.query_name@, decimal(r.ttl as nat)]);
    assert(fields.drop_last().drop_last() =~= seq![r.query_name@, decimal(r.ttl as nat), "IN"@]);
    assert(fields.drop_last() =~= seq![r.query_name@, decimal(r.ttl as nat), "IN"@, r.record_type@]);
    assert(joined(fields.drop_last().drop_last().drop_last().drop_last(), tab) == r.query_name@);
    assert(joined(fields.drop_last().drop_last().drop_last(), tab) == r.query_name@ + tab + decimal(r.ttl as nat));
    assert(joined(fields.drop_last().drop_last(), tab) == r.query_name@ + tab + decimal(r.ttl as nat) + tab + "IN"@);
    assert(joined(fields.drop_last(), tab) == r.query_name@ + tab + decimal(r.ttl as nat) + tab + "IN"@ + tab + r.record_type@);
    assert("\tIN\t"@ =~= tab + "IN"@ + tab);
    assert("\t"@ =~= tab);
    assert(record_line(r, true) =~= joined(fields, tab));
}

/// The lines for a sequence of records, one each, in order.
pub open spec fn record_lines(rs: Seq<RecordResult>, advanced: bool) -> Seq<Seq<char>> {
    rs.map_values(|r: RecordResult| record_line(r, advanced))
}

/// The header line that names a resolver.
pub open spec fn server_header(s: ServerResult) -> Seq<char> {
    "Results from DNS Server: "@ + s.friendly_name@ + " ("@ + s.server@ + ")"@
}

/// The lines for one resolver: a blank line, its header, then its records.
pub open spec fn server_lines(s: ServerResult, advanced: bool) -> Seq<Seq<char>> {
    seq![Seq::empty(), server_header(s)] + record_lines(s.results@, advanced)
}

/// The lines for a sequence of resolvers, one block after another.
pub open spec fn servers_lines(ss: Seq<ServerResult>, advanced: bool) -> Seq<Seq<char>>
    decreases ss.len(),
{
    if ss.len() == 0 {
        Seq::empty()
    } else {
        servers_lines(ss.drop_last(), advanced) + server_lines(ss.last(), advanced)
    }
}

/// The lines that name the query.
pub open spec fn result_header(d: DnsResult) -> Seq<Seq<char>> {
    seq!["DNS Lookup Results:"@, "DNS Name: "@ + d.dns_name@, "DNS Type: "@ + d.dns_type@]
}

/// Every output line for an answer.
pub open spec fn result_lines(d: DnsResult, advanced: bool) -> Seq<Seq<char>> {
    result_header(d) + servers_lines(d.results@, advanced)
}

/// The line for one record.
pub fn render_record(r: &RecordResult, advanced: bool) -> (line: String)
    ensures
        line@ == record_line(*r, advanced),
{
    if advanced {
        let mut line = r.query_name.clone();
        line.append("\t");
        line.append(decimal_string(r.ttl).as_str());
        line.append("\tIN\t");
        line.append(r.record_type.as_str());
        line.append("\t");
        line.append(r.record.as_str());
        line
    } else {
        let mut line = "- ".to_string();
        line.append(r.record.as_str());
        line
    }
}

/// Appends the lines for one resolver to `out`.
fn render_server(out: &mut Vec<String>, s: &ServerResult, advanced: bool)
    ensures
        final(out).deep_view() == old(out).deep_view() + server_lines(*s, advanced),
{
    let ghost start = out.deep_view();
    out.push(String::new());
    let mut header = "Results from DNS Server: ".to_string();
    header.append(s.friendly_name.as_str());
    header.append(" (");
    header.append(s.server.as_str());
    header.append(")");
    out.push(header);
    assert(out.deep_view() =~= start + seq![Seq::<char>::empty(), server_header(*s)]);
    let mut k: usize = 0;
    while k < s.results.len()
        invariant
            0 <= k <= s.results.len(),
            out.deep_view() == start + seq![Seq::<char>::empty(), server_header(*s)]
                + record_lines(s.results@.take(k as int), advanced),
        decreases s.results.len() - k,
    {
        let line = render_record(&s.results[k], advanced);
        let ghost before = out.deep_view();
        out.push(line);
        assert(out.deep_view() =~= before.push(line@));
        assert(record_lines(s.results@.take(k + 1), advanced) =~= record_lines(
            s.results@.take(k as int),
            advanced,
        ).push(line@));
        assert(out.deep_view() =~= start + seq![Seq::<char>::empty(), server_header(*s)]
            + record_lines(s.results@.take(k + 1), advanced));
        k = k + 1;
    }
    assert(s.results@.take(k as int) =~= s.results@);
    assert(out.deep_view() =~= start + server_lines(*s, advanced));
}

/// Every output line for `d`: a title, the name and type asked for, then for
/// each resolver a blank line, a header naming it, and one line per record.
pub fn render(d: &DnsResult, advanced: bool) -> (lines: Vec<String>)
    ensures
        lines.deep_view() == result_lines(*d, advanced),
{
    let mut lines: Vec<String> = Vec::new();
    lines.push("DNS Lookup Results:".to_string());
    let mut name = "DNS Name: ".to_string();
    name.append(d.dns_name.as_str());
    lines.push(name);
    let mut rtype = "DNS Type: ".to_string();
    rtype.append(d.dns_type.as_str());
    lines.push(rtype);
    assert(lines.deep_view() =~= result_header(*d));
    let mut j: usize = 0;
    assert(d.results@.take(0) =~= Seq::<ServerResult>::empty());
    assert(lines.deep_view() =~= result_header(*d) + servers_lines(d.results@.take(0), advanced));
    while j < d.results.len()
        invariant
            0 <= j <= d.results.len(),
            lines.deep_view() == result_header(*d) + servers_lines(
                d.results@.take(j as int),
                advanced,
            ),
        decreases d.results.len() - j,
    {
        render_server(&mut lines, &d.results[j], advanced);
        assert(d.results@.take(j + 1).drop_last() =~= d.results@.take(j as int));
        j = j + 1;
    }
    assert(d.results@.take(j as int) =~= d.results@);
    lines
}

} // verus!
