//! Names handled by a resolution: the service query name and record targets.
use vstd::prelude::*;

verus! {

/// The label put in front of a domain to form its service-record query name.
pub const SERVICE_LABEL: &'static str = "_bsvalias._tcp.";

/// A name with every trailing root-label terminator (`.`) removed.
pub open spec fn trim_trailing_dots(s: Seq<char>) -> Seq<char>
    decreases s.len(),
{
    if s.len() > 0 && s.last() == '.' {
        trim_trailing_dots(s.drop_last())
    } else {
        s
    }
}

/// The service-record query name of a domain.
pub open spec fn service_query_name(domain: Seq<char>) -> Seq<char> {
    SERVICE_LABEL@ + domain
}

/// Builds `_bsvalias._tcp.<domain>`.
pub fn service_query(domain: &str) -> (r: String)
    ensures
        r@ == service_query_name(domain@),
{
    let label = String::from_str(SERVICE_LABEL);
    label.concat(domain)
}

/// Removes every trailing `.` from a record target.
pub fn strip_root_label(name: &str) -> (r: String)
    ensures
        r@ == trim_trailing_dots(name@),
{
    let mut end: usize = name.unicode_len();
    assert(name@.subrange(0, end as int) =~= name@);
    while end > 0 && name.get_char(end - 1) == '.'
        invariant
            end <= name@.len(),
            trim_trailing_dots(name@.subrange(0, end as int)) == trim_trailing_dots(name@),
        decreases end,
    {
        let ghost prefix = name@.subrange(0, end as int);
        assert(prefix.drop_last() =~= name@.subrange(0, end - 1));
        end = end - 1;
    }
    String::from_str(name.substring_char(0, end))
}

} // verus!
