//! Response shapes that a request can be tagged with, and the account report.

use vstd::prelude::*;
use crate::text::{bool_text, push_bool};

verus! {

/// Marks a request answered by a collection of DNS records.
pub struct DnsRecords;

/// Marks a request answered by a single DNS record.
pub struct DnsRecord;

/// Marks a request answered by headers only, with no body to parse.
pub struct HeaderOnly;

/// The account report: a heading, then the e-mail address, the droplet limit,
/// the UUID and whether the address is verified, one indented line each.
/// `droplet_limit` is the limit already written with no decimal places.
pub open spec fn account_report(
    email: Seq<char>,
    droplet_limit: Seq<char>,
    uuid: Seq<char>,
    email_verified: bool,
) -> Seq<char> {
    "DigitalOcean Account:\n\tEmail: "@ + email
        + "\n\tDroplet Limit: "@ + droplet_limit
        + "\n\tUUID: "@ + uuid
        + "\n\tE-Mail Verified: "@ + bool_text(email_verified)
}

/// Writes the account report.
pub fn account_text(email: &str, droplet_limit: &str, uuid: &str, email_verified: bool) -> (r: String)
    ensures
        r@ == account_report(email@, droplet_limit@, uuid@, email_verified),
{
    let mut out = String::from_str("DigitalOcean Account:\n\tEmail: ");
    out.append(email);
    out.append("\n\tDroplet Limit: ");
    out.append(droplet_limit);
    out.append("\n\tUUID: ");
    out.append(uuid);
    out.append("\n\tE-Mail Verified: ");
    push_bool(&mut out, email_verified);
    out
}

} // verus!
