//! The two request URLs the tool ever issues, built from the provider's
//! fixed endpoint: the paginated zone listing, and one zone's plain-text
//! DNS export.

use crate::numbers::decimal_chars;
use crate::numbers::u32_to_decimal;
use vstd::prelude::*;
use vstd::string::StringExecFns;

verus! {

/// The URL listing page `page` of the account's zones.
pub open spec fn zones_url_chars(page: nat) -> Seq<char> {
    "https://api.cloudflare.com/client/v4/zones?page="@ + decimal_chars(page)
}

/// Builds the zone-listing URL for one page.
pub fn zones_url(page: u32) -> (r: String)
    ensures
        r@ == zones_url_chars(page as nat),
{
    let mut s = String::from_str("https://api.cloudflare.com/client/v4/zones?page=");
    let num = u32_to_decimal(page);
    s.append(num.as_str());
    s
}

/// The URL of the DNS export of the zone with this id.
pub open spec fn export_url_chars(id: Seq<char>) -> Seq<char> {
    "https://api.cloudflare.com/client/v4/zones/"@ + id + "/dns_records/export"@
}

/// Builds the DNS-export URL for one zone id.
pub fn export_url(id: &str) -> (r: String)
    ensures
        r@ == export_url_chars(id@),
{
    let mut s = String::from_str("https://api.cloudflare.com/client/v4/zones/");
    s.append(id);
    s.append("/dns_records/export");
    proof {
        assert(("https://api.cloudflare.com/client/v4/zones/"@ + id@) + "/dns_records/export"@
            =~= export_url_chars(id@));
    }
    s
}

} // verus!
