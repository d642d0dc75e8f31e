//! Helper to format email addresses in the format that the API expects

use vstd::prelude::*;

verus! {

/// The destination addresses joined by a comma and a space.
pub open spec fn joined_addresses(addrs: Seq<String>) -> Seq<char>
    decreases addrs.len(),
{
    if addrs.len() == 0 {
        Seq::<char>::empty()
    } else if addrs.len() == 1 {
        addrs[0]@
    } else {
        joined_addresses(addrs.drop_last()) + ", "@ + addrs.last()@
    }
}

/// Format forwarding email addresses to the body the API endpoint expects
///
/// The endpoint takes one JSON object whose single `destination` member
/// holds every address in one string, joined by a comma and a space.
pub fn format_addresses_string(addresses: &Vec<String>) -> (r: String)
    requires
        addresses.len() >= 1,
    ensures
        r@ == "{\"destination\": \""@ + joined_addresses(addresses@) + "\"}"@,
{
    let mut out = "{\"destination\": \"".to_owned();
    out.append(addresses[0].as_str());
    proof {
        assert(addresses@.take(1)[0] == addresses@[0]);
        assert(out@ =~= "{\"destination\": \""@ + joined_addresses(addresses@.take(1)));
    }
    let n: usize = addresses.len();
    let mut i: usize = 1;
    while i < n
        invariant
            1 <= i <= n,
            n == addresses@.len(),
            out@ == "{\"destination\": \""@ + joined_addresses(addresses@.take(i as int)),
        decreases n - i,
    {
        out.append(", ");
        out.append(addresses[i].as_str());
        proof {
            let taken = addresses@.take(i as int + 1);
            assert(taken.drop_last() =~= addresses@.take(i as int));
            assert(taken.last() == addresses@[i as int]);
            assert(out@ =~= "{\"destination\": \""@ + joined_addresses(taken));
        }
        i += 1;
    }
    out.append("\"}");
    proof {
        assert(addresses@.take(n as int) =~= addresses@);
        assert(out@ =~= "{\"destination\": \""@ + joined_addresses(addresses@) + "\"}"@);
    }
    out
}

} // verus!
