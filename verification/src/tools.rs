use vstd::prelude::*;
use vstd::string::StringExecFns;

verus! {

/// One half of a device name as the registry collaborator reports it:
/// the string when the device offered one, "NA" otherwise.
pub open spec fn spec_name_part(part: Option<String>) -> Seq<char> {
    match part {
        Some(s) => s@,
        None => "NA"@,
    }
}

/// The human-readable device name emitted with a "connected" event: the
/// manufacturer string and the product string joined by one space, each
/// replaced by "NA" when the device did not offer it. A caller that could
/// not fetch a part at all may pass an error description in its place.
pub fn device_display_name(manufacturer: Option<String>, product: Option<String>) -> (name: String)
    ensures
        name@ == spec_name_part(manufacturer) + " "@ + spec_name_part(product),
{
    let mut name = match manufacturer {
        Some(m) => m,
        None => String::from_str("NA"),
    };
    name.append(" ");
    match product {
        Some(p) => name.append(p.as_str()),
        None => name.append("NA"),
    }
    name
}

} // verus!
