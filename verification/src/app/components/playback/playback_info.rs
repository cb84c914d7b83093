use vstd::prelude::*;
use vstd::string::StringExecFns;

verus! {

/// The markup of the title label: the (already escaped) title in bold.
pub fn title_markup(escaped_title: &str) -> (r: String)
    ensures
        r@ == "<b>"@ + escaped_title@ + "</b>"@,
{
    let mut r = "<b>".to_owned();
    r.append(escaped_title);
    r.append("</b>");
    r
}

} // verus!
