use vstd::prelude::*;
use vstd::string::StringExecFns;

verus! {

/// Pango markup that shows `icon` in green followed by `info` in light grey.
pub open spec fn template_of(icon: Seq<char>, info: Seq<char>) -> Seq<char> {
    "<span foreground=\"#00ee00\">"@ + icon + "</span><span foreground=\"#eeeeee\">"@ + info
        + "</span>"@
}

/// Formats a widget's text as a green icon followed by light-grey
/// information.
pub fn template(icon: String, info: String) -> (r: String)
    ensures
        r@ == template_of(icon@, info@),
{
    let mut s = String::from_str("<span foreground=\"#00ee00\">");
    s.append(icon.as_str());
    s.append("</span><span foreground=\"#eeeeee\">");
    s.append(info.as_str());
    s.append("</span>");
    s
}

} // verus!
