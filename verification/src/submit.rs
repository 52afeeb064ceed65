//! The links through which a document is handed in: a new issue on GitHub, or
//! an e-mail to the maintainer of the database.

use vstd::prelude::*;
use crate::elements::Elements;
use crate::text::chars_of;

verus! {

/// What stands for a line break in the body of a `mailto:` link: a carriage
/// return and a line feed, percent-encoded.
pub open spec fn encoded_newline() -> Seq<char> {
    "%0D%0A"@
}

/// `s[..n]` with each line feed replaced by [`encoded_newline`].
pub open spec fn newlines_encoded(s: Seq<char>, n: int) -> Seq<char>
    decreases n,
{
    if n <= 0 {
        Seq::empty()
    } else if s[n - 1] == '\n' {
        newlines_encoded(s, n - 1) + encoded_newline()
    } else {
        newlines_encoded(s, n - 1).push(s[n - 1])
    }
}

/// The title under which the scheme of `element` is handed in.
pub open spec fn submission_title(element: Elements) -> Seq<char> {
    "Scheme submission: "@ + element.symbol_spec()
}

/// The line that parts the message from the document in an e-mail.
pub open spec fn mail_banner() -> Seq<char> {
    "\n\n======= SCHEME FILE: DO NOT EDIT BELOW THIS LINE =======\n\n"@
}

/// The `mailto:` link for a document.
pub open spec fn email_link_of(body: Seq<char>, element: Elements) -> Seq<char> {
    "mailto:reto@galactic-forensics.space?subject="@ + submission_title(element) + "&body="@
        + newlines_encoded(mail_banner(), mail_banner().len() as int) + newlines_encoded(
        body,
        body.len() as int,
    )
}

/// The link that opens a new issue for a document.
pub open spec fn issue_link_of(body: Seq<char>, element: Elements) -> Seq<char> {
    "https://github.com/RIMS-Code/rims-code.github.io/issues/new?labels=scheme_submission&title="@
        + submission_title(element) + "&body="@ + body
}

/// The name under which the document of a scheme of `element` is saved.
pub open spec fn file_name_of(element: Elements) -> Seq<char> {
    element.symbol_spec() + ".json"@
}

/// The name that is proposed for the file when a document is saved: the
/// symbol of the element and `.json`.
pub fn default_file_name(element: &Elements) -> (r: String)
    ensures
        r@ == file_name_of(*element),
{
    crate::text::join2(element.symbol(), ".json")
}

/// Appends `text` to `out`, each line feed as `%0D%0A`.
fn append_encoded(out: &mut String, text: &str)
    ensures
        final(out)@ == old(out)@ + newlines_encoded(text@, text@.len() as int),
{
    let v = chars_of(text);
    let mut i: usize = 0;
    assert(out@ =~= old(out)@ + newlines_encoded(v@, 0));
    while i < v.len()
        invariant
            i <= v.len(),
            out@ == old(out)@ + newlines_encoded(v@, i as int),
        decreases v.len() - i,
    {
        if v[i] == '\n' {
            out.append("%0D%0A");
            assert(out@ =~= old(out)@ + newlines_encoded(v@, i + 1));
        } else {
            out.push(v[i]);
            assert(out@ =~= old(out)@ + newlines_encoded(v@, i + 1));
        }
        i += 1;
    }
}

/// The link that opens an e-mail to the maintainer with the document in its
/// body.  Line feeds are written as `%0D%0A`, as a `mailto:` link cannot hold
/// them; nothing else is encoded.
pub fn create_email_link(body: &str, element: &Elements) -> (r: String)
    ensures
        r@ == email_link_of(body@, *element),
{
    let mut out = "mailto:reto@galactic-forensics.space?subject=".to_owned();
    out.append("Scheme submission: ");
    out.append(element.symbol());
    out.append("&body=");
    append_encoded(
        &mut out,
        "\n\n======= SCHEME FILE: DO NOT EDIT BELOW THIS LINE =======\n\n",
    );
    append_encoded(&mut out, body);
    assert(out@ =~= email_link_of(body@, *element));
    out
}

/// The link that opens a new issue on GitHub with the document in its body.
/// Nothing is encoded: that is left to the browser.
pub fn create_gh_issue(body: &str, element: &Elements) -> (r: String)
    ensures
        r@ == issue_link_of(body@, *element),
{
    let mut out =
        "https://github.com/RIMS-Code/rims-code.github.io/issues/new?labels=scheme_submission&title=".to_owned();
    out.append("Scheme submission: ");
    out.append(element.symbol());
    out.append("&body=");
    out.append(body);
    assert(out@ =~= issue_link_of(body@, *element));
    out
}

} // verus!
