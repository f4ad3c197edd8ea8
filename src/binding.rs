use crate::codec::{base64_encoding, encode_base64};
use crate::http::{body_text, HttpReply, ReplyBody};
use vstd::prelude::*;
use vstd::utf8::encode_utf8;

verus! {

/// The auto-submitting HTML form of the HTTP-POST binding, posting the
/// encoded response and the relay state to the ACS URL.
pub open spec fn post_form_html(
    acs_url: Seq<char>,
    encoded_response: Seq<char>,
    relay_state: Seq<char>,
) -> Seq<char> {
    "\n    <html>\n        <head>\n            <title>SAML Response</title>\n        </head>\n        <body>\n            <form method=\"post\" action=\""@
        + acs_url
        + "\" id=\"SAMLResponseForm\">\n                <input type=\"hidden\" name=\"SAMLResponse\" value=\""@
        + encoded_response
        + "\" />\n                <input type=\"hidden\" name=\"RelayState\" value=\""@
        + relay_state
        + "\" />\n                <input id=\"SAMLSubmitButton\" type=\"submit\" value=\"Submit\" />\n            </form>\n            <script>\n                document.getElementById('SAMLSubmitButton').style.visibility=\"hidden\";\n                document.getElementById('SAMLResponseForm').submit();\n            </script>\n        </body>\n    </html>\n    "@
}

/// The text that stands for one character inside a quoted HTML attribute
/// value: a character reference for `& " ' < >`, the character itself else.
pub open spec fn escaped_char(c: char) -> Seq<char> {
    if c == '&' {
        "&amp;"@
    } else if c == '"' {
        "&quot;"@
    } else if c == '\'' {
        "&#39;"@
    } else if c == '<' {
        "&lt;"@
    } else if c == '>' {
        "&gt;"@
    } else {
        seq![c]
    }
}

/// The text written into an HTML attribute value so that a browser reads
/// back exactly `s`: each of `& " ' < >` replaced by its character reference.
pub open spec fn attr_escaped(s: Seq<char>) -> Seq<char>
    decreases s.len(),
{
    if s.len() == 0 {
        Seq::empty()
    } else {
        attr_escaped(s.drop_last()) + escaped_char(s.last())
    }
}

/// The character reference of a character that must be escaped, or `None`
/// for one that stands for itself.
fn escape_of(c: char) -> (r: Option<&'static str>)
    ensures
        match r {
            Some(t) => t@ == escaped_char(c),
            None => escaped_char(c) == seq![c],
        },
{
    if c == '&' {
        Some("&amp;")
    } else if c == '"' {
        Some("&quot;")
    } else if c == '\'' {
        Some("&#39;")
    } else if c == '<' {
        Some("&lt;")
    } else if c == '>' {
        Some("&gt;")
    } else {
        None
    }
}

/// Appends `s`, escaped for an HTML attribute value, to `out`.
fn append_attr_escaped(out: &mut String, s: &str)
    ensures
        final(out)@ == old(out)@ + attr_escaped(s@),
{
    let n = s.unicode_len();
    let mut i: usize = 0;
    while i < n
        invariant
            n == s@.len(),
            0 <= i <= n,
            out@ == old(out)@ + attr_escaped(s@.subrange(0, i as int)),
        decreases n - i,
    {
        let c = s.get_char(i);
        proof {
            assert(s@.subrange(0, i + 1).drop_last() =~= s@.subrange(0, i as int));
            assert(s@.subrange(0, i + 1).last() == c);
        }
        match escape_of(c) {
            Some(reference) => out.append(reference),
            None => {
                let same = s.substring_char(i, i + 1);
                proof {
                    assert(same@ =~= seq![c]);
                }
                out.append(same);
            },
        }
        proof {
            assert(out@ =~= old(out)@ + attr_escaped(s@.subrange(0, i + 1)));
        }
        i = i + 1;
    }
    proof {
        assert(s@.subrange(0, n as int) =~= s@);
    }
}

/// Packages a signed response for the HTTP-POST binding: the base64 of its
/// XML text goes into a self-submitting form whose action is the ACS URL.
/// The ACS URL and the relay state are escaped as attribute values, so the
/// browser posts the relay state back exactly as it was given.
pub fn create_saml_post_form(response_xml: &str, acs_url: &str, relay_state: &str) -> (r: String)
    ensures
        r@ == post_form_html(
            attr_escaped(acs_url@),
            base64_encoding(encode_utf8(response_xml@)),
            attr_escaped(relay_state@),
        ),
{
    let encoded = encode_base64(response_xml.as_bytes());
    let mut form = String::from_str(
        "\n    <html>\n        <head>\n            <title>SAML Response</title>\n        </head>\n        <body>\n            <form method=\"post\" action=\"",
    );
    append_attr_escaped(&mut form, acs_url);
    form.append(
        "\" id=\"SAMLResponseForm\">\n                <input type=\"hidden\" name=\"SAMLResponse\" value=\"",
    );
    form.append(encoded.as_str());
    form.append("\" />\n                <input type=\"hidden\" name=\"RelayState\" value=\"");
    append_attr_escaped(&mut form, relay_state);
    form.append(
        "\" />\n                <input id=\"SAMLSubmitButton\" type=\"submit\" value=\"Submit\" />\n            </form>\n            <script>\n                document.getElementById('SAMLSubmitButton').style.visibility=\"hidden\";\n                document.getElementById('SAMLResponseForm').submit();\n            </script>\n        </body>\n    </html>\n    ",
    );
    form
}

/// The reply that delivers a signed response through the HTTP-POST binding.
pub fn post_binding_reply(response_xml: &str, acs_url: &str, relay_state: &str) -> (r: HttpReply)
    ensures
        r.status == 200,
        r.content_type@ == "text/html; charset=utf-8"@,
        r.headers@.len() == 0,
        body_text(r) == Some(
            post_form_html(
                attr_escaped(acs_url@),
                base64_encoding(encode_utf8(response_xml@)),
                attr_escaped(relay_state@),
            ),
        ),
{
    HttpReply {
        status: 200,
        content_type: String::from_str("text/html; charset=utf-8"),
        headers: Vec::new(),
        body: ReplyBody::Text(create_saml_post_form(response_xml, acs_url, relay_state)),
    }
}

} // verus!
