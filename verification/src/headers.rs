//! Headers that go with every response.
use vstd::prelude::*;

verus! {

/// A header: its name and its value. `T` is the type of text.
#[derive(Debug, PartialEq)]
pub struct HeaderOf<T> {
    pub name: T,
    pub value: T,
}

/// A header.
pub type Header = HeaderOf<&'static str>;

impl View for HeaderOf<&'static str> {
    type V = HeaderOf<Seq<char>>;

    open spec fn view(&self) -> HeaderOf<Seq<char>> {
        HeaderOf { name: self.name@, value: self.value@ }
    }
}

/// What pages may load: nothing from elsewhere, no scripts, and no frame around them.
pub const CONTENT_SECURITY_POLICY: &'static str =
    "default-src 'self'; base-uri 'none'; frame-ancestors 'none'; form-action 'self'; script-src 'none'; object-src 'none'; connect-src 'none'; img-src 'self'; style-src 'self' 'unsafe-inline'";

/// What pages may do in the browser.
pub const PERMISSIONS_POLICY: &'static str =
    "camera=(), geolocation=(), microphone=(), payment=(), usb=()";

/// The headers that go with every response, each in place of one of the same name.
pub open spec fn guarding_headers() -> Seq<HeaderOf<Seq<char>>> {
    seq![
        HeaderOf { name: "content-security-policy"@, value: CONTENT_SECURITY_POLICY@ },
        HeaderOf { name: "x-content-type-options"@, value: "nosniff"@ },
        HeaderOf { name: "x-frame-options"@, value: "DENY"@ },
        HeaderOf { name: "referrer-policy"@, value: "no-referrer"@ },
        HeaderOf { name: "permissions-policy"@, value: PERMISSIONS_POLICY@ },
        HeaderOf { name: "cross-origin-resource-policy"@, value: "same-origin"@ },
        HeaderOf { name: "cache-control"@, value: "no-store"@ },
        HeaderOf { name: "x-dns-prefetch-control"@, value: "off"@ },
    ]
}

/// The headers that go with every response, each in place of one of the same name.
pub fn security_headers() -> (r: Vec<Header>)
    ensures
        crate::records::views(r@) == guarding_headers(),
{
    let headers = vec![
        HeaderOf { name: "content-security-policy", value: CONTENT_SECURITY_POLICY },
        HeaderOf { name: "x-content-type-options", value: "nosniff" },
        HeaderOf { name: "x-frame-options", value: "DENY" },
        HeaderOf { name: "referrer-policy", value: "no-referrer" },
        HeaderOf { name: "permissions-policy", value: PERMISSIONS_POLICY },
        HeaderOf { name: "cross-origin-resource-policy", value: "same-origin" },
        HeaderOf { name: "cache-control", value: "no-store" },
        HeaderOf { name: "x-dns-prefetch-control", value: "off" },
    ];
    proof {
        assert(crate::records::views(headers@) =~= guarding_headers());
    }
    headers
}

} // verus!
