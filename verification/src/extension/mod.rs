//! The extension's registration-side naming and addressing.
pub mod logs_api;
pub mod runtime;

use vstd::prelude::*;

use crate::text;

verus! {

/// The header carrying the extension's name at registration.
pub open spec fn spec_extension_header_name() -> Seq<char> {
    "Lambda-Extension-Name"@
}

/// The header carrying the extension's identifier after registration.
pub open spec fn spec_extension_id_header() -> Seq<char> {
    "Lambda-Extension-Identifier"@
}

/// The name the extension registers under: the base name, a destination
/// and architecture suffix when both are selected, and a trailing
/// development marker when asked for.
pub open spec fn spec_extension_name(
    dest: Option<Seq<char>>,
    arch: Option<Seq<char>>,
    dev: bool,
) -> Seq<char> {
    (match (dest, arch) {
        (Some(d), Some(a)) => "woodchuck"@ + "_"@ + d + "_"@ + a,
        _ => "woodchuck"@,
    }) + if dev {
        "_dev"@
    } else {
        Seq::<char>::empty()
    }
}

/// Resolve the extension's registered name from the selected destination
/// and architecture.
pub fn get_extension_name(dest: Option<&str>, arch: Option<&str>, dev: bool) -> (r: String)
    ensures
        r@ == spec_extension_name(
            match dest {
                Some(d) => Some(d@),
                None => None,
            },
            match arch {
                Some(a) => Some(a@),
                None => None,
            },
            dev,
        ),
{
    let mut out = text::to_chars("woodchuck");
    match (dest, arch) {
        (Some(d), Some(a)) => {
            let mut sep = text::to_chars("_");
            out.append(&mut sep);
            let mut dv = text::to_chars(d);
            out.append(&mut dv);
            let mut sep2 = text::to_chars("_");
            out.append(&mut sep2);
            let mut av = text::to_chars(a);
            out.append(&mut av);
        },
        _ => {},
    }
    if dev {
        let mut suffix = text::to_chars("_dev");
        out.append(&mut suffix);
    }
    proof {
        assert(out@ =~= spec_extension_name(
            match dest {
                Some(d) => Some(d@),
                None => None,
            },
            match arch {
                Some(a) => Some(a@),
                None => None,
            },
            dev,
        ));
    }
    text::from_chars(&out)
}

/// The platform API base URL for the advertised `host:port`.
pub fn base_url(api: &str) -> (r: String)
    ensures
        r@ == "http://"@ + api@,
{
    let mut out = text::to_chars("http://");
    let mut av = text::to_chars(api);
    out.append(&mut av);
    text::from_chars(&out)
}

/// The body of the registration request: the two lifecycle events the
/// extension subscribes to.
pub fn register_request_body() -> (r: String)
    ensures
        r@ == "{\"events\":[\"INVOKE\",\"SHUTDOWN\"]}"@,
{
    let v = text::to_chars("{\"events\":[\"INVOKE\",\"SHUTDOWN\"]}");
    text::from_chars(&v)
}

} // verus!
