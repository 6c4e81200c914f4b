//! Route table of the local OAuth-callback listener. The listener hosts the
//! page the browser is redirected to after the platform's implicit-OAuth flow,
//! so the user can copy the access token out of the URL fragment. Exactly one
//! route exists; everything else is not found.

use vstd::prelude::*;

verus! {

/// The fixed local TCP port the listener binds.
pub const PORT: u16 = 20451;

/// The request method, reduced to what the route table distinguishes.
#[derive(Clone, Copy, Debug, PartialEq, Eq, Structural)]
pub enum Method {
    Get,
    Post,
    Other,
}

/// A response: the status code and the full body.
pub struct HttpReply {
    pub status: u16,
    pub body: String,
}

/// The instructional page served at the root.
pub open spec fn index_body_text() -> Seq<char> {
    "Copy the token out of the URL above!"@
}

/// Decides the response for one request: `GET /` is the instructional page
/// with status 200; any other method or path is a 404 with an empty body.
pub fn route(method: Method, path: &str) -> (r: HttpReply)
    ensures
        (method is Get && path@ == "/"@) ==> r.status == 200 && r.body@ == index_body_text(),
        !(method is Get && path@ == "/"@) ==> r.status == 404 && r.body@ == Seq::<char>::empty(),
{
    let is_index = matches!(method, Method::Get) && path.unicode_len() == 1 && path.get_char(0)
        == '/';
    proof {
        reveal_strlit("/");
    }
    if is_index {
        proof {
            assert(path@ =~= "/"@);
        }
        HttpReply { status: 200, body: "Copy the token out of the URL above!".to_owned() }
    } else {
        HttpReply { status: 404, body: String::new() }
    }
}

} // verus!
