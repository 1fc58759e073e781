//! What the greatest-common-divisor web form answers to a submitted pair.
use vstd::prelude::*;
use vstd::string::StringExecFns;
use crate::decimal::{decimal, decimal_text};
use crate::gcd::{gcd, gcd_spec};

verus! {

/// The HTTP status of a reply.
#[derive(Clone, Copy, Debug, PartialEq, Eq, Structural)]
pub enum ReplyStatus {
    /// 200: the divisor was computed.
    Success,
    /// 400: one of the numbers was zero.
    BadRequest,
}

/// A reply to a submitted form: its status and its HTML body.
#[derive(Debug)]
pub struct GcdReply {
    pub status: ReplyStatus,
    pub body: String,
}

/// The body of a successful reply for the pair `n`, `m`.
pub open spec fn gcd_page(n: nat, m: nat) -> Seq<char> {
    "The greatest common divisor of the numbers "@ + decimal(n) + " and "@ + decimal(m)
        + " is <b>"@ + decimal(gcd_spec(n, m)) + "</b>\n"@
}

/// Answers the pair `n`, `m`: a zero is refused, otherwise the body names both
/// numbers and their greatest common divisor.
pub fn gcd_reply(n: u64, m: u64) -> (r: GcdReply)
    ensures
        (n == 0 || m == 0) ==> (r.status == ReplyStatus::BadRequest && r.body@
            == "Computing the GCD with zero is boring."@),
        (n != 0 && m != 0) ==> (r.status == ReplyStatus::Success && r.body@ == gcd_page(
            n as nat,
            m as nat,
        )),
{
    if n == 0 || m == 0 {
        return GcdReply {
            status: ReplyStatus::BadRequest,
            body: String::from_str("Computing the GCD with zero is boring."),
        };
    }
    let d = gcd(n, m);
    let mut body = String::from_str("The greatest common divisor of the numbers ");
    let a = decimal_text(n);
    body.append(a.as_str());
    body.append(" and ");
    let b = decimal_text(m);
    body.append(b.as_str());
    body.append(" is <b>");
    let c = decimal_text(d);
    body.append(c.as_str());
    body.append("</b>\n");
    GcdReply { status: ReplyStatus::Success, body }
}

} // verus!
