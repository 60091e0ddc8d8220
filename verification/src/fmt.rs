//! Verified rendering of the few wire strings the dialog core must produce
//! itself: decimal numbers and the URI string a digest is computed over.
use vstd::prelude::*;
use vstd::string::StringExecFns;
use vstd::string::StrSliceExecFns;
use crate::msg::{Uri, UriView};

verus! {

/// The digit character of a value below ten.
pub open spec fn spec_digit_char(d: nat) -> char {
    if d == 0 {
        '0'
    } else if d == 1 {
        '1'
    } else if d == 2 {
        '2'
    } else if d == 3 {
        '3'
    } else if d == 4 {
        '4'
    } else if d == 5 {
        '5'
    } else if d == 6 {
        '6'
    } else if d == 7 {
        '7'
    } else if d == 8 {
        '8'
    } else {
        '9'
    }
}

/// The decimal rendering of `n`, without leading zeroes (a single `0` for
/// zero).
pub open spec fn spec_dec_str(n: nat) -> Seq<char>
    decreases n,
{
    if n < 10 {
        seq![spec_digit_char(n)]
    } else {
        spec_dec_str(n / 10).push(spec_digit_char(n % 10))
    }
}

/// The one-character string of a digit value.
fn digit_str(d: u32) -> (r: &'static str)
    requires
        d < 10,
    ensures
        r@ == seq![spec_digit_char(d as nat)],
{
    proof {
        reveal_strlit("0");
        reveal_strlit("1");
        reveal_strlit("2");
        reveal_strlit("3");
        reveal_strlit("4");
        reveal_strlit("5");
        reveal_strlit("6");
        reveal_strlit("7");
        reveal_strlit("8");
        reveal_strlit("9");
    }
    match d {
        0 => "0",
        1 => "1",
        2 => "2",
        3 => "3",
        4 => "4",
        5 => "5",
        6 => "6",
        7 => "7",
        8 => "8",
        _ => "9",
    }
}

/// Renders `n` in decimal.
pub fn u32_to_dec_string(n: u32) -> (r: String)
    ensures
        r@ == spec_dec_str(n as nat),
    decreases n,
{
    if n < 10 {
        digit_str(n).to_owned()
    } else {
        let r = u32_to_dec_string(n / 10).concat(digit_str(n % 10));
        assert(r@ =~= spec_dec_str((n / 10) as nat).push(spec_digit_char((n % 10) as nat)));
        r
    }
}

/// The rendering of a parameter list: `;name` or `;name=value` for each
/// parameter, in order.
pub open spec fn spec_params_str(ps: Seq<(Seq<char>, Option<Seq<char>>)>) -> Seq<char>
    decreases ps.len(),
{
    if ps.len() == 0 {
        Seq::empty()
    } else {
        spec_params_str(ps.drop_last()) + ";"@ + ps.last().0 + (match ps.last().1 {
            Some(v) => "="@ + v,
            None => Seq::empty(),
        })
    }
}

/// Renders a parameter list as `;name` or `;name=value` for each parameter.
pub fn params_to_string(ps: &Vec<(String, Option<String>)>) -> (r: String)
    ensures
        r@ == spec_params_str(ps.deep_view()),
{
    let ghost all = ps.deep_view();
    let mut r = String::new();
    let mut i: usize = 0;
    assert(all.take(0) =~= Seq::<(Seq<char>, Option<Seq<char>>)>::empty());
    while i < ps.len()
        invariant
            i <= ps.len(),
            all == ps.deep_view(),
            r@ == spec_params_str(all.take(i as int)),
        decreases ps.len() - i,
    {
        assert(all.take(i + 1).drop_last() =~= all.take(i as int));
        assert(all.take(i + 1).last() == all[i as int]);
        let mut piece = r.concat(";").concat(ps[i].0.as_str());
        match &ps[i].1 {
            Some(v) => {
                piece = piece.concat("=").concat(v.as_str());
            },
            None => {},
        }
        r = piece;
        assert(r@ =~= spec_params_str(all.take(i + 1)));
        i += 1;
    }
    assert(all.take(i as int) =~= all);
    r
}

/// The canonical string of a URI: `sip:` then `user@` when a user is present,
/// the host, `:port` when a port is present, and the parameters.
pub open spec fn spec_uri_str(u: UriView) -> Seq<char> {
    "sip:"@ + (match u.user {
        Some(us) => us + "@"@,
        None => Seq::empty(),
    }) + u.host + (match u.port {
        Some(p) => ":"@ + spec_dec_str(p as nat),
        None => Seq::empty(),
    }) + spec_params_str(u.params)
}

/// Renders a URI per [`spec_uri_str`].
pub fn uri_to_string(u: &Uri) -> (r: String)
    ensures
        r@ == spec_uri_str(u@),
{
    let mut r = String::from_str("sip:");
    match &u.user {
        Some(us) => {
            r = r.concat(us.as_str()).concat("@");
        },
        None => {},
    }
    r = r.concat(u.host.as_str());
    match u.port {
        Some(p) => {
            r = r.concat(":").concat(u32_to_dec_string(p as u32).as_str());
        },
        None => {},
    }
    r = r.concat(params_to_string(&u.params).as_str());
    assert(r@ =~= spec_uri_str(u@));
    r
}

} // verus!
