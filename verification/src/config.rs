//! The one piece of configuration handling that is computation rather
//! than I/O: deriving the management service's HTTP URL from the
//! signalling URL by rewriting its websocket scheme.

use vstd::prelude::*;
use vstd::string::StrSliceExecFns;
use vstd::string::StringExecFns;

verus! {

/// Whether the characters at position i spell the websocket scheme "wss".
pub open spec fn wss_at(s: Seq<char>, i: int) -> bool {
    i + 3 <= s.len() && s[i] == 'w' && s[i + 1] == 's' && s[i + 2] == 's'
}

/// Every occurrence of "wss" replaced by "https", scanning left to right.
pub open spec fn rewrite_wss(s: Seq<char>) -> Seq<char>
    decreases s.len(),
{
    if s.len() == 0 {
        s
    } else if wss_at(s, 0) {
        seq!['h', 't', 't', 'p', 's'] + rewrite_wss(s.skip(3))
    } else {
        seq![s[0]] + rewrite_wss(s.skip(1))
    }
}

/// The management URL derived from the signalling URL: one that starts
/// with "wss" has every "wss" replaced by "https"; any other URL is kept
/// as it is.
pub open spec fn https_view(s: Seq<char>) -> Seq<char> {
    if wss_at(s, 0) {
        rewrite_wss(s)
    } else {
        s
    }
}

/// Derive the management service's HTTP URL from the signalling URL.
pub fn https_url_of(url: &str) -> (r: String)
    ensures
        r@ == https_view(url@),
{
    let n = url.unicode_len();
    let starts_wss = n >= 3 && url.get_char(0) == 'w' && url.get_char(1) == 's'
        && url.get_char(2) == 's';
    if !starts_wss {
        return url.to_owned();
    }
    let mut out = String::new();
    let mut i: usize = 0;
    proof {
        assert(url@.skip(0) =~= url@);
        assert(out@ + rewrite_wss(url@.skip(0)) =~= rewrite_wss(url@));
    }
    while i < n
        invariant
            n == url@.len(),
            i <= n,
            out@ + rewrite_wss(url@.skip(i as int)) == rewrite_wss(url@),
        decreases n - i,
    {
        if n - i >= 3 && url.get_char(i) == 'w' && url.get_char(i + 1) == 's' && url.get_char(
            i + 2,
        ) == 's' {
            out.append("https");
            proof {
                reveal_strlit("https");
                let rest = url@.skip(i as int);
                assert(wss_at(rest, 0));
                assert(rest.skip(3) =~= url@.skip(i as int + 3));
                assert("https"@ =~= seq!['h', 't', 't', 'p', 's']);
                assert(out@ + rewrite_wss(url@.skip(i as int + 3)) =~= rewrite_wss(url@));
            }
            i = i + 3;
        } else {
            let piece = url.substring_char(i, i + 1);
            out.append(piece);
            proof {
                let rest = url@.skip(i as int);
                assert(!wss_at(rest, 0));
                assert(rest.skip(1) =~= url@.skip(i as int + 1));
                assert(piece@ =~= seq![url@[i as int]]);
                assert(out@ + rewrite_wss(url@.skip(i as int + 1)) =~= rewrite_wss(url@));
            }
            i = i + 1;
        }
    }
    proof {
        assert(url@.skip(n as int) =~= Seq::<char>::empty());
        assert(out@ + rewrite_wss(url@.skip(n as int)) =~= out@);
    }
    out
}

} // verus!
