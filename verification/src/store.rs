//! Where the SQLite database lives: the connection URL for a file path.
use vstd::prelude::*;
use crate::text::push_char;

verus! {

/// `p` with every backslash turned into a forward slash.
pub open spec fn forward_slashes(p: Seq<char>) -> Seq<char> {
    p.map_values(|c: char| if c == '\\' { '/' } else { c })
}

/// The SQLite URL for a database file: `sqlite://`, the path with forward
/// slashes, and `?mode=rwc` so that the file is created when missing.
pub open spec fn sqlite_url_spec(path: Seq<char>) -> Seq<char> {
    "sqlite://"@ + forward_slashes(path) + "?mode=rwc"@
}

/// The SQLite URL for a database file; see `sqlite_url_spec`.
pub fn sqlite_url(path: &str) -> (r: String)
    ensures
        r@ == sqlite_url_spec(path@),
{
    let mut r = "sqlite://".to_owned();
    let ghost prefix = r@;
    let n = path.unicode_len();
    let mut i: usize = 0;
    while i < n
        invariant
            n == path@.len(),
            i <= n,
            r@ == prefix + forward_slashes(path@.take(i as int)),
        decreases n - i,
    {
        let c = path.get_char(i);
        if c == '\\' {
            push_char(&mut r, '/');
        } else {
            push_char(&mut r, c);
        }
        proof {
            assert(path@.take(i + 1) =~= path@.take(i as int).push(c));
            assert(forward_slashes(path@.take(i + 1)) =~= forward_slashes(path@.take(i as int)).push(
                if c == '\\' { '/' } else { c },
            ));
        }
        i = i + 1;
    }
    proof {
        assert(path@.take(i as int) =~= path@);
    }
    r.append("?mode=rwc");
    r
}

} // verus!
