use vstd::prelude::*;

use crate::paths::extension_of;
use crate::paths::file_name;
use crate::paths::has_extension;
use crate::paths::tail_after;

verus! {

/// Case-insensitive equality with the bundle format's extension, letter by
/// letter.
pub open spec fn is_bundle_ext(e: Seq<char>) -> bool {
    e.len() == 8 && (e[0] == 'a' || e[0] == 'A') && (e[1] == 'p' || e[1] == 'P') && (e[2] == 'p'
        || e[2] == 'P') && (e[3] == 'i' || e[3] == 'I') && (e[4] == 'm' || e[4] == 'M') && (e[5]
        == 'a' || e[5] == 'A') && (e[6] == 'g' || e[6] == 'G') && (e[7] == 'e' || e[7] == 'E')
}

/// A path passes the bundle check exactly when it has an extension and that
/// extension is the bundle format's, compared case-insensitively.
pub open spec fn bundle_path_ok(s: Seq<char>) -> bool {
    match extension_of(s) {
        Some(e) => is_bundle_ext(e),
        None => false,
    }
}

/// The bundle extension check: accepts exactly the paths whose extension is
/// the bundle format's, case-insensitively; a path with no extension fails.
pub fn validate_file_ext(file: &str) -> (r: bool)
    ensures
        r == bundle_path_ok(file@),
{
    let name_opt = file_name(file);
    match name_opt {
        None => false,
        Some(name_string) => {
            let name = name_string.as_str();
            let n = name.unicode_len();
            let mut d: usize = n;
            while d > 0 && name.get_char(d - 1) != '.'
                invariant
                    0 <= d <= n,
                    n == name@.len(),
                    forall|k: int| d <= k < n ==> name@[k] != '.',
                decreases d,
            {
                d = d - 1;
            }
            if d < 2 {
                proof {
                    assert(forall|k: int| 1 <= k < name@.len() ==> name@[k] != '.');
                    assert(!has_extension(name@));
                }
                false
            } else {
                proof {
                    assert(name@[d - 1] == '.');
                    assert(has_extension(name@));
                    crate::paths::lemma_tail_after_at(name@, '.', d as int);
                }
                let e = name.substring_char(d, n);
                proof {
                    assert(e@ == tail_after(name@, '.'));
                }
                let m = n - d;
                let r = m == 8 && (e.get_char(0) == 'a' || e.get_char(0) == 'A') && (e.get_char(1)
                    == 'p' || e.get_char(1) == 'P') && (e.get_char(2) == 'p' || e.get_char(2)
                    == 'P') && (e.get_char(3) == 'i' || e.get_char(3) == 'I') && (e.get_char(4)
                    == 'm' || e.get_char(4) == 'M') && (e.get_char(5) == 'a' || e.get_char(5)
                    == 'A') && (e.get_char(6) == 'g' || e.get_char(6) == 'G') && (e.get_char(7)
                    == 'e' || e.get_char(7) == 'E');
                r
            }
        },
    }
}

/// The icon source check. Whether the path refers to an existing file system
/// entry is a fact of the world outside the library; the caller probes for
/// it and passes the answer in. The verdict is that answer.
pub fn validate_src_icon(icon_exists: bool) -> (r: bool)
    ensures
        r == icon_exists,
{
    icon_exists
}

} // verus!
