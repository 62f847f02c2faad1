use vstd::prelude::*;

verus! {

/// The suffix of `s` after the last occurrence of `sep`; all of `s` when
/// `sep` does not occur.
pub open spec fn tail_after(s: Seq<char>, sep: char) -> Seq<char>
    decreases s.len(),
{
    if s.len() == 0 {
        s
    } else if s.last() == sep {
        Seq::<char>::empty()
    } else {
        tail_after(s.drop_last(), sep).push(s.last())
    }
}

pub proof fn lemma_tail_after_at(s: Seq<char>, sep: char, i: int)
    requires
        0 <= i <= s.len(),
        forall|k: int| i <= k < s.len() ==> s[k] != sep,
        i > 0 ==> s[i - 1] == sep,
    ensures
        tail_after(s, sep) == s.subrange(i, s.len() as int),
    decreases s.len(),
{
    if s.len() == 0 {
        assert(tail_after(s, sep) =~= s.subrange(i, s.len() as int));
    } else if s.last() == sep {
        assert(i == s.len());
        assert(tail_after(s, sep) =~= s.subrange(i, s.len() as int));
    } else {
        assert(i < s.len());
        lemma_tail_after_at(s.drop_last(), sep, i);
        assert(tail_after(s.drop_last(), sep) == s.drop_last().subrange(
            i,
            s.len() - 1,
        ));
        assert(s.drop_last().subrange(i, s.len() - 1).push(s.last()) =~= s.subrange(
            i,
            s.len() as int,
        ));
    }
}

/// The final path component, as a desktop path is read: trailing separators
/// and a trailing `.` component are ignored, and a path that ends in `..`,
/// or has nothing left, names no file.
pub open spec fn file_name_of(s: Seq<char>) -> Option<Seq<char>>
    decreases s.len(),
{
    if s.len() == 0 {
        None
    } else if s.last() == '/' {
        file_name_of(s.drop_last())
    } else if tail_after(s, '/') == seq!['.'] {
        file_name_of(s.take(s.len() - 1))
    } else if tail_after(s, '/') == seq!['.', '.'] {
        None
    } else {
        Some(tail_after(s, '/'))
    }
}

/// Whether a file name has a `.` anywhere past its first character: exactly
/// when the name has an extension (a name whose only `.` leads it, such as a
/// hidden file, has none).
pub open spec fn has_extension(name: Seq<char>) -> bool {
    exists|k: int| 1 <= k < name.len() && name[k] == '.'
}

/// The extension of a path: the part of its file name after the last `.`,
/// if the name has one.
pub open spec fn extension_of(s: Seq<char>) -> Option<Seq<char>> {
    match file_name_of(s) {
        Some(name) => if has_extension(name) {
            Some(tail_after(name, '.'))
        } else {
            None
        },
        None => None,
    }
}

/// Appending a relative component to a base path: a separator is inserted
/// unless the base is empty or already ends with one.
pub open spec fn join_of(base: Seq<char>, child: Seq<char>) -> Seq<char> {
    if base.len() == 0 {
        child
    } else if base.last() == '/' {
        base + child
    } else {
        base + seq!['/'] + child
    }
}

/// The final path component of `s`, or `None` where the path names no file.
pub fn file_name(s: &str) -> (r: Option<String>)
    ensures
        match r {
            Some(v) => file_name_of(s@) == Some(v@),
            None => file_name_of(s@) is None,
        },
    decreases s@.len(),
{
    let n = s.unicode_len();
    if n == 0 {
        return None;
    }
    if s.get_char(n - 1) == '/' {
        let rest = s.substring_char(0, n - 1);
        proof {
            assert(rest@ =~= s@.drop_last());
        }
        return file_name(rest);
    }
    let mut i: usize = n;
    while i > 0 && s.get_char(i - 1) != '/'
        invariant
            0 <= i <= n,
            n == s@.len(),
            forall|k: int| i <= k < n ==> s@[k] != '/',
        decreases i,
    {
        i = i - 1;
    }
    proof {
        lemma_tail_after_at(s@, '/', i as int);
    }
    let seg = s.substring_char(i, n);
    proof {
        assert(seg@ == tail_after(s@, '/'));
    }
    if n - i == 1 && s.get_char(i) == '.' {
        proof {
            assert(seg@ =~= seq!['.']);
        }
        let rest = s.substring_char(0, n - 1);
        proof {
            assert(rest@ =~= s@.take(s@.len() - 1));
        }
        file_name(rest)
    } else if n - i == 2 && s.get_char(i) == '.' && s.get_char(i + 1) == '.' {
        proof {
            assert(seg@ =~= seq!['.', '.']);
        }
        None
    } else {
        proof {
            if seg@ == seq!['.'] {
                assert(seg@.len() == 1);
                assert(s@[i as int] == seg@[0]);
                assert(false);
            }
            if seg@ == seq!['.', '.'] {
                assert(seg@.len() == 2);
                assert(s@[i as int] == seg@[0]);
                assert(s@[i + 1] == seg@[1]);
                assert(false);
            }
        }
        Some(String::from_str(seg))
    }
}

/// Joins a base directory and a relative component, as the install target
/// and icon paths are formed.
pub fn join_path(base: &str, child: &str) -> (r: String)
    ensures
        r@ == join_of(base@, child@),
{
    let n = base.unicode_len();
    if n == 0 {
        String::from_str(child)
    } else if base.get_char(n - 1) == '/' {
        String::from_str(base).concat(child)
    } else {
        proof {
            reveal_strlit("/");
        }
        let r = String::from_str(base).concat("/").concat(child);
        proof {
            assert("/"@ =~= seq!['/']);
            assert(r@ =~= base@ + seq!['/'] + child@);
        }
        r
    }
}

} // verus!
