//! Deriving a display name and an extension from a slash-separated path.
//!
//! A path's final component is the maximal suffix that contains no `'/'`,
//! after trailing separators and trailing `"."` components (which refer
//! to the directory itself) are dropped. A `".."` component names no
//! file, so the display name falls back to a fixed placeholder there.
use vstd::prelude::*;
use vstd::string::StrSliceExecFns;

verus! {

/// The placeholder display name used when a path has no extractable
/// final component.
pub open spec fn untitled() -> Seq<char> {
    seq!['U', 'n', 't', 'i', 't', 'l', 'e', 'd']
}

/// Whether `s` ends in a separator, or in a `"."` component (a lone
/// `'.'` that makes up the whole of `s` or directly follows a `'/'`).
pub open spec fn ends_in_separator_or_dot(s: Seq<char>) -> bool {
    s.len() > 0 && (s[s.len() - 1] == '/' || (s[s.len() - 1] == '.' && (s.len() == 1 || s[s.len()
        - 2] == '/')))
}

/// `s` with every trailing `'/'` and every trailing `"."` component
/// removed: such a suffix points back at the same directory, so it
/// carries no component of its own.
pub open spec fn trim_path(s: Seq<char>) -> Seq<char>
    decreases s.len(),
{
    if ends_in_separator_or_dot(s) {
        trim_path(s.drop_last())
    } else {
        s
    }
}

/// The maximal suffix of `s` that contains no `'/'`.
pub open spec fn after_last_slash(s: Seq<char>) -> Seq<char>
    decreases s.len(),
{
    if s.len() == 0 {
        Seq::empty()
    } else if s[s.len() - 1] == '/' {
        Seq::empty()
    } else {
        after_last_slash(s.drop_last()).push(s[s.len() - 1])
    }
}

/// The final component of a path: the last `'/'`-separated piece,
/// ignoring trailing separators and trailing `"."` components. Empty
/// when the path names no component (an empty path, or one made of
/// separators and `"."` components only).
pub open spec fn base_component(s: Seq<char>) -> Seq<char> {
    after_last_slash(trim_path(s))
}

/// A component that refers to the parent directory rather than naming
/// a file.
pub open spec fn is_parent_marker(c: Seq<char>) -> bool {
    c == seq!['.', '.']
}

/// The display name of a path: its final component, or the placeholder
/// when there is none to show.
pub open spec fn file_name_spec(s: Seq<char>) -> Seq<char> {
    let c = base_component(s);
    if c.len() == 0 || is_parent_marker(c) {
        untitled()
    } else {
        c
    }
}

/// Index of the last `'.'` in `s`, or `-1` when `s` holds none.
pub open spec fn last_dot_index(s: Seq<char>) -> int
    decreases s.len(),
{
    if s.len() == 0 {
        -1
    } else if s[s.len() - 1] == '.' {
        s.len() - 1
    } else {
        last_dot_index(s.drop_last())
    }
}

/// The extension of a path: what follows the last `'.'` of its final
/// component, provided that dot is not the component's first character.
/// Empty when the component has no such dot (which also covers a
/// trailing dot, whose extension is the empty string).
pub open spec fn extension_spec(s: Seq<char>) -> Seq<char> {
    let c = base_component(s);
    let d = last_dot_index(c);
    if d <= 0 {
        Seq::empty()
    } else {
        c.subrange(d + 1, c.len() as int)
    }
}

/// A path with no extractable final component — empty, made of
/// separators and `"."` components only, or ending in a `".."`
/// component — always gets the placeholder display name.
pub proof fn lemma_no_component_untitled(path: Seq<char>)
    requires
        base_component(path).len() == 0 || is_parent_marker(base_component(path)),
    ensures
        file_name_spec(path) == untitled(),
{
}

/// A path whose final component names a file keeps that component,
/// unchanged, as its display name.
pub proof fn lemma_component_kept(path: Seq<char>)
    requires
        base_component(path).len() > 0,
        !is_parent_marker(base_component(path)),
    ensures
        file_name_spec(path) == base_component(path),
{
}

/// The placeholder display name as an owned string.
fn untitled_string() -> (r: String)
    ensures
        r@ == untitled(),
{
    let r = "Untitled".to_owned();
    proof {
        reveal_strlit("Untitled");
        assert(r@ =~= untitled());
    }
    r
}

/// The half-open character range of `path`'s final component.
fn component_bounds(path: &str) -> (r: (usize, usize))
    ensures
        r.0 <= r.1 <= path@.len(),
        path@.subrange(r.0 as int, r.1 as int) == base_component(path@),
{
    let n = path.unicode_len();
    proof {
        assert(path@.subrange(0, n as int) =~= path@);
    }
    let mut end = n;
    while end > 0 && (path.get_char(end - 1) == '/' || (path.get_char(end - 1) == '.' && (end == 1
        || path.get_char(end - 2) == '/')))
        invariant
            end <= n,
            n == path@.len(),
            trim_path(path@) == trim_path(path@.subrange(0, end as int)),
        decreases end,
    {
        proof {
            let sub = path@.subrange(0, end as int);
            assert(sub[end - 1] == path@[end - 1]);
            if end >= 2 {
                assert(sub[end - 2] == path@[end - 2]);
            }
            assert(ends_in_separator_or_dot(sub));
            assert(sub.drop_last() =~= path@.subrange(0, (end - 1) as int));
        }
        end = end - 1;
    }
    proof {
        let sub = path@.subrange(0, end as int);
        if end > 0 {
            assert(sub[end - 1] == path@[end - 1]);
            if end >= 2 {
                assert(sub[end - 2] == path@[end - 2]);
            }
        }
        assert(!ends_in_separator_or_dot(sub));
        assert(trim_path(sub) == sub);
    }
    let ghost t = path@.subrange(0, end as int);
    let mut start = end;
    proof {
        assert(after_last_slash(t) + path@.subrange(end as int, end as int) =~= after_last_slash(
            t,
        ));
    }
    while start > 0 && path.get_char(start - 1) != '/'
        invariant
            start <= end <= n,
            n == path@.len(),
            t == path@.subrange(0, end as int),
            after_last_slash(t) == after_last_slash(path@.subrange(0, start as int))
                + path@.subrange(start as int, end as int),
        decreases start,
    {
        proof {
            let pre = path@.subrange(0, start as int);
            assert(pre.drop_last() =~= path@.subrange(0, (start - 1) as int));
            assert(after_last_slash(pre) == after_last_slash(
                path@.subrange(0, (start - 1) as int),
            ).push(path@[start - 1]));
            assert(after_last_slash(path@.subrange(0, (start - 1) as int)).push(path@[start - 1])
                + path@.subrange(start as int, end as int) =~= after_last_slash(
                path@.subrange(0, (start - 1) as int),
            ) + path@.subrange((start - 1) as int, end as int));
        }
        start = start - 1;
    }
    proof {
        if start == 0 {
            assert(path@.subrange(0, 0).len() == 0);
            assert(after_last_slash(path@.subrange(0, 0)) + path@.subrange(
                start as int,
                end as int,
            ) =~= path@.subrange(start as int, end as int));
        } else {
            assert(path@.subrange(0, start as int)[start - 1] == path@[start - 1]);
            assert(after_last_slash(path@.subrange(0, start as int)) + path@.subrange(
                start as int,
                end as int,
            ) =~= path@.subrange(start as int, end as int));
        }
    }
    (start, end)
}

/// The display name of a path: its final `'/'`-separated component,
/// ignoring trailing separators and trailing `"."` components, or
/// `"Untitled"` when the path has no such component (it is empty, made
/// of separators and `"."` components only, or ends in `".."`). Never
/// fails.
pub fn get_file_name(path: &str) -> (r: String)
    ensures
        r@ == file_name_spec(path@),
{
    let (start, end) = component_bounds(path);
    let ghost c = base_component(path@);
    if end - start == 0 {
        return untitled_string();
    }
    if end - start == 2 && path.get_char(start) == '.' && path.get_char(start + 1) == '.' {
        proof {
            assert(c =~= seq!['.', '.']);
        }
        return untitled_string();
    }
    proof {
        assert(c.len() == end - start);
        if end - start == 2 {
            assert(c[0] == path@[start as int]);
            assert(c[1] == path@[start + 1]);
            assert(c != seq!['.', '.']) by {
                if c == seq!['.', '.'] {
                    assert(c[0] == seq!['.', '.'][0]);
                    assert(c[1] == seq!['.', '.'][1]);
                }
            }
        }
        assert(!is_parent_marker(c));
    }
    let name = path.substring_char(start, end);
    name.to_owned()
}

/// The extension of `path`'s final component, not case-folded; the
/// empty string when there is none.
pub fn extension_of(path: &str) -> (r: String)
    ensures
        r@ == extension_spec(path@),
{
    let (start, end) = component_bounds(path);
    let ghost c = base_component(path@);
    proof {
        assert(c.subrange(0, (end - start) as int) =~= c);
    }
    let mut i = end;
    while i > start && path.get_char(i - 1) != '.'
        invariant
            start <= i <= end <= path@.len(),
            c == path@.subrange(start as int, end as int),
            last_dot_index(c) == last_dot_index(c.subrange(0, (i - start) as int)),
        decreases i,
    {
        proof {
            let pre = c.subrange(0, (i - start) as int);
            assert(pre[pre.len() - 1] == path@[i - 1]);
            assert(pre.drop_last() =~= c.subrange(0, (i - 1 - start) as int));
        }
        i = i - 1;
    }
    if i == start {
        proof {
            assert(c.subrange(0, 0).len() == 0);
            assert(last_dot_index(c) == -1);
        }
        return String::new();
    }
    proof {
        let pre = c.subrange(0, (i - start) as int);
        assert(pre[pre.len() - 1] == path@[i - 1]);
        assert(last_dot_index(c) == i - 1 - start);
    }
    if i - 1 == start {
        return String::new();
    }
    let ext = path.substring_char(i, end);
    proof {
        assert(c.subrange((i - start) as int, c.len() as int) =~= path@.subrange(
            i as int,
            end as int,
        ));
    }
    ext.to_owned()
}

} // verus!
