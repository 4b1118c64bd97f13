//! Path strings as this library reads them.
//!
//! Both `/` and `\` separate components, so that a bundle location reads the
//! same whichever platform produced it. New components are joined with `/`,
//! which every supported platform accepts.

use vstd::prelude::*;

verus! {

pub open spec fn is_separator(c: char) -> bool {
    c == '/' || c == '\\'
}

/// The path without its trailing separators.
pub open spec fn trim_trailing_separators(p: Seq<char>) -> Seq<char>
    decreases p.len(),
{
    if p.len() > 0 && is_separator(p.last()) {
        trim_trailing_separators(p.drop_last())
    } else {
        p
    }
}

/// The characters after the last separator of the path.
pub open spec fn last_component(p: Seq<char>) -> Seq<char>
    decreases p.len(),
{
    if p.len() == 0 || is_separator(p.last()) {
        Seq::empty()
    } else {
        last_component(p.drop_last()).push(p.last())
    }
}

/// The final component of a path: its directory or file name. There is none
/// for a path made only of separators, nor for one that ends in `.` or `..`.
pub open spec fn base_name(p: Seq<char>) -> Option<Seq<char>> {
    let c = last_component(trim_trailing_separators(p));
    if c.len() == 0 || c == seq!['.'] || c == seq!['.', '.'] {
        None
    } else {
        Some(c)
    }
}

/// The path `part` below the directory `base`.
pub open spec fn joined(base: Seq<char>, part: Seq<char>) -> Seq<char> {
    if base.len() == 0 {
        part
    } else if is_separator(base.last()) {
        base + part
    } else {
        base + seq!['/'] + part
    }
}

pub fn is_separator_char(c: char) -> (r: bool)
    ensures
        r == is_separator(c),
{
    c == '/' || c == '\\'
}

/// The final component of `location`, as `base_name` states it.
pub fn base_name_of(location: &str) -> (r: Option<String>)
    ensures
        r matches Some(s) ==> base_name(location@) == Some(s@),
        r is None <==> base_name(location@) is None,
{
    let ghost p = location@;
    let n = location.unicode_len();
    let mut end: usize = n;
    assert(p.subrange(0, n as int) =~= p);
    while end > 0 && is_separator_char(location.get_char(end - 1))
        invariant
            end <= n,
            n == p.len(),
            p == location@,
            trim_trailing_separators(p) == trim_trailing_separators(p.subrange(0, end as int)),
        decreases end,
    {
        assert(p.subrange(0, end as int).drop_last() =~= p.subrange(0, end - 1));
        end = end - 1;
    }
    assert(trim_trailing_separators(p) == p.subrange(0, end as int));
    let ghost q = p.subrange(0, end as int);
    let mut start: usize = end;
    assert(q.subrange(0, end as int) =~= q);
    assert(last_component(q) =~= last_component(q) + q.subrange(end as int, end as int));
    while start > 0 && !is_separator_char(location.get_char(start - 1))
        invariant
            start <= end <= n,
            n == p.len(),
            p == location@,
            q == p.subrange(0, end as int),
            last_component(q) == last_component(q.subrange(0, start as int)) + q.subrange(
                start as int,
                end as int,
            ),
        decreases start,
    {
        assert(q.subrange(0, start as int).drop_last() =~= q.subrange(0, start - 1));
        assert(q.subrange(start - 1, end as int) =~= seq![q[start - 1]] + q.subrange(
            start as int,
            end as int,
        ));
        assert(last_component(q.subrange(0, start - 1)).push(q[start - 1]) + q.subrange(
            start as int,
            end as int,
        ) =~= last_component(q.subrange(0, start - 1)) + q.subrange(start - 1, end as int));
        start = start - 1;
    }
    assert(last_component(q.subrange(0, start as int)) =~= Seq::<char>::empty());
    assert(q.subrange(start as int, end as int) =~= p.subrange(start as int, end as int));
    assert(last_component(q) =~= p.subrange(start as int, end as int));
    let len = end - start;
    if len == 0 {
        return None;
    }
    if location.get_char(start) == '.' && (len == 1 || (len == 2 && location.get_char(start + 1)
        == '.')) {
        assert(len == 1 ==> p.subrange(start as int, end as int) =~= seq!['.']);
        assert(len == 2 ==> p.subrange(start as int, end as int) =~= seq!['.', '.']);
        return None;
    }
    assert(len == 1 ==> p.subrange(start as int, end as int) != seq!['.']) by {
        if len == 1 {
            assert(p.subrange(start as int, end as int)[0] == p[start as int]);
        }
    }
    assert(len == 2 ==> p.subrange(start as int, end as int) != seq!['.', '.']) by {
        if len == 2 {
            assert(p.subrange(start as int, end as int)[0] == p[start as int]);
            assert(p.subrange(start as int, end as int)[1] == p[start + 1]);
        }
    }
    let name = location.substring_char(start, end);
    Some(String::from_str(name))
}

/// The path `part` below the directory `base`.
pub fn join(base: &str, part: &str) -> (r: String)
    ensures
        r@ == joined(base@, part@),
{
    let n = base.unicode_len();
    if n == 0 {
        String::from_str(part)
    } else if is_separator_char(base.get_char(n - 1)) {
        String::from_str(base).concat(part)
    } else {
        let sep = "/";
        proof {
            reveal_strlit("/");
        }
        String::from_str(base).concat(sep).concat(part)
    }
}

} // verus!
