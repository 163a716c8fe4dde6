use vstd::prelude::*;

verus! {

/// The position of the last `c` in `s`, or -1 where there is none.
pub open spec fn last_index_of(s: Seq<char>, c: char) -> int
    decreases s.len(),
{
    if s.len() == 0 {
        -1
    } else if s.last() == c {
        s.len() - 1
    } else {
        last_index_of(s.drop_last(), c)
    }
}

/// The last component of a path: what follows its last `/`.
pub open spec fn file_name(p: Seq<char>) -> Seq<char> {
    p.subrange(last_index_of(p, '/') + 1, p.len() as int)
}

/// A file name without its extension: what precedes its last `.`, unless that
/// dot opens the name.
pub open spec fn file_stem(f: Seq<char>) -> Seq<char> {
    let d = last_index_of(f, '.');
    if d > 0 {
        f.subrange(0, d)
    } else {
        f
    }
}

pub open spec fn service_suffix() -> Seq<char> {
    seq!['.', 's', 'e', 'r', 'v', 'i', 'c', 'e']
}

/// The unit managed for a deployed file: its stem with `.service` appended.
/// A path that names no file (empty, or ending in `/`) has no unit.
pub open spec fn unit_name_of(p: Seq<char>) -> Option<Seq<char>> {
    if file_name(p).len() == 0 {
        None
    } else {
        Some(file_stem(file_name(p)) + service_suffix())
    }
}

proof fn lemma_last_index_bounds(s: Seq<char>, c: char)
    ensures
        -1 <= last_index_of(s, c) < s.len(),
        last_index_of(s, c) >= 0 ==> s[last_index_of(s, c)] == c,
    decreases s.len(),
{
    if s.len() > 0 {
        lemma_last_index_bounds(s.drop_last(), c);
    }
}

/// Finds the last `c` in `s`.
fn last_index(s: &Vec<char>, c: char) -> (r: Option<usize>)
    ensures
        match r {
            Some(k) => k as int == last_index_of(s@, c),
            None => last_index_of(s@, c) == -1,
        },
{
    let mut i: usize = s.len();
    assert(s@.subrange(0, i as int) =~= s@);
    while i > 0
        invariant
            i <= s@.len(),
            last_index_of(s@, c) == last_index_of(s@.subrange(0, i as int), c),
        decreases i,
    {
        let ghost pre = s@.subrange(0, i as int);
        if s[i - 1] == c {
            assert(pre.last() == c);
            return Some(i - 1);
        }
        assert(pre.drop_last() =~= s@.subrange(0, i - 1));
        i = i - 1;
    }
    None
}

/// Copies `s[from..to]`.
fn copy_range(s: &Vec<char>, from: usize, to: usize) -> (r: Vec<char>)
    requires
        from <= to <= s@.len(),
    ensures
        r@ == s@.subrange(from as int, to as int),
{
    let mut out: Vec<char> = Vec::new();
    let mut i: usize = from;
    while i < to
        invariant
            from <= i <= to <= s@.len(),
            out@ == s@.subrange(from as int, i as int),
        decreases to - i,
    {
        out.push(s[i]);
        assert(s@.subrange(from as int, i + 1) =~= s@.subrange(from as int, i as int).push(
            s@[i as int],
        ));
        i = i + 1;
    }
    out
}

/// The name of the unit that runs the file deployed at `target_path`, or
/// `None` where the path names no file.
pub fn unit_name_for(target_path: &Vec<char>) -> (r: Option<Vec<char>>)
    ensures
        match r {
            Some(u) => unit_name_of(target_path@) == Some(u@),
            None => unit_name_of(target_path@) is None,
        },
{
    proof {
        lemma_last_index_bounds(target_path@, '/');
    }
    let n: usize = target_path.len();
    let start: usize = match last_index(target_path, '/') {
        Some(k) => {
            assert(k < n);
            k + 1
        },
        None => 0,
    };
    let name = copy_range(target_path, start, n);
    if name.len() == 0 {
        return None;
    }
    proof {
        lemma_last_index_bounds(name@, '.');
    }
    let end: usize = match last_index(&name, '.') {
        Some(d) => if d > 0 {
            d
        } else {
            name.len()
        },
        None => name.len(),
    };
    let mut unit = copy_range(&name, 0, end);
    let suffix: Vec<char> = vec!['.', 's', 'e', 'r', 'v', 'i', 'c', 'e'];
    let mut i: usize = 0;
    while i < suffix.len()
        invariant
            i <= suffix@.len(),
            suffix@ == service_suffix(),
            unit@ == file_stem(name@) + suffix@.subrange(0, i as int),
        decreases suffix.len() - i,
    {
        unit.push(suffix[i]);
        assert(suffix@.subrange(0, i + 1) =~= suffix@.subrange(0, i as int).push(suffix@[i as int]));
        i = i + 1;
    }
    assert(suffix@.subrange(0, suffix@.len() as int) =~= suffix@);
    Some(unit)
}

} // verus!
