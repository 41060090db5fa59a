//! Paths as texts with `/` between their parts.
use crate::text;
use vstd::prelude::*;
use vstd::string::*;

verus! {

/// `name` below `base`. An absolute name stands for itself.
pub open spec fn joined_path(base: Seq<char>, name: Seq<char>) -> Seq<char> {
    if name.len() > 0 && name[0] == '/' {
        name
    } else if base.len() == 0 || base.last() == '/' {
        base + name
    } else {
        base.push('/') + name
    }
}

/// `name` below `base`, as `Path::join` gives it where `/` separates the parts.
pub fn join_path(base: &str, name: &str) -> (r: String)
    ensures
        r@ == joined_path(base@, name@),
{
    let name_len: usize = name.unicode_len();
    if name_len > 0 && name.get_char(0) == '/' {
        return name.to_owned();
    }
    let base_len: usize = base.unicode_len();
    let mut out: String = base.to_owned();
    if base_len > 0 && base.get_char(base_len - 1) != '/' {
        out.push('/');
    }
    out.append(name);
    out
}

// ---------------------------------------------------------------------------
// What paths lead to
// ---------------------------------------------------------------------------

/// Where a path leads, as far as its text says: the names on the way, without the
/// parts that lead nowhere else.
pub ghost struct Location {
    pub absolute: bool,
    pub parts: Seq<Seq<char>>,
}

/// Whether a path is absolute.
pub open spec fn is_absolute(path: Seq<char>) -> bool {
    path.len() > 0 && path[0] == '/'
}

/// Whether a part of a path leads to something: `.` and nothing at all lead nowhere
/// else.
pub open spec fn leads_on() -> spec_fn(Seq<char>) -> bool {
    |part: Seq<char>| part.len() > 0 && part != "."@
}

/// Where a path leads. Paths that lead to one location lead to one file.
pub open spec fn location(path: Seq<char>) -> Location {
    Location { absolute: is_absolute(path), parts: text::pieces(path, '/').filter(leads_on()) }
}

/// Whether a path goes up: where it then leads, its text does not say.
pub open spec fn goes_up(path: Seq<char>) -> bool {
    text::pieces(path, '/').contains(".."@)
}

/// A name below a directory leads to one more name.
pub proof fn lemma_location_below(base: Seq<char>, name: Seq<char>)
    requires
        base.len() > 0,
        base.last() != '/',
        !name.contains('/'),
        name.len() > 0,
        name != "."@,
    ensures
        location(joined_path(base, name)) == (Location {
            absolute: is_absolute(base),
            parts: location(base).parts.push(name),
        }),
{
    assert(name.contains(name[0]));
    let path = joined_path(base, name);
    assert(path == base.push('/') + name);
    text::lemma_pieces_between(base, name, '/');
    text::lemma_one_piece(name, '/');
    let all = text::pieces(base, '/');
    assert(all + seq![name] == all.push(name));
    assert(all.push(name).drop_last() == all);
    reveal(Seq::filter);
}

/// Where a path leads ends as the path does.
pub proof fn lemma_location_end(path: Seq<char>)
    requires
        path.len() > 0,
        path.last() != '/',
        path.last() != '.',
    ensures
        location(path).parts.len() > 0,
        location(path).parts.last().len() > 0,
        location(path).parts.last().last() == path.last(),
{
    text::lemma_last_piece(path, '/');
    reveal_strlit(".");
    let all = text::pieces(path, '/');
    assert(all.last() != "."@);
    reveal(Seq::filter);
    assert(leads_on()(all.last()));
}

// ---------------------------------------------------------------------------
// Laws
// ---------------------------------------------------------------------------

/// A name is put below a directory with one `/` between the two; an absolute name stands
/// for itself, and below nothing every name does.
pub proof fn one_separator_stands_between(base: &str, name: &str, dir: Seq<char>, r: String)
    requires
        call_ensures(join_path, (base, name), r),
    ensures
        name@.len() > 0 && name@[0] == '/' ==> r@ == name@,
        base@.len() == 0 ==> r@ == name@,
        (name@.len() == 0 || name@[0] != '/') && base@ == dir.push('/') ==> r@ == dir.push('/')
            + name@,
        (name@.len() == 0 || name@[0] != '/') && base@ == dir && dir.len() > 0 && dir.last() != '/'
            ==> r@ == dir.push('/') + name@,
{
    if base@.len() == 0 {
        assert(base@ + name@ == name@);
    }
}

} // verus!
