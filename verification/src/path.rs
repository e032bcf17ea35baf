//! The grammar of paths: which part of a path is its last component, and
//! where that component splits into stem and extension. Components are
//! parted by `/`; separators and `.` components that close a path are passed
//! over, and a path that ends in `..`, in the root or in nothing has no file
//! name.

use vstd::prelude::*;

verus! {

/// The separator between the components of a path.
pub open spec fn separator() -> char {
    '/'
}

/// The position of the last `c` in `s`, or -1 where `s` holds none.
pub open spec fn last_index(s: Seq<char>, c: char) -> int
    decreases s.len(),
{
    if s.len() == 0 {
        -1
    } else if s.last() == c {
        s.len() - 1
    } else {
        last_index(s.drop_last(), c)
    }
}

/// `last_index` names an occurrence of `c` behind which no other follows.
pub proof fn lemma_last_index(s: Seq<char>, c: char)
    ensures
        -1 <= last_index(s, c) < s.len(),
        last_index(s, c) >= 0 ==> s[last_index(s, c)] == c,
        forall|j: int| last_index(s, c) < j < s.len() ==> s[j] != c,
    decreases s.len(),
{
    if s.len() > 0 && s.last() != c {
        lemma_last_index(s.drop_last(), c);
        assert forall|j: int| last_index(s, c) < j < s.len() implies s[j] != c by {
            if j < s.len() - 1 {
                assert(s.drop_last()[j] == s[j]);
            }
        }
    }
}

/// A position that holds `c`, or -1, behind which no `c` follows is the one
/// that `last_index` names.
pub proof fn lemma_last_index_is(s: Seq<char>, c: char, at: int)
    requires
        -1 <= at < s.len(),
        at >= 0 ==> s[at] == c,
        forall|j: int| at < j < s.len() ==> s[j] != c,
    ensures
        last_index(s, c) == at,
{
    lemma_last_index(s, c);
}

/// A path without what closes it and names nothing: separators at its end,
/// and `.` components at its end.
pub open spec fn trimmed(path: Seq<char>) -> Seq<char>
    decreases path.len(),
{
    if path.len() > 0 && path.last() == separator() {
        trimmed(path.drop_last())
    } else if path.len() >= 2 && path.last() == '.' && path[path.len() - 2] == separator() {
        trimmed(path.drop_last())
    } else {
        path
    }
}

/// The last component of a path: what follows the last separator of the
/// trimmed path.
pub open spec fn last_component(path: Seq<char>) -> Seq<char> {
    trimmed(path).skip(last_index(trimmed(path), separator()) + 1)
}

/// True of the components that name no file: the empty one, `.` and `..`.
pub open spec fn names_nothing(component: Seq<char>) -> bool {
    component.len() == 0 || component == seq!['.'] || component == seq!['.', '.']
}

/// The file name of a path: its last component, unless that names nothing.
/// So `in/rec.mp3`, `in/rec.mp3/` and `in/rec.mp3/.` have the file name
/// `rec.mp3`, and the empty path, `/`, `.` and `in/..` have none.
pub open spec fn file_name(path: Seq<char>) -> Option<Seq<char>> {
    if names_nothing(last_component(path)) {
        None
    } else {
        Some(last_component(path))
    }
}

/// The file name of a path, or the empty text where it has none.
pub open spec fn name_of(path: Seq<char>) -> Seq<char> {
    match file_name(path) {
        Some(name) => name,
        None => Seq::empty(),
    }
}

/// Where a file name splits: the position of its last dot, unless that dot
/// is missing or opens the name, in which case the name has no extension and
/// the split is at its end.
pub open spec fn split_point(name: Seq<char>) -> int {
    if last_index(name, '.') <= 0 {
        name.len() as int
    } else {
        last_index(name, '.')
    }
}

/// The stem of a path's file name: the name without its extension. Empty
/// where the path has no file name.
pub open spec fn stem_of(path: Seq<char>) -> Seq<char> {
    name_of(path).take(split_point(name_of(path)))
}

/// The extension of a path's file name with its leading dot, or nothing
/// where the name has none or the path has no file name.
pub open spec fn dotted_extension_of(path: Seq<char>) -> Seq<char> {
    name_of(path).skip(split_point(name_of(path)))
}

/// The extension of a path's file name without the dot, where it has one.
pub open spec fn extension_of(path: Seq<char>) -> Option<Seq<char>> {
    if dotted_extension_of(path).len() == 0 {
        None
    } else {
        Some(dotted_extension_of(path).skip(1))
    }
}

/// Stem and extension are the two halves of the file name, the extension
/// opens with its dot, and no separator stands in a file name.
pub proof fn lemma_stem_and_extension(path: Seq<char>)
    ensures
        stem_of(path) + dotted_extension_of(path) == name_of(path),
        dotted_extension_of(path).len() > 0 ==> dotted_extension_of(path)[0] == '.',
        forall|i: int| 0 <= i < name_of(path).len() ==> name_of(path)[i] != separator(),
{
    let name = name_of(path);
    lemma_last_index(trimmed(path), separator());
    lemma_last_index(name, '.');
    assert(name.take(split_point(name)) + name.skip(split_point(name)) =~= name);
}

/// What closes a path plays no part in its file name: a separator or a `.`
/// component behind a path leaves its file name, stem and extension as they
/// are.
pub proof fn lemma_closing_separator(path: Seq<char>)
    ensures
        file_name(path.push(separator())) == file_name(path),
        path.len() > 0 ==> file_name(path + seq![separator(), '.']) == file_name(path),
{
    let closed = path.push(separator());
    assert(closed.drop_last() =~= path);
    if path.len() > 0 {
        let dotted = path + seq![separator(), '.'];
        assert(dotted.drop_last() =~= closed);
    }
}

/// The characters of a text.
pub fn chars_of(text: &str) -> (chars: Vec<char>)
    ensures
        chars@ == text@,
{
    let mut chars: Vec<char> = Vec::new();
    for c in it: text.chars()
        invariant
            it.seq() == text@,
            chars@ == text@.take(it.index()),
    {
        proof {
            assert(text@.take(it.index() + 1) =~= text@.take(it.index()).push(c));
        }
        chars.push(c);
    }
    proof {
        assert(text@.take(text@.len() as int) =~= text@);
    }
    chars
}

/// Where the last `c` of `s` stands, counted in characters.
pub fn find_last(s: &str, c: char) -> (at: Option<usize>)
    ensures
        match at {
            Some(i) => i as int == last_index(s@, c),
            None => last_index(s@, c) == -1,
        },
{
    let chars = chars_of(s);
    let mut at = chars.len();
    while at > 0 && chars[at - 1] != c
        invariant
            at <= chars@.len(),
            forall|j: int| at <= j < chars@.len() ==> chars@[j] != c,
        decreases at,
    {
        at = at - 1;
    }
    proof {
        lemma_last_index_is(chars@, c, at - 1);
    }
    if at == 0 {
        None
    } else {
        Some(at - 1)
    }
}

/// How much of the first `upto` characters is left when they are trimmed.
fn trimmed_len(chars: &Vec<char>, upto: usize) -> (end: usize)
    requires
        upto <= chars@.len(),
    ensures
        end <= upto,
        chars@.take(end as int) == trimmed(chars@.take(upto as int)),
{
    let mut end = upto;
    while end > 0 && (chars[end - 1] == '/' || (end >= 2 && chars[end - 1] == '.' && chars[end
        - 2] == '/'))
        invariant
            end <= upto <= chars@.len(),
            trimmed(chars@.take(end as int)) == trimmed(chars@.take(upto as int)),
        decreases end,
    {
        proof {
            assert(chars@.take(end as int).drop_last() =~= chars@.take(end - 1));
        }
        end = end - 1;
    }
    end
}

/// Where the component that ends at `end` starts.
fn component_start(chars: &Vec<char>, end: usize) -> (start: usize)
    requires
        end <= chars@.len(),
    ensures
        start <= end,
        start as int == last_index(chars@.take(end as int), separator()) + 1,
{
    let mut start = end;
    while start > 0 && chars[start - 1] != '/'
        invariant
            start <= end <= chars@.len(),
            forall|j: int| start <= j < end ==> chars@[j] != separator(),
        decreases start,
    {
        start = start - 1;
    }
    proof {
        lemma_last_index_is(chars@.take(end as int), separator(), start - 1);
    }
    start
}

/// Where the file name of a path lies and where it splits, counted in
/// characters: the name runs from `start` to `end`, its stem to `split`.
pub struct NameBounds {
    pub start: usize,
    pub split: usize,
    pub end: usize,
}

/// Finds the file name of a path and the place where it splits. A path
/// without file name gives three equal bounds.
pub fn locate_name(path: &str) -> (bounds: NameBounds)
    ensures
        bounds.start <= bounds.split <= bounds.end <= path@.len(),
        path@.subrange(bounds.start as int, bounds.end as int) == name_of(path@),
        path@.subrange(bounds.start as int, bounds.split as int) == stem_of(path@),
        path@.subrange(bounds.split as int, bounds.end as int) == dotted_extension_of(path@),
        bounds.start < bounds.end <==> file_name(path@) is Some,
{
    let chars = chars_of(path);
    let end = trimmed_len(&chars, chars.len());
    let start = component_start(&chars, end);
    let ghost last = last_component(path@);
    proof {
        assert(chars@.take(chars@.len() as int) =~= chars@);
        assert(last =~= path@.subrange(start as int, end as int));
    }
    let length = end - start;
    let nothing = length == 0 || (length == 1 && chars[start] == '.') || (length == 2
        && chars[start] == '.' && chars[start + 1] == '.');
    if nothing {
        proof {
            if length == 1 {
                assert(last =~= seq!['.']);
            }
            if length == 2 {
                assert(last =~= seq!['.', '.']);
            }
            assert(path@.subrange(start as int, start as int) =~= Seq::<char>::empty());
            assert(Seq::<char>::empty().take(0) =~= Seq::<char>::empty());
            assert(Seq::<char>::empty().skip(0) =~= Seq::<char>::empty());
        }
        return NameBounds { start, split: start, end: start };
    }
    proof {
        if length == 1 {
            assert(last[0] != '.');
        }
        if length == 2 {
            assert(last[0] != '.' || last[1] != '.');
        }
        assert(!names_nothing(last));
    }
    let mut dot = end;
    while dot > start && chars[dot - 1] != '.'
        invariant
            start <= dot <= end <= chars@.len(),
            forall|j: int| dot <= j < end ==> chars@[j] != '.',
        decreases dot,
    {
        dot = dot - 1;
    }
    proof {
        assert forall|j: int| dot - start <= j < last.len() implies last[j] != '.' by {
            assert(last[j] == chars@[start + j]);
        }
        if dot > start {
            assert(last[dot - 1 - start] == chars@[dot - 1]);
        }
        lemma_last_index_is(last, '.', dot - 1 - start);
    }
    let split = if dot <= start + 1 {
        end
    } else {
        dot - 1
    };
    proof {
        assert(last.take(split - start) =~= path@.subrange(start as int, split as int));
        assert(last.skip(split - start) =~= path@.subrange(split as int, end as int));
    }
    NameBounds { start, split, end }
}

/// The file name of a path, where it has one.
pub fn base_name(path: &str) -> (name: Option<&str>)
    ensures
        match name {
            Some(name) => file_name(path@) == Some(name@),
            None => file_name(path@) is None,
        },
{
    let bounds = locate_name(path);
    if bounds.start < bounds.end {
        Some(path.substring_char(bounds.start, bounds.end))
    } else {
        None
    }
}

/// The stem of a path's file name: the name without its extension. Empty
/// where the path has no file name.
pub fn get_filename(path: &str) -> (stem: String)
    ensures
        stem@ == stem_of(path@),
{
    let bounds = locate_name(path);
    String::from_str(path.substring_char(bounds.start, bounds.split))
}

/// The extension of a path's file name with its leading dot, or the empty
/// text where the name has none or the path has no file name.
pub fn get_extension(path: &str) -> (extension: String)
    ensures
        extension@ == dotted_extension_of(path@),
{
    let bounds = locate_name(path);
    String::from_str(path.substring_char(bounds.split, bounds.end))
}

/// The directory that a path lies in: the path without its last component
/// and without what then closes it. The root stays the root. A path that
/// is empty or is the root lies in none; a single component lies in the
/// empty path.
pub open spec fn directory_of(path: Seq<char>) -> Option<Seq<char>> {
    let front = trimmed(path).take(last_index(trimmed(path), separator()) + 1);
    if last_component(path).len() == 0 {
        None
    } else if front.len() > 0 && trimmed(front).len() == 0 {
        Some(seq![separator()])
    } else {
        Some(trimmed(front))
    }
}

/// The directory that a path lies in.
pub fn parent_directory(path: &str) -> (dir: Option<String>)
    ensures
        match dir {
            Some(dir) => directory_of(path@) == Some(dir@),
            None => directory_of(path@) is None,
        },
{
    let chars = chars_of(path);
    let end = trimmed_len(&chars, chars.len());
    let start = component_start(&chars, end);
    proof {
        assert(chars@.take(chars@.len() as int) =~= chars@);
        assert(trimmed(path@).take(start as int) =~= path@.take(start as int));
        assert(last_component(path@).len() == end - start);
    }
    if start == end {
        return None;
    }
    let front = trimmed_len(&chars, start);
    if start > 0 && front == 0 {
        proof {
            reveal_strlit("/");
        }
        let root = String::from_str("/");
        assert(root@ =~= seq![separator()]);
        Some(root)
    } else {
        proof {
            assert(path@.subrange(0, front as int) =~= path@.take(front as int));
        }
        Some(String::from_str(path.substring_char(0, front)))
    }
}

} // verus!
