//! Paths as text: separators are `/`, a path that begins with one is
//! absolute. Components follow the usual normalisation: repeated and
//! trailing separators do not count, and neither does a `.` segment unless
//! it opens a relative path.

use vstd::prelude::*;
use vstd::string::StringExecFns;
use crate::text::from_chars;
use crate::text::optional_text;
use crate::text::same_chars;
use crate::text::to_chars;

verus! {

/// Whether `path` begins at the root.
pub open spec fn is_absolute_path(path: Seq<char>) -> bool {
    path.len() > 0 && path[0] == '/'
}

/// The pieces of `path` between its separators, empty pieces included:
/// one more piece than `path` has separators.
pub open spec fn segments(path: Seq<char>) -> Seq<Seq<char>>
    decreases path.len(),
{
    if path.len() == 0 {
        seq![Seq::empty()]
    } else {
        let before = segments(path.drop_last());
        if path.last() == '/' {
            before.push(Seq::empty())
        } else {
            before.drop_last().push(before.last().push(path.last()))
        }
    }
}

/// Whether the segment at `position` counts for nothing: an empty one, or
/// a `.` that is not the first segment.
pub open spec fn is_skipped(segment: Seq<char>, position: int) -> bool {
    segment.len() == 0 || (segment == seq!['.'] && position > 0)
}

/// The segments that count, in order.
pub open spec fn counted(segments: Seq<Seq<char>>) -> Seq<Seq<char>>
    decreases segments.len(),
{
    if segments.len() == 0 {
        Seq::empty()
    } else {
        let before = counted(segments.drop_last());
        if is_skipped(segments.last(), segments.len() - 1) {
            before
        } else {
            before.push(segments.last())
        }
    }
}

/// The components of `path` below its root.
pub open spec fn components(path: Seq<char>) -> Seq<Seq<char>> {
    counted(segments(path))
}

/// Whether `path` lies in the subtree at `base` or is `base` itself: the
/// two begin alike (both at the root, or neither, unless `base` is empty of
/// components) and the components of `base` open those of `path`.
#[verifier::opaque]
pub open spec fn lies_under(path: Seq<char>, base: Seq<char>) -> bool {
    &&& is_absolute_path(base) ==> is_absolute_path(path)
    &&& is_absolute_path(path) && !is_absolute_path(base) ==> components(base).len() == 0
    &&& components(base).is_prefix_of(components(path))
}

/// `name` placed under `base`: an absolute `name` stands alone, and a
/// separator is put between the two where `base` does not end in one.
pub open spec fn joined(base: Seq<char>, name: Seq<char>) -> Seq<char> {
    if is_absolute_path(name) || base.len() == 0 {
        name
    } else if base.last() == '/' {
        base + name
    } else {
        base + seq!['/'] + name
    }
}

/// How many characters stand before the first component that can be
/// removed: the root separator, or a `.` that opens a relative path.
pub open spec fn head_len(path: Seq<char>) -> int {
    if is_absolute_path(path) {
        1
    } else if path.len() >= 1 && path[0] == '.' && (path.len() == 1 || path[1] == '/') {
        1
    } else {
        0
    }
}

/// `text` without what trails behind its last component: separators and
/// `.` segments, down to `from` characters at most.
pub open spec fn trimmed(text: Seq<char>, from: int) -> Seq<char>
    decreases text.len(),
{
    if text.len() > from && from >= 0 && (text.last() == '/' || (text.last() == '.' && (text.len()
        - 1 == from || text[text.len() - 2] == '/'))) {
        trimmed(text.drop_last(), from)
    } else {
        text
    }
}

/// Where the last segment of `text` begins, not before `from`.
pub open spec fn last_segment_start(text: Seq<char>, from: int) -> int
    decreases text.len(),
{
    if text.len() == 0 || text.len() <= from || text.last() == '/' {
        text.len() as int
    } else {
        last_segment_start(text.drop_last(), from)
    }
}

/// The path without its final component and without what then trails;
/// none for a path with no component to remove (the root, the empty path).
pub open spec fn parent_path(path: Seq<char>) -> Option<Seq<char>> {
    let from = head_len(path);
    let whole = trimmed(path, from);
    if whole.len() > from {
        Some(trimmed(whole.take(last_segment_start(whole, from)), from))
    } else if !is_absolute_path(path) && from == 1 {
        Some(Seq::empty())
    } else {
        None
    }
}

/// The final component of `path`, if it is a name (not `..`, not the root,
/// not a lone `.`).
pub open spec fn final_name(path: Seq<char>) -> Option<Seq<char>> {
    let from = head_len(path);
    let whole = trimmed(path, from);
    let name = whole.skip(last_segment_start(whole, from));
    if whole.len() > from && name != seq!['.', '.'] {
        Some(name)
    } else {
        None
    }
}

/// The texts that the vectors of `items` hold.
pub open spec fn texts(items: Seq<Vec<char>>) -> Seq<Seq<char>> {
    items.map_values(|item: Vec<char>| item@)
}

/// The pieces of `pieces` put together again, a separator between each
/// two.
pub open spec fn rejoined(pieces: Seq<Seq<char>>) -> Seq<char>
    decreases pieces.len(),
{
    if pieces.len() == 0 {
        Seq::empty()
    } else if pieces.len() == 1 {
        pieces[0]
    } else {
        rejoined(pieces.drop_last()) + seq!['/'] + pieces.last()
    }
}

/// The segments of a path are what lies between its separators: no
/// segment holds a separator, and the segments put together again, a
/// separator between each two, are the path.
pub proof fn law_segments(path: Seq<char>)
    ensures
        segments(path).len() >= 1,
        forall|i: int, j: int|
            0 <= i < segments(path).len() && 0 <= j < segments(path)[i].len() ==> segments(
                path,
            )[i][j] != '/',
        rejoined(segments(path)) == path,
    decreases path.len(),
{
    if path.len() > 0 {
        let before = path.drop_last();
        law_segments(before);
        let pieces = segments(before);
        let all = segments(path);
        if path.last() == '/' {
            assert(all.drop_last() == pieces);
            assert(rejoined(all) == rejoined(pieces) + seq!['/'] + Seq::<char>::empty());
            assert(rejoined(all) =~= before.push('/'));
        } else {
            let grown = pieces.last().push(path.last());
            assert(all == pieces.drop_last().push(grown));
            assert(all.drop_last() == pieces.drop_last());
            if pieces.len() == 1 {
                assert(rejoined(all) == grown);
                assert(rejoined(pieces) == pieces[0]);
            } else {
                assert(rejoined(all) == rejoined(pieces.drop_last()) + seq!['/'] + grown);
                assert(rejoined(pieces) == rejoined(pieces.drop_last()) + seq!['/']
                    + pieces.last());
            }
            assert(rejoined(all) =~= before.push(path.last()));
        }
        assert(before.push(path.last()) == path);
    }
}

/// A path lies under itself, and what lies under a path lies under
/// whatever that path lies under.
pub proof fn law_lies_under_orders(path: Seq<char>, middle: Seq<char>, base: Seq<char>)
    ensures
        lies_under(path, path),
        lies_under(path, middle) && lies_under(middle, base) ==> lies_under(path, base),
{
    reveal(lies_under);
    assert(components(path).is_prefix_of(components(path)));
    if lies_under(path, middle) && lies_under(middle, base) {
        let a = components(path);
        let b = components(middle);
        let c = components(base);
        assert(c =~= a.subrange(0, c.len() as int)) by {
            assert forall|i: int| 0 <= i < c.len() implies c[i] == a.subrange(
                0,
                c.len() as int,
            )[i] by {
                assert(c[i] == b.subrange(0, c.len() as int)[i]);
                assert(b[i] == a.subrange(0, b.len() as int)[i]);
            }
        }
    }
}

/// Whether `name` is the name of one entry: not empty, without a
/// separator, and not the `.` that stands for the directory itself.
pub open spec fn is_entry_name(name: Seq<char>) -> bool {
    &&& name.len() > 0
    &&& name != seq!['.']
    &&& forall|i: int| 0 <= i < name.len() ==> name[i] != '/'
}

/// Text without a separator, put behind a path, lengthens its last
/// segment.
proof fn lemma_segments_lengthened(path: Seq<char>, tail: Seq<char>)
    requires
        forall|i: int| 0 <= i < tail.len() ==> tail[i] != '/',
    ensures
        segments(path).len() >= 1,
        segments(path + tail) == segments(path).drop_last().push(segments(path).last() + tail),
    decreases tail.len(),
{
    lemma_segments_push(path, 'x');
    if tail.len() == 0 {
        assert(path + tail == path);
        assert(segments(path).last() + tail == segments(path).last());
        assert(segments(path).drop_last().push(segments(path).last()) == segments(path));
    } else {
        let shorter = tail.drop_last();
        lemma_segments_lengthened(path, shorter);
        lemma_segments_push(path + shorter, tail.last());
        assert(path + tail == (path + shorter).push(tail.last()));
        let kept = segments(path).drop_last();
        let grown = segments(path).last() + shorter;
        assert(kept.push(grown).drop_last() == kept);
        assert(grown.push(tail.last()) == segments(path).last() + tail);
    }
}

/// An entry joined under a directory is one component below it: its
/// components are those of the directory and its own name, and it lies
/// under the directory.
pub proof fn law_entry_lies_under(base: Seq<char>, name: Seq<char>)
    requires
        is_entry_name(name),
    ensures
        components(joined(base, name)) == components(base).push(name),
        lies_under(joined(base, name), base),
{
    reveal(lies_under);
    if base.len() == 0 {
        lemma_segments_lengthened(base, name);
        assert(segments(name) == seq![name]);
        lemma_counted_push(Seq::empty(), name);
        assert(segments(base).drop_last() == Seq::<Seq<char>>::empty());
    } else {
        let dir = if base.last() == '/' {
            base
        } else {
            base.push('/')
        };
        assert(joined(base, name) == dir + name);
        let above = segments(dir.drop_last());
        assert(components(dir) == components(base)) by {
            lemma_counted_push(above, Seq::empty());
            if base.last() != '/' {
                assert(dir.drop_last() == base);
            }
        }
        lemma_segments_lengthened(dir, name);
        assert(segments(dir).drop_last() == above);
        lemma_counted_push(above, name);
        assert(components(base).is_prefix_of(components(base).push(name))) by {
            assert(components(base).push(name).subrange(0, components(base).len() as int)
                == components(base));
        }
    }
}

proof fn lemma_segments_push(path: Seq<char>, c: char)
    ensures
        segments(path).len() > 0,
        c == '/' ==> segments(path.push(c)) == segments(path).push(Seq::empty()),
        c != '/' ==> segments(path.push(c)) == segments(path).drop_last().push(
            segments(path).last().push(c),
        ),
    decreases path.len(),
{
    if path.len() > 0 {
        lemma_segments_push(path.drop_last(), path.last());
    }
    assert(path.push(c).drop_last() == path);
}

proof fn lemma_counted_push(segments: Seq<Seq<char>>, segment: Seq<char>)
    ensures
        counted(segments.push(segment)) == if is_skipped(segment, segments.len() as int) {
            counted(segments)
        } else {
            counted(segments).push(segment)
        },
{
    assert(segments.push(segment).drop_last() == segments);
}

fn is_dot(segment: &Vec<char>) -> (dot: bool)
    ensures
        dot == (segment@ == seq!['.']),
{
    if segment.len() == 1 && segment[0] == '.' {
        assert(segment@ =~= seq!['.']);
        true
    } else {
        false
    }
}

/// The components of `path`, each as its characters.
fn split_components(path: &Vec<char>) -> (names: Vec<Vec<char>>)
    ensures
        texts(names@) == components(path@),
{
    let mut names: Vec<Vec<char>> = Vec::new();
    let mut current: Vec<char> = Vec::new();
    let mut position: usize = 0;
    let mut i: usize = 0;
    while i < path.len()
        invariant
            i <= path.len(),
            position <= i,
            segments(path@.take(i as int)).len() == position + 1,
            current@ == segments(path@.take(i as int)).last(),
            texts(names@) == counted(segments(path@.take(i as int)).drop_last()),
        decreases path.len() - i,
    {
        let c = path[i];
        proof {
            let before = path@.take(i as int);
            assert(path@.take(i + 1) == before.push(c));
            lemma_segments_push(before, c);
            let done = segments(before).drop_last();
            if c == '/' {
                assert(segments(before.push(c)).drop_last() == segments(before));
                assert(segments(before) == done.push(current@));
                lemma_counted_push(done, current@);
            } else {
                assert(segments(before.push(c)).drop_last() == done);
            }
        }
        if c == '/' {
            if current.len() > 0 && !(position > 0 && is_dot(&current)) {
                names.push(current);
            }
            current = Vec::new();
            position += 1;
        } else {
            current.push(c);
        }
        i += 1;
    }
    proof {
        assert(path@.take(i as int) == path@);
        let done = segments(path@).drop_last();
        assert(segments(path@) == done.push(current@));
        lemma_counted_push(done, current@);
    }
    if current.len() > 0 && !(position > 0 && is_dot(&current)) {
        names.push(current);
    }
    names
}

fn begins_at_root(path: &Vec<char>) -> (absolute: bool)
    ensures
        absolute == is_absolute_path(path@),
{
    path.len() > 0 && path[0] == '/'
}

fn lies_under_chars(path: &Vec<char>, base: &Vec<char>) -> (under: bool)
    ensures
        under == lies_under(path@, base@),
{
    proof {
        reveal(lies_under);
    }
    let path_names = split_components(path);
    let base_names = split_components(base);
    let path_absolute = begins_at_root(path);
    let base_absolute = begins_at_root(base);
    if base_absolute && !path_absolute {
        return false;
    }
    if path_absolute && !base_absolute && base_names.len() > 0 {
        return false;
    }
    if base_names.len() > path_names.len() {
        return false;
    }
    let mut i: usize = 0;
    while i < base_names.len()
        invariant
            i <= base_names.len(),
            base_names.len() <= path_names.len(),
            texts(path_names@) == components(path@),
            texts(base_names@) == components(base@),
            forall|j: int| 0 <= j < i ==> components(base@)[j] == components(path@)[j],
        decreases base_names.len() - i,
    {
        assert(texts(base_names@)[i as int] == base_names@[i as int]@);
        assert(texts(path_names@)[i as int] == path_names@[i as int]@);
        if !same_chars(&base_names[i], &path_names[i]) {
            proof {
                reveal(lies_under);
            }
            assert(components(path@).subrange(0, components(base@).len() as int)[i as int]
                == components(path@)[i as int]);
            return false;
        }
        i += 1;
    }
    assert(components(base@) =~= components(path@).subrange(0, components(base@).len() as int));
    true
}

fn head_of(path: &Vec<char>) -> (from: usize)
    ensures
        from == head_len(path@),
        from <= path.len(),
{
    if path.len() >= 1 && path[0] == '/' {
        1
    } else if path.len() >= 1 && path[0] == '.' && (path.len() == 1 || path[1] == '/') {
        1
    } else {
        0
    }
}

/// Whether the character before `end` trails behind the last component.
fn trails(text: &Vec<char>, end: usize, from: usize) -> (trailing: bool)
    requires
        from < end <= text.len(),
    ensures
        trailing == (text@[end - 1] == '/' || (text@[end - 1] == '.' && (end - 1 == from
            || text@[end - 2] == '/'))),
{
    text[end - 1] == '/' || (text[end - 1] == '.' && (end - 1 == from || text[end - 2] == '/'))
}

fn trim_end(text: &Vec<char>, len: usize, from: usize) -> (end: usize)
    requires
        from <= len <= text.len(),
    ensures
        from <= end <= len,
        text@.take(end as int) == trimmed(text@.take(len as int), from as int),
{
    let mut end = len;
    while end > from && trails(text, end, from)
        invariant
            from <= end <= len,
            len <= text.len(),
            trimmed(text@.take(end as int), from as int) == trimmed(
                text@.take(len as int),
                from as int,
            ),
        decreases end,
    {
        assert(text@.take(end as int).drop_last() == text@.take(end - 1));
        end -= 1;
    }
    end
}

fn segment_start(text: &Vec<char>, len: usize, from: usize) -> (at: usize)
    requires
        from <= len <= text.len(),
    ensures
        from <= at <= len,
        at == last_segment_start(text@.take(len as int), from as int),
{
    let mut at = len;
    while at > from && text[at - 1] != '/'
        invariant
            from <= at <= len,
            len <= text.len(),
            last_segment_start(text@.take(at as int), from as int) == last_segment_start(
                text@.take(len as int),
                from as int,
            ),
        decreases at,
    {
        assert(text@.take(at as int).drop_last() == text@.take(at - 1));
        at -= 1;
    }
    at
}

/// `name` placed under `base`.
pub fn join(base: &str, name: &str) -> (path: String)
    ensures
        path@ == joined(base@, name@),
{
    let base_chars = to_chars(base);
    let name_chars = to_chars(name);
    if begins_at_root(&name_chars) || base_chars.len() == 0 {
        name.to_owned()
    } else {
        let mut path = base.to_owned();
        if base_chars[base_chars.len() - 1] != '/' {
            path.push('/');
        }
        path.append(name);
        path
    }
}

/// The path without its final component, if it has one to remove.
pub fn parent(path: &str) -> (dir: Option<String>)
    ensures
        optional_text(dir) == parent_path(path@),
{
    let chars = to_chars(path);
    let from = head_of(&chars);
    let end = trim_end(&chars, chars.len(), from);
    assert(chars@.take(chars.len() as int) == chars@);
    if end > from {
        let at = segment_start(&chars, end, from);
        assert(chars@.take(end as int).take(at as int) == chars@.take(at as int));
        let cut = trim_end(&chars, at, from);
        assert(chars@.take(cut as int) == chars@.subrange(0, cut as int));
        Some(from_chars(&chars, 0, cut))
    } else if from == 1 && !begins_at_root(&chars) {
        Some(String::new())
    } else {
        None
    }
}

/// The final component of `path`, if it is a name.
pub fn file_name(path: &str) -> (name: Option<String>)
    ensures
        optional_text(name) == final_name(path@),
{
    let chars = to_chars(path);
    let from = head_of(&chars);
    let end = trim_end(&chars, chars.len(), from);
    assert(chars@.take(chars.len() as int) == chars@);
    let at = segment_start(&chars, end, from);
    assert(chars@.take(end as int).skip(at as int) == chars@.subrange(at as int, end as int));
    if end > from && !(end - at == 2 && chars[at] == '.' && chars[at + 1] == '.') {
        Some(from_chars(&chars, at, end))
    } else {
        proof {
            if end > from {
                assert(chars@.subrange(at as int, end as int) =~= seq!['.', '.']);
            }
        }
        None
    }
}

/// Whether `path` begins at the root.
pub fn is_absolute(path: &str) -> (absolute: bool)
    ensures
        absolute == is_absolute_path(path@),
{
    let chars = to_chars(path);
    begins_at_root(&chars)
}

/// Whether `path` lies in the subtree at `base` or is `base` itself,
/// component by component.
pub fn starts_with(path: &str, base: &str) -> (under: bool)
    ensures
        under == lies_under(path@, base@),
{
    let path_chars = to_chars(path);
    let base_chars = to_chars(base);
    lies_under_chars(&path_chars, &base_chars)
}

} // verus!
