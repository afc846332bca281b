//! POSIX-style path normalization.
//!
//! A path is cut into segments at every `/`. Empty segments and `.` are
//! dropped, `..` removes the segment kept before it (and is dropped where
//! there is none), and what remains is joined with single separators. A
//! leading `/` is kept.

use crate::text::{chars_of, string_of};
use vstd::prelude::*;

verus! {

/// The segment `.`, which stands for the directory itself.
pub open spec fn is_current(segment: Seq<char>) -> bool {
    segment.len() == 1 && segment[0] == '.'
}

/// The segment `..`, which stands for the parent directory.
pub open spec fn is_parent(segment: Seq<char>) -> bool {
    segment.len() == 2 && segment[0] == '.' && segment[1] == '.'
}

/// A segment that names a file or a directory: not empty, neither `.` nor
/// `..`, and free of separators.
pub open spec fn is_name(segment: Seq<char>) -> bool {
    &&& segment.len() > 0
    &&& !is_current(segment)
    &&& !is_parent(segment)
    &&& !segment.contains('/')
}

/// The pieces of `path` between its separators. A path with `n` separators
/// has `n + 1` segments, some of which may be empty.
pub open spec fn segments(path: Seq<char>) -> Seq<Seq<char>>
    decreases path.len(),
{
    if path.len() == 0 {
        seq![Seq::<char>::empty()]
    } else {
        let before = segments(path.drop_last());
        if path.last() == '/' {
            before.push(Seq::<char>::empty())
        } else {
            before.drop_last().push(before.last().push(path.last()))
        }
    }
}

/// The names kept after `segment` has been read behind the names `kept`.
pub open spec fn enter(kept: Seq<Seq<char>>, segment: Seq<char>) -> Seq<Seq<char>> {
    if segment.len() == 0 || is_current(segment) {
        kept
    } else if is_parent(segment) {
        if kept.len() > 0 {
            kept.drop_last()
        } else {
            kept
        }
    } else {
        kept.push(segment)
    }
}

/// The names that remain of `segs` once `.` and `..` are resolved from left
/// to right.
pub open spec fn resolve(segs: Seq<Seq<char>>) -> Seq<Seq<char>>
    decreases segs.len(),
{
    if segs.len() == 0 {
        Seq::<Seq<char>>::empty()
    } else {
        enter(resolve(segs.drop_last()), segs.last())
    }
}

/// The names of `parts` with one separator between neighbours.
pub open spec fn join(parts: Seq<Seq<char>>) -> Seq<char>
    decreases parts.len(),
{
    if parts.len() == 0 {
        Seq::<char>::empty()
    } else {
        let head = join(parts.drop_last());
        if parts.len() == 1 {
            parts.last()
        } else {
            head + seq!['/'] + parts.last()
        }
    }
}

/// Whether `path` starts at the root.
pub open spec fn is_absolute(path: Seq<char>) -> bool {
    path.len() > 0 && path[0] == '/'
}

/// Whether `path` is written as a directory, with a separator at its end.
pub open spec fn has_trailing_slash(path: Seq<char>) -> bool {
    path.len() > 0 && path.last() == '/'
}

/// The normal form of `path`.
pub open spec fn normalized(path: Seq<char>) -> Seq<char> {
    let body = join(resolve(segments(path)));
    if is_absolute(path) {
        seq!['/'] + body
    } else {
        body
    }
}

/// Whether no piece of `parts` holds a separator.
pub open spec fn slash_free(parts: Seq<Seq<char>>) -> bool {
    forall|k: int| 0 <= k < parts.len() ==> !(#[trigger] parts[k]).contains('/')
}

/// Whether every piece of `parts` is a name.
pub open spec fn all_names(parts: Seq<Seq<char>>) -> bool {
    forall|k: int| 0 <= k < parts.len() ==> is_name(#[trigger] parts[k])
}

/// No segment of a path holds a separator.
pub proof fn lemma_segments_slash_free(path: Seq<char>)
    ensures
        slash_free(segments(path)),
    decreases path.len(),
{
    if path.len() > 0 {
        let before = segments(path.drop_last());
        lemma_segments_slash_free(path.drop_last());
        lemma_segments_nonempty(path.drop_last());
        if path.last() != '/' {
            let grown = before.last().push(path.last());
            assert forall|j: int| 0 <= j < grown.len() implies grown[j] != '/' by {
                if j < before.last().len() {
                    assert(before.last().contains(grown[j]));
                }
            }
        }
    }
}

/// Resolving separator-free segments leaves names only.
pub proof fn lemma_resolve_names(segs: Seq<Seq<char>>)
    requires
        slash_free(segs),
    ensures
        all_names(resolve(segs)),
    decreases segs.len(),
{
    if segs.len() > 0 {
        lemma_resolve_names(segs.drop_last());
    }
}

/// A text without separators is its own single segment.
proof fn lemma_segments_of_name(name: Seq<char>)
    requires
        !name.contains('/'),
    ensures
        segments(name) == seq![name],
    decreases name.len(),
{
    if name.len() > 0 {
        let init = name.drop_last();
        assert forall|j: int| 0 <= j < init.len() implies init[j] != '/' by {
            assert(name.contains(name[j]));
        }
        lemma_segments_of_name(init);
        assert(name.contains(name.last()));
        assert(init.push(name.last()) =~= name);
        assert(seq![init].drop_last().push(name) =~= seq![name]);
    } else {
        assert(name =~= Seq::<char>::empty());
    }
}

/// A separator and a text without separators add one segment.
proof fn lemma_segments_append(path: Seq<char>, name: Seq<char>)
    requires
        !name.contains('/'),
    ensures
        segments(path + seq!['/'] + name) == segments(path).push(name),
    decreases name.len(),
{
    let whole = path + seq!['/'] + name;
    if name.len() == 0 {
        assert(whole.drop_last() =~= path);
        assert(name =~= Seq::<char>::empty());
    } else {
        let init = name.drop_last();
        assert forall|j: int| 0 <= j < init.len() implies init[j] != '/' by {
            assert(name.contains(name[j]));
        }
        lemma_segments_append(path, init);
        assert(name.contains(name.last()));
        assert(whole.drop_last() =~= path + seq!['/'] + init);
        assert(whole.last() == name.last());
        assert(segments(path).push(init).drop_last() =~= segments(path));
        assert(init.push(name.last()) =~= name);
    }
}

/// Pieces without separators that are joined are cut again into the same
/// pieces.
pub proof fn segments_of_join(parts: Seq<Seq<char>>)
    requires
        parts.len() > 0,
        slash_free(parts),
    ensures
        segments(join(parts)) == parts,
    decreases parts.len(),
{
    if parts.len() == 1 {
        lemma_segments_of_name(parts[0]);
        assert(seq![parts[0]] =~= parts);
    } else {
        let init = parts.drop_last();
        segments_of_join(init);
        lemma_segments_append(join(init), parts.last());
        assert(init.push(parts.last()) =~= parts);
    }
}

/// A separator in front adds one empty segment in front.
proof fn lemma_segments_behind_root(path: Seq<char>)
    ensures
        segments(seq!['/'] + path) == seq![Seq::<char>::empty()] + segments(path),
    decreases path.len(),
{
    let empty = Seq::<char>::empty();
    let whole = seq!['/'] + path;
    if path.len() == 0 {
        assert(path =~= empty);
        assert(whole.drop_last() =~= empty);
        assert(segments(whole.drop_last()) == seq![empty]);
        assert(seq![empty].push(empty) =~= seq![empty] + seq![empty]);
    } else {
        let init = path.drop_last();
        lemma_segments_behind_root(init);
        lemma_segments_nonempty(init);
        assert(whole.drop_last() =~= seq!['/'] + init);
        assert(whole.last() == path.last());
        let before = segments(init);
        if path.last() == '/' {
            assert((seq![empty] + before).push(empty) =~= seq![empty] + before.push(empty));
        } else {
            let grown = before.last().push(path.last());
            assert((seq![empty] + before).drop_last().push(grown) =~= seq![empty]
                + before.drop_last().push(grown));
        }
    }
}

/// Names behind any segments are all kept.
proof fn lemma_resolve_append_names(segs: Seq<Seq<char>>, names: Seq<Seq<char>>)
    requires
        all_names(names),
    ensures
        resolve(segs + names) == resolve(segs) + names,
    decreases names.len(),
{
    if names.len() == 0 {
        assert(segs + names =~= segs);
        assert(resolve(segs) + names =~= resolve(segs));
    } else {
        let init = names.drop_last();
        lemma_resolve_append_names(segs, init);
        assert((segs + names).drop_last() =~= segs + init);
        assert((segs + names).last() == names.last());
        assert(is_name(names[names.len() - 1]));
        assert((resolve(segs) + init).push(names.last()) =~= resolve(segs) + names);
    }
}

/// Joined names start with the first of them.
proof fn lemma_join_first(parts: Seq<Seq<char>>)
    requires
        parts.len() > 0,
        parts[0].len() > 0,
    ensures
        join(parts).len() > 0,
        join(parts)[0] == parts[0][0],
    decreases parts.len(),
{
    if parts.len() > 1 {
        lemma_join_first(parts.drop_last());
    }
}

/// Joined names end with the last of them.
proof fn lemma_join_last(parts: Seq<Seq<char>>)
    requires
        parts.len() > 0,
        parts.last().len() > 0,
    ensures
        join(parts).len() > 0,
        join(parts).last() == parts.last().last(),
{
}

/// Normalizing keeps the root mark and adds none.
pub proof fn normalized_keeps_root(path: Seq<char>)
    ensures
        is_absolute(normalized(path)) == is_absolute(path),
{
    let names = resolve(segments(path));
    lemma_segments_slash_free(path);
    lemma_resolve_names(segments(path));
    if !is_absolute(path) && names.len() > 0 {
        lemma_join_first(names);
        assert(is_name(names[0]));
        assert(names[0].contains(names[0][0]));
    }
}

/// Normalizing twice is normalizing once.
pub proof fn normalize_idempotent(path: Seq<char>)
    ensures
        normalized(normalized(path)) == normalized(path),
{
    let empty = Seq::<char>::empty();
    let none = Seq::<Seq<char>>::empty();
    let names = resolve(segments(path));
    let once = normalized(path);
    lemma_segments_slash_free(path);
    lemma_resolve_names(segments(path));
    normalized_keeps_root(path);
    assert(slash_free(names)) by {
        assert forall|k: int| 0 <= k < names.len() implies !(#[trigger] names[k]).contains(
            '/',
        ) by {
            assert(is_name(names[k]));
        }
    }
    assert(resolve(seq![empty]) =~= none) by {
        assert(seq![empty].drop_last() =~= none);
        assert(resolve(none) =~= none);
    }
    if names.len() == 0 {
        if is_absolute(path) {
            assert(once =~= seq!['/'] + empty);
            lemma_segments_behind_root(empty);
            assert(segments(once) =~= seq![empty] + seq![empty]);
            assert((seq![empty] + seq![empty]).drop_last() =~= seq![empty]);
            assert(resolve(segments(once)) =~= none);
        } else {
            assert(once =~= empty);
            assert(resolve(segments(once)) =~= none);
        }
    } else {
        segments_of_join(names);
        if is_absolute(path) {
            lemma_segments_behind_root(join(names));
            lemma_resolve_append_names(seq![empty], names);
            assert(none + names =~= names);
        } else {
            lemma_resolve_append_names(none, names);
            assert(none + names =~= names);
        }
        assert(resolve(segments(once)) == names);
    }
}

/// A normal form holds no empty segment, no `.` and no `..`: it is the root
/// mark, if any, and names with single separators between them.
pub proof fn normalized_is_joined_names(path: Seq<char>)
    ensures
        all_names(resolve(segments(path))),
        normalized(path) == (if is_absolute(path) {
            seq!['/']
        } else {
            Seq::<char>::empty()
        }) + join(resolve(segments(path))),
{
    lemma_segments_slash_free(path);
    lemma_resolve_names(segments(path));
    assert(join(resolve(segments(path))) =~= Seq::<char>::empty() + join(
        resolve(segments(path)),
    ));
}

/// A normal form ends in a separator only where it is the root alone.
pub proof fn normalized_trailing_slash(path: Seq<char>)
    ensures
        has_trailing_slash(normalized(path)) ==> normalized(path) == seq!['/'],
{
    let names = resolve(segments(path));
    lemma_segments_slash_free(path);
    lemma_resolve_names(segments(path));
    if names.len() > 0 {
        assert(is_name(names[names.len() - 1]));
        lemma_join_last(names);
        let last = names.last();
        assert(last.contains(last.last()));
    } else if is_absolute(path) {
        assert(normalized(path) =~= seq!['/']);
    }
}

/// Three paths and their normal forms: a parent segment removes the name
/// before it, a parent segment without a name before it is dropped, and an
/// absolute path without special segments stays as it is.
pub proof fn normalized_examples()
    ensures
        normalized("downloads/../downloads/file.txt"@) == "downloads/file.txt"@,
        normalized("nested/../../file.txt"@) == "file.txt"@,
        normalized("/absolute/path.txt"@) == "/absolute/path.txt"@,
{
    reveal_strlit("downloads/../downloads/file.txt");
    reveal_strlit("downloads/file.txt");
    reveal_strlit("nested/../../file.txt");
    reveal_strlit("file.txt");
    reveal_strlit("/absolute/path.txt");
    reveal_strlit("downloads");
    reveal_strlit("nested");
    reveal_strlit("absolute");
    reveal_strlit("path.txt");
    reveal_strlit("..");
    reveal_strlit("");
    reveal_with_fuel(join, 5);
    reveal_with_fuel(resolve, 5);
    let first = seq!["downloads"@, ".."@, "downloads"@, "file.txt"@];
    let second = seq!["nested"@, ".."@, ".."@, "file.txt"@];
    let third = seq![""@, "absolute"@, "path.txt"@];
    assert("downloads/../downloads/file.txt"@ =~= join(first));
    assert("nested/../../file.txt"@ =~= join(second));
    assert("/absolute/path.txt"@ =~= join(third));
    segments_of_join(first);
    segments_of_join(second);
    segments_of_join(third);
    assert(resolve(first) =~= seq!["downloads"@, "file.txt"@]);
    assert(resolve(second) =~= seq!["file.txt"@]);
    assert(resolve(third) =~= seq!["absolute"@, "path.txt"@]);
    assert(normalized("downloads/../downloads/file.txt"@) =~= "downloads/file.txt"@);
    assert(normalized("nested/../../file.txt"@) =~= "file.txt"@);
    assert(normalized("/absolute/path.txt"@) =~= "/absolute/path.txt"@);
}

/// The pieces of `chars` that the index pairs of `ranges` delimit.
spec fn pieces(chars: Seq<char>, ranges: Seq<(usize, usize)>) -> Seq<Seq<char>> {
    Seq::new(ranges.len(), |k: int| chars.subrange(ranges[k].0 as int, ranges[k].1 as int))
}

/// Whether every pair of `ranges` delimits a piece of a text of `len` characters.
spec fn in_bounds(ranges: Seq<(usize, usize)>, len: int) -> bool {
    forall|k: int| 0 <= k < ranges.len() ==> (#[trigger] ranges[k]).0 <= ranges[k].1 <= len
}

pub proof fn lemma_segments_nonempty(path: Seq<char>)
    ensures
        segments(path).len() >= 1,
    decreases path.len(),
{
    if path.len() > 0 {
        lemma_segments_nonempty(path.drop_last());
    }
}

/// Reading one more character either opens a new segment or extends the last.
pub proof fn lemma_segments_step(chars: Seq<char>, i: int)
    requires
        0 <= i < chars.len(),
    ensures
        segments(chars.take(i)).len() >= 1,
        chars[i] == '/' ==> segments(chars.take(i + 1)) == segments(chars.take(i)).push(
            Seq::<char>::empty(),
        ),
        chars[i] != '/' ==> segments(chars.take(i + 1)) == segments(
            chars.take(i),
        ).drop_last().push(segments(chars.take(i)).last().push(chars[i])),
{
    lemma_segments_nonempty(chars.take(i));
    assert(chars.take(i + 1).drop_last() =~= chars.take(i));
    assert(chars.take(i + 1).last() == chars[i]);
}

/// Reads the segment `chars[start..end]` behind the names already kept.
fn enter_range(chars: &Vec<char>, kept: &mut Vec<(usize, usize)>, start: usize, end: usize)
    requires
        start <= end <= chars.len(),
        in_bounds(old(kept)@, chars.len() as int),
    ensures
        in_bounds(final(kept)@, chars.len() as int),
        pieces(chars@, final(kept)@) == enter(
            pieces(chars@, old(kept)@),
            chars@.subrange(start as int, end as int),
        ),
{
    let ghost segment = chars@.subrange(start as int, end as int);
    let len: usize = end - start;
    if len == 0 || (len == 1 && chars[start] == '.') {
        assert(segment.len() == 0 || is_current(segment));
    } else if len == 2 && chars[start] == '.' && chars[start + 1] == '.' {
        assert(is_parent(segment));
        if kept.len() > 0 {
            kept.pop();
            assert(pieces(chars@, kept@) =~= pieces(chars@, old(kept)@).drop_last());
        }
    } else {
        assert(!is_current(segment) && !is_parent(segment)) by {
            assert(segment[0] == chars[start as int]);
            if len == 2 {
                assert(segment[1] == chars[start + 1]);
            }
        }
        kept.push((start, end));
        assert(pieces(chars@, kept@) =~= pieces(chars@, old(kept)@).push(segment));
    }
}

/// The index pairs of the names that remain of `chars`.
fn resolve_ranges(chars: &Vec<char>) -> (kept: Vec<(usize, usize)>)
    ensures
        in_bounds(kept@, chars.len() as int),
        pieces(chars@, kept@) == resolve(segments(chars@)),
{
    let mut kept: Vec<(usize, usize)> = Vec::new();
    let mut start: usize = 0;
    let mut i: usize = 0;
    proof {
        assert(chars@.take(0) =~= Seq::<char>::empty());
        assert(segments(chars@.take(0)).drop_last() =~= Seq::<Seq<char>>::empty());
        assert(pieces(chars@, kept@) =~= Seq::<Seq<char>>::empty());
        assert(chars@.subrange(0, 0) =~= Seq::<char>::empty());
    }
    while i < chars.len()
        invariant
            start <= i <= chars.len(),
            in_bounds(kept@, chars.len() as int),
            segments(chars@.take(i as int)).len() >= 1,
            segments(chars@.take(i as int)).last() == chars@.subrange(start as int, i as int),
            pieces(chars@, kept@) == resolve(segments(chars@.take(i as int)).drop_last()),
        decreases chars.len() - i,
    {
        proof {
            lemma_segments_step(chars@, i as int);
        }
        let ghost before = segments(chars@.take(i as int));
        if chars[i] == '/' {
            enter_range(chars, &mut kept, start, i);
            start = i + 1;
            proof {
                assert(before.push(Seq::<char>::empty()).drop_last() =~= before);
                assert(chars@.subrange(start as int, i + 1) =~= Seq::<char>::empty());
            }
        } else {
            proof {
                let grown = before.last().push(chars@[i as int]);
                assert(before.drop_last().push(grown).drop_last() =~= before.drop_last());
                assert(chars@.subrange(start as int, i + 1) =~= grown);
            }
        }
        i += 1;
    }
    proof {
        assert(chars@.take(i as int) =~= chars@);
        let all = segments(chars@);
        assert(all =~= all.drop_last().push(all.last()));
    }
    enter_range(chars, &mut kept, start, i);
    kept
}

/// Writes the pieces that `kept` delimits behind the root mark, if any, with
/// one separator between neighbours.
fn join_ranges(chars: &Vec<char>, kept: &Vec<(usize, usize)>, absolute: bool) -> (out: Vec<char>)
    requires
        in_bounds(kept@, chars.len() as int),
    ensures
        out@ == (if absolute {
            seq!['/']
        } else {
            Seq::<char>::empty()
        }) + join(pieces(chars@, kept@)),
{
    let ghost root = if absolute {
        seq!['/']
    } else {
        Seq::<char>::empty()
    };
    let ghost parts = pieces(chars@, kept@);
    let mut out: Vec<char> = Vec::new();
    if absolute {
        out.push('/');
    }
    let mut k: usize = 0;
    proof {
        assert(parts.take(0) =~= Seq::<Seq<char>>::empty());
        assert(out@ =~= root + join(parts.take(0)));
    }
    while k < kept.len()
        invariant
            k <= kept.len(),
            in_bounds(kept@, chars.len() as int),
            parts == pieces(chars@, kept@),
            out@ == root + join(parts.take(k as int)),
        decreases kept.len() - k,
    {
        let ghost done = join(parts.take(k as int));
        let ghost lead = if k > 0 {
            done + seq!['/']
        } else {
            Seq::<char>::empty()
        };
        proof {
            assert(parts.take(k + 1).drop_last() =~= parts.take(k as int));
            if k == 0 {
                assert(done =~= Seq::<char>::empty());
            }
        }
        if k > 0 {
            out.push('/');
        }
        let (start, end) = kept[k];
        let mut j: usize = start;
        proof {
            assert(chars@.subrange(start as int, j as int) =~= Seq::<char>::empty());
            assert(out@ =~= root + (lead + chars@.subrange(start as int, j as int)));
        }
        while j < end
            invariant
                start <= j <= end <= chars.len(),
                out@ == root + (lead + chars@.subrange(start as int, j as int)),
            decreases end - j,
        {
            out.push(chars[j]);
            proof {
                assert(chars@.subrange(start as int, j + 1) =~= chars@.subrange(
                    start as int,
                    j as int,
                ).push(chars@[j as int]));
                assert(out@ =~= root + (lead + chars@.subrange(start as int, j + 1)));
            }
            j += 1;
        }
        proof {
            let piece = chars@.subrange(start as int, end as int);
            assert(parts.take(k + 1).last() == piece);
            assert(join(parts.take(k + 1)) =~= lead + piece);
        }
        k += 1;
    }
    proof {
        assert(parts.take(k as int) =~= parts);
    }
    out
}

/// Brings `path` into its normal form.
pub fn normalize(path: &str) -> (out: String)
    ensures
        out@ == normalized(path@),
{
    let chars = chars_of(path);
    let kept = resolve_ranges(&chars);
    let absolute = chars.len() > 0 && chars[0] == '/';
    let out = join_ranges(&chars, &kept, absolute);
    string_of(&out)
}

} // verus!
