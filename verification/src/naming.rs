//! File names: which ones name a bitmap, and what the converted file is
//! called.
//!
//! A name here is the last component of a path, as a sequence of
//! characters. Matching is exact: `A.BMP` is no bitmap name.

use vstd::prelude::*;

verus! {

/// The directory, below the starting one, that receives the output.
pub const OUTPUT_DIRECTORY: &'static str = "converted";

/// The end of every bitmap name.
pub open spec fn source_suffix() -> Seq<char> {
    seq!['.', 'b', 'm', 'p']
}

/// The end of every converted name.
pub open spec fn target_suffix() -> Seq<char> {
    seq!['.', 'p', 'n', 'g']
}

/// Whether `name` ends in `suffix`.
pub open spec fn ends_with(name: Seq<char>, suffix: Seq<char>) -> bool {
    name.len() >= suffix.len() && name.skip(name.len() - suffix.len()) == suffix
}

/// Whether `name` names a bitmap.
pub open spec fn is_source_name(name: Seq<char>) -> bool {
    ends_with(name, source_suffix())
}

/// The position of the last `.` in `name`, or -1 where it has none.
pub open spec fn last_dot(name: Seq<char>) -> int
    decreases name.len(),
{
    if name.len() == 0 {
        -1
    } else if name.last() == '.' {
        name.len() - 1
    } else {
        last_dot(name.drop_last())
    }
}

/// The name without its extension: what stands before the last `.`, or
/// the whole name where it has no `.` but possibly a leading one.
pub open spec fn stem(name: Seq<char>) -> Seq<char> {
    if last_dot(name) > 0 {
        name.take(last_dot(name))
    } else {
        name
    }
}

/// The name of the file that `name` is converted to.
pub open spec fn target_name(name: Seq<char>) -> Seq<char> {
    stem(name) + target_suffix()
}

/// The path of the file that `name` is converted to, below `dir`. The
/// directory in which the input lies plays no part: inputs of one name
/// from different directories share one output path, and the one written
/// last stays.
pub open spec fn target_path(dir: Seq<char>, name: Seq<char>) -> Seq<char> {
    dir + seq!['/'] + target_name(name)
}

/// `last_dot` finds a `.`, and none follows it.
pub proof fn lemma_last_dot(name: Seq<char>)
    ensures
        -1 <= last_dot(name) < name.len(),
        last_dot(name) >= 0 ==> name[last_dot(name)] == '.',
        forall|j: int| last_dot(name) < j < name.len() ==> name[j] != '.',
    decreases name.len(),
{
    if name.len() > 0 && name.last() != '.' {
        let front = name.drop_last();
        lemma_last_dot(front);
        assert forall|j: int| last_dot(name) < j < name.len() implies name[j] != '.' by {
            if j < front.len() {
                assert(front[j] == name[j]);
            }
        }
    }
}

/// A position that holds a `.` with none behind it is the last one.
pub proof fn lemma_last_dot_is(name: Seq<char>, at: int)
    requires
        0 <= at < name.len(),
        name[at] == '.',
        forall|j: int| at < j < name.len() ==> name[j] != '.',
    ensures
        last_dot(name) == at,
{
    lemma_last_dot(name);
}

/// The converted name ends in the target suffix and, unless the name it
/// was made from is empty, has the same stem.
pub proof fn lemma_target_keeps_stem(name: Seq<char>)
    ensures
        ends_with(target_name(name), target_suffix()),
        name.len() > 0 ==> stem(target_name(name)) == stem(name),
{
    lemma_last_dot(name);
    let s = stem(name);
    let t = target_name(name);
    assert(t.skip(t.len() - 4) =~= target_suffix());
    if name.len() > 0 {
        assert(t[s.len() as int] == '.');
        lemma_last_dot_is(t, s.len() as int);
        assert(t.take(s.len() as int) =~= s);
    }
}

/// A bitmap name that is more than the suffix is converted by changing
/// the suffix.
pub proof fn lemma_source_name_target(name: Seq<char>)
    requires
        is_source_name(name),
        name.len() > 4,
    ensures
        target_name(name) == name.take(name.len() - 4) + target_suffix(),
{
    let at = name.len() - 4;
    let tail = name.skip(at);
    assert(name[at] == tail[0]);
    assert forall|j: int| at < j < name.len() implies name[j] != '.' by {
        assert(name[j] == tail[j - at]);
    }
    lemma_last_dot_is(name, at);
}

/// Whether `name` names a bitmap.
pub fn has_source_extension(name: &str) -> (r: bool)
    ensures
        r == is_source_name(name@),
{
    let n: usize = name.unicode_len();
    if n < 4 {
        return false;
    }
    let dot = name.get_char(n - 4);
    let b = name.get_char(n - 3);
    let m = name.get_char(n - 2);
    let p = name.get_char(n - 1);
    proof {
        let tail = name@.skip(n - 4);
        assert(tail[0] == dot && tail[1] == b && tail[2] == m && tail[3] == p);
        assert(dot == '.' && b == 'b' && m == 'm' && p == 'p' ==> tail =~= source_suffix());
    }
    dot == '.' && b == 'b' && m == 'm' && p == 'p'
}

/// The name without its extension.
pub fn file_stem(name: &str) -> (r: &str)
    ensures
        r@ == stem(name@),
{
    let n: usize = name.unicode_len();
    let mut i: usize = n;
    while i > 0
        invariant
            i <= n,
            n == name@.len(),
            forall|j: int| i <= j < n ==> name@[j] != '.',
        decreases i,
    {
        i -= 1;
        if name.get_char(i) == '.' {
            proof {
                lemma_last_dot_is(name@, i as int);
            }
            if i > 0 {
                return name.substring_char(0, i);
            } else {
                return name;
            }
        }
    }
    proof {
        lemma_last_dot(name@);
    }
    name
}

/// The name of the file that `name` is converted to.
pub fn output_name(name: &str) -> (r: String)
    ensures
        r@ == target_name(name@),
{
    let mut out = String::from_str(file_stem(name));
    proof {
        reveal_strlit(".png");
    }
    out.append(".png");
    assert(".png"@ =~= target_suffix());
    out
}

/// The path of the file that `name` is converted to, below `dir`.
pub fn output_path(dir: &str, name: &str) -> (r: String)
    ensures
        r@ == target_path(dir@, name@),
{
    let mut out = String::from_str(dir);
    proof {
        reveal_strlit("/");
    }
    out.append("/");
    assert("/"@ =~= seq!['/']);
    let file = output_name(name);
    out.append(file.as_str());
    out
}

} // verus!
