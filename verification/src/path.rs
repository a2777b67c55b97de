//! Paths and file contents as byte strings.

use vstd::prelude::*;
use vstd::string::StringSliceAdditionalSpecFns;

verus! {

/// The byte that separates the components of a path.
pub open spec fn separator() -> u8 {
    0x2f
}

/// The path of the entry `name` in the directory `dir`: the two joined by one
/// separator, unless `dir` is empty or already ends in one.
pub open spec fn join(dir: Seq<u8>, name: Seq<u8>) -> Seq<u8> {
    if dir.len() == 0 || dir.last() == separator() {
        dir + name
    } else {
        dir.push(separator()) + name
    }
}

/// Whether `line` begins with `prefix`.
pub open spec fn has_prefix(line: Seq<u8>, prefix: Seq<u8>) -> bool {
    prefix.len() <= line.len() && line.subrange(0, prefix.len() as int) == prefix
}

/// Appends the bytes of `src` to `out`.
pub fn append(out: &mut Vec<u8>, src: &[u8])
    ensures
        final(out)@ == old(out)@ + src@,
{
    let mut i: usize = 0;
    while i < src.len()
        invariant
            i <= src@.len(),
            out@ == old(out)@ + src@.subrange(0, i as int),
        decreases src@.len() - i,
    {
        out.push(src[i]);
        i = i + 1;
        assert(src@.subrange(0, i as int) == src@.subrange(0, i - 1).push(src@[i - 1]));
    }
    assert(src@.subrange(0, i as int) == src@);
}

/// A copy of `src`.
pub fn copy_of(src: &[u8]) -> (r: Vec<u8>)
    ensures
        r@ == src@,
{
    let mut out: Vec<u8> = Vec::new();
    append(&mut out, src);
    out
}

/// The bytes of `text`.
pub fn bytes_of(text: &str) -> (r: Vec<u8>)
    ensures
        r@ == text.spec_bytes(),
{
    let mut out: Vec<u8> = Vec::new();
    append(&mut out, text.as_bytes());
    out
}

/// Joins a directory and the name of an entry in it.
pub fn join_path(dir: &[u8], name: &str) -> (r: Vec<u8>)
    ensures
        r@ == join(dir@, name.spec_bytes()),
{
    let mut out: Vec<u8> = Vec::new();
    append(&mut out, dir);
    if dir.len() > 0 && dir[dir.len() - 1] != 0x2f {
        out.push(0x2f);
    }
    append(&mut out, name.as_bytes());
    out
}

/// Tells whether `line` begins with `prefix`.
pub fn starts_with(line: &[u8], prefix: &[u8]) -> (r: bool)
    ensures
        r == has_prefix(line@, prefix@),
{
    if prefix.len() > line.len() {
        return false;
    }
    let mut i: usize = 0;
    while i < prefix.len()
        invariant
            i <= prefix@.len() <= line@.len(),
            line@.subrange(0, i as int) == prefix@.subrange(0, i as int),
        decreases prefix@.len() - i,
    {
        if line[i] != prefix[i] {
            assert(line@.subrange(0, prefix@.len() as int)[i as int] != prefix@[i as int]);
            return false;
        }
        i = i + 1;
        assert(line@.subrange(0, i as int) == line@.subrange(0, i - 1).push(line@[i - 1]));
        assert(prefix@.subrange(0, i as int) == prefix@.subrange(0, i - 1).push(prefix@[i - 1]));
    }
    assert(prefix@.subrange(0, i as int) == prefix@);
    true
}

} // verus!
