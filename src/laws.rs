use vstd::prelude::*;
use crate::patch::{hunk_ranges_short, patch_error, patched};
use crate::service::{
    data, spec_close, spec_finish_read, spec_finish_write, spec_plan_remove, spec_plan_write,
    spec_read_cached, spec_removed, text, EntryKind, Removal, ResponseView, Status,
};

verus! {

/// Reading a path that is not cached caches exactly one handle for it, the
/// one just opened, and touches no other entry. The next read finds that
/// handle, and when it yields the same content the two responses are equal.
pub proof fn lemma_read_twice<H>(c: Map<Seq<char>, H>, p: Seq<char>, h: H, d: Seq<u8>)
    requires
        !c.contains_key(p),
    ensures
        ({
            let (c1, r1) = spec_finish_read(c, p, Ok((h, d)));
            &&& c1.contains_key(p)
            &&& c1[p] == h
            &&& c1.dom() == c.dom().insert(p)
            &&& forall|k: Seq<char>| k != p && #[trigger] c.contains_key(k) ==> c1[k] == c[k]
            &&& spec_read_cached(Ok(d)) == r1
        }),
{
    let (c1, r1) = spec_finish_read(c, p, Ok((h, d)));
    assert(c1.dom() =~= c.dom().insert(p));
}

/// A failed read leaves the cache as it was.
pub proof fn lemma_failed_read_keeps_cache<H>(c: Map<Seq<char>, H>, p: Seq<char>, e: Seq<char>)
    ensures
        spec_finish_read(c, p, Err(e)) == (c, text(Status::NotAcceptable, e)),
{
}

/// A write computes `patched(pre, patch)` from the current content `pre`
/// and caches the handle that stores it, so a read that follows is served
/// that content. A patch that does not parse or apply ends the write with
/// the applier's message before anything is stored.
pub proof fn lemma_write_then_read<H>(
    c: Map<Seq<char>, H>,
    p: Seq<char>,
    pre: Seq<u8>,
    patch: Seq<u8>,
    h: H,
)
    requires
        hunk_ranges_short(patch),
    ensures
        patched(pre, patch) is Some ==> {
            let v = patched(pre, patch)->0;
            &&& spec_plan_write(Ok(pre), patch) == Ok::<Seq<u8>, ResponseView>(v)
            &&& spec_finish_write(c, p, Ok(h)).0 == c.insert(p, h)
            &&& spec_finish_write(c, p, Ok(h)).1 == text(Status::Success, "POST write to file "@ + p)
            &&& spec_read_cached(Ok(v)) == data(v)
        },
        patched(pre, patch) is None ==> spec_plan_write(Ok(pre), patch) == Err::<Seq<u8>, ResponseView>(
            text(Status::NotAcceptable, patch_error(pre, patch)),
        ),
{
}

/// A write whose patched content could not be stored leaves the cache as
/// it was: it never points at content that was not fully written.
pub proof fn lemma_failed_write_keeps_cache<H>(c: Map<Seq<char>, H>, p: Seq<char>, e: Seq<char>)
    ensures
        spec_finish_write(c, p, Err(e)) == (c, text(Status::NotAcceptable, e)),
{
}

/// Closing an uncached path is an error and changes nothing; closing a
/// cached path evicts it, so the next read opens the file afresh.
pub proof fn lemma_close<H>(c: Map<Seq<char>, H>, p: Seq<char>)
    ensures
        !c.contains_key(p) ==> spec_close(c, p) == (c, text(Status::NotAcceptable, "Not exists"@)),
        c.contains_key(p) ==> {
            &&& spec_close(c, p).0 == c.remove(p)
            &&& !spec_close(c, p).0.contains_key(p)
            &&& spec_close(c, p).1.status == Status::Success
        },
{
}

/// Removing evicts the path whether or not it was open, never fails on
/// that account, removes a directory as a directory (with what it holds)
/// and a file as a file, and refuses any other kind of entry.
pub proof fn lemma_remove<H>(c: Map<Seq<char>, H>, p: Seq<char>)
    ensures
        !c.contains_key(p) ==> spec_plan_remove(c, p, Ok(EntryKind::File)) == (c, Ok::<Removal, ResponseView>(Removal::File)),
        spec_plan_remove(c, p, Ok(EntryKind::Directory)) == (c.remove(p), Ok::<Removal, ResponseView>(Removal::Directory)),
        spec_plan_remove(c, p, Ok(EntryKind::File)) == (c.remove(p), Ok::<Removal, ResponseView>(Removal::File)),
        spec_plan_remove(c, p, Ok(EntryKind::Other)).1 == Err::<Removal, ResponseView>(
            text(Status::NotAcceptable, "Unsupported file type"@),
        ),
        spec_removed(p, Removal::Directory, Ok(())) == text(Status::Success, "GET remove directory "@ + p),
        spec_removed(p, Removal::File, Ok(())) == text(Status::Success, "GET remove file "@ + p),
{
    if !c.contains_key(p) {
        assert(c.remove(p) =~= c);
    }
}

} // verus!
