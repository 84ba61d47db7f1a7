use vstd::prelude::*;
use vstd::utf8::{decode_utf8, encode_utf8, valid_utf8};

use crate::command::{bytes_of, succeeded, ErrorModel, OutcomeModel};
use crate::directives::{metadata_entries, rerun_line, rerun_lines, source_path};
use crate::paths::{
    is_path, joined, listed_names, names_from, parent_of, tracked_paths, without_newline, NUL,
    SEPARATOR,
};
use crate::resolver::{
    bare_revision, initial, run, tag_of, transition, ActionModel, PhaseModel, ResolverModel,
};
use crate::text::trimmed;

verus! {

/// A run that succeeded and printed `stdout`.
pub open spec fn printed(stdout: Seq<u8>) -> OutcomeModel {
    OutcomeModel::Exited { code: Some(0i32), stdout }
}

/// The end of a resolution that yields the revision `r`.
pub open spec fn yields(r: Seq<char>) -> Option<Result<Option<Seq<char>>, ErrorModel>> {
    Some(Ok(Some(r)))
}

/// Without a working `git`, or outside any repository, a resolution ends at
/// its first outcome with no revision and no error, and writes one warning.
pub proof fn lemma_unavailable_outside_repository(
    mark_changes: bool,
    discover: bool,
    text_paths: bool,
    sources: Seq<Seq<u8>>,
    probe: OutcomeModel,
)
    requires
        !succeeded(probe),
    ensures
        transition(initial(mark_changes, discover, text_paths, sources), probe).action
            == ActionModel::Finish(Ok(None)),
        transition(initial(mark_changes, discover, text_paths, sources), probe).lines.len() == 1,
{
}

/// The paths that `git` printed for the working tree's top, the tracked
/// files and the metadata directory are paths on the platform.
pub open spec fn paths_readable(text_paths: bool, top: Seq<u8>, listing: Seq<u8>, git_dir: Seq<u8>) -> bool {
    &&& is_path(without_newline(top), text_paths)
    &&& is_path(listing, text_paths)
    &&& is_path(without_newline(git_dir), text_paths)
}

/// With `HEAD` at a tag and no local changes, the revision is the tag as
/// `describe` printed it, trimmed.
pub proof fn lemma_clean_tag(
    text_paths: bool,
    top: Seq<u8>,
    listing: Seq<u8>,
    git_dir: Seq<u8>,
    tag: Seq<u8>,
)
    requires
        paths_readable(text_paths, top, listing, git_dir),
        valid_utf8(tag),
        trimmed(decode_utf8(tag)).len() > 0,
    ensures
        run(
            initial(true, true, text_paths, Seq::empty()),
            seq![
                printed(Seq::empty()),
                printed(top),
                printed(listing),
                printed(git_dir),
                printed(tag),
                printed(Seq::empty()),
            ],
        ).1 == yields(trimmed(decode_utf8(tag))),
{
    reveal_with_fuel(run, 7);
}

/// With `HEAD` at a tag and local changes to tracked files, the revision is
/// the tag followed by one `+`.
pub proof fn lemma_modified_tag(
    text_paths: bool,
    top: Seq<u8>,
    listing: Seq<u8>,
    git_dir: Seq<u8>,
    tag: Seq<u8>,
    changes: Seq<u8>,
)
    requires
        paths_readable(text_paths, top, listing, git_dir),
        valid_utf8(tag),
        trimmed(decode_utf8(tag)).len() > 0,
        changes.len() > 0,
    ensures
        run(
            initial(true, true, text_paths, Seq::empty()),
            seq![
                printed(Seq::empty()),
                printed(top),
                printed(listing),
                printed(git_dir),
                printed(tag),
                printed(changes),
            ],
        ).1 == yields(trimmed(decode_utf8(tag)).push('+')),
{
    reveal_with_fuel(run, 7);
}

/// With no tag at `HEAD` and no local changes, the revision is the short
/// hash as `rev-parse --short` printed it, trimmed.
pub proof fn lemma_short_hash(
    text_paths: bool,
    top: Seq<u8>,
    listing: Seq<u8>,
    git_dir: Seq<u8>,
    no_tag: OutcomeModel,
    hash: Seq<u8>,
)
    requires
        paths_readable(text_paths, top, listing, git_dir),
        tag_of(no_tag) is None,
        valid_utf8(hash),
        trimmed(decode_utf8(hash)).len() > 0,
    ensures
        run(
            initial(true, true, text_paths, Seq::empty()),
            seq![
                printed(Seq::empty()),
                printed(top),
                printed(listing),
                printed(git_dir),
                no_tag,
                printed(hash),
                printed(Seq::empty()),
            ],
        ).1 == yields(trimmed(decode_utf8(hash))),
{
    reveal_with_fuel(run, 8);
}

/// A resolution that does not mark local changes never looks for them: each
/// step keeps it so, and a revision it ends with is the trimmed output of
/// `describe` or the bare revision, with nothing appended.
pub proof fn lemma_bare_never_marks(s: ResolverModel, o: OutcomeModel)
    requires
        !s.mark_changes,
        !(s.phase is Status),
    ensures
        !transition(s, o).next.mark_changes,
        !(transition(s, o).next.phase is Status),
        s.phase is Describe ==> (transition(s, o).action matches ActionModel::Finish(Ok(Some(r)))
            ==> (tag_of(o) is Some && r == tag_of(o)->Some_0)),
        s.phase matches PhaseModel::ShortHash { tag } ==> (transition(s, o).action matches ActionModel::Finish(
            Ok(Some(r)),
        ) ==> bare_revision(tag, o) is Ok && r == bare_revision(tag, o)->Ok_0),
        !(s.phase is Describe || s.phase is ShortHash) ==> !(transition(s, o).action matches ActionModel::Finish(
            Ok(Some(_)),
        )),
{
}

/// The first byte of a text that starts with an ASCII character.
proof fn lemma_first_byte(chars: Seq<char>)
    requires
        chars.len() > 0,
        chars[0] as u32 <= 0x7f,
    ensures
        encode_utf8(chars)[0] == (chars[0] as u32 & 0x7f) as u8,
{
}

/// The directives always start with the head reference, the index and the
/// references of the metadata directory, in that order, followed by one for
/// each source in order. Where the directory is printed as a path that ends
/// in no separator, each of the first three is that path, a separator and the
/// entry's name.
pub proof fn lemma_directives(git_dir: Seq<u8>, sources: Seq<Seq<u8>>, rooted: bool)
    ensures
        rerun_lines(git_dir, sources, rooted).len() == 3 + sources.len(),
        rerun_lines(git_dir, sources, rooted)[0] == rerun_line(joined(without_newline(git_dir), bytes_of("HEAD"))),
        rerun_lines(git_dir, sources, rooted)[1] == rerun_line(joined(without_newline(git_dir), bytes_of("index"))),
        rerun_lines(git_dir, sources, rooted)[2] == rerun_line(joined(without_newline(git_dir), bytes_of("refs/"))),
        forall|i: int|
            0 <= i < sources.len() ==> #[trigger] rerun_lines(git_dir, sources, rooted)[3 + i] == rerun_line(
                source_path(parent_of(without_newline(git_dir)), sources[i], rooted),
            ),
        without_newline(git_dir).len() > 0 && without_newline(git_dir).last() != SEPARATOR ==> forall|k: int|
            0 <= k < 3 ==> #[trigger] rerun_lines(git_dir, sources, rooted)[k] == rerun_line(
                without_newline(git_dir).push(SEPARATOR) + metadata_entries()[k],
            ),
{
    reveal_strlit("HEAD");
    reveal_strlit("index");
    reveal_strlit("refs/");
    lemma_first_byte("HEAD"@);
    lemma_first_byte("index"@);
    lemma_first_byte("refs/"@);
    assert((0x48u32 & 0x7f) as u8 == 0x48u8) by (bit_vector);
    assert((0x69u32 & 0x7f) as u8 == 0x69u8) by (bit_vector);
    assert((0x72u32 & 0x7f) as u8 == 0x72u8) by (bit_vector);
    let lines = rerun_lines(git_dir, sources, rooted);
    assert forall|i: int| 0 <= i < sources.len() implies #[trigger] lines[3 + i] == rerun_line(
        source_path(parent_of(without_newline(git_dir)), sources[i], rooted),
    ) by {
        assert(lines[3 + i] == sources.map_values(
            |p: Seq<u8>| rerun_line(source_path(parent_of(without_newline(git_dir)), p, rooted)),
        )[i]);
    }
}

/// A listing whose names are each followed by a NUL.
pub open spec fn nul_terminated(names: Seq<Seq<u8>>) -> Seq<u8>
    decreases names.len(),
{
    if names.len() == 0 {
        Seq::empty()
    } else {
        names[0].push(NUL) + nul_terminated(names.drop_first())
    }
}

/// Bytes other than NUL are gathered into the name being read.
proof fn lemma_names_gather(word: Seq<u8>, rest: Seq<u8>, current: Seq<u8>)
    requires
        !word.contains(NUL),
    ensures
        names_from(word + rest, current) == names_from(rest, current + word),
    decreases word.len(),
{
    if word.len() > 0 {
        assert((word + rest).drop_first() =~= word.drop_first() + rest);
        assert(!word.drop_first().contains(NUL)) by {
            if word.drop_first().contains(NUL) {
                let j = choose|j: int| 0 <= j < word.drop_first().len() && word.drop_first()[j] == NUL;
                assert(word[j + 1] == NUL);
            }
        }
        assert(word[0] != NUL) by {
            if word[0] == NUL {
                assert(word.contains(NUL));
            }
        }
        lemma_names_gather(word.drop_first(), rest, current.push(word[0]));
        assert(current.push(word[0]) + word.drop_first() =~= current + word);
    } else {
        assert(word + rest =~= rest);
        assert(current + word =~= current);
    }
}

/// A NUL-separated listing is read back as the names it was made of, whatever
/// other bytes they hold (spaces, a leading `-`), as long as none is empty or
/// holds a NUL.
pub proof fn lemma_listing_names(names: Seq<Seq<u8>>)
    requires
        forall|i: int| 0 <= i < names.len() ==> #[trigger] names[i].len() > 0 && !names[i].contains(NUL),
    ensures
        listed_names(nul_terminated(names)) == names,
    decreases names.len(),
{
    if names.len() > 0 {
        let w = names[0];
        let tail = nul_terminated(names.drop_first());
        assert(nul_terminated(names) =~= w + (seq![NUL] + tail));
        lemma_names_gather(w, seq![NUL] + tail, Seq::empty());
        assert(Seq::<u8>::empty() + w =~= w);
        assert((seq![NUL] + tail).drop_first() =~= tail);
        assert forall|i: int| 0 <= i < names.drop_first().len() implies #[trigger] names.drop_first()[i].len() > 0
            && !names.drop_first()[i].contains(NUL) by {
            assert(names.drop_first()[i] == names[i + 1]);
        }
        lemma_listing_names(names.drop_first());
        assert(seq![w] + names.drop_first() =~= names);
    } else {
        assert(listed_names(Seq::empty()) == Seq::<Seq<u8>>::empty());
    }
}

/// An empty repository lists no file, and so adds no directive to the three
/// of the metadata directory.
pub proof fn lemma_empty_listing(top: Seq<u8>, git_dir: Seq<u8>)
    ensures
        tracked_paths(top, Seq::empty()).len() == 0,
        rerun_lines(git_dir, tracked_paths(top, Seq::empty()), true).len() == 3,
{
}

/// The end of a resolution that yields the bare revision from the outcomes
/// of `describe` and of `rev-parse --short`.
pub open spec fn bare_end(tag: OutcomeModel, short_hash: OutcomeModel) -> Option<
    Result<Option<Seq<char>>, ErrorModel>,
> {
    match bare_revision(tag, short_hash) {
        Ok(r) => yields(r),
        Err(e) => Some(Err(e)),
    }
}

/// Once the repository is found, a resolution that does not mark changes
/// ends with the bare revision, whatever the sources and the metadata
/// directory: two resolutions on a repository whose tag and hash did not
/// change end alike.
pub proof fn lemma_bare_repeatable(
    text_paths: bool,
    sources: Seq<Seq<u8>>,
    git_dir: Seq<u8>,
    tag: OutcomeModel,
    short_hash: OutcomeModel,
)
    requires
        is_path(without_newline(git_dir), text_paths),
    ensures
        run(
            initial(false, false, text_paths, sources),
            seq![printed(Seq::empty()), printed(git_dir), tag, short_hash],
        ).1 == bare_end(tag, short_hash),
{
    reveal_with_fuel(run, 5);
}

/// Where the sources are the tracked files, the directives after the three
/// of the metadata directory are the working tree's top joined with each
/// listed name, in the order of the listing.
pub proof fn lemma_discovered_directives(
    mark_changes: bool,
    text_paths: bool,
    top: Seq<u8>,
    listing: Seq<u8>,
    git_dir: Seq<u8>,
)
    requires
        paths_readable(text_paths, top, listing, git_dir),
    ensures
        run(
            initial(mark_changes, true, text_paths, Seq::empty()),
            seq![printed(Seq::empty()), printed(top), printed(listing), printed(git_dir)],
        ).0 == rerun_lines(git_dir, tracked_paths(without_newline(top), listing), true),
        rerun_lines(git_dir, tracked_paths(without_newline(top), listing), true).len() == 3
            + listed_names(listing).len(),
        forall|i: int|
            0 <= i < listed_names(listing).len() ==> #[trigger] rerun_lines(
                git_dir,
                tracked_paths(without_newline(top), listing),
                true,
            )[3 + i] == rerun_line(joined(without_newline(top), listed_names(listing)[i])),
{
    reveal_with_fuel(run, 5);
    let paths = tracked_paths(without_newline(top), listing);
    lemma_directives(git_dir, paths, true);
    let s0 = initial(mark_changes, true, text_paths, Seq::empty());
    let s1 = transition(s0, printed(Seq::empty()));
    let s2 = transition(s1.next, printed(top));
    let s3 = transition(s2.next, printed(listing));
    let s4 = transition(s3.next, printed(git_dir));
    assert(s1.lines + (s2.lines + (s3.lines + s4.lines)) =~= s4.lines);
}

/// No resolution ends with an empty revision: a tag or a hash that is only
/// white space never becomes one, and a marked revision keeps its base.
pub proof fn lemma_revision_never_empty(s: ResolverModel, o: OutcomeModel)
    requires
        s.phase matches PhaseModel::Status { base } ==> base.len() > 0,
    ensures
        transition(s, o).action matches ActionModel::Finish(Ok(Some(r))) ==> r.len() > 0,
        transition(s, o).next.phase matches PhaseModel::Status { base } ==> base.len() > 0,
{
}

} // verus!
