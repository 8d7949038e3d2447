//! What goes to the engine's settings and comes back from them: C strings,
//! the list of search paths and the engine's answers.

use vstd::prelude::*;
use vstd::slice::slice_to_vec;
use vstd::string::StringSliceAdditionalSpecFns;
use vstd::utf8::encode_utf8;
use crate::buffer::{c_string, is_c_string, nul_free};
use crate::error::{ProjError, ProjErrorView};

verus! {

/// The C string of `bytes`: the bytes and a NUL. Bytes that hold a NUL have
/// none, since the engine would read them only up to that NUL.
pub open spec fn c_string_of(bytes: Seq<u8>) -> Result<Seq<u8>, ProjErrorView> {
    if nul_free(bytes) {
        Ok(c_string(bytes))
    } else {
        Err(ProjErrorView::Creation)
    }
}

/// Whether `bytes` hold no NUL.
pub fn is_nul_free(bytes: &[u8]) -> (free: bool)
    ensures
        free == nul_free(bytes@),
{
    let mut i: usize = 0;
    while i < bytes.len()
        invariant
            i <= bytes.len(),
            nul_free(bytes@.take(i as int)),
        decreases bytes.len() - i,
    {
        if bytes[i] == 0 {
            return false;
        }
        i += 1;
        assert forall|j: int| 0 <= j < i implies #[trigger] bytes@.take(i as int)[j] != 0 by {
            if j < i - 1 {
                assert(bytes@.take(i - 1)[j] != 0);
            }
        }
    }
    assert(bytes@.take(bytes.len() as int) =~= bytes@);
    true
}

/// Makes the C string of `text` for the engine: its bytes and a NUL. It fails
/// with `Creation` where the text holds a NUL.
pub fn to_c_string(text: &str) -> (made: Result<Vec<u8>, ProjError>)
    ensures
        match made {
            Ok(bytes) => c_string_of(encode_utf8(text@)) == Ok::<Seq<u8>, ProjErrorView>(bytes@)
                && is_c_string(bytes@),
            Err(error) => c_string_of(encode_utf8(text@)) == Err::<Seq<u8>, ProjErrorView>(
                error@,
            ),
        },
{
    bytes_to_c_string(text.as_bytes())
}

/// Makes the C string of `bytes`: the bytes and a NUL. It fails with
/// `Creation` where the bytes hold a NUL.
pub fn bytes_to_c_string(bytes: &[u8]) -> (made: Result<Vec<u8>, ProjError>)
    ensures
        match made {
            Ok(terminated) => c_string_of(bytes@) == Ok::<Seq<u8>, ProjErrorView>(terminated@)
                && is_c_string(terminated@),
            Err(error) => c_string_of(bytes@) == Err::<Seq<u8>, ProjErrorView>(error@),
        },
{
    if is_nul_free(bytes) {
        let mut terminated = slice_to_vec(bytes);
        terminated.push(0);
        Ok(terminated)
    } else {
        Err(ProjError::Creation)
    }
}

/// The pieces of `bytes` between the separators: one more than there are
/// separators, in order, each without a separator. Bytes without a separator
/// are their own single piece, and so are no bytes at all.
pub open spec fn split(bytes: Seq<u8>, separator: u8) -> Seq<Seq<u8>>
    decreases bytes.len(),
{
    if bytes.len() == 0 {
        seq![Seq::empty()]
    } else {
        let before = split(bytes.drop_last(), separator);
        if bytes.last() == separator {
            before.push(Seq::empty())
        } else {
            before.drop_last().push(before.last().push(bytes.last()))
        }
    }
}

/// `pieces` with `separator` between them.
pub open spec fn join(pieces: Seq<Seq<u8>>, separator: u8) -> Seq<u8>
    decreases pieces.len(),
{
    if pieces.len() == 0 {
        Seq::empty()
    } else if pieces.len() == 1 {
        pieces[0]
    } else {
        join(pieces.drop_last(), separator).push(separator) + pieces.last()
    }
}

/// Splitting loses nothing: there is at least one piece, no piece holds a
/// separator, and the pieces with the separator between them are the bytes
/// that were split.
pub proof fn lemma_split_join(bytes: Seq<u8>, separator: u8)
    ensures
        split(bytes, separator).len() >= 1,
        forall|i: int, j: int|
            0 <= i < split(bytes, separator).len() && 0 <= j < split(bytes, separator)[i].len()
                ==> #[trigger] split(bytes, separator)[i][j] != separator,
        join(split(bytes, separator), separator) == bytes,
    decreases bytes.len(),
{
    let pieces = split(bytes, separator);
    if bytes.len() == 0 {
        assert(join(pieces, separator) =~= bytes);
    } else {
        let shorter = bytes.drop_last();
        let before = split(shorter, separator);
        lemma_split_join(shorter, separator);
        if bytes.last() == separator {
            assert(pieces.drop_last() =~= before);
            assert(join(pieces, separator) =~= shorter.push(separator));
            assert(shorter.push(separator) =~= bytes);
            assert forall|i: int, j: int|
                0 <= i < pieces.len() && 0 <= j < pieces[i].len() implies #[trigger] pieces[i][j]
                != separator by {
                if i < before.len() {
                    assert(pieces[i] == before[i]);
                    assert(before[i][j] != separator);
                }
            }
        } else {
            let grown = before.last().push(bytes.last());
            assert(pieces.last() == grown);
            if before.len() == 1 {
                assert(join(before, separator) == before[0]);
                assert(join(pieces, separator) =~= shorter.push(bytes.last()));
            } else {
                assert(pieces.drop_last() =~= before.drop_last());
                assert(join(pieces, separator) =~= join(before, separator).push(bytes.last()));
            }
            assert(shorter.push(bytes.last()) =~= bytes);
            assert forall|i: int, j: int|
                0 <= i < pieces.len() && 0 <= j < pieces[i].len() implies #[trigger] pieces[i][j]
                != separator by {
                if i < before.len() - 1 {
                    assert(pieces[i] == before[i]);
                    assert(before[i][j] != separator);
                } else if j < before.last().len() {
                    assert(pieces[i][j] == before[before.len() - 1][j]);
                    assert(before[before.len() - 1][j] != separator);
                }
            }
        }
    }
}

/// The views of a list of byte strings.
pub open spec fn byte_views(list: Seq<Vec<u8>>) -> Seq<Seq<u8>> {
    list.map_values(|bytes: Vec<u8>| bytes@)
}

/// Splits `bytes` at each `separator`.
pub fn split_at_separator(bytes: &[u8], separator: u8) -> (pieces: Vec<Vec<u8>>)
    ensures
        byte_views(pieces@) == split(bytes@, separator),
        pieces.len() >= 1,
{
    let mut pieces: Vec<Vec<u8>> = Vec::new();
    let mut current: Vec<u8> = Vec::new();
    let mut i: usize = 0;
    assert(bytes@.take(0) =~= Seq::<u8>::empty());
    assert(byte_views(pieces@).push(current@) =~= split(bytes@.take(0), separator));
    while i < bytes.len()
        invariant
            i <= bytes.len(),
            byte_views(pieces@).push(current@) == split(bytes@.take(i as int), separator),
        decreases bytes.len() - i,
    {
        let b = bytes[i];
        let ghost done = byte_views(pieces@);
        let ghost open = current@;
        proof {
            let next = bytes@.take(i + 1);
            assert(next.drop_last() =~= bytes@.take(i as int));
            assert(next.last() == b);
            assert(done.push(open).drop_last() =~= done);
            assert(done.push(open).last() == open);
        }
        if b == separator {
            pieces.push(current);
            current = Vec::new();
            assert(byte_views(pieces@) =~= done.push(open));
        } else {
            current.push(b);
        }
        i += 1;
    }
    assert(bytes@.take(bytes.len() as int) =~= bytes@);
    let ghost done = byte_views(pieces@);
    let ghost open = current@;
    pieces.push(current);
    assert(byte_views(pieces@) =~= done.push(open));
    pieces
}

/// The search paths after `newpath` was added to those that the engine
/// holds as `existing`, a list of paths with `separator` between them: the
/// existing ones in their order, then the new one.
pub open spec fn search_path_list(existing: Seq<u8>, newpath: Seq<u8>, separator: u8) -> Seq<
    Seq<u8>,
> {
    split(existing, separator).push(newpath)
}

/// The C strings of `paths` if none of the paths holds a NUL.
pub open spec fn c_strings_of(paths: Seq<Seq<u8>>) -> Result<Seq<Seq<u8>>, ProjErrorView> {
    if forall|i: int| 0 <= i < paths.len() ==> nul_free(#[trigger] paths[i]) {
        Ok(paths.map_values(|path: Seq<u8>| c_string(path)))
    } else {
        Err(ProjErrorView::Creation)
    }
}

/// Makes the list of search paths to set in the engine: those that it holds
/// as `existing`, with `separator` between them, and `newpath` after them,
/// each as a C string. It fails with `Creation` where a path holds a NUL.
pub fn search_paths(existing: &str, newpath: &str, separator: u8) -> (paths: Result<
    Vec<Vec<u8>>,
    ProjError,
>)
    ensures
        match paths {
            Ok(list) => c_strings_of(
                search_path_list(encode_utf8(existing@), encode_utf8(newpath@), separator),
            ) == Ok::<Seq<Seq<u8>>, ProjErrorView>(byte_views(list@)),
            Err(error) => c_strings_of(
                search_path_list(encode_utf8(existing@), encode_utf8(newpath@), separator),
            ) == Err::<Seq<Seq<u8>>, ProjErrorView>(error@),
        },
{
    let mut individual = split_at_separator(existing.as_bytes(), separator);
    let ghost before = byte_views(individual@);
    individual.push(slice_to_vec(newpath.as_bytes()));
    let ghost all = search_path_list(encode_utf8(existing@), encode_utf8(newpath@), separator);
    assert(byte_views(individual@) =~= all);
    let mut list: Vec<Vec<u8>> = Vec::new();
    let mut i: usize = 0;
    while i < individual.len()
        invariant
            i <= individual.len(),
            all == search_path_list(encode_utf8(existing@), encode_utf8(newpath@), separator),
            byte_views(individual@) == all,
            list.len() == i,
            forall|j: int| 0 <= j < i ==> nul_free(#[trigger] all[j]),
            forall|j: int| 0 <= j < i ==> (#[trigger] list@[j])@ == c_string(all[j]),
        decreases individual.len() - i,
    {
        assert(all.len() == individual@.len());
        assert(individual@[i as int]@ == all[i as int]);
        match bytes_to_c_string(individual[i].as_slice()) {
            Err(error) => {
                assert(c_strings_of(all) is Err) by {
                    assert(!nul_free(all[i as int]));
                }
                return Err(error);
            },
            Ok(terminated) => {
                list.push(terminated);
            },
        }
        i += 1;
    }
    assert(byte_views(list@) =~= all.map_values(|path: Seq<u8>| c_string(path)));
    Ok(list)
}

/// Whether the engine's answer to the question for the network setting says
/// that network access is enabled: 1 does, and no other answer.
pub fn network_is_enabled(code: i32) -> (enabled: bool)
    ensures
        enabled == (code == 1),
{
    code == 1
}

/// What the engine's answer to a change of the network setting means: 1 says
/// that the change was made, and any other answer is the error `Network`.
pub fn network_answer(code: i32) -> (answer: Result<u8, ProjError>)
    ensures
        code == 1 ==> answer == Ok::<u8, ProjError>(1),
        code != 1 ==> answer == Err::<u8, ProjError>(ProjError::Network),
{
    if code == 1 {
        Ok(1)
    } else {
        Err(ProjError::Network)
    }
}

} // verus!
