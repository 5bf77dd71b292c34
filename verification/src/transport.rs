use vstd::prelude::*;
use crate::render::{views, LETTER_A, SEMICOLON};

verus! {

/// The channel's line-buffer limit: every physical write must stay strictly
/// below this many bytes.
pub const CHUNK_CEILING: usize = 57;

/// The byte the plotter emits when it has finished drawing a chunk.
pub const ACK_BYTE: u8 = 13;

/// ASCII bytes of the execute directive `OA;`: execute pending output and
/// report completion.
pub const LETTER_O: u8 = 79;

/// ASCII bytes of the initialize directive `IN;`.
pub const LETTER_I: u8 = 73;

pub const LETTER_N: u8 = 78;

/// The chunks of the token sequence `cmds` under the ceiling `c`, as byte
/// strings, with `acc` the bytes accumulated so far: a token that still fits
/// under the ceiling is appended to the accumulator; one that does not closes
/// the accumulator as a chunk and opens a new one with that token. The last
/// accumulator always becomes a chunk.
pub open spec fn chunks_from(cmds: Seq<Seq<u8>>, acc: Seq<u8>, c: int) -> Seq<Seq<u8>>
    decreases cmds.len(),
{
    if cmds.len() == 0 {
        seq![acc]
    } else if acc.len() + cmds[0].len() < c {
        chunks_from(cmds.drop_first(), acc + cmds[0], c)
    } else {
        seq![acc] + chunks_from(cmds.drop_first(), cmds[0], c)
    }
}

/// The chunks of a whole token sequence under the ceiling `c`.
pub open spec fn chunked(cmds: Seq<Seq<u8>>, c: int) -> Seq<Seq<u8>> {
    chunks_from(cmds, Seq::empty(), c)
}

/// The same chunking, kept at the level of whole tokens: each chunk is the
/// run of consecutive tokens that went into it, not yet concatenated.
pub open spec fn groups_from(cmds: Seq<Seq<u8>>, acc: Seq<Seq<u8>>, c: int) -> Seq<Seq<Seq<u8>>>
    decreases cmds.len(),
{
    if cmds.len() == 0 {
        seq![acc]
    } else if acc.flatten().len() + cmds[0].len() < c {
        groups_from(cmds.drop_first(), acc.push(cmds[0]), c)
    } else {
        seq![acc] + groups_from(cmds.drop_first(), seq![cmds[0]], c)
    }
}

/// The token runs that the chunking under ceiling `c` cuts a sequence into.
pub open spec fn grouped(cmds: Seq<Seq<u8>>, c: int) -> Seq<Seq<Seq<u8>>> {
    groups_from(cmds, Seq::empty(), c)
}

/// Splits a token sequence into chunks, each strictly below the line-buffer
/// ceiling, ready for one physical write each.
pub fn chunk_commands(cmds: &Vec<Vec<u8>>) -> (chunks: Vec<Vec<u8>>)
    ensures
        views(chunks@) == chunked(views(cmds@), CHUNK_CEILING as int),
{
    let ghost all = views(cmds@);
    let mut chunks: Vec<Vec<u8>> = Vec::new();
    let mut next_cmd: Vec<u8> = Vec::new();
    let mut i: usize = 0;
    proof {
        assert(all.skip(0) =~= all);
        assert(views(chunks@) =~= Seq::<Seq<u8>>::empty());
        assert(next_cmd@ =~= Seq::<u8>::empty());
        assert(Seq::<Seq<u8>>::empty() + chunks_from(all, next_cmd@, CHUNK_CEILING as int)
            =~= chunks_from(all, next_cmd@, CHUNK_CEILING as int));
    }
    while i < cmds.len()
        invariant
            0 <= i <= cmds@.len(),
            all == views(cmds@),
            chunked(all, CHUNK_CEILING as int) == views(chunks@) + chunks_from(
                all.skip(i as int),
                next_cmd@,
                CHUNK_CEILING as int,
            ),
        decreases cmds@.len() - i,
    {
        let ghost rest = all.skip(i as int);
        assert(rest[0] == cmds@[i as int]@);
        assert(rest.drop_first() =~= all.skip(i as int + 1));
        let fits = cmds[i].len() < CHUNK_CEILING && next_cmd.len() < CHUNK_CEILING - cmds[i].len();
        assert(fits == (next_cmd@.len() + rest[0].len() < CHUNK_CEILING as int));
        if fits {
            let mut piece = cmds[i].clone();
            assert(piece@ =~= cmds@[i as int]@);
            next_cmd.append(&mut piece);
        } else {
            chunks.push(next_cmd);
            next_cmd = cmds[i].clone();
            assert(views(chunks@) =~= views(chunks@.drop_last()) + seq![chunks@.last()@]);
        }
        i = i + 1;
    }
    assert(all.skip(all.len() as int) =~= Seq::<Seq<u8>>::empty());
    chunks.push(next_cmd);
    assert(views(chunks@) =~= views(chunks@.drop_last()) + seq![chunks@.last()@]);
    chunks
}

/// Concatenating the chunks restores the concatenation of the tokens:
/// chunking drops, reorders and duplicates nothing.
pub proof fn lemma_chunks_flatten(cmds: Seq<Seq<u8>>, c: int)
    ensures
        chunked(cmds, c).flatten() == cmds.flatten(),
{
    lemma_chunks_from_flatten(cmds, Seq::empty(), c);
    assert(Seq::<u8>::empty() + cmds.flatten() =~= cmds.flatten());
}

proof fn lemma_chunks_from_flatten(cmds: Seq<Seq<u8>>, acc: Seq<u8>, c: int)
    ensures
        chunks_from(cmds, acc, c).flatten() == acc + cmds.flatten(),
    decreases cmds.len(),
{
    broadcast use vstd::seq_lib::group_seq_properties;

    if cmds.len() == 0 {
        seq![acc].lemma_flatten_one_element();
        assert(acc =~= acc + cmds.flatten());
    } else if acc.len() + cmds[0].len() < c {
        lemma_chunks_from_flatten(cmds.drop_first(), acc + cmds[0], c);
        assert((acc + cmds[0]) + cmds.drop_first().flatten() =~= acc + cmds.flatten());
    } else {
        lemma_chunks_from_flatten(cmds.drop_first(), cmds[0], c);
        vstd::seq_lib::lemma_flatten_concat(
            seq![acc],
            chunks_from(cmds.drop_first(), cmds[0], c),
        );
        seq![acc].lemma_flatten_one_element();
        assert(acc + (cmds[0] + cmds.drop_first().flatten()) =~= acc + cmds.flatten());
    }
}

/// Every chunk stays strictly below the ceiling, provided every token does.
pub proof fn lemma_chunks_bounded(cmds: Seq<Seq<u8>>, c: int)
    requires
        c > 0,
        forall|i: int| 0 <= i < cmds.len() ==> (#[trigger] cmds[i]).len() < c,
    ensures
        forall|j: int|
            0 <= j < chunked(cmds, c).len() ==> (#[trigger] chunked(cmds, c)[j]).len() < c,
{
    lemma_chunks_from_bounded(cmds, Seq::empty(), c);
}

proof fn lemma_chunks_from_bounded(cmds: Seq<Seq<u8>>, acc: Seq<u8>, c: int)
    requires
        c > 0,
        acc.len() < c,
        forall|i: int| 0 <= i < cmds.len() ==> (#[trigger] cmds[i]).len() < c,
    ensures
        forall|j: int|
            0 <= j < chunks_from(cmds, acc, c).len() ==> (#[trigger] chunks_from(cmds, acc, c)[j]).len()
                < c,
    decreases cmds.len(),
{
    let r = chunks_from(cmds, acc, c);
    if cmds.len() == 0 {
        assert forall|j: int| 0 <= j < r.len() implies (#[trigger] r[j]).len() < c by {
            assert(r[j] == acc);
        }
    } else if acc.len() + cmds[0].len() < c {
        lemma_chunks_from_bounded(cmds.drop_first(), acc + cmds[0], c);
        let rec = chunks_from(cmds.drop_first(), acc + cmds[0], c);
        assert forall|j: int| 0 <= j < r.len() implies (#[trigger] r[j]).len() < c by {
            assert(r[j] == rec[j]);
        }
    } else {
        assert(cmds[0].len() < c);
        lemma_chunks_from_bounded(cmds.drop_first(), cmds[0], c);
        let rec = chunks_from(cmds.drop_first(), cmds[0], c);
        assert forall|j: int| 0 <= j < r.len() implies (#[trigger] r[j]).len() < c by {
            if j == 0 {
                assert(r[0] == acc);
            } else {
                assert(r[j] == rec[j - 1]);
            }
        }
    }
}

/// The chunking never splits a token: the byte chunks are exactly the
/// concatenations of consecutive runs of whole tokens, and those runs, in
/// order, are exactly the original token sequence.
pub proof fn lemma_chunks_no_split(cmds: Seq<Seq<u8>>, c: int)
    ensures
        grouped(cmds, c).flatten() == cmds,
        grouped(cmds, c).map_values(|g: Seq<Seq<u8>>| g.flatten()) == chunked(cmds, c),
{
    lemma_groups_from_cover(cmds, Seq::empty(), c);
    assert(Seq::<Seq<u8>>::empty() + cmds =~= cmds);
    lemma_groups_from_chunks(cmds, Seq::empty(), c);
    assert(Seq::<Seq<u8>>::empty().flatten() =~= Seq::<u8>::empty());
}

proof fn lemma_groups_from_cover(cmds: Seq<Seq<u8>>, acc: Seq<Seq<u8>>, c: int)
    ensures
        groups_from(cmds, acc, c).flatten() == acc + cmds,
    decreases cmds.len(),
{
    if cmds.len() == 0 {
        seq![acc].lemma_flatten_one_element();
        assert(acc =~= acc + cmds);
    } else if acc.flatten().len() + cmds[0].len() < c {
        lemma_groups_from_cover(cmds.drop_first(), acc.push(cmds[0]), c);
        assert(acc.push(cmds[0]) + cmds.drop_first() =~= acc + cmds);
    } else {
        lemma_groups_from_cover(cmds.drop_first(), seq![cmds[0]], c);
        vstd::seq_lib::lemma_flatten_concat(
            seq![acc],
            groups_from(cmds.drop_first(), seq![cmds[0]], c),
        );
        seq![acc].lemma_flatten_one_element();
        assert(acc + (seq![cmds[0]] + cmds.drop_first()) =~= acc + cmds);
    }
}

proof fn lemma_groups_from_chunks(cmds: Seq<Seq<u8>>, acc: Seq<Seq<u8>>, c: int)
    ensures
        groups_from(cmds, acc, c).map_values(|g: Seq<Seq<u8>>| g.flatten()) == chunks_from(
            cmds,
            acc.flatten(),
            c,
        ),
    decreases cmds.len(),
{
    broadcast use vstd::seq_lib::group_seq_properties;

    if cmds.len() == 0 {
        assert(seq![acc].map_values(|g: Seq<Seq<u8>>| g.flatten()) =~= seq![acc.flatten()]);
    } else if acc.flatten().len() + cmds[0].len() < c {
        lemma_groups_from_chunks(cmds.drop_first(), acc.push(cmds[0]), c);
        assert(acc.push(cmds[0]).flatten() == acc.flatten() + cmds[0]) by {
            acc.lemma_flatten_push(cmds[0]);
        }
    } else {
        lemma_groups_from_chunks(cmds.drop_first(), seq![cmds[0]], c);
        seq![cmds[0]].lemma_flatten_one_element();
        assert(seq![cmds[0]].flatten() == cmds[0]);
        assert((seq![acc] + groups_from(cmds.drop_first(), seq![cmds[0]], c)).map_values(
            |g: Seq<Seq<u8>>| g.flatten(),
        ) =~= seq![acc.flatten()] + groups_from(cmds.drop_first(), seq![cmds[0]], c).map_values(
            |g: Seq<Seq<u8>>| g.flatten(),
        ));
        assert(seq![acc.flatten()] + chunks_from(cmds.drop_first(), cmds[0], c) =~= chunks_from(
            cmds,
            acc.flatten(),
            c,
        ));
    }
}

/// Builds the execute directive `OA;` that asks the plotter to draw what it
/// has buffered and acknowledge.
pub fn execute_directive() -> (v: Vec<u8>)
    ensures
        v@ == seq![LETTER_O, LETTER_A, SEMICOLON],
{
    let mut v: Vec<u8> = Vec::new();
    v.push(LETTER_O);
    v.push(LETTER_A);
    v.push(SEMICOLON);
    assert(v@ =~= seq![LETTER_O, LETTER_A, SEMICOLON]);
    v
}

/// Builds the initialize directive `IN;` sent once when the device is opened.
pub fn initialize_directive() -> (v: Vec<u8>)
    ensures
        v@ == seq![LETTER_I, LETTER_N, SEMICOLON],
{
    let mut v: Vec<u8> = Vec::new();
    v.push(LETTER_I);
    v.push(LETTER_N);
    v.push(SEMICOLON);
    assert(v@ =~= seq![LETTER_I, LETTER_N, SEMICOLON]);
    v
}

/// Decides whether a byte read from the channel is the plotter's
/// acknowledgment terminator.
pub fn is_ack(b: u8) -> (r: bool)
    ensures
        r == (b == ACK_BYTE),
{
    b == ACK_BYTE
}

} // verus!
