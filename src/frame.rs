use vstd::prelude::*;

verus! {

/// Width of the packet-information header that prefixes TUN frames.
pub const PI_LEN: usize = 4;

/// Darwin's `AF_INET`.
pub const AF_INET: u8 = 2;

/// Darwin's `AF_INET6`.
pub const AF_INET6: u8 = 30;

/// The address family of a network-layer packet, read from the version
/// nibble of its first byte: IPv6 when it is 6, IPv4 otherwise.
pub open spec fn family_of(payload: Seq<u8>) -> u8 {
    if payload.len() > 0 && payload[0] / 16 == 6 {
        AF_INET6
    } else {
        AF_INET
    }
}

/// The packet-information header for `payload`: the family as a 32-bit
/// big-endian word.
pub open spec fn pi_header(payload: Seq<u8>) -> Seq<u8> {
    seq![0u8, 0u8, 0u8, family_of(payload)]
}

/// All the buffers' bytes, in order.
pub open spec fn flatten(bufs: Seq<Vec<u8>>) -> Seq<u8>
    decreases bufs.len(),
{
    if bufs.len() == 0 {
        Seq::empty()
    } else {
        flatten(bufs.drop_last()) + bufs.last()@
    }
}

/// `dst` with its leading bytes replaced by as much of `src` as fits.
pub open spec fn overwrite(dst: Seq<u8>, src: Seq<u8>) -> Seq<u8> {
    if src.len() <= dst.len() {
        src + dst.subrange(src.len() as int, dst.len() as int)
    } else {
        src.subrange(0, dst.len() as int)
    }
}

/// The smaller of two lengths.
pub open spec fn min_len(a: int, b: int) -> int {
    if a <= b {
        a
    } else {
        b
    }
}

/// Builds the packet-information header for `payload`.
pub fn pi_header_for(payload: &[u8]) -> (r: Vec<u8>)
    ensures
        r@ == pi_header(payload@),
{
    let family = if payload.len() > 0 && payload[0] / 16 == 6 {
        AF_INET6
    } else {
        AF_INET
    };
    let r = vec![0u8, 0u8, 0u8, family];
    assert(r@ =~= pi_header(payload@));
    r
}

/// Appends the bytes of `src` to `dst`.
pub fn append_bytes(dst: &mut Vec<u8>, src: &[u8])
    ensures
        final(dst)@ == old(dst)@ + src@,
{
    let mut i: usize = 0;
    while i < src.len()
        invariant
            i <= src@.len(),
            dst@ == old(dst)@ + src@.subrange(0, i as int),
        decreases src@.len() - i,
    {
        dst.push(src[i]);
        i = i + 1;
        assert(dst@ =~= old(dst)@ + src@.subrange(0, i as int));
    }
    assert(src@.subrange(0, src@.len() as int) =~= src@);
}

/// Joins the buffers into one frame, in order.
pub fn gather(bufs: &Vec<Vec<u8>>) -> (r: Vec<u8>)
    ensures
        r@ == flatten(bufs@),
{
    let mut r: Vec<u8> = Vec::new();
    let mut i: usize = 0;
    while i < bufs.len()
        invariant
            i <= bufs@.len(),
            r@ == flatten(bufs@.subrange(0, i as int)),
        decreases bufs@.len() - i,
    {
        append_bytes(&mut r, bufs[i].as_slice());
        proof {
            assert(bufs@.subrange(0, i + 1).drop_last() =~= bufs@.subrange(0, i as int));
        }
        i = i + 1;
    }
    assert(bufs@.subrange(0, bufs@.len() as int) =~= bufs@);
    r
}

/// The buffers before index `i` make up the front of the whole, and the
/// buffer at `i` follows them.
pub proof fn lemma_flatten_prefix(bufs: Seq<Vec<u8>>, i: int)
    requires
        0 <= i <= bufs.len(),
    ensures
        flatten(bufs.subrange(0, i)).len() <= flatten(bufs).len(),
        flatten(bufs).subrange(0, flatten(bufs.subrange(0, i)).len() as int) == flatten(
            bufs.subrange(0, i),
        ),
        i < bufs.len() ==> flatten(bufs.subrange(0, i + 1)) == flatten(bufs.subrange(0, i))
            + bufs[i]@,
    decreases bufs.len(),
{
    if i < bufs.len() {
        assert(bufs.subrange(0, i + 1).drop_last() =~= bufs.subrange(0, i));
    }
    if i == bufs.len() {
        assert(bufs.subrange(0, i) =~= bufs);
        assert(flatten(bufs).subrange(0, flatten(bufs).len() as int) =~= flatten(bufs));
    } else {
        let front = bufs.drop_last();
        lemma_flatten_prefix(front, i);
        assert(front.subrange(0, i) =~= bufs.subrange(0, i));
        let p = flatten(bufs.subrange(0, i));
        assert(flatten(bufs) == flatten(front) + bufs.last()@);
        assert(flatten(bufs).subrange(0, p.len() as int) =~= flatten(front).subrange(
            0,
            p.len() as int,
        ));
    }
}

/// Copies the front of `src` into `dst`, as much as fits, and returns how many
/// bytes were copied; the rest of `dst` is kept.
pub fn copy_prefix(src: &[u8], dst: &mut Vec<u8>) -> (n: usize)
    ensures
        n == min_len(src@.len() as int, old(dst)@.len() as int),
        final(dst)@ == overwrite(old(dst)@, src@),
{
    let mut i: usize = 0;
    while i < dst.len() && i < src.len()
        invariant
            dst@.len() == old(dst)@.len(),
            i <= dst@.len(),
            i <= src@.len(),
            forall|j: int| 0 <= j < i ==> dst@[j] == src@[j],
            forall|j: int| i <= j < dst@.len() ==> dst@[j] == old(dst)@[j],
        decreases src@.len() - i,
    {
        dst[i] = src[i];
        i = i + 1;
    }
    assert(dst@ =~= overwrite(old(dst)@, src@));
    i
}

/// Distributes the front of `data` over the buffers in order, as much as the
/// buffers hold, and returns how many bytes were placed; every buffer keeps
/// its length and the bytes past those placed.
pub fn scatter(data: &[u8], bufs: &mut Vec<Vec<u8>>) -> (n: usize)
    requires
        flatten(old(bufs)@).len() <= usize::MAX,
    ensures
        n == min_len(data@.len() as int, flatten(old(bufs)@).len() as int),
        final(bufs)@.len() == old(bufs)@.len(),
        forall|i: int|
            0 <= i < old(bufs)@.len() ==> (#[trigger] final(bufs)@[i])@.len() == old(bufs)@[i]@.len(),
        flatten(final(bufs)@) == overwrite(flatten(old(bufs)@), data@),
{
    let ghost whole = flatten(bufs@);
    let ghost target = overwrite(whole, data@);
    let mut out: Vec<Vec<u8>> = Vec::new();
    let mut pos: usize = 0;
    let mut i: usize = 0;
    while i < bufs.len()
        invariant
            i <= bufs@.len(),
            bufs@ == old(bufs)@,
            whole == flatten(bufs@),
            target == overwrite(whole, data@),
            whole.len() <= usize::MAX,
            out@.len() == i,
            pos == flatten(bufs@.subrange(0, i as int)).len(),
            pos <= whole.len(),
            forall|k: int| 0 <= k < i ==> (#[trigger] out@[k])@.len() == bufs@[k]@.len(),
            flatten(out@) == target.subrange(0, pos as int),
        decreases bufs@.len() - i,
    {
        proof {
            lemma_flatten_prefix(bufs@, i as int);
            lemma_flatten_prefix(bufs@, i + 1);
        }
        let b = &bufs[i];
        let mut nb: Vec<u8> = Vec::new();
        let mut j: usize = 0;
        while j < b.len()
            invariant
                j <= b@.len(),
                i < bufs@.len(),
                b@ == bufs@[i as int]@,
                pos + b@.len() <= whole.len(),
                whole.len() <= usize::MAX,
                nb@.len() == j,
                forall|k: int|
                    0 <= k < j ==> nb@[k] == if pos + k < data@.len() {
                        data@[pos + k]
                    } else {
                        b@[k]
                    },
            decreases b@.len() - j,
        {
            if pos + j < data.len() {
                nb.push(data[pos + j]);
            } else {
                nb.push(b[j]);
            }
            j = j + 1;
        }
        proof {
            let old_out = out@;
            let p = pos as int;
            assert(whole.subrange(0, p + b@.len()) == flatten(bufs@.subrange(0, i as int)) + b@) by {
                assert(flatten(bufs@.subrange(0, i + 1)) == flatten(bufs@.subrange(0, i as int))
                    + b@);
            }
            assert forall|k: int| 0 <= k < b@.len() implies nb@[k] == target[p + k] by {
                assert(whole[p + k] == (flatten(bufs@.subrange(0, i as int)) + b@)[p + k]);
                if data@.len() > whole.len() {
                    assert(target[p + k] == data@[p + k]);
                }
            }
            assert(flatten(old_out.push(nb)) == flatten(old_out) + nb@) by {
                assert(old_out.push(nb).drop_last() =~= old_out);
            }
            assert(target.subrange(0, p + b@.len()) =~= target.subrange(0, p) + nb@);
        }
        out.push(nb);
        pos = pos + b.len();
        i = i + 1;
    }
    proof {
        assert(bufs@.subrange(0, bufs@.len() as int) =~= bufs@);
        assert(target.subrange(0, target.len() as int) =~= target);
    }
    *bufs = out;
    if data.len() < pos {
        data.len()
    } else {
        pos
    }
}

} // verus!
