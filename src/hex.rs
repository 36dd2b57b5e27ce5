use vstd::prelude::*;

verus! {

/// The sixteen digits of uppercase hexadecimal, by value.
pub open spec fn hex_digits() -> Seq<char> {
    seq!['0', '1', '2', '3', '4', '5', '6', '7', '8', '9', 'A', 'B', 'C', 'D', 'E', 'F']
}

/// Two uppercase digits for each byte, high nibble first, no separators.
pub open spec fn upper_hex(b: Seq<u8>) -> Seq<char>
    decreases b.len(),
{
    if b.len() == 0 {
        Seq::empty()
    } else {
        let last = b.last();
        upper_hex(b.drop_last()) + seq![hex_digits()[(last / 16) as int], hex_digits()[(last % 16) as int]]
    }
}

pub proof fn lemma_upper_hex_len(b: Seq<u8>)
    ensures
        upper_hex(b).len() == 2 * b.len(),
    decreases b.len(),
{
    if b.len() > 0 {
        lemma_upper_hex_len(b.drop_last());
    }
}

/// No uppercase hex rendering holds a `.`, and only the empty sequence
/// renders as the empty text.
pub proof fn lemma_upper_hex_no_dot(b: Seq<u8>)
    ensures
        !upper_hex(b).contains('.'),
        b.len() > 0 ==> upper_hex(b).len() > 0,
    decreases b.len(),
{
    if b.len() > 0 {
        lemma_upper_hex_no_dot(b.drop_last());
        let last = b.last();
        let tail = seq![hex_digits()[(last / 16) as int], hex_digits()[(last % 16) as int]];
        assert(forall|k: int| 0 <= k < 16 ==> hex_digits()[k] != '.');
        assert(!tail.contains('.'));
        let h = upper_hex(b);
        assert(h == upper_hex(b.drop_last()) + tail);
        assert forall|i: int| 0 <= i < h.len() implies h[i] != '.' by {
            if i < upper_hex(b.drop_last()).len() {
                assert(h[i] == upper_hex(b.drop_last())[i]);
            } else {
                assert(h[i] == tail[i - upper_hex(b.drop_last()).len()]);
            }
        }
    }
}

/// Renders `bytes` as uppercase hexadecimal.
pub fn hex_upper(bytes: &[u8]) -> (r: String)
    requires
        2 * bytes@.len() <= usize::MAX,
    ensures
        r@ == upper_hex(bytes@),
        r@.len() == 2 * bytes@.len(),
{
    let digits = "0123456789ABCDEF";
    proof {
        reveal_strlit("0123456789ABCDEF");
        assert(digits@ =~= hex_digits());
    }
    let mut out = String::new();
    let mut i: usize = 0;
    while i < bytes.len()
        invariant
            i <= bytes@.len(),
            digits@ == hex_digits(),
            out@ == upper_hex(bytes@.subrange(0, i as int)),
        decreases bytes@.len() - i,
    {
        let b = bytes[i];
        let hi = digits.substring_char((b / 16) as usize, (b / 16) as usize + 1);
        let lo = digits.substring_char((b % 16) as usize, (b % 16) as usize + 1);
        out.append(hi);
        out.append(lo);
        proof {
            let pre = bytes@.subrange(0, i as int + 1);
            assert(pre.drop_last() =~= bytes@.subrange(0, i as int));
            assert(hi@ =~= seq![hex_digits()[(b / 16) as int]]);
            assert(lo@ =~= seq![hex_digits()[(b % 16) as int]]);
        }
        i = i + 1;
    }
    proof {
        assert(bytes@.subrange(0, bytes@.len() as int) =~= bytes@);
        lemma_upper_hex_len(bytes@);
    }
    out
}

} // verus!
