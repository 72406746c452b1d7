//! Parsing dotted version strings into numeric components, for the
//! presentation layer's version ordering.

use vstd::prelude::*;

verus! {

/// Is `c` a decimal digit?
pub open spec fn is_digit(c: char) -> bool {
    '0' <= c && c <= '9'
}

/// The numeric value of a decimal digit.
pub open spec fn digit_val(c: char) -> nat {
    (c as nat - '0' as nat) as nat
}

/// The number written by a digit sequence, most significant digit first.
pub open spec fn digits_val(s: Seq<char>) -> nat
    decreases s.len(),
{
    if s.len() == 0 {
        0
    } else {
        digits_val(s.drop_last()) * 10 + digit_val(s.last())
    }
}

/// Is every character of `s` a decimal digit?
pub open spec fn all_digits(s: Seq<char>) -> bool {
    forall|k: int| 0 <= k < s.len() ==> is_digit(#[trigger] s[k])
}

/// The digits of one chunk: an optional leading plus sign is dropped.
pub open spec fn chunk_digits(s: Seq<char>) -> Seq<char> {
    if s.len() > 0 && s[0] == '+' {
        s.drop_first()
    } else {
        s
    }
}

/// The numeric value of one dot-separated chunk: defined exactly for an
/// optional leading plus sign followed by a non-empty run of digits whose
/// value fits in a `u32`.
pub open spec fn chunk_value(s: Seq<char>) -> Option<u32> {
    let ds = chunk_digits(s);
    if ds.len() > 0 && all_digits(ds) && digits_val(ds) <= u32::MAX {
        Some(digits_val(ds) as u32)
    } else {
        None
    }
}

/// The dot-separated chunks of `s`, continuing the partial chunk `cur`:
/// every dot ends a chunk, so `n` dots give `n + 1` chunks, empty ones
/// included.
pub open spec fn spec_chunks(s: Seq<char>, cur: Seq<char>) -> Seq<Seq<char>>
    decreases s.len(),
{
    if s.len() == 0 {
        seq![cur]
    } else if s[0] == '.' {
        seq![cur] + spec_chunks(s.drop_first(), Seq::empty())
    } else {
        spec_chunks(s.drop_first(), cur.push(s[0]))
    }
}

/// The values of the chunks that parse, in order; chunks that do not parse
/// are dropped.
pub open spec fn chunk_values(chunks: Seq<Seq<char>>) -> Seq<u32>
    decreases chunks.len(),
{
    if chunks.len() == 0 {
        Seq::empty()
    } else {
        match chunk_value(chunks[0]) {
            Some(v) => seq![v] + chunk_values(chunks.drop_first()),
            None => chunk_values(chunks.drop_first()),
        }
    }
}

/// The numeric components of a dotted version string.
pub open spec fn spec_parse_version(s: Seq<char>) -> Seq<u32> {
    chunk_values(spec_chunks(s, Seq::empty()))
}

/// A digit appended on the right never shrinks the written number.
proof fn lemma_digits_val_take_le(s: Seq<char>, i: int)
    requires
        0 <= i <= s.len(),
    ensures
        digits_val(s.take(i)) <= digits_val(s),
    decreases s.len() - i,
{
    if i == s.len() {
        assert(s.take(i) =~= s);
    } else {
        assert(s.take(i + 1).drop_last() =~= s.take(i));
        assert(s.take(i + 1).last() == s[i]);
        assert(digits_val(s.take(i + 1)) == digits_val(s.take(i)) * 10 + digit_val(s[i]));
        lemma_digits_val_take_le(s, i + 1);
    }
}

/// The numeric value of one chunk, as [`chunk_value`] defines it.
fn chunk_to_value(s: &Vec<char>) -> (r: Option<u32>)
    ensures
        r == chunk_value(s@),
{
    let n = s.len();
    let start: usize = if n > 0 && s[0] == '+' {
        1
    } else {
        0
    };
    let ghost ds = chunk_digits(s@);
    proof {
        assert(ds =~= s@.skip(start as int));
    }
    if n == start {
        return None;
    }
    let mut val: u64 = 0;
    let mut i: usize = start;
    while i < n
        invariant
            n == s@.len(),
            start <= i <= n,
            ds == chunk_digits(s@),
            ds == s@.skip(start as int),
            all_digits(ds.take(i - start)),
            val == digits_val(ds.take(i - start)),
            val <= u32::MAX,
        decreases n - i,
    {
        let c = s[i];
        proof {
            assert(ds[i - start] == s@[i as int]);
        }
        if !('0' <= c && c <= '9') {
            assert(!is_digit(ds[i - start]));
            return None;
        }
        let d: u64 = (c as u8 - 48) as u64;
        proof {
            assert(d == digit_val(ds[i - start]));
        }
        val = val * 10 + d;
        proof {
            assert(ds.take(i - start + 1).drop_last() =~= ds.take(i - start));
            assert(ds.take(i - start + 1).last() == ds[i - start]);
            assert(val == digits_val(ds.take(i - start + 1)));
            assert(all_digits(ds.take(i - start + 1)));
        }
        if val > 0xffff_ffff {
            proof {
                lemma_digits_val_take_le(ds, i - start + 1);
                assert(digits_val(ds) > u32::MAX);
            }
            return None;
        }
        i = i + 1;
    }
    proof {
        assert(ds.take(n - start) =~= ds);
    }
    Some(val as u32)
}

/// Splits a version string on dots and keeps the numeric value of every
/// chunk that is an optional leading plus sign followed by decimal digits
/// whose value fits in a `u32`; other chunks are dropped.
pub fn parse_version(version: &str) -> (r: Vec<u32>)
    ensures
        r@ == spec_parse_version(version@),
{
    let ghost vv = version@;
    let len = version.unicode_len();
    let mut out: Vec<u32> = Vec::new();
    let mut cur: Vec<char> = Vec::new();
    let mut i: usize = 0;
    proof {
        assert(vv.skip(0) =~= vv);
        assert(out@ + chunk_values(spec_chunks(vv, Seq::empty())) =~= chunk_values(
            spec_chunks(vv, Seq::empty()),
        ));
    }
    while i < len
        invariant
            len == vv.len(),
            vv == version@,
            i <= len,
            spec_parse_version(vv) == out@ + chunk_values(
                spec_chunks(vv.skip(i as int), cur@),
            ),
        decreases len - i,
    {
        let ghost pre_out = out@;
        let ghost pre_cur = cur@;
        let c = version.get_char(i);
        proof {
            assert(vv.skip(i as int)[0] == vv[i as int]);
            assert(vv.skip(i as int).drop_first() =~= vv.skip(i as int + 1));
        }
        if c == '.' {
            match chunk_to_value(&cur) {
                Some(v) => {
                    out.push(v);
                },
                None => {},
            }
            cur = Vec::new();
            proof {
                let rest = spec_chunks(vv.skip(i as int + 1), Seq::empty());
                assert(spec_chunks(vv.skip(i as int), pre_cur) == seq![pre_cur] + rest);
                assert((seq![pre_cur] + rest)[0] == pre_cur);
                assert((seq![pre_cur] + rest).drop_first() =~= rest);
                assert(cur@ =~= Seq::<char>::empty());
                match chunk_value(pre_cur) {
                    Some(v) => {
                        assert(chunk_values(seq![pre_cur] + rest) == seq![v] + chunk_values(
                            rest,
                        ));
                        assert(pre_out + (seq![v] + chunk_values(rest)) =~= out@ + chunk_values(
                            rest,
                        ));
                    },
                    None => {
                        assert(chunk_values(seq![pre_cur] + rest) == chunk_values(rest));
                    },
                }
            }
        } else {
            cur.push(c);
            proof {
                assert(cur@ == pre_cur.push(vv[i as int]));
                assert(spec_chunks(vv.skip(i as int), pre_cur) == spec_chunks(
                    vv.skip(i as int + 1),
                    cur@,
                ));
            }
        }
        i = i + 1;
    }
    proof {
        assert(vv.skip(len as int) =~= Seq::<char>::empty());
        assert(spec_chunks(Seq::<char>::empty(), cur@) == seq![cur@]);
        assert(seq![cur@][0] == cur@);
        assert(seq![cur@].drop_first() =~= Seq::<Seq<char>>::empty());
    }
    match chunk_to_value(&cur) {
        Some(v) => {
            let ghost pre_out = out@;
            out.push(v);
            proof {
                assert(chunk_values(seq![cur@]) == seq![v] + chunk_values(
                    Seq::<Seq<char>>::empty(),
                ));
                assert(seq![v] + chunk_values(Seq::<Seq<char>>::empty()) =~= seq![v]);
                assert(pre_out + seq![v] =~= out@);
            }
        },
        None => {
            proof {
                assert(chunk_values(Seq::<Seq<char>>::empty()) == Seq::<u32>::empty());
                assert(chunk_values(seq![cur@]) =~= Seq::<u32>::empty());
                assert(out@ + Seq::<u32>::empty() =~= out@);
            }
        },
    }
    out
}

} // verus!
