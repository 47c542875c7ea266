//! Affected-row counts from command tags.
//!
//! A `CommandComplete` message carries a tag such as `"UPDATE 3"` or
//! `"SELECT"`. The affected-row count is the trailing space-delimited token
//! parsed as an unsigned integer, defaulting to zero when that token is
//! absent or not a number.

use vstd::prelude::*;

use crate::wire::{all_dec_digits, dec_value, is_dec_digit};

verus! {

/// The index of the last space in `tag`, or `-1` if there is none.
pub open spec fn last_space(tag: Seq<u8>) -> int
    decreases tag.len(),
{
    if tag.len() == 0 {
        -1
    } else if tag.last() == 32 {
        tag.len() - 1
    } else {
        last_space(tag.drop_last())
    }
}

/// The trailing space-delimited token of `tag` (the whole tag when it holds
/// no space).
pub open spec fn last_token(tag: Seq<u8>) -> Seq<u8> {
    tag.subrange(last_space(tag) + 1, tag.len() as int)
}

/// The token with one leading `'+'` sign stripped, mirroring how an unsigned
/// decimal parser accepts an optional plus.
pub open spec fn unsigned_digits(t: Seq<u8>) -> Seq<u8> {
    if t.len() > 0 && t[0] == 43 {
        t.drop_first()
    } else {
        t
    }
}

/// The affected-row count encoded in a command tag: the value of its
/// trailing token, or zero when that token is empty, not a decimal number,
/// or too large for 64 bits.
pub open spec fn tag_rows(tag: Seq<u8>) -> u64 {
    let t = unsigned_digits(last_token(tag));
    if t.len() > 0 && all_dec_digits(t) && dec_value(t) <= u64::MAX {
        dec_value(t) as u64
    } else {
        0
    }
}

/// `last_space` really is the last space: the byte there is a space (when
/// there is one) and no later byte is.
proof fn lemma_last_space_character(s: Seq<u8>)
    ensures
        -1 <= last_space(s) < s.len(),
        last_space(s) >= 0 ==> s[last_space(s)] == 32,
        forall|j: int| last_space(s) < j < s.len() ==> s[j] != 32,
    decreases s.len(),
{
    if s.len() > 0 && s.last() != 32 {
        lemma_last_space_character(s.drop_last());
        assert forall|j: int| last_space(s) < j < s.len() implies s[j] != 32 by {
            if j < s.len() - 1 {
                assert(s[j] == s.drop_last()[j]);
            }
        }
    }
}

/// A value of a digit string never shrinks as the string grows.
proof fn lemma_dec_value_monotone(s: Seq<u8>, i: int)
    requires
        0 <= i <= s.len(),
        all_dec_digits(s),
    ensures
        dec_value(s.take(i)) <= dec_value(s),
    decreases s.len() - i,
{
    if i < s.len() {
        assert(s.take(i + 1).drop_last() =~= s.take(i));
        assert(s.take(i + 1).last() == s[i]);
        assert(dec_value(s.take(i + 1)) == dec_value(s.take(i)) * 10 + (s[i] - 48));
        assert(dec_value(s.take(i)) <= dec_value(s.take(i)) * 10);
        lemma_dec_value_monotone(s, i + 1);
    } else {
        assert(s.take(i) =~= s);
    }
}

/// Parses a non-empty all-digit byte string as a 64-bit unsigned integer,
/// returning `None` when it is empty, holds a non-digit, or overflows.
fn digits_value(t: &Vec<u8>) -> (r: Option<u64>)
    ensures
        r is Some <==> (t@.len() > 0 && all_dec_digits(t@) && dec_value(t@) <= u64::MAX),
        r is Some ==> r->0 == dec_value(t@),
{
    if t.len() == 0 {
        return None;
    }
    let mut acc: u64 = 0;
    let mut i: usize = 0;
    while i < t.len()
        invariant
            0 <= i <= t@.len(),
            all_dec_digits(t@.take(i as int)),
            acc == dec_value(t@.take(i as int)),
        decreases t@.len() - i,
    {
        let b = t[i];
        if b < 48 || b > 57 {
            assert(!all_dec_digits(t@)) by {
                assert(!is_dec_digit(t@[i as int]));
            }
            return None;
        }
        let d: u64 = (b - 48) as u64;
        proof {
            assert(t@.take(i as int + 1).drop_last() =~= t@.take(i as int));
            assert(t@.take(i as int + 1).last() == t@[i as int]);
        }
        if acc > (u64::MAX - d) / 10 {
            proof {
                assert(acc * 10 + d > u64::MAX) by (nonlinear_arith)
                    requires
                        acc > (u64::MAX - d) / 10,
                        d <= 9,
                ;
                assert(dec_value(t@.take(i as int + 1)) == acc * 10 + d);
                if all_dec_digits(t@) {
                    lemma_dec_value_monotone(t@, i as int + 1);
                }
            }
            return None;
        }
        proof {
            assert(acc * 10 + d <= u64::MAX) by (nonlinear_arith)
                requires
                    acc <= (u64::MAX - d) / 10,
                    d <= 9,
            ;
        }
        acc = acc * 10 + d;
        i = i + 1;
    }
    proof {
        assert(t@.take(i as int) =~= t@);
    }
    Some(acc)
}

/// Extracts the affected-row count from a `CommandComplete` tag: the
/// trailing space-delimited token parsed as an unsigned integer, or zero
/// when it is absent or unparsable, so that `"UPDATE 3"` yields 3 and
/// `"SELECT"` yields 0.
pub fn extract_row_affected(tag: &Vec<u8>) -> (r: u64)
    ensures
        r == tag_rows(tag@),
{
    let mut k: usize = tag.len();
    while k > 0 && tag[k - 1] != 32
        invariant
            0 <= k <= tag@.len(),
            forall|j: int| k <= j < tag@.len() ==> tag@[j] != 32,
        decreases k,
    {
        k = k - 1;
    }
    proof {
        lemma_last_space_character(tag@);
        if k > 0 {
            assert(tag@[k as int - 1] == 32);
            // no space after k-1 and a space at k-1 pins the last space there
            if last_space(tag@) > k as int - 1 {
                assert(tag@[last_space(tag@)] != 32);
            }
            if last_space(tag@) < k as int - 1 {
                assert(tag@[k as int - 1] != 32);
            }
            assert(last_space(tag@) == k as int - 1);
        } else {
            if last_space(tag@) >= 0 {
                assert(tag@[last_space(tag@)] != 32);
            }
            assert(last_space(tag@) == -1);
        }
    }
    // copy the trailing token, skipping one leading '+' if present
    let mut start: usize = k;
    if start < tag.len() && tag[start] == 43 {
        start = start + 1;
    }
    let mut token: Vec<u8> = Vec::new();
    let mut j: usize = start;
    while j < tag.len()
        invariant
            start <= j <= tag@.len(),
            token@ =~= tag@.subrange(start as int, j as int),
        decreases tag@.len() - j,
    {
        token.push(tag[j]);
        j = j + 1;
    }
    proof {
        assert(last_token(tag@) =~= tag@.subrange(k as int, tag@.len() as int));
        if (k as int) < tag@.len() && tag@[k as int] == 43 {
            assert(unsigned_digits(last_token(tag@)) =~= tag@.subrange(
                k as int + 1,
                tag@.len() as int,
            ));
        } else {
            assert(unsigned_digits(last_token(tag@)) =~= last_token(tag@));
        }
        assert(token@ =~= unsigned_digits(last_token(tag@)));
    }
    match digits_value(&token) {
        Some(v) => v,
        None => 0,
    }
}

} // verus!
