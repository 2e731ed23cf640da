//! What numerals and conversions promise, told by the numbers that they stand for.
use crate::bits::{
    low_signed_32, low_unsigned_32, to_low_signed_32, to_low_unsigned_32, to_unsigned_32,
    unsigned_32,
};
use crate::ids::completion_id_of;
use crate::text::{decimal, digit, joined, signed_decimal};
use vstd::prelude::*;

verus! {

/// The number that a row of digits reads as.
pub open spec fn reads_as(s: Seq<char>) -> int
    decreases s.len(),
{
    if s.len() == 0 {
        0
    } else {
        10 * reads_as(s.drop_last()) + (s.last() as int - '0' as int)
    }
}

/// `s` is how `n` is written: digits only, without a leading zero unless it is the one digit, and
/// behind a `-` where `n` is negative.
pub open spec fn is_numeral(s: Seq<char>, n: int) -> bool {
    if n < 0 {
        s.len() > 0 && s[0] == '-' && is_unsigned_numeral(s.skip(1), -n)
    } else {
        is_unsigned_numeral(s, n)
    }
}

/// `s` is how `n` is written without a sign.
pub open spec fn is_unsigned_numeral(s: Seq<char>, n: int) -> bool {
    &&& s.len() > 0
    &&& forall|i: int| 0 <= i < s.len() ==> '0' <= #[trigger] s[i] <= '9'
    &&& s.len() > 1 ==> s[0] != '0'
    &&& reads_as(s) == n
}

/// A decimal numeral reads back as its number.
pub proof fn numerals_read_back(n: nat)
    ensures
        is_unsigned_numeral(decimal(n), n as int),
    decreases n,
{
    if n >= 10 {
        numerals_read_back(n / 10);
        let s = decimal(n);
        assert(s.drop_last() =~= decimal(n / 10));
        assert(s.last() == digit(n % 10));
        assert(s[0] == decimal(n / 10)[0]);
        if decimal(n / 10).len() == 1 {
            reveal_with_fuel(reads_as, 2);
        }
    } else {
        reveal_with_fuel(reads_as, 2);
        assert(decimal(n).drop_last() =~= Seq::empty());
    }
}

/// A signed decimal numeral reads back as its number.
pub proof fn signed_numerals_read_back(n: int)
    ensures
        is_numeral(signed_decimal(n), n),
{
    reveal_strlit("-");
    if n < 0 {
        numerals_read_back((-n) as nat);
        assert(signed_decimal(n).skip(1) =~= decimal((-n) as nat));
    } else {
        numerals_read_back(n as nat);
    }
}

/// A conversion to 32 bits keeps the number up to a multiple of two to the power of 32.
pub proof fn conversions_keep_the_low_bits(
    signed: i32,
    wide: u64,
    size: usize,
    read_unsigned: u32,
    low_signed: i32,
    low_unsigned: u32,
)
    requires
        call_ensures(to_unsigned_32, (signed,), read_unsigned),
        call_ensures(to_low_signed_32, (wide,), low_signed),
        call_ensures(to_low_unsigned_32, (size,), low_unsigned),
    ensures
        (read_unsigned - signed) % 0x1_0000_0000 == 0,
        (wide - low_signed) % 0x1_0000_0000 == 0,
        (size - low_unsigned) % 0x1_0000_0000 == 0,
        read_unsigned == unsigned_32(signed),
        low_signed == low_signed_32(wide),
        low_unsigned == low_unsigned_32(size),
{
}

/// The same of the numbers that contracts speak of, which also lie in the range of their types.
pub proof fn low_bits_are_congruent(signed: i32, wide: u64, size: usize)
    ensures
        (unsigned_32(signed) - signed) % 0x1_0000_0000 == 0,
        0 <= unsigned_32(signed) <= u32::MAX,
        (low_signed_32(wide) - wide) % 0x1_0000_0000 == 0,
        i32::MIN <= low_signed_32(wide) <= i32::MAX,
        (low_unsigned_32(size) - size) % 0x1_0000_0000 == 0,
        0 <= low_unsigned_32(size) <= u32::MAX,
{
}

/// Joined texts are split again where the first ends.
pub proof fn joined_texts_split_again(left: &str, right: &str, text: String)
    requires
        call_ensures(joined, (left, right), text),
    ensures
        text@.len() == left@.len() + right@.len(),
        text@.take(left@.len() as int) == left@,
        text@.skip(left@.len() as int) == right@,
{
    assert(text@ == left@ + right@);
}

/// The identifier of a completion ends with its UUID, whole, behind `chatcmpl-`.
pub proof fn completion_ids_hold_their_uuid(uuid: &str, id: String)
    requires
        call_ensures(completion_id_of, (uuid,), id),
    ensures
        id@.len() == uuid@.len() + 9,
        id@.skip(9) == uuid@,
        id@.take(9) == "chatcmpl-"@,
{
    reveal_strlit("chatcmpl-");
    assert(id@ == "chatcmpl-"@ + uuid@);
}

} // verus!
